//! Version 3 of the schema.

use vstd::prelude::*;
use vstd::string::StringExecFns;
use crate::errors::ButtplugMessageError;
use crate::message::{
    ButtplugMessage, ButtplugMessageFinalizer, ButtplugMessageValidator, ButtplugClientMessageType,
    ButtplugServerMessageType,
};
use crate::message::{
    DeviceAddedV3, DeviceListV3, DeviceRemoved, Error, LinearCmd, OkV0, Ping, RawReadCmd,
    RawReading, RawSubscribeCmd, RawUnsubscribeCmd, RawWriteCmd, RequestDeviceList,
    RequestServerInfo, RotateCmd, ScalarCmd, ScanningFinished, SensorReadCmd, SensorReading,
    SensorSubscribeCmd, SensorUnsubscribeCmd, ServerInfo, StartScanning, StopAllDevices,
    StopDeviceCmd, StopScanning, VibrateCmd,
};
use crate::message::client_message::{ButtplugClientMessage, is_version_error};
use crate::text::debug_text;
use crate::message::server_message::ButtplugServerMessage;

verus! {

/// The messages that a client of version 3 can send.
#[derive(Debug, Clone, PartialEq)]
pub enum ButtplugSpecV3ClientMessage {
    RequestServerInfo(RequestServerInfo),
    Ping(Ping),
    StartScanning(StartScanning),
    StopScanning(StopScanning),
    RequestDeviceList(RequestDeviceList),
    StopAllDevices(StopAllDevices),
    VibrateCmd(VibrateCmd),
    LinearCmd(LinearCmd),
    RotateCmd(RotateCmd),
    RawWriteCmd(RawWriteCmd),
    RawReadCmd(RawReadCmd),
    StopDeviceCmd(StopDeviceCmd),
    RawSubscribeCmd(RawSubscribeCmd),
    RawUnsubscribeCmd(RawUnsubscribeCmd),
    ScalarCmd(ScalarCmd),
    SensorReadCmd(SensorReadCmd),
    SensorSubscribeCmd(SensorSubscribeCmd),
    SensorUnsubscribeCmd(SensorUnsubscribeCmd),
}

impl ButtplugSpecV3ClientMessage {
    /// Whether `self` is `before` with its id replaced by `id`.
    pub open spec fn with_id_of(self, before: ButtplugSpecV3ClientMessage, id: u32) -> bool {
        match before {
            ButtplugSpecV3ClientMessage::RequestServerInfo(msg) => {
                self == ButtplugSpecV3ClientMessage::RequestServerInfo(
                    RequestServerInfo { id, ..msg },
                )
            },
            ButtplugSpecV3ClientMessage::Ping(msg) => {
                self == ButtplugSpecV3ClientMessage::Ping(Ping { id, ..msg })
            },
            ButtplugSpecV3ClientMessage::StartScanning(msg) => {
                self == ButtplugSpecV3ClientMessage::StartScanning(StartScanning { id, ..msg })
            },
            ButtplugSpecV3ClientMessage::StopScanning(msg) => {
                self == ButtplugSpecV3ClientMessage::StopScanning(StopScanning { id, ..msg })
            },
            ButtplugSpecV3ClientMessage::RequestDeviceList(msg) => {
                self == ButtplugSpecV3ClientMessage::RequestDeviceList(
                    RequestDeviceList { id, ..msg },
                )
            },
            ButtplugSpecV3ClientMessage::StopAllDevices(msg) => {
                self == ButtplugSpecV3ClientMessage::StopAllDevices(StopAllDevices { id, ..msg })
            },
            ButtplugSpecV3ClientMessage::VibrateCmd(msg) => {
                self == ButtplugSpecV3ClientMessage::VibrateCmd(VibrateCmd { id, ..msg })
            },
            ButtplugSpecV3ClientMessage::LinearCmd(msg) => {
                self == ButtplugSpecV3ClientMessage::LinearCmd(LinearCmd { id, ..msg })
            },
            ButtplugSpecV3ClientMessage::RotateCmd(msg) => {
                self == ButtplugSpecV3ClientMessage::RotateCmd(RotateCmd { id, ..msg })
            },
            ButtplugSpecV3ClientMessage::RawWriteCmd(msg) => {
                self == ButtplugSpecV3ClientMessage::RawWriteCmd(RawWriteCmd { id, ..msg })
            },
            ButtplugSpecV3ClientMessage::RawReadCmd(msg) => {
                self == ButtplugSpecV3ClientMessage::RawReadCmd(RawReadCmd { id, ..msg })
            },
            ButtplugSpecV3ClientMessage::StopDeviceCmd(msg) => {
                self == ButtplugSpecV3ClientMessage::StopDeviceCmd(StopDeviceCmd { id, ..msg })
            },
            ButtplugSpecV3ClientMessage::RawSubscribeCmd(msg) => {
                self == ButtplugSpecV3ClientMessage::RawSubscribeCmd(RawSubscribeCmd { id, ..msg })
            },
            ButtplugSpecV3ClientMessage::RawUnsubscribeCmd(msg) => {
                self == ButtplugSpecV3ClientMessage::RawUnsubscribeCmd(
                    RawUnsubscribeCmd { id, ..msg },
                )
            },
            ButtplugSpecV3ClientMessage::ScalarCmd(msg) => {
                self == ButtplugSpecV3ClientMessage::ScalarCmd(ScalarCmd { id, ..msg })
            },
            ButtplugSpecV3ClientMessage::SensorReadCmd(msg) => {
                self == ButtplugSpecV3ClientMessage::SensorReadCmd(SensorReadCmd { id, ..msg })
            },
            ButtplugSpecV3ClientMessage::SensorSubscribeCmd(msg) => {
                self == ButtplugSpecV3ClientMessage::SensorSubscribeCmd(
                    SensorSubscribeCmd { id, ..msg },
                )
            },
            ButtplugSpecV3ClientMessage::SensorUnsubscribeCmd(msg) => {
                self == ButtplugSpecV3ClientMessage::SensorUnsubscribeCmd(
                    SensorUnsubscribeCmd { id, ..msg },
                )
            },
        }
    }
}

impl ButtplugMessageFinalizer for ButtplugSpecV3ClientMessage {
    fn finalize(&mut self)
        ensures
            *final(self) == *old(self),
    {
    }
}

impl ButtplugMessageValidator for ButtplugSpecV3ClientMessage {
    open spec fn valid(&self) -> bool {
        match self {
            ButtplugSpecV3ClientMessage::RequestServerInfo(msg) => msg.valid(),
            ButtplugSpecV3ClientMessage::Ping(msg) => msg.valid(),
            ButtplugSpecV3ClientMessage::StartScanning(msg) => msg.valid(),
            ButtplugSpecV3ClientMessage::StopScanning(msg) => msg.valid(),
            ButtplugSpecV3ClientMessage::RequestDeviceList(msg) => msg.valid(),
            ButtplugSpecV3ClientMessage::StopAllDevices(msg) => msg.valid(),
            ButtplugSpecV3ClientMessage::VibrateCmd(msg) => msg.valid(),
            ButtplugSpecV3ClientMessage::LinearCmd(msg) => msg.valid(),
            ButtplugSpecV3ClientMessage::RotateCmd(msg) => msg.valid(),
            ButtplugSpecV3ClientMessage::RawWriteCmd(msg) => msg.valid(),
            ButtplugSpecV3ClientMessage::RawReadCmd(msg) => msg.valid(),
            ButtplugSpecV3ClientMessage::StopDeviceCmd(msg) => msg.valid(),
            ButtplugSpecV3ClientMessage::RawSubscribeCmd(msg) => msg.valid(),
            ButtplugSpecV3ClientMessage::RawUnsubscribeCmd(msg) => msg.valid(),
            ButtplugSpecV3ClientMessage::ScalarCmd(msg) => msg.valid(),
            ButtplugSpecV3ClientMessage::SensorReadCmd(msg) => msg.valid(),
            ButtplugSpecV3ClientMessage::SensorSubscribeCmd(msg) => msg.valid(),
            ButtplugSpecV3ClientMessage::SensorUnsubscribeCmd(msg) => msg.valid(),
        }
    }

    open spec fn rejection(&self) -> Seq<char> {
        match self {
            ButtplugSpecV3ClientMessage::RequestServerInfo(msg) => msg.rejection(),
            ButtplugSpecV3ClientMessage::Ping(msg) => msg.rejection(),
            ButtplugSpecV3ClientMessage::StartScanning(msg) => msg.rejection(),
            ButtplugSpecV3ClientMessage::StopScanning(msg) => msg.rejection(),
            ButtplugSpecV3ClientMessage::RequestDeviceList(msg) => msg.rejection(),
            ButtplugSpecV3ClientMessage::StopAllDevices(msg) => msg.rejection(),
            ButtplugSpecV3ClientMessage::VibrateCmd(msg) => msg.rejection(),
            ButtplugSpecV3ClientMessage::LinearCmd(msg) => msg.rejection(),
            ButtplugSpecV3ClientMessage::RotateCmd(msg) => msg.rejection(),
            ButtplugSpecV3ClientMessage::RawWriteCmd(msg) => msg.rejection(),
            ButtplugSpecV3ClientMessage::RawReadCmd(msg) => msg.rejection(),
            ButtplugSpecV3ClientMessage::StopDeviceCmd(msg) => msg.rejection(),
            ButtplugSpecV3ClientMessage::RawSubscribeCmd(msg) => msg.rejection(),
            ButtplugSpecV3ClientMessage::RawUnsubscribeCmd(msg) => msg.rejection(),
            ButtplugSpecV3ClientMessage::ScalarCmd(msg) => msg.rejection(),
            ButtplugSpecV3ClientMessage::SensorReadCmd(msg) => msg.rejection(),
            ButtplugSpecV3ClientMessage::SensorSubscribeCmd(msg) => msg.rejection(),
            ButtplugSpecV3ClientMessage::SensorUnsubscribeCmd(msg) => msg.rejection(),
        }
    }

    fn is_valid(&self) -> (r: Result<(), ButtplugMessageError>) {
        match self {
            ButtplugSpecV3ClientMessage::RequestServerInfo(msg) => msg.is_valid(),
            ButtplugSpecV3ClientMessage::Ping(msg) => msg.is_valid(),
            ButtplugSpecV3ClientMessage::StartScanning(msg) => msg.is_valid(),
            ButtplugSpecV3ClientMessage::StopScanning(msg) => msg.is_valid(),
            ButtplugSpecV3ClientMessage::RequestDeviceList(msg) => msg.is_valid(),
            ButtplugSpecV3ClientMessage::StopAllDevices(msg) => msg.is_valid(),
            ButtplugSpecV3ClientMessage::VibrateCmd(msg) => msg.is_valid(),
            ButtplugSpecV3ClientMessage::LinearCmd(msg) => msg.is_valid(),
            ButtplugSpecV3ClientMessage::RotateCmd(msg) => msg.is_valid(),
            ButtplugSpecV3ClientMessage::RawWriteCmd(msg) => msg.is_valid(),
            ButtplugSpecV3ClientMessage::RawReadCmd(msg) => msg.is_valid(),
            ButtplugSpecV3ClientMessage::StopDeviceCmd(msg) => msg.is_valid(),
            ButtplugSpecV3ClientMessage::RawSubscribeCmd(msg) => msg.is_valid(),
            ButtplugSpecV3ClientMessage::RawUnsubscribeCmd(msg) => msg.is_valid(),
            ButtplugSpecV3ClientMessage::ScalarCmd(msg) => msg.is_valid(),
            ButtplugSpecV3ClientMessage::SensorReadCmd(msg) => msg.is_valid(),
            ButtplugSpecV3ClientMessage::SensorSubscribeCmd(msg) => msg.is_valid(),
            ButtplugSpecV3ClientMessage::SensorUnsubscribeCmd(msg) => msg.is_valid(),
        }
    }
}

impl ButtplugMessage for ButtplugSpecV3ClientMessage {
    open spec fn message_id(&self) -> u32 {
        match self {
            ButtplugSpecV3ClientMessage::RequestServerInfo(msg) => msg.message_id(),
            ButtplugSpecV3ClientMessage::Ping(msg) => msg.message_id(),
            ButtplugSpecV3ClientMessage::StartScanning(msg) => msg.message_id(),
            ButtplugSpecV3ClientMessage::StopScanning(msg) => msg.message_id(),
            ButtplugSpecV3ClientMessage::RequestDeviceList(msg) => msg.message_id(),
            ButtplugSpecV3ClientMessage::StopAllDevices(msg) => msg.message_id(),
            ButtplugSpecV3ClientMessage::VibrateCmd(msg) => msg.message_id(),
            ButtplugSpecV3ClientMessage::LinearCmd(msg) => msg.message_id(),
            ButtplugSpecV3ClientMessage::RotateCmd(msg) => msg.message_id(),
            ButtplugSpecV3ClientMessage::RawWriteCmd(msg) => msg.message_id(),
            ButtplugSpecV3ClientMessage::RawReadCmd(msg) => msg.message_id(),
            ButtplugSpecV3ClientMessage::StopDeviceCmd(msg) => msg.message_id(),
            ButtplugSpecV3ClientMessage::RawSubscribeCmd(msg) => msg.message_id(),
            ButtplugSpecV3ClientMessage::RawUnsubscribeCmd(msg) => msg.message_id(),
            ButtplugSpecV3ClientMessage::ScalarCmd(msg) => msg.message_id(),
            ButtplugSpecV3ClientMessage::SensorReadCmd(msg) => msg.message_id(),
            ButtplugSpecV3ClientMessage::SensorSubscribeCmd(msg) => msg.message_id(),
            ButtplugSpecV3ClientMessage::SensorUnsubscribeCmd(msg) => msg.message_id(),
        }
    }

    fn id(&self) -> (r: u32) {
        match self {
            ButtplugSpecV3ClientMessage::RequestServerInfo(msg) => msg.id(),
            ButtplugSpecV3ClientMessage::Ping(msg) => msg.id(),
            ButtplugSpecV3ClientMessage::StartScanning(msg) => msg.id(),
            ButtplugSpecV3ClientMessage::StopScanning(msg) => msg.id(),
            ButtplugSpecV3ClientMessage::RequestDeviceList(msg) => msg.id(),
            ButtplugSpecV3ClientMessage::StopAllDevices(msg) => msg.id(),
            ButtplugSpecV3ClientMessage::VibrateCmd(msg) => msg.id(),
            ButtplugSpecV3ClientMessage::LinearCmd(msg) => msg.id(),
            ButtplugSpecV3ClientMessage::RotateCmd(msg) => msg.id(),
            ButtplugSpecV3ClientMessage::RawWriteCmd(msg) => msg.id(),
            ButtplugSpecV3ClientMessage::RawReadCmd(msg) => msg.id(),
            ButtplugSpecV3ClientMessage::StopDeviceCmd(msg) => msg.id(),
            ButtplugSpecV3ClientMessage::RawSubscribeCmd(msg) => msg.id(),
            ButtplugSpecV3ClientMessage::RawUnsubscribeCmd(msg) => msg.id(),
            ButtplugSpecV3ClientMessage::ScalarCmd(msg) => msg.id(),
            ButtplugSpecV3ClientMessage::SensorReadCmd(msg) => msg.id(),
            ButtplugSpecV3ClientMessage::SensorSubscribeCmd(msg) => msg.id(),
            ButtplugSpecV3ClientMessage::SensorUnsubscribeCmd(msg) => msg.id(),
        }
    }

    fn set_id(&mut self, id: u32)
        ensures
            final(self).with_id_of(*old(self), id),
    {
        match self {
            ButtplugSpecV3ClientMessage::RequestServerInfo(msg) => msg.set_id(id),
            ButtplugSpecV3ClientMessage::Ping(msg) => msg.set_id(id),
            ButtplugSpecV3ClientMessage::StartScanning(msg) => msg.set_id(id),
            ButtplugSpecV3ClientMessage::StopScanning(msg) => msg.set_id(id),
            ButtplugSpecV3ClientMessage::RequestDeviceList(msg) => msg.set_id(id),
            ButtplugSpecV3ClientMessage::StopAllDevices(msg) => msg.set_id(id),
            ButtplugSpecV3ClientMessage::VibrateCmd(msg) => msg.set_id(id),
            ButtplugSpecV3ClientMessage::LinearCmd(msg) => msg.set_id(id),
            ButtplugSpecV3ClientMessage::RotateCmd(msg) => msg.set_id(id),
            ButtplugSpecV3ClientMessage::RawWriteCmd(msg) => msg.set_id(id),
            ButtplugSpecV3ClientMessage::RawReadCmd(msg) => msg.set_id(id),
            ButtplugSpecV3ClientMessage::StopDeviceCmd(msg) => msg.set_id(id),
            ButtplugSpecV3ClientMessage::RawSubscribeCmd(msg) => msg.set_id(id),
            ButtplugSpecV3ClientMessage::RawUnsubscribeCmd(msg) => msg.set_id(id),
            ButtplugSpecV3ClientMessage::ScalarCmd(msg) => msg.set_id(id),
            ButtplugSpecV3ClientMessage::SensorReadCmd(msg) => msg.set_id(id),
            ButtplugSpecV3ClientMessage::SensorSubscribeCmd(msg) => msg.set_id(id),
            ButtplugSpecV3ClientMessage::SensorUnsubscribeCmd(msg) => msg.set_id(id),
        }
    }
}

impl ButtplugClientMessageType for ButtplugSpecV3ClientMessage {

}

impl ButtplugSpecV3ClientMessage {
    /// The message as a message of this set, if the set has its type.
    pub open spec fn narrowed(msg: ButtplugClientMessage) -> Option<ButtplugSpecV3ClientMessage> {
        match msg {
            ButtplugClientMessage::RequestServerInfo(msg) => {
                Some(ButtplugSpecV3ClientMessage::RequestServerInfo(msg))
            },
            ButtplugClientMessage::Ping(msg) => Some(ButtplugSpecV3ClientMessage::Ping(msg)),
            ButtplugClientMessage::StartScanning(msg) => {
                Some(ButtplugSpecV3ClientMessage::StartScanning(msg))
            },
            ButtplugClientMessage::StopScanning(msg) => {
                Some(ButtplugSpecV3ClientMessage::StopScanning(msg))
            },
            ButtplugClientMessage::RequestDeviceList(msg) => {
                Some(ButtplugSpecV3ClientMessage::RequestDeviceList(msg))
            },
            ButtplugClientMessage::StopAllDevices(msg) => {
                Some(ButtplugSpecV3ClientMessage::StopAllDevices(msg))
            },
            ButtplugClientMessage::VibrateCmd(msg) => {
                Some(ButtplugSpecV3ClientMessage::VibrateCmd(msg))
            },
            ButtplugClientMessage::LinearCmd(msg) => {
                Some(ButtplugSpecV3ClientMessage::LinearCmd(msg))
            },
            ButtplugClientMessage::RotateCmd(msg) => {
                Some(ButtplugSpecV3ClientMessage::RotateCmd(msg))
            },
            ButtplugClientMessage::RawWriteCmd(msg) => {
                Some(ButtplugSpecV3ClientMessage::RawWriteCmd(msg))
            },
            ButtplugClientMessage::RawReadCmd(msg) => {
                Some(ButtplugSpecV3ClientMessage::RawReadCmd(msg))
            },
            ButtplugClientMessage::StopDeviceCmd(msg) => {
                Some(ButtplugSpecV3ClientMessage::StopDeviceCmd(msg))
            },
            ButtplugClientMessage::RawSubscribeCmd(msg) => {
                Some(ButtplugSpecV3ClientMessage::RawSubscribeCmd(msg))
            },
            ButtplugClientMessage::RawUnsubscribeCmd(msg) => {
                Some(ButtplugSpecV3ClientMessage::RawUnsubscribeCmd(msg))
            },
            ButtplugClientMessage::ScalarCmd(msg) => {
                Some(ButtplugSpecV3ClientMessage::ScalarCmd(msg))
            },
            ButtplugClientMessage::SensorReadCmd(msg) => {
                Some(ButtplugSpecV3ClientMessage::SensorReadCmd(msg))
            },
            ButtplugClientMessage::SensorSubscribeCmd(msg) => {
                Some(ButtplugSpecV3ClientMessage::SensorSubscribeCmd(msg))
            },
            ButtplugClientMessage::SensorUnsubscribeCmd(msg) => {
                Some(ButtplugSpecV3ClientMessage::SensorUnsubscribeCmd(msg))
            },
            _ => None,
        }
    }

    /// The message as a message of the uniform set.
    pub open spec fn widened(self) -> ButtplugClientMessage {
        match self {
            ButtplugSpecV3ClientMessage::RequestServerInfo(msg) => {
                ButtplugClientMessage::RequestServerInfo(msg)
            },
            ButtplugSpecV3ClientMessage::Ping(msg) => ButtplugClientMessage::Ping(msg),
            ButtplugSpecV3ClientMessage::StartScanning(msg) => {
                ButtplugClientMessage::StartScanning(msg)
            },
            ButtplugSpecV3ClientMessage::StopScanning(msg) => {
                ButtplugClientMessage::StopScanning(msg)
            },
            ButtplugSpecV3ClientMessage::RequestDeviceList(msg) => {
                ButtplugClientMessage::RequestDeviceList(msg)
            },
            ButtplugSpecV3ClientMessage::StopAllDevices(msg) => {
                ButtplugClientMessage::StopAllDevices(msg)
            },
            ButtplugSpecV3ClientMessage::VibrateCmd(msg) => ButtplugClientMessage::VibrateCmd(msg),
            ButtplugSpecV3ClientMessage::LinearCmd(msg) => ButtplugClientMessage::LinearCmd(msg),
            ButtplugSpecV3ClientMessage::RotateCmd(msg) => ButtplugClientMessage::RotateCmd(msg),
            ButtplugSpecV3ClientMessage::RawWriteCmd(msg) => {
                ButtplugClientMessage::RawWriteCmd(msg)
            },
            ButtplugSpecV3ClientMessage::RawReadCmd(msg) => ButtplugClientMessage::RawReadCmd(msg),
            ButtplugSpecV3ClientMessage::StopDeviceCmd(msg) => {
                ButtplugClientMessage::StopDeviceCmd(msg)
            },
            ButtplugSpecV3ClientMessage::RawSubscribeCmd(msg) => {
                ButtplugClientMessage::RawSubscribeCmd(msg)
            },
            ButtplugSpecV3ClientMessage::RawUnsubscribeCmd(msg) => {
                ButtplugClientMessage::RawUnsubscribeCmd(msg)
            },
            ButtplugSpecV3ClientMessage::ScalarCmd(msg) => ButtplugClientMessage::ScalarCmd(msg),
            ButtplugSpecV3ClientMessage::SensorReadCmd(msg) => {
                ButtplugClientMessage::SensorReadCmd(msg)
            },
            ButtplugSpecV3ClientMessage::SensorSubscribeCmd(msg) => {
                ButtplugClientMessage::SensorSubscribeCmd(msg)
            },
            ButtplugSpecV3ClientMessage::SensorUnsubscribeCmd(msg) => {
                ButtplugClientMessage::SensorUnsubscribeCmd(msg)
            },
        }
    }

    /// Takes a message of the uniform set into this set. Fails with a version
    /// error, which names both sets, on a message whose type this set lacks.
    pub fn try_from(
        msg: ButtplugClientMessage,
    ) -> (r: Result<ButtplugSpecV3ClientMessage, ButtplugMessageError>)
        ensures
            r matches Ok(m) ==> Some(m) == Self::narrowed(msg),
            r is Err <==> Self::narrowed(msg) is None,
            r matches Err(e) ==> is_version_error(
                e,
                "ButtplugClientMessage"@,
                "ButtplugSpecV3ClientMessage"@,
            ),
    {
        match msg {
            ButtplugClientMessage::RequestServerInfo(msg) => {
                Ok(ButtplugSpecV3ClientMessage::RequestServerInfo(msg))
            },
            ButtplugClientMessage::Ping(msg) => Ok(ButtplugSpecV3ClientMessage::Ping(msg)),
            ButtplugClientMessage::StartScanning(msg) => {
                Ok(ButtplugSpecV3ClientMessage::StartScanning(msg))
            },
            ButtplugClientMessage::StopScanning(msg) => {
                Ok(ButtplugSpecV3ClientMessage::StopScanning(msg))
            },
            ButtplugClientMessage::RequestDeviceList(msg) => {
                Ok(ButtplugSpecV3ClientMessage::RequestDeviceList(msg))
            },
            ButtplugClientMessage::StopAllDevices(msg) => {
                Ok(ButtplugSpecV3ClientMessage::StopAllDevices(msg))
            },
            ButtplugClientMessage::VibrateCmd(msg) => {
                Ok(ButtplugSpecV3ClientMessage::VibrateCmd(msg))
            },
            ButtplugClientMessage::LinearCmd(msg) => {
                Ok(ButtplugSpecV3ClientMessage::LinearCmd(msg))
            },
            ButtplugClientMessage::RotateCmd(msg) => {
                Ok(ButtplugSpecV3ClientMessage::RotateCmd(msg))
            },
            ButtplugClientMessage::RawWriteCmd(msg) => {
                Ok(ButtplugSpecV3ClientMessage::RawWriteCmd(msg))
            },
            ButtplugClientMessage::RawReadCmd(msg) => {
                Ok(ButtplugSpecV3ClientMessage::RawReadCmd(msg))
            },
            ButtplugClientMessage::StopDeviceCmd(msg) => {
                Ok(ButtplugSpecV3ClientMessage::StopDeviceCmd(msg))
            },
            ButtplugClientMessage::RawSubscribeCmd(msg) => {
                Ok(ButtplugSpecV3ClientMessage::RawSubscribeCmd(msg))
            },
            ButtplugClientMessage::RawUnsubscribeCmd(msg) => {
                Ok(ButtplugSpecV3ClientMessage::RawUnsubscribeCmd(msg))
            },
            ButtplugClientMessage::ScalarCmd(msg) => {
                Ok(ButtplugSpecV3ClientMessage::ScalarCmd(msg))
            },
            ButtplugClientMessage::SensorReadCmd(msg) => {
                Ok(ButtplugSpecV3ClientMessage::SensorReadCmd(msg))
            },
            ButtplugClientMessage::SensorSubscribeCmd(msg) => {
                Ok(ButtplugSpecV3ClientMessage::SensorSubscribeCmd(msg))
            },
            ButtplugClientMessage::SensorUnsubscribeCmd(msg) => {
                Ok(ButtplugSpecV3ClientMessage::SensorUnsubscribeCmd(msg))
            },
            other => Err(
                ButtplugMessageError::VersionError(
                    String::from_str("ButtplugClientMessage"),
                    debug_text(&other),
                    String::from_str("ButtplugSpecV3ClientMessage"),
                ),
            ),
        }
    }

    /// Takes a message of this set into the uniform set.
    pub fn widen(self) -> (r: ButtplugClientMessage)
        ensures
            r == self.widened(),
    {
        match self {
            ButtplugSpecV3ClientMessage::RequestServerInfo(msg) => {
                ButtplugClientMessage::RequestServerInfo(msg)
            },
            ButtplugSpecV3ClientMessage::Ping(msg) => ButtplugClientMessage::Ping(msg),
            ButtplugSpecV3ClientMessage::StartScanning(msg) => {
                ButtplugClientMessage::StartScanning(msg)
            },
            ButtplugSpecV3ClientMessage::StopScanning(msg) => {
                ButtplugClientMessage::StopScanning(msg)
            },
            ButtplugSpecV3ClientMessage::RequestDeviceList(msg) => {
                ButtplugClientMessage::RequestDeviceList(msg)
            },
            ButtplugSpecV3ClientMessage::StopAllDevices(msg) => {
                ButtplugClientMessage::StopAllDevices(msg)
            },
            ButtplugSpecV3ClientMessage::VibrateCmd(msg) => ButtplugClientMessage::VibrateCmd(msg),
            ButtplugSpecV3ClientMessage::LinearCmd(msg) => ButtplugClientMessage::LinearCmd(msg),
            ButtplugSpecV3ClientMessage::RotateCmd(msg) => ButtplugClientMessage::RotateCmd(msg),
            ButtplugSpecV3ClientMessage::RawWriteCmd(msg) => {
                ButtplugClientMessage::RawWriteCmd(msg)
            },
            ButtplugSpecV3ClientMessage::RawReadCmd(msg) => ButtplugClientMessage::RawReadCmd(msg),
            ButtplugSpecV3ClientMessage::StopDeviceCmd(msg) => {
                ButtplugClientMessage::StopDeviceCmd(msg)
            },
            ButtplugSpecV3ClientMessage::RawSubscribeCmd(msg) => {
                ButtplugClientMessage::RawSubscribeCmd(msg)
            },
            ButtplugSpecV3ClientMessage::RawUnsubscribeCmd(msg) => {
                ButtplugClientMessage::RawUnsubscribeCmd(msg)
            },
            ButtplugSpecV3ClientMessage::ScalarCmd(msg) => ButtplugClientMessage::ScalarCmd(msg),
            ButtplugSpecV3ClientMessage::SensorReadCmd(msg) => {
                ButtplugClientMessage::SensorReadCmd(msg)
            },
            ButtplugSpecV3ClientMessage::SensorSubscribeCmd(msg) => {
                ButtplugClientMessage::SensorSubscribeCmd(msg)
            },
            ButtplugSpecV3ClientMessage::SensorUnsubscribeCmd(msg) => {
                ButtplugClientMessage::SensorUnsubscribeCmd(msg)
            },
        }
    }

    /// Widening a message and taking it back gives the message again.
    pub proof fn lemma_widen_then_narrow(self)
        ensures
            Self::narrowed(self.widened()) == Some(self),
    {
    }
}

/// The messages that a server sends to a client of version 3.
#[derive(Debug, Clone, PartialEq)]
pub enum ButtplugSpecV3ServerMessage {
    OkV0(OkV0),
    Error(Error),
    ServerInfo(ServerInfo),
    DeviceList(DeviceListV3),
    DeviceAdded(DeviceAddedV3),
    DeviceRemoved(DeviceRemoved),
    ScanningFinished(ScanningFinished),
    RawReading(RawReading),
    SensorReading(SensorReading),
}

impl ButtplugSpecV3ServerMessage {
    /// Whether `self` is `before` with its id replaced by `id`.
    pub open spec fn with_id_of(self, before: ButtplugSpecV3ServerMessage, id: u32) -> bool {
        match before {
            ButtplugSpecV3ServerMessage::OkV0(msg) => {
                self == ButtplugSpecV3ServerMessage::OkV0(OkV0 { id, ..msg })
            },
            ButtplugSpecV3ServerMessage::Error(msg) => {
                self == ButtplugSpecV3ServerMessage::Error(Error { id, ..msg })
            },
            ButtplugSpecV3ServerMessage::ServerInfo(msg) => {
                self == ButtplugSpecV3ServerMessage::ServerInfo(ServerInfo { id, ..msg })
            },
            ButtplugSpecV3ServerMessage::DeviceList(msg) => {
                self == ButtplugSpecV3ServerMessage::DeviceList(DeviceListV3 { id, ..msg })
            },
            ButtplugSpecV3ServerMessage::DeviceAdded(msg) => {
                self == ButtplugSpecV3ServerMessage::DeviceAdded(DeviceAddedV3 { id, ..msg })
            },
            ButtplugSpecV3ServerMessage::DeviceRemoved(msg) => {
                self == ButtplugSpecV3ServerMessage::DeviceRemoved(DeviceRemoved { id, ..msg })
            },
            ButtplugSpecV3ServerMessage::ScanningFinished(msg) => {
                self == ButtplugSpecV3ServerMessage::ScanningFinished(
                    ScanningFinished { id, ..msg },
                )
            },
            ButtplugSpecV3ServerMessage::RawReading(msg) => {
                self == ButtplugSpecV3ServerMessage::RawReading(RawReading { id, ..msg })
            },
            ButtplugSpecV3ServerMessage::SensorReading(msg) => {
                self == ButtplugSpecV3ServerMessage::SensorReading(SensorReading { id, ..msg })
            },
        }
    }
}

impl ButtplugSpecV3ServerMessage {
    /// Whether `self` is `before` after it has been finalized: in a notice of
    /// a new device and in a list of devices the indices are derived, and
    /// every other message is as it was.
    pub open spec fn finalized_from(self, before: ButtplugSpecV3ServerMessage) -> bool {
        match before {
            ButtplugSpecV3ServerMessage::DeviceAdded(msg) => self matches ButtplugSpecV3ServerMessage::DeviceAdded(done) && done.id == msg.id
                && done.info().finalized_from(msg.info()),
            ButtplugSpecV3ServerMessage::DeviceList(msg) => {
                self matches ButtplugSpecV3ServerMessage::DeviceList(done)
                    && done.finalized_from(msg)
            },
            _ => self == before,
        }
    }
}

impl ButtplugMessageFinalizer for ButtplugSpecV3ServerMessage {
    fn finalize(&mut self)
        ensures
            final(self).finalized_from(*old(self)),
    {
        match self {
            ButtplugSpecV3ServerMessage::DeviceAdded(da) => da.finalize(),
            ButtplugSpecV3ServerMessage::DeviceList(dl) => dl.finalize(),
            _ => {},
        }
    }
}

impl ButtplugMessageValidator for ButtplugSpecV3ServerMessage {
    open spec fn valid(&self) -> bool {
        match self {
            ButtplugSpecV3ServerMessage::OkV0(msg) => msg.valid(),
            ButtplugSpecV3ServerMessage::Error(msg) => msg.valid(),
            ButtplugSpecV3ServerMessage::ServerInfo(msg) => msg.valid(),
            ButtplugSpecV3ServerMessage::DeviceList(msg) => msg.valid(),
            ButtplugSpecV3ServerMessage::DeviceAdded(msg) => msg.valid(),
            ButtplugSpecV3ServerMessage::DeviceRemoved(msg) => msg.valid(),
            ButtplugSpecV3ServerMessage::ScanningFinished(msg) => msg.valid(),
            ButtplugSpecV3ServerMessage::RawReading(msg) => msg.valid(),
            ButtplugSpecV3ServerMessage::SensorReading(msg) => msg.valid(),
        }
    }

    open spec fn rejection(&self) -> Seq<char> {
        match self {
            ButtplugSpecV3ServerMessage::OkV0(msg) => msg.rejection(),
            ButtplugSpecV3ServerMessage::Error(msg) => msg.rejection(),
            ButtplugSpecV3ServerMessage::ServerInfo(msg) => msg.rejection(),
            ButtplugSpecV3ServerMessage::DeviceList(msg) => msg.rejection(),
            ButtplugSpecV3ServerMessage::DeviceAdded(msg) => msg.rejection(),
            ButtplugSpecV3ServerMessage::DeviceRemoved(msg) => msg.rejection(),
            ButtplugSpecV3ServerMessage::ScanningFinished(msg) => msg.rejection(),
            ButtplugSpecV3ServerMessage::RawReading(msg) => msg.rejection(),
            ButtplugSpecV3ServerMessage::SensorReading(msg) => msg.rejection(),
        }
    }

    fn is_valid(&self) -> (r: Result<(), ButtplugMessageError>) {
        match self {
            ButtplugSpecV3ServerMessage::OkV0(msg) => msg.is_valid(),
            ButtplugSpecV3ServerMessage::Error(msg) => msg.is_valid(),
            ButtplugSpecV3ServerMessage::ServerInfo(msg) => msg.is_valid(),
            ButtplugSpecV3ServerMessage::DeviceList(msg) => msg.is_valid(),
            ButtplugSpecV3ServerMessage::DeviceAdded(msg) => msg.is_valid(),
            ButtplugSpecV3ServerMessage::DeviceRemoved(msg) => msg.is_valid(),
            ButtplugSpecV3ServerMessage::ScanningFinished(msg) => msg.is_valid(),
            ButtplugSpecV3ServerMessage::RawReading(msg) => msg.is_valid(),
            ButtplugSpecV3ServerMessage::SensorReading(msg) => msg.is_valid(),
        }
    }
}

impl ButtplugMessage for ButtplugSpecV3ServerMessage {
    open spec fn message_id(&self) -> u32 {
        match self {
            ButtplugSpecV3ServerMessage::OkV0(msg) => msg.message_id(),
            ButtplugSpecV3ServerMessage::Error(msg) => msg.message_id(),
            ButtplugSpecV3ServerMessage::ServerInfo(msg) => msg.message_id(),
            ButtplugSpecV3ServerMessage::DeviceList(msg) => msg.message_id(),
            ButtplugSpecV3ServerMessage::DeviceAdded(msg) => msg.message_id(),
            ButtplugSpecV3ServerMessage::DeviceRemoved(msg) => msg.message_id(),
            ButtplugSpecV3ServerMessage::ScanningFinished(msg) => msg.message_id(),
            ButtplugSpecV3ServerMessage::RawReading(msg) => msg.message_id(),
            ButtplugSpecV3ServerMessage::SensorReading(msg) => msg.message_id(),
        }
    }

    fn id(&self) -> (r: u32) {
        match self {
            ButtplugSpecV3ServerMessage::OkV0(msg) => msg.id(),
            ButtplugSpecV3ServerMessage::Error(msg) => msg.id(),
            ButtplugSpecV3ServerMessage::ServerInfo(msg) => msg.id(),
            ButtplugSpecV3ServerMessage::DeviceList(msg) => msg.id(),
            ButtplugSpecV3ServerMessage::DeviceAdded(msg) => msg.id(),
            ButtplugSpecV3ServerMessage::DeviceRemoved(msg) => msg.id(),
            ButtplugSpecV3ServerMessage::ScanningFinished(msg) => msg.id(),
            ButtplugSpecV3ServerMessage::RawReading(msg) => msg.id(),
            ButtplugSpecV3ServerMessage::SensorReading(msg) => msg.id(),
        }
    }

    fn set_id(&mut self, id: u32)
        ensures
            final(self).with_id_of(*old(self), id),
    {
        match self {
            ButtplugSpecV3ServerMessage::OkV0(msg) => msg.set_id(id),
            ButtplugSpecV3ServerMessage::Error(msg) => msg.set_id(id),
            ButtplugSpecV3ServerMessage::ServerInfo(msg) => msg.set_id(id),
            ButtplugSpecV3ServerMessage::DeviceList(msg) => msg.set_id(id),
            ButtplugSpecV3ServerMessage::DeviceAdded(msg) => msg.set_id(id),
            ButtplugSpecV3ServerMessage::DeviceRemoved(msg) => msg.set_id(id),
            ButtplugSpecV3ServerMessage::ScanningFinished(msg) => msg.set_id(id),
            ButtplugSpecV3ServerMessage::RawReading(msg) => msg.set_id(id),
            ButtplugSpecV3ServerMessage::SensorReading(msg) => msg.set_id(id),
        }
    }
}

impl ButtplugServerMessageType for ButtplugSpecV3ServerMessage {

}

impl ButtplugSpecV3ServerMessage {
    /// Whether version 3 has a message of the type of `msg`.
    pub open spec fn has_counterpart(msg: ButtplugServerMessage) -> bool {
        match msg {
            ButtplugServerMessage::OkV0(_) => true,
            ButtplugServerMessage::Error(_) => true,
            ButtplugServerMessage::ServerInfo(_) => true,
            ButtplugServerMessage::DeviceList(_) => true,
            ButtplugServerMessage::DeviceAdded(_) => true,
            ButtplugServerMessage::DeviceRemoved(_) => true,
            ButtplugServerMessage::ScanningFinished(_) => true,
            ButtplugServerMessage::RawReading(_) => true,
            ButtplugServerMessage::SensorReading(_) => true,
            _ => false,
        }
    }

    /// Whether `r` is `msg` in the terms of version 3: the same message where
    /// the type has not changed, and where it has, the message that says as
    /// much of what `msg` says as version 3 can say.
    pub open spec fn downgrades(
        msg: ButtplugServerMessage,
        r: ButtplugSpecV3ServerMessage,
    ) -> bool {
        match msg {
            ButtplugServerMessage::OkV0(msg) => r == ButtplugSpecV3ServerMessage::OkV0(msg),
            ButtplugServerMessage::Error(msg) => r == ButtplugSpecV3ServerMessage::Error(msg),
            ButtplugServerMessage::ServerInfo(msg) => {
                r == ButtplugSpecV3ServerMessage::ServerInfo(msg)
            },
            ButtplugServerMessage::DeviceList(msg) => {
                r == ButtplugSpecV3ServerMessage::DeviceList(msg)
            },
            ButtplugServerMessage::DeviceAdded(msg) => {
                r == ButtplugSpecV3ServerMessage::DeviceAdded(msg)
            },
            ButtplugServerMessage::DeviceRemoved(msg) => {
                r == ButtplugSpecV3ServerMessage::DeviceRemoved(msg)
            },
            ButtplugServerMessage::ScanningFinished(msg) => {
                r == ButtplugSpecV3ServerMessage::ScanningFinished(msg)
            },
            ButtplugServerMessage::RawReading(msg) => {
                r == ButtplugSpecV3ServerMessage::RawReading(msg)
            },
            ButtplugServerMessage::SensorReading(msg) => {
                r == ButtplugSpecV3ServerMessage::SensorReading(msg)
            },
            _ => false,
        }
    }

    /// Takes a message of the server into version 3. Fails with a version
    /// error, which names both sets, on a message whose type version 3 lacks.
    pub fn try_from(
        msg: ButtplugServerMessage,
    ) -> (r: Result<ButtplugSpecV3ServerMessage, ButtplugMessageError>)
        ensures
            Self::has_counterpart(msg) ==> (r matches Ok(m) && Self::downgrades(msg, m)),
            !Self::has_counterpart(msg) ==> (r matches Err(e) && is_version_error(
                e,
                "ButtplugServerMessage"@,
                "ButtplugSpecV3ServerMessage"@,
            )),
    {
        match msg {
            ButtplugServerMessage::OkV0(msg) => Ok(ButtplugSpecV3ServerMessage::OkV0(msg)),
            ButtplugServerMessage::Error(msg) => Ok(ButtplugSpecV3ServerMessage::Error(msg)),
            ButtplugServerMessage::ServerInfo(msg) => {
                Ok(ButtplugSpecV3ServerMessage::ServerInfo(msg))
            },
            ButtplugServerMessage::DeviceList(msg) => {
                Ok(ButtplugSpecV3ServerMessage::DeviceList(msg))
            },
            ButtplugServerMessage::DeviceAdded(msg) => {
                Ok(ButtplugSpecV3ServerMessage::DeviceAdded(msg))
            },
            ButtplugServerMessage::DeviceRemoved(msg) => {
                Ok(ButtplugSpecV3ServerMessage::DeviceRemoved(msg))
            },
            ButtplugServerMessage::ScanningFinished(msg) => {
                Ok(ButtplugSpecV3ServerMessage::ScanningFinished(msg))
            },
            ButtplugServerMessage::RawReading(msg) => {
                Ok(ButtplugSpecV3ServerMessage::RawReading(msg))
            },
            ButtplugServerMessage::SensorReading(msg) => {
                Ok(ButtplugSpecV3ServerMessage::SensorReading(msg))
            },
            other => Err(
                ButtplugMessageError::VersionError(
                    String::from_str("ButtplugServerMessage"),
                    debug_text(&other),
                    String::from_str("ButtplugSpecV3ServerMessage"),
                ),
            ),
        }
    }
}

} // verus!
