//! Version 4 of the schema, which is still in the making.

use vstd::prelude::*;
use vstd::string::StringExecFns;
use crate::errors::ButtplugMessageError;
use crate::message::{
    ButtplugMessage, ButtplugMessageFinalizer, ButtplugMessageValidator, ButtplugClientMessageType,
    ButtplugServerMessageType,
};
use crate::message::{
    DeviceAdded, DeviceAddedV3, DeviceList, DeviceListV3, DeviceRemoved, Error, LinearCmd, OkV0,
    Ping, RawReadCmd, RawReading, RawSubscribeCmd, RawUnsubscribeCmd, RawWriteCmd,
    RequestDeviceList, RequestServerInfo, RotateCmd, ScalarCmd, ScanningFinished, SensorReadCmd,
    SensorReading, SensorSubscribeCmd, SensorUnsubscribeCmd, ServerInfo, StartScanning,
    StopAllDevices, StopDeviceCmd, StopScanning,
};
use crate::message::client_message::{ButtplugClientMessage, is_version_error};
use crate::text::debug_text;
use crate::message::server_message::ButtplugServerMessage;

verus! {

/// The messages that a client of version 4, which is still in the making, can
/// send.
#[derive(Debug, Clone, PartialEq)]
pub enum ButtplugSpecV4ClientMessage {
    RequestServerInfo(RequestServerInfo),
    Ping(Ping),
    StartScanning(StartScanning),
    StopScanning(StopScanning),
    RequestDeviceList(RequestDeviceList),
    StopAllDevices(StopAllDevices),
    ScalarCmd(ScalarCmd),
    LinearCmd(LinearCmd),
    RotateCmd(RotateCmd),
    StopDeviceCmd(StopDeviceCmd),
    RawWriteCmd(RawWriteCmd),
    RawReadCmd(RawReadCmd),
    RawSubscribeCmd(RawSubscribeCmd),
    RawUnsubscribeCmd(RawUnsubscribeCmd),
    SensorReadCmd(SensorReadCmd),
    SensorSubscribeCmd(SensorSubscribeCmd),
    SensorUnsubscribeCmd(SensorUnsubscribeCmd),
}

impl ButtplugSpecV4ClientMessage {
    /// Whether `self` is `before` with its id replaced by `id`.
    pub open spec fn with_id_of(self, before: ButtplugSpecV4ClientMessage, id: u32) -> bool {
        match before {
            ButtplugSpecV4ClientMessage::RequestServerInfo(msg) => {
                self == ButtplugSpecV4ClientMessage::RequestServerInfo(
                    RequestServerInfo { id, ..msg },
                )
            },
            ButtplugSpecV4ClientMessage::Ping(msg) => {
                self == ButtplugSpecV4ClientMessage::Ping(Ping { id, ..msg })
            },
            ButtplugSpecV4ClientMessage::StartScanning(msg) => {
                self == ButtplugSpecV4ClientMessage::StartScanning(StartScanning { id, ..msg })
            },
            ButtplugSpecV4ClientMessage::StopScanning(msg) => {
                self == ButtplugSpecV4ClientMessage::StopScanning(StopScanning { id, ..msg })
            },
            ButtplugSpecV4ClientMessage::RequestDeviceList(msg) => {
                self == ButtplugSpecV4ClientMessage::RequestDeviceList(
                    RequestDeviceList { id, ..msg },
                )
            },
            ButtplugSpecV4ClientMessage::StopAllDevices(msg) => {
                self == ButtplugSpecV4ClientMessage::StopAllDevices(StopAllDevices { id, ..msg })
            },
            ButtplugSpecV4ClientMessage::ScalarCmd(msg) => {
                self == ButtplugSpecV4ClientMessage::ScalarCmd(ScalarCmd { id, ..msg })
            },
            ButtplugSpecV4ClientMessage::LinearCmd(msg) => {
                self == ButtplugSpecV4ClientMessage::LinearCmd(LinearCmd { id, ..msg })
            },
            ButtplugSpecV4ClientMessage::RotateCmd(msg) => {
                self == ButtplugSpecV4ClientMessage::RotateCmd(RotateCmd { id, ..msg })
            },
            ButtplugSpecV4ClientMessage::StopDeviceCmd(msg) => {
                self == ButtplugSpecV4ClientMessage::StopDeviceCmd(StopDeviceCmd { id, ..msg })
            },
            ButtplugSpecV4ClientMessage::RawWriteCmd(msg) => {
                self == ButtplugSpecV4ClientMessage::RawWriteCmd(RawWriteCmd { id, ..msg })
            },
            ButtplugSpecV4ClientMessage::RawReadCmd(msg) => {
                self == ButtplugSpecV4ClientMessage::RawReadCmd(RawReadCmd { id, ..msg })
            },
            ButtplugSpecV4ClientMessage::RawSubscribeCmd(msg) => {
                self == ButtplugSpecV4ClientMessage::RawSubscribeCmd(RawSubscribeCmd { id, ..msg })
            },
            ButtplugSpecV4ClientMessage::RawUnsubscribeCmd(msg) => {
                self == ButtplugSpecV4ClientMessage::RawUnsubscribeCmd(
                    RawUnsubscribeCmd { id, ..msg },
                )
            },
            ButtplugSpecV4ClientMessage::SensorReadCmd(msg) => {
                self == ButtplugSpecV4ClientMessage::SensorReadCmd(SensorReadCmd { id, ..msg })
            },
            ButtplugSpecV4ClientMessage::SensorSubscribeCmd(msg) => {
                self == ButtplugSpecV4ClientMessage::SensorSubscribeCmd(
                    SensorSubscribeCmd { id, ..msg },
                )
            },
            ButtplugSpecV4ClientMessage::SensorUnsubscribeCmd(msg) => {
                self == ButtplugSpecV4ClientMessage::SensorUnsubscribeCmd(
                    SensorUnsubscribeCmd { id, ..msg },
                )
            },
        }
    }
}

impl ButtplugMessageFinalizer for ButtplugSpecV4ClientMessage {
    fn finalize(&mut self)
        ensures
            *final(self) == *old(self),
    {
    }
}

impl ButtplugMessageValidator for ButtplugSpecV4ClientMessage {
    open spec fn valid(&self) -> bool {
        match self {
            ButtplugSpecV4ClientMessage::RequestServerInfo(msg) => msg.valid(),
            ButtplugSpecV4ClientMessage::Ping(msg) => msg.valid(),
            ButtplugSpecV4ClientMessage::StartScanning(msg) => msg.valid(),
            ButtplugSpecV4ClientMessage::StopScanning(msg) => msg.valid(),
            ButtplugSpecV4ClientMessage::RequestDeviceList(msg) => msg.valid(),
            ButtplugSpecV4ClientMessage::StopAllDevices(msg) => msg.valid(),
            ButtplugSpecV4ClientMessage::ScalarCmd(msg) => msg.valid(),
            ButtplugSpecV4ClientMessage::LinearCmd(msg) => msg.valid(),
            ButtplugSpecV4ClientMessage::RotateCmd(msg) => msg.valid(),
            ButtplugSpecV4ClientMessage::StopDeviceCmd(msg) => msg.valid(),
            ButtplugSpecV4ClientMessage::RawWriteCmd(msg) => msg.valid(),
            ButtplugSpecV4ClientMessage::RawReadCmd(msg) => msg.valid(),
            ButtplugSpecV4ClientMessage::RawSubscribeCmd(msg) => msg.valid(),
            ButtplugSpecV4ClientMessage::RawUnsubscribeCmd(msg) => msg.valid(),
            ButtplugSpecV4ClientMessage::SensorReadCmd(msg) => msg.valid(),
            ButtplugSpecV4ClientMessage::SensorSubscribeCmd(msg) => msg.valid(),
            ButtplugSpecV4ClientMessage::SensorUnsubscribeCmd(msg) => msg.valid(),
        }
    }

    open spec fn rejection(&self) -> Seq<char> {
        match self {
            ButtplugSpecV4ClientMessage::RequestServerInfo(msg) => msg.rejection(),
            ButtplugSpecV4ClientMessage::Ping(msg) => msg.rejection(),
            ButtplugSpecV4ClientMessage::StartScanning(msg) => msg.rejection(),
            ButtplugSpecV4ClientMessage::StopScanning(msg) => msg.rejection(),
            ButtplugSpecV4ClientMessage::RequestDeviceList(msg) => msg.rejection(),
            ButtplugSpecV4ClientMessage::StopAllDevices(msg) => msg.rejection(),
            ButtplugSpecV4ClientMessage::ScalarCmd(msg) => msg.rejection(),
            ButtplugSpecV4ClientMessage::LinearCmd(msg) => msg.rejection(),
            ButtplugSpecV4ClientMessage::RotateCmd(msg) => msg.rejection(),
            ButtplugSpecV4ClientMessage::StopDeviceCmd(msg) => msg.rejection(),
            ButtplugSpecV4ClientMessage::RawWriteCmd(msg) => msg.rejection(),
            ButtplugSpecV4ClientMessage::RawReadCmd(msg) => msg.rejection(),
            ButtplugSpecV4ClientMessage::RawSubscribeCmd(msg) => msg.rejection(),
            ButtplugSpecV4ClientMessage::RawUnsubscribeCmd(msg) => msg.rejection(),
            ButtplugSpecV4ClientMessage::SensorReadCmd(msg) => msg.rejection(),
            ButtplugSpecV4ClientMessage::SensorSubscribeCmd(msg) => msg.rejection(),
            ButtplugSpecV4ClientMessage::SensorUnsubscribeCmd(msg) => msg.rejection(),
        }
    }

    fn is_valid(&self) -> (r: Result<(), ButtplugMessageError>) {
        match self {
            ButtplugSpecV4ClientMessage::RequestServerInfo(msg) => msg.is_valid(),
            ButtplugSpecV4ClientMessage::Ping(msg) => msg.is_valid(),
            ButtplugSpecV4ClientMessage::StartScanning(msg) => msg.is_valid(),
            ButtplugSpecV4ClientMessage::StopScanning(msg) => msg.is_valid(),
            ButtplugSpecV4ClientMessage::RequestDeviceList(msg) => msg.is_valid(),
            ButtplugSpecV4ClientMessage::StopAllDevices(msg) => msg.is_valid(),
            ButtplugSpecV4ClientMessage::ScalarCmd(msg) => msg.is_valid(),
            ButtplugSpecV4ClientMessage::LinearCmd(msg) => msg.is_valid(),
            ButtplugSpecV4ClientMessage::RotateCmd(msg) => msg.is_valid(),
            ButtplugSpecV4ClientMessage::StopDeviceCmd(msg) => msg.is_valid(),
            ButtplugSpecV4ClientMessage::RawWriteCmd(msg) => msg.is_valid(),
            ButtplugSpecV4ClientMessage::RawReadCmd(msg) => msg.is_valid(),
            ButtplugSpecV4ClientMessage::RawSubscribeCmd(msg) => msg.is_valid(),
            ButtplugSpecV4ClientMessage::RawUnsubscribeCmd(msg) => msg.is_valid(),
            ButtplugSpecV4ClientMessage::SensorReadCmd(msg) => msg.is_valid(),
            ButtplugSpecV4ClientMessage::SensorSubscribeCmd(msg) => msg.is_valid(),
            ButtplugSpecV4ClientMessage::SensorUnsubscribeCmd(msg) => msg.is_valid(),
        }
    }
}

impl ButtplugMessage for ButtplugSpecV4ClientMessage {
    open spec fn message_id(&self) -> u32 {
        match self {
            ButtplugSpecV4ClientMessage::RequestServerInfo(msg) => msg.message_id(),
            ButtplugSpecV4ClientMessage::Ping(msg) => msg.message_id(),
            ButtplugSpecV4ClientMessage::StartScanning(msg) => msg.message_id(),
            ButtplugSpecV4ClientMessage::StopScanning(msg) => msg.message_id(),
            ButtplugSpecV4ClientMessage::RequestDeviceList(msg) => msg.message_id(),
            ButtplugSpecV4ClientMessage::StopAllDevices(msg) => msg.message_id(),
            ButtplugSpecV4ClientMessage::ScalarCmd(msg) => msg.message_id(),
            ButtplugSpecV4ClientMessage::LinearCmd(msg) => msg.message_id(),
            ButtplugSpecV4ClientMessage::RotateCmd(msg) => msg.message_id(),
            ButtplugSpecV4ClientMessage::StopDeviceCmd(msg) => msg.message_id(),
            ButtplugSpecV4ClientMessage::RawWriteCmd(msg) => msg.message_id(),
            ButtplugSpecV4ClientMessage::RawReadCmd(msg) => msg.message_id(),
            ButtplugSpecV4ClientMessage::RawSubscribeCmd(msg) => msg.message_id(),
            ButtplugSpecV4ClientMessage::RawUnsubscribeCmd(msg) => msg.message_id(),
            ButtplugSpecV4ClientMessage::SensorReadCmd(msg) => msg.message_id(),
            ButtplugSpecV4ClientMessage::SensorSubscribeCmd(msg) => msg.message_id(),
            ButtplugSpecV4ClientMessage::SensorUnsubscribeCmd(msg) => msg.message_id(),
        }
    }

    fn id(&self) -> (r: u32) {
        match self {
            ButtplugSpecV4ClientMessage::RequestServerInfo(msg) => msg.id(),
            ButtplugSpecV4ClientMessage::Ping(msg) => msg.id(),
            ButtplugSpecV4ClientMessage::StartScanning(msg) => msg.id(),
            ButtplugSpecV4ClientMessage::StopScanning(msg) => msg.id(),
            ButtplugSpecV4ClientMessage::RequestDeviceList(msg) => msg.id(),
            ButtplugSpecV4ClientMessage::StopAllDevices(msg) => msg.id(),
            ButtplugSpecV4ClientMessage::ScalarCmd(msg) => msg.id(),
            ButtplugSpecV4ClientMessage::LinearCmd(msg) => msg.id(),
            ButtplugSpecV4ClientMessage::RotateCmd(msg) => msg.id(),
            ButtplugSpecV4ClientMessage::StopDeviceCmd(msg) => msg.id(),
            ButtplugSpecV4ClientMessage::RawWriteCmd(msg) => msg.id(),
            ButtplugSpecV4ClientMessage::RawReadCmd(msg) => msg.id(),
            ButtplugSpecV4ClientMessage::RawSubscribeCmd(msg) => msg.id(),
            ButtplugSpecV4ClientMessage::RawUnsubscribeCmd(msg) => msg.id(),
            ButtplugSpecV4ClientMessage::SensorReadCmd(msg) => msg.id(),
            ButtplugSpecV4ClientMessage::SensorSubscribeCmd(msg) => msg.id(),
            ButtplugSpecV4ClientMessage::SensorUnsubscribeCmd(msg) => msg.id(),
        }
    }

    fn set_id(&mut self, id: u32)
        ensures
            final(self).with_id_of(*old(self), id),
    {
        match self {
            ButtplugSpecV4ClientMessage::RequestServerInfo(msg) => msg.set_id(id),
            ButtplugSpecV4ClientMessage::Ping(msg) => msg.set_id(id),
            ButtplugSpecV4ClientMessage::StartScanning(msg) => msg.set_id(id),
            ButtplugSpecV4ClientMessage::StopScanning(msg) => msg.set_id(id),
            ButtplugSpecV4ClientMessage::RequestDeviceList(msg) => msg.set_id(id),
            ButtplugSpecV4ClientMessage::StopAllDevices(msg) => msg.set_id(id),
            ButtplugSpecV4ClientMessage::ScalarCmd(msg) => msg.set_id(id),
            ButtplugSpecV4ClientMessage::LinearCmd(msg) => msg.set_id(id),
            ButtplugSpecV4ClientMessage::RotateCmd(msg) => msg.set_id(id),
            ButtplugSpecV4ClientMessage::StopDeviceCmd(msg) => msg.set_id(id),
            ButtplugSpecV4ClientMessage::RawWriteCmd(msg) => msg.set_id(id),
            ButtplugSpecV4ClientMessage::RawReadCmd(msg) => msg.set_id(id),
            ButtplugSpecV4ClientMessage::RawSubscribeCmd(msg) => msg.set_id(id),
            ButtplugSpecV4ClientMessage::RawUnsubscribeCmd(msg) => msg.set_id(id),
            ButtplugSpecV4ClientMessage::SensorReadCmd(msg) => msg.set_id(id),
            ButtplugSpecV4ClientMessage::SensorSubscribeCmd(msg) => msg.set_id(id),
            ButtplugSpecV4ClientMessage::SensorUnsubscribeCmd(msg) => msg.set_id(id),
        }
    }
}

impl ButtplugClientMessageType for ButtplugSpecV4ClientMessage {

}

impl ButtplugSpecV4ClientMessage {
    /// The message as a message of this set, if the set has its type.
    pub open spec fn narrowed(msg: ButtplugClientMessage) -> Option<ButtplugSpecV4ClientMessage> {
        match msg {
            ButtplugClientMessage::RequestServerInfo(msg) => {
                Some(ButtplugSpecV4ClientMessage::RequestServerInfo(msg))
            },
            ButtplugClientMessage::Ping(msg) => Some(ButtplugSpecV4ClientMessage::Ping(msg)),
            ButtplugClientMessage::StartScanning(msg) => {
                Some(ButtplugSpecV4ClientMessage::StartScanning(msg))
            },
            ButtplugClientMessage::StopScanning(msg) => {
                Some(ButtplugSpecV4ClientMessage::StopScanning(msg))
            },
            ButtplugClientMessage::RequestDeviceList(msg) => {
                Some(ButtplugSpecV4ClientMessage::RequestDeviceList(msg))
            },
            ButtplugClientMessage::StopAllDevices(msg) => {
                Some(ButtplugSpecV4ClientMessage::StopAllDevices(msg))
            },
            ButtplugClientMessage::ScalarCmd(msg) => {
                Some(ButtplugSpecV4ClientMessage::ScalarCmd(msg))
            },
            ButtplugClientMessage::LinearCmd(msg) => {
                Some(ButtplugSpecV4ClientMessage::LinearCmd(msg))
            },
            ButtplugClientMessage::RotateCmd(msg) => {
                Some(ButtplugSpecV4ClientMessage::RotateCmd(msg))
            },
            ButtplugClientMessage::StopDeviceCmd(msg) => {
                Some(ButtplugSpecV4ClientMessage::StopDeviceCmd(msg))
            },
            ButtplugClientMessage::RawWriteCmd(msg) => {
                Some(ButtplugSpecV4ClientMessage::RawWriteCmd(msg))
            },
            ButtplugClientMessage::RawReadCmd(msg) => {
                Some(ButtplugSpecV4ClientMessage::RawReadCmd(msg))
            },
            ButtplugClientMessage::RawSubscribeCmd(msg) => {
                Some(ButtplugSpecV4ClientMessage::RawSubscribeCmd(msg))
            },
            ButtplugClientMessage::RawUnsubscribeCmd(msg) => {
                Some(ButtplugSpecV4ClientMessage::RawUnsubscribeCmd(msg))
            },
            ButtplugClientMessage::SensorReadCmd(msg) => {
                Some(ButtplugSpecV4ClientMessage::SensorReadCmd(msg))
            },
            ButtplugClientMessage::SensorSubscribeCmd(msg) => {
                Some(ButtplugSpecV4ClientMessage::SensorSubscribeCmd(msg))
            },
            ButtplugClientMessage::SensorUnsubscribeCmd(msg) => {
                Some(ButtplugSpecV4ClientMessage::SensorUnsubscribeCmd(msg))
            },
            _ => None,
        }
    }

    /// The message as a message of the uniform set.
    pub open spec fn widened(self) -> ButtplugClientMessage {
        match self {
            ButtplugSpecV4ClientMessage::RequestServerInfo(msg) => {
                ButtplugClientMessage::RequestServerInfo(msg)
            },
            ButtplugSpecV4ClientMessage::Ping(msg) => ButtplugClientMessage::Ping(msg),
            ButtplugSpecV4ClientMessage::StartScanning(msg) => {
                ButtplugClientMessage::StartScanning(msg)
            },
            ButtplugSpecV4ClientMessage::StopScanning(msg) => {
                ButtplugClientMessage::StopScanning(msg)
            },
            ButtplugSpecV4ClientMessage::RequestDeviceList(msg) => {
                ButtplugClientMessage::RequestDeviceList(msg)
            },
            ButtplugSpecV4ClientMessage::StopAllDevices(msg) => {
                ButtplugClientMessage::StopAllDevices(msg)
            },
            ButtplugSpecV4ClientMessage::ScalarCmd(msg) => ButtplugClientMessage::ScalarCmd(msg),
            ButtplugSpecV4ClientMessage::LinearCmd(msg) => ButtplugClientMessage::LinearCmd(msg),
            ButtplugSpecV4ClientMessage::RotateCmd(msg) => ButtplugClientMessage::RotateCmd(msg),
            ButtplugSpecV4ClientMessage::StopDeviceCmd(msg) => {
                ButtplugClientMessage::StopDeviceCmd(msg)
            },
            ButtplugSpecV4ClientMessage::RawWriteCmd(msg) => {
                ButtplugClientMessage::RawWriteCmd(msg)
            },
            ButtplugSpecV4ClientMessage::RawReadCmd(msg) => ButtplugClientMessage::RawReadCmd(msg),
            ButtplugSpecV4ClientMessage::RawSubscribeCmd(msg) => {
                ButtplugClientMessage::RawSubscribeCmd(msg)
            },
            ButtplugSpecV4ClientMessage::RawUnsubscribeCmd(msg) => {
                ButtplugClientMessage::RawUnsubscribeCmd(msg)
            },
            ButtplugSpecV4ClientMessage::SensorReadCmd(msg) => {
                ButtplugClientMessage::SensorReadCmd(msg)
            },
            ButtplugSpecV4ClientMessage::SensorSubscribeCmd(msg) => {
                ButtplugClientMessage::SensorSubscribeCmd(msg)
            },
            ButtplugSpecV4ClientMessage::SensorUnsubscribeCmd(msg) => {
                ButtplugClientMessage::SensorUnsubscribeCmd(msg)
            },
        }
    }

    /// Takes a message of the uniform set into this set. Fails with a version
    /// error, which names both sets, on a message whose type this set lacks.
    pub fn try_from(
        msg: ButtplugClientMessage,
    ) -> (r: Result<ButtplugSpecV4ClientMessage, ButtplugMessageError>)
        ensures
            r matches Ok(m) ==> Some(m) == Self::narrowed(msg),
            r is Err <==> Self::narrowed(msg) is None,
            r matches Err(e) ==> is_version_error(
                e,
                "ButtplugClientMessage"@,
                "ButtplugSpecV4ClientMessage"@,
            ),
    {
        match msg {
            ButtplugClientMessage::RequestServerInfo(msg) => {
                Ok(ButtplugSpecV4ClientMessage::RequestServerInfo(msg))
            },
            ButtplugClientMessage::Ping(msg) => Ok(ButtplugSpecV4ClientMessage::Ping(msg)),
            ButtplugClientMessage::StartScanning(msg) => {
                Ok(ButtplugSpecV4ClientMessage::StartScanning(msg))
            },
            ButtplugClientMessage::StopScanning(msg) => {
                Ok(ButtplugSpecV4ClientMessage::StopScanning(msg))
            },
            ButtplugClientMessage::RequestDeviceList(msg) => {
                Ok(ButtplugSpecV4ClientMessage::RequestDeviceList(msg))
            },
            ButtplugClientMessage::StopAllDevices(msg) => {
                Ok(ButtplugSpecV4ClientMessage::StopAllDevices(msg))
            },
            ButtplugClientMessage::ScalarCmd(msg) => {
                Ok(ButtplugSpecV4ClientMessage::ScalarCmd(msg))
            },
            ButtplugClientMessage::LinearCmd(msg) => {
                Ok(ButtplugSpecV4ClientMessage::LinearCmd(msg))
            },
            ButtplugClientMessage::RotateCmd(msg) => {
                Ok(ButtplugSpecV4ClientMessage::RotateCmd(msg))
            },
            ButtplugClientMessage::StopDeviceCmd(msg) => {
                Ok(ButtplugSpecV4ClientMessage::StopDeviceCmd(msg))
            },
            ButtplugClientMessage::RawWriteCmd(msg) => {
                Ok(ButtplugSpecV4ClientMessage::RawWriteCmd(msg))
            },
            ButtplugClientMessage::RawReadCmd(msg) => {
                Ok(ButtplugSpecV4ClientMessage::RawReadCmd(msg))
            },
            ButtplugClientMessage::RawSubscribeCmd(msg) => {
                Ok(ButtplugSpecV4ClientMessage::RawSubscribeCmd(msg))
            },
            ButtplugClientMessage::RawUnsubscribeCmd(msg) => {
                Ok(ButtplugSpecV4ClientMessage::RawUnsubscribeCmd(msg))
            },
            ButtplugClientMessage::SensorReadCmd(msg) => {
                Ok(ButtplugSpecV4ClientMessage::SensorReadCmd(msg))
            },
            ButtplugClientMessage::SensorSubscribeCmd(msg) => {
                Ok(ButtplugSpecV4ClientMessage::SensorSubscribeCmd(msg))
            },
            ButtplugClientMessage::SensorUnsubscribeCmd(msg) => {
                Ok(ButtplugSpecV4ClientMessage::SensorUnsubscribeCmd(msg))
            },
            other => Err(
                ButtplugMessageError::VersionError(
                    String::from_str("ButtplugClientMessage"),
                    debug_text(&other),
                    String::from_str("ButtplugSpecV4ClientMessage"),
                ),
            ),
        }
    }

    /// Takes a message of this set into the uniform set.
    pub fn widen(self) -> (r: ButtplugClientMessage)
        ensures
            r == self.widened(),
    {
        match self {
            ButtplugSpecV4ClientMessage::RequestServerInfo(msg) => {
                ButtplugClientMessage::RequestServerInfo(msg)
            },
            ButtplugSpecV4ClientMessage::Ping(msg) => ButtplugClientMessage::Ping(msg),
            ButtplugSpecV4ClientMessage::StartScanning(msg) => {
                ButtplugClientMessage::StartScanning(msg)
            },
            ButtplugSpecV4ClientMessage::StopScanning(msg) => {
                ButtplugClientMessage::StopScanning(msg)
            },
            ButtplugSpecV4ClientMessage::RequestDeviceList(msg) => {
                ButtplugClientMessage::RequestDeviceList(msg)
            },
            ButtplugSpecV4ClientMessage::StopAllDevices(msg) => {
                ButtplugClientMessage::StopAllDevices(msg)
            },
            ButtplugSpecV4ClientMessage::ScalarCmd(msg) => ButtplugClientMessage::ScalarCmd(msg),
            ButtplugSpecV4ClientMessage::LinearCmd(msg) => ButtplugClientMessage::LinearCmd(msg),
            ButtplugSpecV4ClientMessage::RotateCmd(msg) => ButtplugClientMessage::RotateCmd(msg),
            ButtplugSpecV4ClientMessage::StopDeviceCmd(msg) => {
                ButtplugClientMessage::StopDeviceCmd(msg)
            },
            ButtplugSpecV4ClientMessage::RawWriteCmd(msg) => {
                ButtplugClientMessage::RawWriteCmd(msg)
            },
            ButtplugSpecV4ClientMessage::RawReadCmd(msg) => ButtplugClientMessage::RawReadCmd(msg),
            ButtplugSpecV4ClientMessage::RawSubscribeCmd(msg) => {
                ButtplugClientMessage::RawSubscribeCmd(msg)
            },
            ButtplugSpecV4ClientMessage::RawUnsubscribeCmd(msg) => {
                ButtplugClientMessage::RawUnsubscribeCmd(msg)
            },
            ButtplugSpecV4ClientMessage::SensorReadCmd(msg) => {
                ButtplugClientMessage::SensorReadCmd(msg)
            },
            ButtplugSpecV4ClientMessage::SensorSubscribeCmd(msg) => {
                ButtplugClientMessage::SensorSubscribeCmd(msg)
            },
            ButtplugSpecV4ClientMessage::SensorUnsubscribeCmd(msg) => {
                ButtplugClientMessage::SensorUnsubscribeCmd(msg)
            },
        }
    }

    /// Widening a message and taking it back gives the message again.
    pub proof fn lemma_widen_then_narrow(self)
        ensures
            Self::narrowed(self.widened()) == Some(self),
    {
    }
}

/// The messages that a server sends to a client of version 4, which is still in
/// the making.
#[derive(Debug, Clone, PartialEq)]
pub enum ButtplugSpecV4ServerMessage {
    OkV0(OkV0),
    Error(Error),
    ServerInfo(ServerInfo),
    DeviceList(DeviceList),
    DeviceAdded(DeviceAdded),
    DeviceRemoved(DeviceRemoved),
    ScanningFinished(ScanningFinished),
    RawReading(RawReading),
    SensorReading(SensorReading),
}

impl ButtplugSpecV4ServerMessage {
    /// Whether `self` is `before` with its id replaced by `id`.
    pub open spec fn with_id_of(self, before: ButtplugSpecV4ServerMessage, id: u32) -> bool {
        match before {
            ButtplugSpecV4ServerMessage::OkV0(msg) => {
                self == ButtplugSpecV4ServerMessage::OkV0(OkV0 { id, ..msg })
            },
            ButtplugSpecV4ServerMessage::Error(msg) => {
                self == ButtplugSpecV4ServerMessage::Error(Error { id, ..msg })
            },
            ButtplugSpecV4ServerMessage::ServerInfo(msg) => {
                self == ButtplugSpecV4ServerMessage::ServerInfo(ServerInfo { id, ..msg })
            },
            ButtplugSpecV4ServerMessage::DeviceList(msg) => {
                self == ButtplugSpecV4ServerMessage::DeviceList(DeviceList { id, ..msg })
            },
            ButtplugSpecV4ServerMessage::DeviceAdded(msg) => {
                self == ButtplugSpecV4ServerMessage::DeviceAdded(DeviceAdded { id, ..msg })
            },
            ButtplugSpecV4ServerMessage::DeviceRemoved(msg) => {
                self == ButtplugSpecV4ServerMessage::DeviceRemoved(DeviceRemoved { id, ..msg })
            },
            ButtplugSpecV4ServerMessage::ScanningFinished(msg) => {
                self == ButtplugSpecV4ServerMessage::ScanningFinished(
                    ScanningFinished { id, ..msg },
                )
            },
            ButtplugSpecV4ServerMessage::RawReading(msg) => {
                self == ButtplugSpecV4ServerMessage::RawReading(RawReading { id, ..msg })
            },
            ButtplugSpecV4ServerMessage::SensorReading(msg) => {
                self == ButtplugSpecV4ServerMessage::SensorReading(SensorReading { id, ..msg })
            },
        }
    }
}

impl ButtplugMessageFinalizer for ButtplugSpecV4ServerMessage {
    fn finalize(&mut self)
        ensures
            *final(self) == *old(self),
    {
    }
}

impl ButtplugMessageValidator for ButtplugSpecV4ServerMessage {
    open spec fn valid(&self) -> bool {
        match self {
            ButtplugSpecV4ServerMessage::OkV0(msg) => msg.valid(),
            ButtplugSpecV4ServerMessage::Error(msg) => msg.valid(),
            ButtplugSpecV4ServerMessage::ServerInfo(msg) => msg.valid(),
            ButtplugSpecV4ServerMessage::DeviceList(msg) => msg.valid(),
            ButtplugSpecV4ServerMessage::DeviceAdded(msg) => msg.valid(),
            ButtplugSpecV4ServerMessage::DeviceRemoved(msg) => msg.valid(),
            ButtplugSpecV4ServerMessage::ScanningFinished(msg) => msg.valid(),
            ButtplugSpecV4ServerMessage::RawReading(msg) => msg.valid(),
            ButtplugSpecV4ServerMessage::SensorReading(msg) => msg.valid(),
        }
    }

    open spec fn rejection(&self) -> Seq<char> {
        match self {
            ButtplugSpecV4ServerMessage::OkV0(msg) => msg.rejection(),
            ButtplugSpecV4ServerMessage::Error(msg) => msg.rejection(),
            ButtplugSpecV4ServerMessage::ServerInfo(msg) => msg.rejection(),
            ButtplugSpecV4ServerMessage::DeviceList(msg) => msg.rejection(),
            ButtplugSpecV4ServerMessage::DeviceAdded(msg) => msg.rejection(),
            ButtplugSpecV4ServerMessage::DeviceRemoved(msg) => msg.rejection(),
            ButtplugSpecV4ServerMessage::ScanningFinished(msg) => msg.rejection(),
            ButtplugSpecV4ServerMessage::RawReading(msg) => msg.rejection(),
            ButtplugSpecV4ServerMessage::SensorReading(msg) => msg.rejection(),
        }
    }

    fn is_valid(&self) -> (r: Result<(), ButtplugMessageError>) {
        match self {
            ButtplugSpecV4ServerMessage::OkV0(msg) => msg.is_valid(),
            ButtplugSpecV4ServerMessage::Error(msg) => msg.is_valid(),
            ButtplugSpecV4ServerMessage::ServerInfo(msg) => msg.is_valid(),
            ButtplugSpecV4ServerMessage::DeviceList(msg) => msg.is_valid(),
            ButtplugSpecV4ServerMessage::DeviceAdded(msg) => msg.is_valid(),
            ButtplugSpecV4ServerMessage::DeviceRemoved(msg) => msg.is_valid(),
            ButtplugSpecV4ServerMessage::ScanningFinished(msg) => msg.is_valid(),
            ButtplugSpecV4ServerMessage::RawReading(msg) => msg.is_valid(),
            ButtplugSpecV4ServerMessage::SensorReading(msg) => msg.is_valid(),
        }
    }
}

impl ButtplugMessage for ButtplugSpecV4ServerMessage {
    open spec fn message_id(&self) -> u32 {
        match self {
            ButtplugSpecV4ServerMessage::OkV0(msg) => msg.message_id(),
            ButtplugSpecV4ServerMessage::Error(msg) => msg.message_id(),
            ButtplugSpecV4ServerMessage::ServerInfo(msg) => msg.message_id(),
            ButtplugSpecV4ServerMessage::DeviceList(msg) => msg.message_id(),
            ButtplugSpecV4ServerMessage::DeviceAdded(msg) => msg.message_id(),
            ButtplugSpecV4ServerMessage::DeviceRemoved(msg) => msg.message_id(),
            ButtplugSpecV4ServerMessage::ScanningFinished(msg) => msg.message_id(),
            ButtplugSpecV4ServerMessage::RawReading(msg) => msg.message_id(),
            ButtplugSpecV4ServerMessage::SensorReading(msg) => msg.message_id(),
        }
    }

    fn id(&self) -> (r: u32) {
        match self {
            ButtplugSpecV4ServerMessage::OkV0(msg) => msg.id(),
            ButtplugSpecV4ServerMessage::Error(msg) => msg.id(),
            ButtplugSpecV4ServerMessage::ServerInfo(msg) => msg.id(),
            ButtplugSpecV4ServerMessage::DeviceList(msg) => msg.id(),
            ButtplugSpecV4ServerMessage::DeviceAdded(msg) => msg.id(),
            ButtplugSpecV4ServerMessage::DeviceRemoved(msg) => msg.id(),
            ButtplugSpecV4ServerMessage::ScanningFinished(msg) => msg.id(),
            ButtplugSpecV4ServerMessage::RawReading(msg) => msg.id(),
            ButtplugSpecV4ServerMessage::SensorReading(msg) => msg.id(),
        }
    }

    fn set_id(&mut self, id: u32)
        ensures
            final(self).with_id_of(*old(self), id),
    {
        match self {
            ButtplugSpecV4ServerMessage::OkV0(msg) => msg.set_id(id),
            ButtplugSpecV4ServerMessage::Error(msg) => msg.set_id(id),
            ButtplugSpecV4ServerMessage::ServerInfo(msg) => msg.set_id(id),
            ButtplugSpecV4ServerMessage::DeviceList(msg) => msg.set_id(id),
            ButtplugSpecV4ServerMessage::DeviceAdded(msg) => msg.set_id(id),
            ButtplugSpecV4ServerMessage::DeviceRemoved(msg) => msg.set_id(id),
            ButtplugSpecV4ServerMessage::ScanningFinished(msg) => msg.set_id(id),
            ButtplugSpecV4ServerMessage::RawReading(msg) => msg.set_id(id),
            ButtplugSpecV4ServerMessage::SensorReading(msg) => msg.set_id(id),
        }
    }
}

impl ButtplugServerMessageType for ButtplugSpecV4ServerMessage {

}

impl ButtplugSpecV4ServerMessage {
    /// Whether `r` is `self` in the terms of the latest version: the same
    /// message where the type has not changed, and for a notice of a new device
    /// and a list of devices the message that says as much as the latest
    /// version can say.
    pub open spec fn downgrades(self, r: ButtplugServerMessage) -> bool {
        match self {
            ButtplugSpecV4ServerMessage::OkV0(msg) => r == ButtplugServerMessage::OkV0(msg),
            ButtplugSpecV4ServerMessage::Error(msg) => r == ButtplugServerMessage::Error(msg),
            ButtplugSpecV4ServerMessage::ServerInfo(msg) => r == ButtplugServerMessage::ServerInfo(
                msg,
            ),
            ButtplugSpecV4ServerMessage::DeviceList(msg) => r matches ButtplugServerMessage::DeviceList(
                list,
            ) && list.downgraded_from(msg),
            ButtplugSpecV4ServerMessage::DeviceAdded(
                msg,
            ) => r matches ButtplugServerMessage::DeviceAdded(added) && added.id == msg.id
                && added.info().downgraded_from(msg.info()),
            ButtplugSpecV4ServerMessage::DeviceRemoved(
                msg,
            ) => r == ButtplugServerMessage::DeviceRemoved(msg),
            ButtplugSpecV4ServerMessage::ScanningFinished(
                msg,
            ) => r == ButtplugServerMessage::ScanningFinished(msg),
            ButtplugSpecV4ServerMessage::RawReading(msg) => r == ButtplugServerMessage::RawReading(
                msg,
            ),
            ButtplugSpecV4ServerMessage::SensorReading(
                msg,
            ) => r == ButtplugServerMessage::SensorReading(msg),
        }
    }

    /// Takes a message of version 4 into the uniform set of the latest version.
    /// Every message has a counterpart there.
    pub fn downgrade(self) -> (r: ButtplugServerMessage)
        ensures
            self.downgrades(r),
    {
        match self {
            ButtplugSpecV4ServerMessage::OkV0(msg) => ButtplugServerMessage::OkV0(msg),
            ButtplugSpecV4ServerMessage::Error(msg) => ButtplugServerMessage::Error(msg),
            ButtplugSpecV4ServerMessage::ServerInfo(msg) => ButtplugServerMessage::ServerInfo(msg),
            ButtplugSpecV4ServerMessage::DeviceList(msg) => ButtplugServerMessage::DeviceList(
                DeviceListV3::from(msg),
            ),
            ButtplugSpecV4ServerMessage::DeviceAdded(msg) => ButtplugServerMessage::DeviceAdded(
                DeviceAddedV3::from(msg),
            ),
            ButtplugSpecV4ServerMessage::DeviceRemoved(msg) => ButtplugServerMessage::DeviceRemoved(
                msg,
            ),
            ButtplugSpecV4ServerMessage::ScanningFinished(
                msg,
            ) => ButtplugServerMessage::ScanningFinished(msg),
            ButtplugSpecV4ServerMessage::RawReading(msg) => ButtplugServerMessage::RawReading(msg),
            ButtplugSpecV4ServerMessage::SensorReading(msg) => ButtplugServerMessage::SensorReading(
                msg,
            ),
        }
    }
}

} // verus!
