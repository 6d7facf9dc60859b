//! Version 2 of the schema.

use vstd::prelude::*;
use vstd::string::StringExecFns;
use crate::errors::ButtplugMessageError;
use crate::message::{
    ButtplugMessage, ButtplugMessageFinalizer, ButtplugMessageValidator, ButtplugClientMessageType,
    ButtplugServerMessageType,
};
use crate::message::{
    BatteryLevelCmdV2, BatteryLevelReading, DeviceAddedV2, DeviceListV2, DeviceRemoved, Error,
    LinearCmd, OkV0, Ping, RSSILevelCmd, RSSILevelReading, RawReadCmd, RawReading, RawSubscribeCmd,
    RawUnsubscribeCmd, RawWriteCmd, RequestDeviceList, RequestServerInfo, RotateCmd,
    ScanningFinished, ServerInfo, StartScanning, StopAllDevices, StopDeviceCmd, StopScanning,
    VibrateCmd,
};
use crate::message::client_message::{ButtplugClientMessage, is_version_error};
use crate::text::debug_text;
use crate::message::server_message::ButtplugServerMessage;

verus! {

/// The messages that a client of version 2 can send.
#[derive(Debug, Clone, PartialEq)]
pub enum ButtplugSpecV2ClientMessage {
    RequestServerInfo(RequestServerInfo),
    Ping(Ping),
    StartScanning(StartScanning),
    StopScanning(StopScanning),
    RequestDeviceList(RequestDeviceList),
    StopAllDevices(StopAllDevices),
    VibrateCmd(VibrateCmd),
    LinearCmd(LinearCmd),
    RotateCmd(RotateCmd),
    RawWriteCmd(RawWriteCmd),
    RawReadCmd(RawReadCmd),
    StopDeviceCmd(StopDeviceCmd),
    RawSubscribeCmd(RawSubscribeCmd),
    RawUnsubscribeCmd(RawUnsubscribeCmd),
    BatteryLevelCmd(BatteryLevelCmdV2),
    RSSILevelCmd(RSSILevelCmd),
}

impl ButtplugSpecV2ClientMessage {
    /// Whether `self` is `before` with its id replaced by `id`.
    pub open spec fn with_id_of(self, before: ButtplugSpecV2ClientMessage, id: u32) -> bool {
        match before {
            ButtplugSpecV2ClientMessage::RequestServerInfo(msg) => {
                self == ButtplugSpecV2ClientMessage::RequestServerInfo(
                    RequestServerInfo { id, ..msg },
                )
            },
            ButtplugSpecV2ClientMessage::Ping(msg) => {
                self == ButtplugSpecV2ClientMessage::Ping(Ping { id, ..msg })
            },
            ButtplugSpecV2ClientMessage::StartScanning(msg) => {
                self == ButtplugSpecV2ClientMessage::StartScanning(StartScanning { id, ..msg })
            },
            ButtplugSpecV2ClientMessage::StopScanning(msg) => {
                self == ButtplugSpecV2ClientMessage::StopScanning(StopScanning { id, ..msg })
            },
            ButtplugSpecV2ClientMessage::RequestDeviceList(msg) => {
                self == ButtplugSpecV2ClientMessage::RequestDeviceList(
                    RequestDeviceList { id, ..msg },
                )
            },
            ButtplugSpecV2ClientMessage::StopAllDevices(msg) => {
                self == ButtplugSpecV2ClientMessage::StopAllDevices(StopAllDevices { id, ..msg })
            },
            ButtplugSpecV2ClientMessage::VibrateCmd(msg) => {
                self == ButtplugSpecV2ClientMessage::VibrateCmd(VibrateCmd { id, ..msg })
            },
            ButtplugSpecV2ClientMessage::LinearCmd(msg) => {
                self == ButtplugSpecV2ClientMessage::LinearCmd(LinearCmd { id, ..msg })
            },
            ButtplugSpecV2ClientMessage::RotateCmd(msg) => {
                self == ButtplugSpecV2ClientMessage::RotateCmd(RotateCmd { id, ..msg })
            },
            ButtplugSpecV2ClientMessage::RawWriteCmd(msg) => {
                self == ButtplugSpecV2ClientMessage::RawWriteCmd(RawWriteCmd { id, ..msg })
            },
            ButtplugSpecV2ClientMessage::RawReadCmd(msg) => {
                self == ButtplugSpecV2ClientMessage::RawReadCmd(RawReadCmd { id, ..msg })
            },
            ButtplugSpecV2ClientMessage::StopDeviceCmd(msg) => {
                self == ButtplugSpecV2ClientMessage::StopDeviceCmd(StopDeviceCmd { id, ..msg })
            },
            ButtplugSpecV2ClientMessage::RawSubscribeCmd(msg) => {
                self == ButtplugSpecV2ClientMessage::RawSubscribeCmd(RawSubscribeCmd { id, ..msg })
            },
            ButtplugSpecV2ClientMessage::RawUnsubscribeCmd(msg) => {
                self == ButtplugSpecV2ClientMessage::RawUnsubscribeCmd(
                    RawUnsubscribeCmd { id, ..msg },
                )
            },
            ButtplugSpecV2ClientMessage::BatteryLevelCmd(msg) => {
                self == ButtplugSpecV2ClientMessage::BatteryLevelCmd(
                    BatteryLevelCmdV2 { id, ..msg },
                )
            },
            ButtplugSpecV2ClientMessage::RSSILevelCmd(msg) => {
                self == ButtplugSpecV2ClientMessage::RSSILevelCmd(RSSILevelCmd { id, ..msg })
            },
        }
    }
}

impl ButtplugMessageFinalizer for ButtplugSpecV2ClientMessage {
    fn finalize(&mut self)
        ensures
            *final(self) == *old(self),
    {
    }
}

impl ButtplugMessageValidator for ButtplugSpecV2ClientMessage {
    open spec fn valid(&self) -> bool {
        match self {
            ButtplugSpecV2ClientMessage::RequestServerInfo(msg) => msg.valid(),
            ButtplugSpecV2ClientMessage::Ping(msg) => msg.valid(),
            ButtplugSpecV2ClientMessage::StartScanning(msg) => msg.valid(),
            ButtplugSpecV2ClientMessage::StopScanning(msg) => msg.valid(),
            ButtplugSpecV2ClientMessage::RequestDeviceList(msg) => msg.valid(),
            ButtplugSpecV2ClientMessage::StopAllDevices(msg) => msg.valid(),
            ButtplugSpecV2ClientMessage::VibrateCmd(msg) => msg.valid(),
            ButtplugSpecV2ClientMessage::LinearCmd(msg) => msg.valid(),
            ButtplugSpecV2ClientMessage::RotateCmd(msg) => msg.valid(),
            ButtplugSpecV2ClientMessage::RawWriteCmd(msg) => msg.valid(),
            ButtplugSpecV2ClientMessage::RawReadCmd(msg) => msg.valid(),
            ButtplugSpecV2ClientMessage::StopDeviceCmd(msg) => msg.valid(),
            ButtplugSpecV2ClientMessage::RawSubscribeCmd(msg) => msg.valid(),
            ButtplugSpecV2ClientMessage::RawUnsubscribeCmd(msg) => msg.valid(),
            ButtplugSpecV2ClientMessage::BatteryLevelCmd(msg) => msg.valid(),
            ButtplugSpecV2ClientMessage::RSSILevelCmd(msg) => msg.valid(),
        }
    }

    open spec fn rejection(&self) -> Seq<char> {
        match self {
            ButtplugSpecV2ClientMessage::RequestServerInfo(msg) => msg.rejection(),
            ButtplugSpecV2ClientMessage::Ping(msg) => msg.rejection(),
            ButtplugSpecV2ClientMessage::StartScanning(msg) => msg.rejection(),
            ButtplugSpecV2ClientMessage::StopScanning(msg) => msg.rejection(),
            ButtplugSpecV2ClientMessage::RequestDeviceList(msg) => msg.rejection(),
            ButtplugSpecV2ClientMessage::StopAllDevices(msg) => msg.rejection(),
            ButtplugSpecV2ClientMessage::VibrateCmd(msg) => msg.rejection(),
            ButtplugSpecV2ClientMessage::LinearCmd(msg) => msg.rejection(),
            ButtplugSpecV2ClientMessage::RotateCmd(msg) => msg.rejection(),
            ButtplugSpecV2ClientMessage::RawWriteCmd(msg) => msg.rejection(),
            ButtplugSpecV2ClientMessage::RawReadCmd(msg) => msg.rejection(),
            ButtplugSpecV2ClientMessage::StopDeviceCmd(msg) => msg.rejection(),
            ButtplugSpecV2ClientMessage::RawSubscribeCmd(msg) => msg.rejection(),
            ButtplugSpecV2ClientMessage::RawUnsubscribeCmd(msg) => msg.rejection(),
            ButtplugSpecV2ClientMessage::BatteryLevelCmd(msg) => msg.rejection(),
            ButtplugSpecV2ClientMessage::RSSILevelCmd(msg) => msg.rejection(),
        }
    }

    fn is_valid(&self) -> (r: Result<(), ButtplugMessageError>) {
        match self {
            ButtplugSpecV2ClientMessage::RequestServerInfo(msg) => msg.is_valid(),
            ButtplugSpecV2ClientMessage::Ping(msg) => msg.is_valid(),
            ButtplugSpecV2ClientMessage::StartScanning(msg) => msg.is_valid(),
            ButtplugSpecV2ClientMessage::StopScanning(msg) => msg.is_valid(),
            ButtplugSpecV2ClientMessage::RequestDeviceList(msg) => msg.is_valid(),
            ButtplugSpecV2ClientMessage::StopAllDevices(msg) => msg.is_valid(),
            ButtplugSpecV2ClientMessage::VibrateCmd(msg) => msg.is_valid(),
            ButtplugSpecV2ClientMessage::LinearCmd(msg) => msg.is_valid(),
            ButtplugSpecV2ClientMessage::RotateCmd(msg) => msg.is_valid(),
            ButtplugSpecV2ClientMessage::RawWriteCmd(msg) => msg.is_valid(),
            ButtplugSpecV2ClientMessage::RawReadCmd(msg) => msg.is_valid(),
            ButtplugSpecV2ClientMessage::StopDeviceCmd(msg) => msg.is_valid(),
            ButtplugSpecV2ClientMessage::RawSubscribeCmd(msg) => msg.is_valid(),
            ButtplugSpecV2ClientMessage::RawUnsubscribeCmd(msg) => msg.is_valid(),
            ButtplugSpecV2ClientMessage::BatteryLevelCmd(msg) => msg.is_valid(),
            ButtplugSpecV2ClientMessage::RSSILevelCmd(msg) => msg.is_valid(),
        }
    }
}

impl ButtplugMessage for ButtplugSpecV2ClientMessage {
    open spec fn message_id(&self) -> u32 {
        match self {
            ButtplugSpecV2ClientMessage::RequestServerInfo(msg) => msg.message_id(),
            ButtplugSpecV2ClientMessage::Ping(msg) => msg.message_id(),
            ButtplugSpecV2ClientMessage::StartScanning(msg) => msg.message_id(),
            ButtplugSpecV2ClientMessage::StopScanning(msg) => msg.message_id(),
            ButtplugSpecV2ClientMessage::RequestDeviceList(msg) => msg.message_id(),
            ButtplugSpecV2ClientMessage::StopAllDevices(msg) => msg.message_id(),
            ButtplugSpecV2ClientMessage::VibrateCmd(msg) => msg.message_id(),
            ButtplugSpecV2ClientMessage::LinearCmd(msg) => msg.message_id(),
            ButtplugSpecV2ClientMessage::RotateCmd(msg) => msg.message_id(),
            ButtplugSpecV2ClientMessage::RawWriteCmd(msg) => msg.message_id(),
            ButtplugSpecV2ClientMessage::RawReadCmd(msg) => msg.message_id(),
            ButtplugSpecV2ClientMessage::StopDeviceCmd(msg) => msg.message_id(),
            ButtplugSpecV2ClientMessage::RawSubscribeCmd(msg) => msg.message_id(),
            ButtplugSpecV2ClientMessage::RawUnsubscribeCmd(msg) => msg.message_id(),
            ButtplugSpecV2ClientMessage::BatteryLevelCmd(msg) => msg.message_id(),
            ButtplugSpecV2ClientMessage::RSSILevelCmd(msg) => msg.message_id(),
        }
    }

    fn id(&self) -> (r: u32) {
        match self {
            ButtplugSpecV2ClientMessage::RequestServerInfo(msg) => msg.id(),
            ButtplugSpecV2ClientMessage::Ping(msg) => msg.id(),
            ButtplugSpecV2ClientMessage::StartScanning(msg) => msg.id(),
            ButtplugSpecV2ClientMessage::StopScanning(msg) => msg.id(),
            ButtplugSpecV2ClientMessage::RequestDeviceList(msg) => msg.id(),
            ButtplugSpecV2ClientMessage::StopAllDevices(msg) => msg.id(),
            ButtplugSpecV2ClientMessage::VibrateCmd(msg) => msg.id(),
            ButtplugSpecV2ClientMessage::LinearCmd(msg) => msg.id(),
            ButtplugSpecV2ClientMessage::RotateCmd(msg) => msg.id(),
            ButtplugSpecV2ClientMessage::RawWriteCmd(msg) => msg.id(),
            ButtplugSpecV2ClientMessage::RawReadCmd(msg) => msg.id(),
            ButtplugSpecV2ClientMessage::StopDeviceCmd(msg) => msg.id(),
            ButtplugSpecV2ClientMessage::RawSubscribeCmd(msg) => msg.id(),
            ButtplugSpecV2ClientMessage::RawUnsubscribeCmd(msg) => msg.id(),
            ButtplugSpecV2ClientMessage::BatteryLevelCmd(msg) => msg.id(),
            ButtplugSpecV2ClientMessage::RSSILevelCmd(msg) => msg.id(),
        }
    }

    fn set_id(&mut self, id: u32)
        ensures
            final(self).with_id_of(*old(self), id),
    {
        match self {
            ButtplugSpecV2ClientMessage::RequestServerInfo(msg) => msg.set_id(id),
            ButtplugSpecV2ClientMessage::Ping(msg) => msg.set_id(id),
            ButtplugSpecV2ClientMessage::StartScanning(msg) => msg.set_id(id),
            ButtplugSpecV2ClientMessage::StopScanning(msg) => msg.set_id(id),
            ButtplugSpecV2ClientMessage::RequestDeviceList(msg) => msg.set_id(id),
            ButtplugSpecV2ClientMessage::StopAllDevices(msg) => msg.set_id(id),
            ButtplugSpecV2ClientMessage::VibrateCmd(msg) => msg.set_id(id),
            ButtplugSpecV2ClientMessage::LinearCmd(msg) => msg.set_id(id),
            ButtplugSpecV2ClientMessage::RotateCmd(msg) => msg.set_id(id),
            ButtplugSpecV2ClientMessage::RawWriteCmd(msg) => msg.set_id(id),
            ButtplugSpecV2ClientMessage::RawReadCmd(msg) => msg.set_id(id),
            ButtplugSpecV2ClientMessage::StopDeviceCmd(msg) => msg.set_id(id),
            ButtplugSpecV2ClientMessage::RawSubscribeCmd(msg) => msg.set_id(id),
            ButtplugSpecV2ClientMessage::RawUnsubscribeCmd(msg) => msg.set_id(id),
            ButtplugSpecV2ClientMessage::BatteryLevelCmd(msg) => msg.set_id(id),
            ButtplugSpecV2ClientMessage::RSSILevelCmd(msg) => msg.set_id(id),
        }
    }
}

impl ButtplugClientMessageType for ButtplugSpecV2ClientMessage {

}

impl ButtplugSpecV2ClientMessage {
    /// The message as a message of this set, if the set has its type.
    pub open spec fn narrowed(msg: ButtplugClientMessage) -> Option<ButtplugSpecV2ClientMessage> {
        match msg {
            ButtplugClientMessage::RequestServerInfo(msg) => {
                Some(ButtplugSpecV2ClientMessage::RequestServerInfo(msg))
            },
            ButtplugClientMessage::Ping(msg) => Some(ButtplugSpecV2ClientMessage::Ping(msg)),
            ButtplugClientMessage::StartScanning(msg) => {
                Some(ButtplugSpecV2ClientMessage::StartScanning(msg))
            },
            ButtplugClientMessage::StopScanning(msg) => {
                Some(ButtplugSpecV2ClientMessage::StopScanning(msg))
            },
            ButtplugClientMessage::RequestDeviceList(msg) => {
                Some(ButtplugSpecV2ClientMessage::RequestDeviceList(msg))
            },
            ButtplugClientMessage::StopAllDevices(msg) => {
                Some(ButtplugSpecV2ClientMessage::StopAllDevices(msg))
            },
            ButtplugClientMessage::VibrateCmd(msg) => {
                Some(ButtplugSpecV2ClientMessage::VibrateCmd(msg))
            },
            ButtplugClientMessage::LinearCmd(msg) => {
                Some(ButtplugSpecV2ClientMessage::LinearCmd(msg))
            },
            ButtplugClientMessage::RotateCmd(msg) => {
                Some(ButtplugSpecV2ClientMessage::RotateCmd(msg))
            },
            ButtplugClientMessage::RawWriteCmd(msg) => {
                Some(ButtplugSpecV2ClientMessage::RawWriteCmd(msg))
            },
            ButtplugClientMessage::RawReadCmd(msg) => {
                Some(ButtplugSpecV2ClientMessage::RawReadCmd(msg))
            },
            ButtplugClientMessage::StopDeviceCmd(msg) => {
                Some(ButtplugSpecV2ClientMessage::StopDeviceCmd(msg))
            },
            ButtplugClientMessage::RawSubscribeCmd(msg) => {
                Some(ButtplugSpecV2ClientMessage::RawSubscribeCmd(msg))
            },
            ButtplugClientMessage::RawUnsubscribeCmd(msg) => {
                Some(ButtplugSpecV2ClientMessage::RawUnsubscribeCmd(msg))
            },
            ButtplugClientMessage::BatteryLevelCmd(msg) => {
                Some(ButtplugSpecV2ClientMessage::BatteryLevelCmd(msg))
            },
            ButtplugClientMessage::RSSILevelCmd(msg) => {
                Some(ButtplugSpecV2ClientMessage::RSSILevelCmd(msg))
            },
            _ => None,
        }
    }

    /// The message as a message of the uniform set.
    pub open spec fn widened(self) -> ButtplugClientMessage {
        match self {
            ButtplugSpecV2ClientMessage::RequestServerInfo(msg) => {
                ButtplugClientMessage::RequestServerInfo(msg)
            },
            ButtplugSpecV2ClientMessage::Ping(msg) => ButtplugClientMessage::Ping(msg),
            ButtplugSpecV2ClientMessage::StartScanning(msg) => {
                ButtplugClientMessage::StartScanning(msg)
            },
            ButtplugSpecV2ClientMessage::StopScanning(msg) => {
                ButtplugClientMessage::StopScanning(msg)
            },
            ButtplugSpecV2ClientMessage::RequestDeviceList(msg) => {
                ButtplugClientMessage::RequestDeviceList(msg)
            },
            ButtplugSpecV2ClientMessage::StopAllDevices(msg) => {
                ButtplugClientMessage::StopAllDevices(msg)
            },
            ButtplugSpecV2ClientMessage::VibrateCmd(msg) => ButtplugClientMessage::VibrateCmd(msg),
            ButtplugSpecV2ClientMessage::LinearCmd(msg) => ButtplugClientMessage::LinearCmd(msg),
            ButtplugSpecV2ClientMessage::RotateCmd(msg) => ButtplugClientMessage::RotateCmd(msg),
            ButtplugSpecV2ClientMessage::RawWriteCmd(msg) => {
                ButtplugClientMessage::RawWriteCmd(msg)
            },
            ButtplugSpecV2ClientMessage::RawReadCmd(msg) => ButtplugClientMessage::RawReadCmd(msg),
            ButtplugSpecV2ClientMessage::StopDeviceCmd(msg) => {
                ButtplugClientMessage::StopDeviceCmd(msg)
            },
            ButtplugSpecV2ClientMessage::RawSubscribeCmd(msg) => {
                ButtplugClientMessage::RawSubscribeCmd(msg)
            },
            ButtplugSpecV2ClientMessage::RawUnsubscribeCmd(msg) => {
                ButtplugClientMessage::RawUnsubscribeCmd(msg)
            },
            ButtplugSpecV2ClientMessage::BatteryLevelCmd(msg) => {
                ButtplugClientMessage::BatteryLevelCmd(msg)
            },
            ButtplugSpecV2ClientMessage::RSSILevelCmd(msg) => {
                ButtplugClientMessage::RSSILevelCmd(msg)
            },
        }
    }

    /// Takes a message of the uniform set into this set. Fails with a version
    /// error, which names both sets, on a message whose type this set lacks.
    pub fn try_from(
        msg: ButtplugClientMessage,
    ) -> (r: Result<ButtplugSpecV2ClientMessage, ButtplugMessageError>)
        ensures
            r matches Ok(m) ==> Some(m) == Self::narrowed(msg),
            r is Err <==> Self::narrowed(msg) is None,
            r matches Err(e) ==> is_version_error(
                e,
                "ButtplugClientMessage"@,
                "ButtplugSpecV2ClientMessage"@,
            ),
    {
        match msg {
            ButtplugClientMessage::RequestServerInfo(msg) => {
                Ok(ButtplugSpecV2ClientMessage::RequestServerInfo(msg))
            },
            ButtplugClientMessage::Ping(msg) => Ok(ButtplugSpecV2ClientMessage::Ping(msg)),
            ButtplugClientMessage::StartScanning(msg) => {
                Ok(ButtplugSpecV2ClientMessage::StartScanning(msg))
            },
            ButtplugClientMessage::StopScanning(msg) => {
                Ok(ButtplugSpecV2ClientMessage::StopScanning(msg))
            },
            ButtplugClientMessage::RequestDeviceList(msg) => {
                Ok(ButtplugSpecV2ClientMessage::RequestDeviceList(msg))
            },
            ButtplugClientMessage::StopAllDevices(msg) => {
                Ok(ButtplugSpecV2ClientMessage::StopAllDevices(msg))
            },
            ButtplugClientMessage::VibrateCmd(msg) => {
                Ok(ButtplugSpecV2ClientMessage::VibrateCmd(msg))
            },
            ButtplugClientMessage::LinearCmd(msg) => {
                Ok(ButtplugSpecV2ClientMessage::LinearCmd(msg))
            },
            ButtplugClientMessage::RotateCmd(msg) => {
                Ok(ButtplugSpecV2ClientMessage::RotateCmd(msg))
            },
            ButtplugClientMessage::RawWriteCmd(msg) => {
                Ok(ButtplugSpecV2ClientMessage::RawWriteCmd(msg))
            },
            ButtplugClientMessage::RawReadCmd(msg) => {
                Ok(ButtplugSpecV2ClientMessage::RawReadCmd(msg))
            },
            ButtplugClientMessage::StopDeviceCmd(msg) => {
                Ok(ButtplugSpecV2ClientMessage::StopDeviceCmd(msg))
            },
            ButtplugClientMessage::RawSubscribeCmd(msg) => {
                Ok(ButtplugSpecV2ClientMessage::RawSubscribeCmd(msg))
            },
            ButtplugClientMessage::RawUnsubscribeCmd(msg) => {
                Ok(ButtplugSpecV2ClientMessage::RawUnsubscribeCmd(msg))
            },
            ButtplugClientMessage::BatteryLevelCmd(msg) => {
                Ok(ButtplugSpecV2ClientMessage::BatteryLevelCmd(msg))
            },
            ButtplugClientMessage::RSSILevelCmd(msg) => {
                Ok(ButtplugSpecV2ClientMessage::RSSILevelCmd(msg))
            },
            other => Err(
                ButtplugMessageError::VersionError(
                    String::from_str("ButtplugClientMessage"),
                    debug_text(&other),
                    String::from_str("ButtplugSpecV2ClientMessage"),
                ),
            ),
        }
    }

    /// Takes a message of this set into the uniform set.
    pub fn widen(self) -> (r: ButtplugClientMessage)
        ensures
            r == self.widened(),
    {
        match self {
            ButtplugSpecV2ClientMessage::RequestServerInfo(msg) => {
                ButtplugClientMessage::RequestServerInfo(msg)
            },
            ButtplugSpecV2ClientMessage::Ping(msg) => ButtplugClientMessage::Ping(msg),
            ButtplugSpecV2ClientMessage::StartScanning(msg) => {
                ButtplugClientMessage::StartScanning(msg)
            },
            ButtplugSpecV2ClientMessage::StopScanning(msg) => {
                ButtplugClientMessage::StopScanning(msg)
            },
            ButtplugSpecV2ClientMessage::RequestDeviceList(msg) => {
                ButtplugClientMessage::RequestDeviceList(msg)
            },
            ButtplugSpecV2ClientMessage::StopAllDevices(msg) => {
                ButtplugClientMessage::StopAllDevices(msg)
            },
            ButtplugSpecV2ClientMessage::VibrateCmd(msg) => ButtplugClientMessage::VibrateCmd(msg),
            ButtplugSpecV2ClientMessage::LinearCmd(msg) => ButtplugClientMessage::LinearCmd(msg),
            ButtplugSpecV2ClientMessage::RotateCmd(msg) => ButtplugClientMessage::RotateCmd(msg),
            ButtplugSpecV2ClientMessage::RawWriteCmd(msg) => {
                ButtplugClientMessage::RawWriteCmd(msg)
            },
            ButtplugSpecV2ClientMessage::RawReadCmd(msg) => ButtplugClientMessage::RawReadCmd(msg),
            ButtplugSpecV2ClientMessage::StopDeviceCmd(msg) => {
                ButtplugClientMessage::StopDeviceCmd(msg)
            },
            ButtplugSpecV2ClientMessage::RawSubscribeCmd(msg) => {
                ButtplugClientMessage::RawSubscribeCmd(msg)
            },
            ButtplugSpecV2ClientMessage::RawUnsubscribeCmd(msg) => {
                ButtplugClientMessage::RawUnsubscribeCmd(msg)
            },
            ButtplugSpecV2ClientMessage::BatteryLevelCmd(msg) => {
                ButtplugClientMessage::BatteryLevelCmd(msg)
            },
            ButtplugSpecV2ClientMessage::RSSILevelCmd(msg) => {
                ButtplugClientMessage::RSSILevelCmd(msg)
            },
        }
    }

    /// Widening a message and taking it back gives the message again.
    pub proof fn lemma_widen_then_narrow(self)
        ensures
            Self::narrowed(self.widened()) == Some(self),
    {
    }
}

/// The messages that a server sends to a client of version 2.
#[derive(Debug, Clone, PartialEq)]
pub enum ButtplugSpecV2ServerMessage {
    OkV0(OkV0),
    Error(Error),
    ServerInfo(ServerInfo),
    DeviceList(DeviceListV2),
    DeviceAdded(DeviceAddedV2),
    DeviceRemoved(DeviceRemoved),
    ScanningFinished(ScanningFinished),
    RawReading(RawReading),
    BatteryLevelReading(BatteryLevelReading),
    RSSILevelReading(RSSILevelReading),
}

impl ButtplugSpecV2ServerMessage {
    /// Whether `self` is `before` with its id replaced by `id`.
    pub open spec fn with_id_of(self, before: ButtplugSpecV2ServerMessage, id: u32) -> bool {
        match before {
            ButtplugSpecV2ServerMessage::OkV0(msg) => {
                self == ButtplugSpecV2ServerMessage::OkV0(OkV0 { id, ..msg })
            },
            ButtplugSpecV2ServerMessage::Error(msg) => {
                self == ButtplugSpecV2ServerMessage::Error(Error { id, ..msg })
            },
            ButtplugSpecV2ServerMessage::ServerInfo(msg) => {
                self == ButtplugSpecV2ServerMessage::ServerInfo(ServerInfo { id, ..msg })
            },
            ButtplugSpecV2ServerMessage::DeviceList(msg) => {
                self == ButtplugSpecV2ServerMessage::DeviceList(DeviceListV2 { id, ..msg })
            },
            ButtplugSpecV2ServerMessage::DeviceAdded(msg) => {
                self == ButtplugSpecV2ServerMessage::DeviceAdded(DeviceAddedV2 { id, ..msg })
            },
            ButtplugSpecV2ServerMessage::DeviceRemoved(msg) => {
                self == ButtplugSpecV2ServerMessage::DeviceRemoved(DeviceRemoved { id, ..msg })
            },
            ButtplugSpecV2ServerMessage::ScanningFinished(msg) => {
                self == ButtplugSpecV2ServerMessage::ScanningFinished(
                    ScanningFinished { id, ..msg },
                )
            },
            ButtplugSpecV2ServerMessage::RawReading(msg) => {
                self == ButtplugSpecV2ServerMessage::RawReading(RawReading { id, ..msg })
            },
            ButtplugSpecV2ServerMessage::BatteryLevelReading(msg) => {
                self == ButtplugSpecV2ServerMessage::BatteryLevelReading(
                    BatteryLevelReading { id, ..msg },
                )
            },
            ButtplugSpecV2ServerMessage::RSSILevelReading(msg) => {
                self == ButtplugSpecV2ServerMessage::RSSILevelReading(
                    RSSILevelReading { id, ..msg },
                )
            },
        }
    }
}

impl ButtplugMessageFinalizer for ButtplugSpecV2ServerMessage {
    fn finalize(&mut self)
        ensures
            *final(self) == *old(self),
    {
    }
}

impl ButtplugMessageValidator for ButtplugSpecV2ServerMessage {
    open spec fn valid(&self) -> bool {
        match self {
            ButtplugSpecV2ServerMessage::OkV0(msg) => msg.valid(),
            ButtplugSpecV2ServerMessage::Error(msg) => msg.valid(),
            ButtplugSpecV2ServerMessage::ServerInfo(msg) => msg.valid(),
            ButtplugSpecV2ServerMessage::DeviceList(msg) => msg.valid(),
            ButtplugSpecV2ServerMessage::DeviceAdded(msg) => msg.valid(),
            ButtplugSpecV2ServerMessage::DeviceRemoved(msg) => msg.valid(),
            ButtplugSpecV2ServerMessage::ScanningFinished(msg) => msg.valid(),
            ButtplugSpecV2ServerMessage::RawReading(msg) => msg.valid(),
            ButtplugSpecV2ServerMessage::BatteryLevelReading(msg) => msg.valid(),
            ButtplugSpecV2ServerMessage::RSSILevelReading(msg) => msg.valid(),
        }
    }

    open spec fn rejection(&self) -> Seq<char> {
        match self {
            ButtplugSpecV2ServerMessage::OkV0(msg) => msg.rejection(),
            ButtplugSpecV2ServerMessage::Error(msg) => msg.rejection(),
            ButtplugSpecV2ServerMessage::ServerInfo(msg) => msg.rejection(),
            ButtplugSpecV2ServerMessage::DeviceList(msg) => msg.rejection(),
            ButtplugSpecV2ServerMessage::DeviceAdded(msg) => msg.rejection(),
            ButtplugSpecV2ServerMessage::DeviceRemoved(msg) => msg.rejection(),
            ButtplugSpecV2ServerMessage::ScanningFinished(msg) => msg.rejection(),
            ButtplugSpecV2ServerMessage::RawReading(msg) => msg.rejection(),
            ButtplugSpecV2ServerMessage::BatteryLevelReading(msg) => msg.rejection(),
            ButtplugSpecV2ServerMessage::RSSILevelReading(msg) => msg.rejection(),
        }
    }

    fn is_valid(&self) -> (r: Result<(), ButtplugMessageError>) {
        match self {
            ButtplugSpecV2ServerMessage::OkV0(msg) => msg.is_valid(),
            ButtplugSpecV2ServerMessage::Error(msg) => msg.is_valid(),
            ButtplugSpecV2ServerMessage::ServerInfo(msg) => msg.is_valid(),
            ButtplugSpecV2ServerMessage::DeviceList(msg) => msg.is_valid(),
            ButtplugSpecV2ServerMessage::DeviceAdded(msg) => msg.is_valid(),
            ButtplugSpecV2ServerMessage::DeviceRemoved(msg) => msg.is_valid(),
            ButtplugSpecV2ServerMessage::ScanningFinished(msg) => msg.is_valid(),
            ButtplugSpecV2ServerMessage::RawReading(msg) => msg.is_valid(),
            ButtplugSpecV2ServerMessage::BatteryLevelReading(msg) => msg.is_valid(),
            ButtplugSpecV2ServerMessage::RSSILevelReading(msg) => msg.is_valid(),
        }
    }
}

impl ButtplugMessage for ButtplugSpecV2ServerMessage {
    open spec fn message_id(&self) -> u32 {
        match self {
            ButtplugSpecV2ServerMessage::OkV0(msg) => msg.message_id(),
            ButtplugSpecV2ServerMessage::Error(msg) => msg.message_id(),
            ButtplugSpecV2ServerMessage::ServerInfo(msg) => msg.message_id(),
            ButtplugSpecV2ServerMessage::DeviceList(msg) => msg.message_id(),
            ButtplugSpecV2ServerMessage::DeviceAdded(msg) => msg.message_id(),
            ButtplugSpecV2ServerMessage::DeviceRemoved(msg) => msg.message_id(),
            ButtplugSpecV2ServerMessage::ScanningFinished(msg) => msg.message_id(),
            ButtplugSpecV2ServerMessage::RawReading(msg) => msg.message_id(),
            ButtplugSpecV2ServerMessage::BatteryLevelReading(msg) => msg.message_id(),
            ButtplugSpecV2ServerMessage::RSSILevelReading(msg) => msg.message_id(),
        }
    }

    fn id(&self) -> (r: u32) {
        match self {
            ButtplugSpecV2ServerMessage::OkV0(msg) => msg.id(),
            ButtplugSpecV2ServerMessage::Error(msg) => msg.id(),
            ButtplugSpecV2ServerMessage::ServerInfo(msg) => msg.id(),
            ButtplugSpecV2ServerMessage::DeviceList(msg) => msg.id(),
            ButtplugSpecV2ServerMessage::DeviceAdded(msg) => msg.id(),
            ButtplugSpecV2ServerMessage::DeviceRemoved(msg) => msg.id(),
            ButtplugSpecV2ServerMessage::ScanningFinished(msg) => msg.id(),
            ButtplugSpecV2ServerMessage::RawReading(msg) => msg.id(),
            ButtplugSpecV2ServerMessage::BatteryLevelReading(msg) => msg.id(),
            ButtplugSpecV2ServerMessage::RSSILevelReading(msg) => msg.id(),
        }
    }

    fn set_id(&mut self, id: u32)
        ensures
            final(self).with_id_of(*old(self), id),
    {
        match self {
            ButtplugSpecV2ServerMessage::OkV0(msg) => msg.set_id(id),
            ButtplugSpecV2ServerMessage::Error(msg) => msg.set_id(id),
            ButtplugSpecV2ServerMessage::ServerInfo(msg) => msg.set_id(id),
            ButtplugSpecV2ServerMessage::DeviceList(msg) => msg.set_id(id),
            ButtplugSpecV2ServerMessage::DeviceAdded(msg) => msg.set_id(id),
            ButtplugSpecV2ServerMessage::DeviceRemoved(msg) => msg.set_id(id),
            ButtplugSpecV2ServerMessage::ScanningFinished(msg) => msg.set_id(id),
            ButtplugSpecV2ServerMessage::RawReading(msg) => msg.set_id(id),
            ButtplugSpecV2ServerMessage::BatteryLevelReading(msg) => msg.set_id(id),
            ButtplugSpecV2ServerMessage::RSSILevelReading(msg) => msg.set_id(id),
        }
    }
}

impl ButtplugServerMessageType for ButtplugSpecV2ServerMessage {

}

impl ButtplugSpecV2ServerMessage {
    /// Whether version 2 has a message of the type of `msg`.
    pub open spec fn has_counterpart(msg: ButtplugServerMessage) -> bool {
        match msg {
            ButtplugServerMessage::OkV0(_) => true,
            ButtplugServerMessage::Error(_) => true,
            ButtplugServerMessage::ServerInfo(_) => true,
            ButtplugServerMessage::DeviceList(_) => true,
            ButtplugServerMessage::DeviceAdded(_) => true,
            ButtplugServerMessage::DeviceRemoved(_) => true,
            ButtplugServerMessage::ScanningFinished(_) => true,
            ButtplugServerMessage::RawReading(_) => true,
            ButtplugServerMessage::BatteryLevelReading(_) => true,
            ButtplugServerMessage::RSSILevelReading(_) => true,
            _ => false,
        }
    }

    /// Whether `r` is `msg` in the terms of version 2: the same message where
    /// the type has not changed, and where it has, the message that says as
    /// much of what `msg` says as version 2 can say.
    pub open spec fn downgrades(
        msg: ButtplugServerMessage,
        r: ButtplugSpecV2ServerMessage,
    ) -> bool {
        match msg {
            ButtplugServerMessage::OkV0(msg) => r == ButtplugSpecV2ServerMessage::OkV0(msg),
            ButtplugServerMessage::Error(msg) => r == ButtplugSpecV2ServerMessage::Error(msg),
            ButtplugServerMessage::ServerInfo(msg) => {
                r == ButtplugSpecV2ServerMessage::ServerInfo(msg)
            },
            ButtplugServerMessage::DeviceList(msg) => {
                r matches ButtplugSpecV2ServerMessage::DeviceList(list) && list.downgraded_from(msg)
            },
            ButtplugServerMessage::DeviceAdded(msg) => r matches ButtplugSpecV2ServerMessage::DeviceAdded(added) && added.id == msg.id
                && added.info().downgraded_from(msg.info()),
            ButtplugServerMessage::DeviceRemoved(msg) => {
                r == ButtplugSpecV2ServerMessage::DeviceRemoved(msg)
            },
            ButtplugServerMessage::ScanningFinished(msg) => {
                r == ButtplugSpecV2ServerMessage::ScanningFinished(msg)
            },
            ButtplugServerMessage::RawReading(msg) => {
                r == ButtplugSpecV2ServerMessage::RawReading(msg)
            },
            ButtplugServerMessage::BatteryLevelReading(msg) => {
                r == ButtplugSpecV2ServerMessage::BatteryLevelReading(msg)
            },
            ButtplugServerMessage::RSSILevelReading(msg) => {
                r == ButtplugSpecV2ServerMessage::RSSILevelReading(msg)
            },
            _ => false,
        }
    }

    /// Takes a message of the server into version 2. Fails with a version
    /// error, which names both sets, on a message whose type version 2 lacks.
    pub fn try_from(
        msg: ButtplugServerMessage,
    ) -> (r: Result<ButtplugSpecV2ServerMessage, ButtplugMessageError>)
        ensures
            Self::has_counterpart(msg) ==> (r matches Ok(m) && Self::downgrades(msg, m)),
            !Self::has_counterpart(msg) ==> (r matches Err(e) && is_version_error(
                e,
                "ButtplugServerMessage"@,
                "ButtplugSpecV2ServerMessage"@,
            )),
    {
        match msg {
            ButtplugServerMessage::OkV0(msg) => Ok(ButtplugSpecV2ServerMessage::OkV0(msg)),
            ButtplugServerMessage::Error(msg) => Ok(ButtplugSpecV2ServerMessage::Error(msg)),
            ButtplugServerMessage::ServerInfo(msg) => {
                Ok(ButtplugSpecV2ServerMessage::ServerInfo(msg))
            },
            ButtplugServerMessage::DeviceList(msg) => {
                Ok(ButtplugSpecV2ServerMessage::DeviceList(DeviceListV2::from_v3(msg)))
            },
            ButtplugServerMessage::DeviceAdded(msg) => {
                Ok(ButtplugSpecV2ServerMessage::DeviceAdded(DeviceAddedV2::from_v3(msg)))
            },
            ButtplugServerMessage::DeviceRemoved(msg) => {
                Ok(ButtplugSpecV2ServerMessage::DeviceRemoved(msg))
            },
            ButtplugServerMessage::ScanningFinished(msg) => {
                Ok(ButtplugSpecV2ServerMessage::ScanningFinished(msg))
            },
            ButtplugServerMessage::RawReading(msg) => {
                Ok(ButtplugSpecV2ServerMessage::RawReading(msg))
            },
            ButtplugServerMessage::BatteryLevelReading(msg) => {
                Ok(ButtplugSpecV2ServerMessage::BatteryLevelReading(msg))
            },
            ButtplugServerMessage::RSSILevelReading(msg) => {
                Ok(ButtplugSpecV2ServerMessage::RSSILevelReading(msg))
            },
            other => Err(
                ButtplugMessageError::VersionError(
                    String::from_str("ButtplugServerMessage"),
                    debug_text(&other),
                    String::from_str("ButtplugSpecV2ServerMessage"),
                ),
            ),
        }
    }
}

} // verus!
