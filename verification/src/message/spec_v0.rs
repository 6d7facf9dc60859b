//! The version of the schema before the first.

use vstd::prelude::*;
use vstd::string::StringExecFns;
use crate::errors::ButtplugMessageError;
use crate::message::{
    ButtplugMessage, ButtplugMessageFinalizer, ButtplugMessageValidator, ButtplugClientMessageType,
    ButtplugServerMessageType,
};
use crate::message::{
    DeviceAddedV0, DeviceListV0, DeviceRemoved, ErrorV0, FleshlightLaunchFW12Cmd, KiirooCmd, Log,
    LovenseCmd, OkV0, Ping, RequestDeviceList, RequestLog, RequestServerInfo, ScanningFinished,
    ServerInfoV0, SingleMotorVibrateCmd, StartScanning, StopAllDevices, StopDeviceCmd,
    StopScanning, VorzeA10CycloneCmd,
};
use crate::message::client_message::{ButtplugClientMessage, is_version_error};
use crate::text::debug_text;
use crate::message::server_message::ButtplugServerMessage;

verus! {

/// The messages that a client of version 0 can send.
#[derive(Debug, Clone, PartialEq)]
pub enum ButtplugSpecV0ClientMessage {
    RequestLog(RequestLog),
    Ping(Ping),
    RequestServerInfo(RequestServerInfo),
    StartScanning(StartScanning),
    StopScanning(StopScanning),
    RequestDeviceList(RequestDeviceList),
    StopAllDevices(StopAllDevices),
    StopDeviceCmd(StopDeviceCmd),
    SingleMotorVibrateCmd(SingleMotorVibrateCmd),
    FleshlightLaunchFW12Cmd(FleshlightLaunchFW12Cmd),
    LovenseCmd(LovenseCmd),
    KiirooCmd(KiirooCmd),
    VorzeA10CycloneCmd(VorzeA10CycloneCmd),
}

impl ButtplugSpecV0ClientMessage {
    /// Whether `self` is `before` with its id replaced by `id`.
    pub open spec fn with_id_of(self, before: ButtplugSpecV0ClientMessage, id: u32) -> bool {
        match before {
            ButtplugSpecV0ClientMessage::RequestLog(msg) => {
                self == ButtplugSpecV0ClientMessage::RequestLog(RequestLog { id, ..msg })
            },
            ButtplugSpecV0ClientMessage::Ping(msg) => {
                self == ButtplugSpecV0ClientMessage::Ping(Ping { id, ..msg })
            },
            ButtplugSpecV0ClientMessage::RequestServerInfo(msg) => {
                self == ButtplugSpecV0ClientMessage::RequestServerInfo(
                    RequestServerInfo { id, ..msg },
                )
            },
            ButtplugSpecV0ClientMessage::StartScanning(msg) => {
                self == ButtplugSpecV0ClientMessage::StartScanning(StartScanning { id, ..msg })
            },
            ButtplugSpecV0ClientMessage::StopScanning(msg) => {
                self == ButtplugSpecV0ClientMessage::StopScanning(StopScanning { id, ..msg })
            },
            ButtplugSpecV0ClientMessage::RequestDeviceList(msg) => {
                self == ButtplugSpecV0ClientMessage::RequestDeviceList(
                    RequestDeviceList { id, ..msg },
                )
            },
            ButtplugSpecV0ClientMessage::StopAllDevices(msg) => {
                self == ButtplugSpecV0ClientMessage::StopAllDevices(StopAllDevices { id, ..msg })
            },
            ButtplugSpecV0ClientMessage::StopDeviceCmd(msg) => {
                self == ButtplugSpecV0ClientMessage::StopDeviceCmd(StopDeviceCmd { id, ..msg })
            },
            ButtplugSpecV0ClientMessage::SingleMotorVibrateCmd(msg) => {
                self == ButtplugSpecV0ClientMessage::SingleMotorVibrateCmd(
                    SingleMotorVibrateCmd { id, ..msg },
                )
            },
            ButtplugSpecV0ClientMessage::FleshlightLaunchFW12Cmd(msg) => {
                self == ButtplugSpecV0ClientMessage::FleshlightLaunchFW12Cmd(
                    FleshlightLaunchFW12Cmd { id, ..msg },
                )
            },
            ButtplugSpecV0ClientMessage::LovenseCmd(msg) => {
                self == ButtplugSpecV0ClientMessage::LovenseCmd(LovenseCmd { id, ..msg })
            },
            ButtplugSpecV0ClientMessage::KiirooCmd(msg) => {
                self == ButtplugSpecV0ClientMessage::KiirooCmd(KiirooCmd { id, ..msg })
            },
            ButtplugSpecV0ClientMessage::VorzeA10CycloneCmd(msg) => {
                self == ButtplugSpecV0ClientMessage::VorzeA10CycloneCmd(
                    VorzeA10CycloneCmd { id, ..msg },
                )
            },
        }
    }
}

impl ButtplugMessageFinalizer for ButtplugSpecV0ClientMessage {
    fn finalize(&mut self)
        ensures
            *final(self) == *old(self),
    {
    }
}

impl ButtplugMessageValidator for ButtplugSpecV0ClientMessage {
    open spec fn valid(&self) -> bool {
        match self {
            ButtplugSpecV0ClientMessage::RequestLog(msg) => msg.valid(),
            ButtplugSpecV0ClientMessage::Ping(msg) => msg.valid(),
            ButtplugSpecV0ClientMessage::RequestServerInfo(msg) => msg.valid(),
            ButtplugSpecV0ClientMessage::StartScanning(msg) => msg.valid(),
            ButtplugSpecV0ClientMessage::StopScanning(msg) => msg.valid(),
            ButtplugSpecV0ClientMessage::RequestDeviceList(msg) => msg.valid(),
            ButtplugSpecV0ClientMessage::StopAllDevices(msg) => msg.valid(),
            ButtplugSpecV0ClientMessage::StopDeviceCmd(msg) => msg.valid(),
            ButtplugSpecV0ClientMessage::SingleMotorVibrateCmd(msg) => msg.valid(),
            ButtplugSpecV0ClientMessage::FleshlightLaunchFW12Cmd(msg) => msg.valid(),
            ButtplugSpecV0ClientMessage::LovenseCmd(msg) => msg.valid(),
            ButtplugSpecV0ClientMessage::KiirooCmd(msg) => msg.valid(),
            ButtplugSpecV0ClientMessage::VorzeA10CycloneCmd(msg) => msg.valid(),
        }
    }

    open spec fn rejection(&self) -> Seq<char> {
        match self {
            ButtplugSpecV0ClientMessage::RequestLog(msg) => msg.rejection(),
            ButtplugSpecV0ClientMessage::Ping(msg) => msg.rejection(),
            ButtplugSpecV0ClientMessage::RequestServerInfo(msg) => msg.rejection(),
            ButtplugSpecV0ClientMessage::StartScanning(msg) => msg.rejection(),
            ButtplugSpecV0ClientMessage::StopScanning(msg) => msg.rejection(),
            ButtplugSpecV0ClientMessage::RequestDeviceList(msg) => msg.rejection(),
            ButtplugSpecV0ClientMessage::StopAllDevices(msg) => msg.rejection(),
            ButtplugSpecV0ClientMessage::StopDeviceCmd(msg) => msg.rejection(),
            ButtplugSpecV0ClientMessage::SingleMotorVibrateCmd(msg) => msg.rejection(),
            ButtplugSpecV0ClientMessage::FleshlightLaunchFW12Cmd(msg) => msg.rejection(),
            ButtplugSpecV0ClientMessage::LovenseCmd(msg) => msg.rejection(),
            ButtplugSpecV0ClientMessage::KiirooCmd(msg) => msg.rejection(),
            ButtplugSpecV0ClientMessage::VorzeA10CycloneCmd(msg) => msg.rejection(),
        }
    }

    fn is_valid(&self) -> (r: Result<(), ButtplugMessageError>) {
        match self {
            ButtplugSpecV0ClientMessage::RequestLog(msg) => msg.is_valid(),
            ButtplugSpecV0ClientMessage::Ping(msg) => msg.is_valid(),
            ButtplugSpecV0ClientMessage::RequestServerInfo(msg) => msg.is_valid(),
            ButtplugSpecV0ClientMessage::StartScanning(msg) => msg.is_valid(),
            ButtplugSpecV0ClientMessage::StopScanning(msg) => msg.is_valid(),
            ButtplugSpecV0ClientMessage::RequestDeviceList(msg) => msg.is_valid(),
            ButtplugSpecV0ClientMessage::StopAllDevices(msg) => msg.is_valid(),
            ButtplugSpecV0ClientMessage::StopDeviceCmd(msg) => msg.is_valid(),
            ButtplugSpecV0ClientMessage::SingleMotorVibrateCmd(msg) => msg.is_valid(),
            ButtplugSpecV0ClientMessage::FleshlightLaunchFW12Cmd(msg) => msg.is_valid(),
            ButtplugSpecV0ClientMessage::LovenseCmd(msg) => msg.is_valid(),
            ButtplugSpecV0ClientMessage::KiirooCmd(msg) => msg.is_valid(),
            ButtplugSpecV0ClientMessage::VorzeA10CycloneCmd(msg) => msg.is_valid(),
        }
    }
}

impl ButtplugMessage for ButtplugSpecV0ClientMessage {
    open spec fn message_id(&self) -> u32 {
        match self {
            ButtplugSpecV0ClientMessage::RequestLog(msg) => msg.message_id(),
            ButtplugSpecV0ClientMessage::Ping(msg) => msg.message_id(),
            ButtplugSpecV0ClientMessage::RequestServerInfo(msg) => msg.message_id(),
            ButtplugSpecV0ClientMessage::StartScanning(msg) => msg.message_id(),
            ButtplugSpecV0ClientMessage::StopScanning(msg) => msg.message_id(),
            ButtplugSpecV0ClientMessage::RequestDeviceList(msg) => msg.message_id(),
            ButtplugSpecV0ClientMessage::StopAllDevices(msg) => msg.message_id(),
            ButtplugSpecV0ClientMessage::StopDeviceCmd(msg) => msg.message_id(),
            ButtplugSpecV0ClientMessage::SingleMotorVibrateCmd(msg) => msg.message_id(),
            ButtplugSpecV0ClientMessage::FleshlightLaunchFW12Cmd(msg) => msg.message_id(),
            ButtplugSpecV0ClientMessage::LovenseCmd(msg) => msg.message_id(),
            ButtplugSpecV0ClientMessage::KiirooCmd(msg) => msg.message_id(),
            ButtplugSpecV0ClientMessage::VorzeA10CycloneCmd(msg) => msg.message_id(),
        }
    }

    fn id(&self) -> (r: u32) {
        match self {
            ButtplugSpecV0ClientMessage::RequestLog(msg) => msg.id(),
            ButtplugSpecV0ClientMessage::Ping(msg) => msg.id(),
            ButtplugSpecV0ClientMessage::RequestServerInfo(msg) => msg.id(),
            ButtplugSpecV0ClientMessage::StartScanning(msg) => msg.id(),
            ButtplugSpecV0ClientMessage::StopScanning(msg) => msg.id(),
            ButtplugSpecV0ClientMessage::RequestDeviceList(msg) => msg.id(),
            ButtplugSpecV0ClientMessage::StopAllDevices(msg) => msg.id(),
            ButtplugSpecV0ClientMessage::StopDeviceCmd(msg) => msg.id(),
            ButtplugSpecV0ClientMessage::SingleMotorVibrateCmd(msg) => msg.id(),
            ButtplugSpecV0ClientMessage::FleshlightLaunchFW12Cmd(msg) => msg.id(),
            ButtplugSpecV0ClientMessage::LovenseCmd(msg) => msg.id(),
            ButtplugSpecV0ClientMessage::KiirooCmd(msg) => msg.id(),
            ButtplugSpecV0ClientMessage::VorzeA10CycloneCmd(msg) => msg.id(),
        }
    }

    fn set_id(&mut self, id: u32)
        ensures
            final(self).with_id_of(*old(self), id),
    {
        match self {
            ButtplugSpecV0ClientMessage::RequestLog(msg) => msg.set_id(id),
            ButtplugSpecV0ClientMessage::Ping(msg) => msg.set_id(id),
            ButtplugSpecV0ClientMessage::RequestServerInfo(msg) => msg.set_id(id),
            ButtplugSpecV0ClientMessage::StartScanning(msg) => msg.set_id(id),
            ButtplugSpecV0ClientMessage::StopScanning(msg) => msg.set_id(id),
            ButtplugSpecV0ClientMessage::RequestDeviceList(msg) => msg.set_id(id),
            ButtplugSpecV0ClientMessage::StopAllDevices(msg) => msg.set_id(id),
            ButtplugSpecV0ClientMessage::StopDeviceCmd(msg) => msg.set_id(id),
            ButtplugSpecV0ClientMessage::SingleMotorVibrateCmd(msg) => msg.set_id(id),
            ButtplugSpecV0ClientMessage::FleshlightLaunchFW12Cmd(msg) => msg.set_id(id),
            ButtplugSpecV0ClientMessage::LovenseCmd(msg) => msg.set_id(id),
            ButtplugSpecV0ClientMessage::KiirooCmd(msg) => msg.set_id(id),
            ButtplugSpecV0ClientMessage::VorzeA10CycloneCmd(msg) => msg.set_id(id),
        }
    }
}

impl ButtplugClientMessageType for ButtplugSpecV0ClientMessage {

}

impl ButtplugSpecV0ClientMessage {
    /// The message as a message of this set, if the set has its type.
    pub open spec fn narrowed(msg: ButtplugClientMessage) -> Option<ButtplugSpecV0ClientMessage> {
        match msg {
            ButtplugClientMessage::RequestLog(msg) => {
                Some(ButtplugSpecV0ClientMessage::RequestLog(msg))
            },
            ButtplugClientMessage::Ping(msg) => Some(ButtplugSpecV0ClientMessage::Ping(msg)),
            ButtplugClientMessage::RequestServerInfo(msg) => {
                Some(ButtplugSpecV0ClientMessage::RequestServerInfo(msg))
            },
            ButtplugClientMessage::StartScanning(msg) => {
                Some(ButtplugSpecV0ClientMessage::StartScanning(msg))
            },
            ButtplugClientMessage::StopScanning(msg) => {
                Some(ButtplugSpecV0ClientMessage::StopScanning(msg))
            },
            ButtplugClientMessage::RequestDeviceList(msg) => {
                Some(ButtplugSpecV0ClientMessage::RequestDeviceList(msg))
            },
            ButtplugClientMessage::StopAllDevices(msg) => {
                Some(ButtplugSpecV0ClientMessage::StopAllDevices(msg))
            },
            ButtplugClientMessage::StopDeviceCmd(msg) => {
                Some(ButtplugSpecV0ClientMessage::StopDeviceCmd(msg))
            },
            ButtplugClientMessage::SingleMotorVibrateCmd(msg) => {
                Some(ButtplugSpecV0ClientMessage::SingleMotorVibrateCmd(msg))
            },
            ButtplugClientMessage::FleshlightLaunchFW12Cmd(msg) => {
                Some(ButtplugSpecV0ClientMessage::FleshlightLaunchFW12Cmd(msg))
            },
            ButtplugClientMessage::LovenseCmd(msg) => {
                Some(ButtplugSpecV0ClientMessage::LovenseCmd(msg))
            },
            ButtplugClientMessage::KiirooCmd(msg) => {
                Some(ButtplugSpecV0ClientMessage::KiirooCmd(msg))
            },
            ButtplugClientMessage::VorzeA10CycloneCmd(msg) => {
                Some(ButtplugSpecV0ClientMessage::VorzeA10CycloneCmd(msg))
            },
            _ => None,
        }
    }

    /// The message as a message of the uniform set.
    pub open spec fn widened(self) -> ButtplugClientMessage {
        match self {
            ButtplugSpecV0ClientMessage::RequestLog(msg) => ButtplugClientMessage::RequestLog(msg),
            ButtplugSpecV0ClientMessage::Ping(msg) => ButtplugClientMessage::Ping(msg),
            ButtplugSpecV0ClientMessage::RequestServerInfo(msg) => {
                ButtplugClientMessage::RequestServerInfo(msg)
            },
            ButtplugSpecV0ClientMessage::StartScanning(msg) => {
                ButtplugClientMessage::StartScanning(msg)
            },
            ButtplugSpecV0ClientMessage::StopScanning(msg) => {
                ButtplugClientMessage::StopScanning(msg)
            },
            ButtplugSpecV0ClientMessage::RequestDeviceList(msg) => {
                ButtplugClientMessage::RequestDeviceList(msg)
            },
            ButtplugSpecV0ClientMessage::StopAllDevices(msg) => {
                ButtplugClientMessage::StopAllDevices(msg)
            },
            ButtplugSpecV0ClientMessage::StopDeviceCmd(msg) => {
                ButtplugClientMessage::StopDeviceCmd(msg)
            },
            ButtplugSpecV0ClientMessage::SingleMotorVibrateCmd(msg) => {
                ButtplugClientMessage::SingleMotorVibrateCmd(msg)
            },
            ButtplugSpecV0ClientMessage::FleshlightLaunchFW12Cmd(msg) => {
                ButtplugClientMessage::FleshlightLaunchFW12Cmd(msg)
            },
            ButtplugSpecV0ClientMessage::LovenseCmd(msg) => ButtplugClientMessage::LovenseCmd(msg),
            ButtplugSpecV0ClientMessage::KiirooCmd(msg) => ButtplugClientMessage::KiirooCmd(msg),
            ButtplugSpecV0ClientMessage::VorzeA10CycloneCmd(msg) => {
                ButtplugClientMessage::VorzeA10CycloneCmd(msg)
            },
        }
    }

    /// Takes a message of the uniform set into this set. Fails with a version
    /// error, which names both sets, on a message whose type this set lacks.
    pub fn try_from(
        msg: ButtplugClientMessage,
    ) -> (r: Result<ButtplugSpecV0ClientMessage, ButtplugMessageError>)
        ensures
            r matches Ok(m) ==> Some(m) == Self::narrowed(msg),
            r is Err <==> Self::narrowed(msg) is None,
            r matches Err(e) ==> is_version_error(
                e,
                "ButtplugClientMessage"@,
                "ButtplugSpecV0ClientMessage"@,
            ),
    {
        match msg {
            ButtplugClientMessage::RequestLog(msg) => {
                Ok(ButtplugSpecV0ClientMessage::RequestLog(msg))
            },
            ButtplugClientMessage::Ping(msg) => Ok(ButtplugSpecV0ClientMessage::Ping(msg)),
            ButtplugClientMessage::RequestServerInfo(msg) => {
                Ok(ButtplugSpecV0ClientMessage::RequestServerInfo(msg))
            },
            ButtplugClientMessage::StartScanning(msg) => {
                Ok(ButtplugSpecV0ClientMessage::StartScanning(msg))
            },
            ButtplugClientMessage::StopScanning(msg) => {
                Ok(ButtplugSpecV0ClientMessage::StopScanning(msg))
            },
            ButtplugClientMessage::RequestDeviceList(msg) => {
                Ok(ButtplugSpecV0ClientMessage::RequestDeviceList(msg))
            },
            ButtplugClientMessage::StopAllDevices(msg) => {
                Ok(ButtplugSpecV0ClientMessage::StopAllDevices(msg))
            },
            ButtplugClientMessage::StopDeviceCmd(msg) => {
                Ok(ButtplugSpecV0ClientMessage::StopDeviceCmd(msg))
            },
            ButtplugClientMessage::SingleMotorVibrateCmd(msg) => {
                Ok(ButtplugSpecV0ClientMessage::SingleMotorVibrateCmd(msg))
            },
            ButtplugClientMessage::FleshlightLaunchFW12Cmd(msg) => {
                Ok(ButtplugSpecV0ClientMessage::FleshlightLaunchFW12Cmd(msg))
            },
            ButtplugClientMessage::LovenseCmd(msg) => {
                Ok(ButtplugSpecV0ClientMessage::LovenseCmd(msg))
            },
            ButtplugClientMessage::KiirooCmd(msg) => {
                Ok(ButtplugSpecV0ClientMessage::KiirooCmd(msg))
            },
            ButtplugClientMessage::VorzeA10CycloneCmd(msg) => {
                Ok(ButtplugSpecV0ClientMessage::VorzeA10CycloneCmd(msg))
            },
            other => Err(
                ButtplugMessageError::VersionError(
                    String::from_str("ButtplugClientMessage"),
                    debug_text(&other),
                    String::from_str("ButtplugSpecV0ClientMessage"),
                ),
            ),
        }
    }

    /// Takes a message of this set into the uniform set.
    pub fn widen(self) -> (r: ButtplugClientMessage)
        ensures
            r == self.widened(),
    {
        match self {
            ButtplugSpecV0ClientMessage::RequestLog(msg) => ButtplugClientMessage::RequestLog(msg),
            ButtplugSpecV0ClientMessage::Ping(msg) => ButtplugClientMessage::Ping(msg),
            ButtplugSpecV0ClientMessage::RequestServerInfo(msg) => {
                ButtplugClientMessage::RequestServerInfo(msg)
            },
            ButtplugSpecV0ClientMessage::StartScanning(msg) => {
                ButtplugClientMessage::StartScanning(msg)
            },
            ButtplugSpecV0ClientMessage::StopScanning(msg) => {
                ButtplugClientMessage::StopScanning(msg)
            },
            ButtplugSpecV0ClientMessage::RequestDeviceList(msg) => {
                ButtplugClientMessage::RequestDeviceList(msg)
            },
            ButtplugSpecV0ClientMessage::StopAllDevices(msg) => {
                ButtplugClientMessage::StopAllDevices(msg)
            },
            ButtplugSpecV0ClientMessage::StopDeviceCmd(msg) => {
                ButtplugClientMessage::StopDeviceCmd(msg)
            },
            ButtplugSpecV0ClientMessage::SingleMotorVibrateCmd(msg) => {
                ButtplugClientMessage::SingleMotorVibrateCmd(msg)
            },
            ButtplugSpecV0ClientMessage::FleshlightLaunchFW12Cmd(msg) => {
                ButtplugClientMessage::FleshlightLaunchFW12Cmd(msg)
            },
            ButtplugSpecV0ClientMessage::LovenseCmd(msg) => ButtplugClientMessage::LovenseCmd(msg),
            ButtplugSpecV0ClientMessage::KiirooCmd(msg) => ButtplugClientMessage::KiirooCmd(msg),
            ButtplugSpecV0ClientMessage::VorzeA10CycloneCmd(msg) => {
                ButtplugClientMessage::VorzeA10CycloneCmd(msg)
            },
        }
    }

    /// Widening a message and taking it back gives the message again.
    pub proof fn lemma_widen_then_narrow(self)
        ensures
            Self::narrowed(self.widened()) == Some(self),
    {
    }
}

/// The messages that a server sends to a client of version 0.
#[derive(Debug, Clone, PartialEq)]
pub enum ButtplugSpecV0ServerMessage {
    OkV0(OkV0),
    Error(ErrorV0),
    Log(Log),
    ServerInfo(ServerInfoV0),
    DeviceList(DeviceListV0),
    DeviceAdded(DeviceAddedV0),
    DeviceRemoved(DeviceRemoved),
    ScanningFinished(ScanningFinished),
}

impl ButtplugSpecV0ServerMessage {
    /// Whether `self` is `before` with its id replaced by `id`.
    pub open spec fn with_id_of(self, before: ButtplugSpecV0ServerMessage, id: u32) -> bool {
        match before {
            ButtplugSpecV0ServerMessage::OkV0(msg) => {
                self == ButtplugSpecV0ServerMessage::OkV0(OkV0 { id, ..msg })
            },
            ButtplugSpecV0ServerMessage::Error(msg) => {
                self == ButtplugSpecV0ServerMessage::Error(ErrorV0 { id, ..msg })
            },
            ButtplugSpecV0ServerMessage::Log(msg) => {
                self == ButtplugSpecV0ServerMessage::Log(Log { id, ..msg })
            },
            ButtplugSpecV0ServerMessage::ServerInfo(msg) => {
                self == ButtplugSpecV0ServerMessage::ServerInfo(ServerInfoV0 { id, ..msg })
            },
            ButtplugSpecV0ServerMessage::DeviceList(msg) => {
                self == ButtplugSpecV0ServerMessage::DeviceList(DeviceListV0 { id, ..msg })
            },
            ButtplugSpecV0ServerMessage::DeviceAdded(msg) => {
                self == ButtplugSpecV0ServerMessage::DeviceAdded(DeviceAddedV0 { id, ..msg })
            },
            ButtplugSpecV0ServerMessage::DeviceRemoved(msg) => {
                self == ButtplugSpecV0ServerMessage::DeviceRemoved(DeviceRemoved { id, ..msg })
            },
            ButtplugSpecV0ServerMessage::ScanningFinished(msg) => {
                self == ButtplugSpecV0ServerMessage::ScanningFinished(
                    ScanningFinished { id, ..msg },
                )
            },
        }
    }
}

impl ButtplugMessageFinalizer for ButtplugSpecV0ServerMessage {
    fn finalize(&mut self)
        ensures
            *final(self) == *old(self),
    {
    }
}

impl ButtplugMessageValidator for ButtplugSpecV0ServerMessage {
    open spec fn valid(&self) -> bool {
        match self {
            ButtplugSpecV0ServerMessage::OkV0(msg) => msg.valid(),
            ButtplugSpecV0ServerMessage::Error(msg) => msg.valid(),
            ButtplugSpecV0ServerMessage::Log(msg) => msg.valid(),
            ButtplugSpecV0ServerMessage::ServerInfo(msg) => msg.valid(),
            ButtplugSpecV0ServerMessage::DeviceList(msg) => msg.valid(),
            ButtplugSpecV0ServerMessage::DeviceAdded(msg) => msg.valid(),
            ButtplugSpecV0ServerMessage::DeviceRemoved(msg) => msg.valid(),
            ButtplugSpecV0ServerMessage::ScanningFinished(msg) => msg.valid(),
        }
    }

    open spec fn rejection(&self) -> Seq<char> {
        match self {
            ButtplugSpecV0ServerMessage::OkV0(msg) => msg.rejection(),
            ButtplugSpecV0ServerMessage::Error(msg) => msg.rejection(),
            ButtplugSpecV0ServerMessage::Log(msg) => msg.rejection(),
            ButtplugSpecV0ServerMessage::ServerInfo(msg) => msg.rejection(),
            ButtplugSpecV0ServerMessage::DeviceList(msg) => msg.rejection(),
            ButtplugSpecV0ServerMessage::DeviceAdded(msg) => msg.rejection(),
            ButtplugSpecV0ServerMessage::DeviceRemoved(msg) => msg.rejection(),
            ButtplugSpecV0ServerMessage::ScanningFinished(msg) => msg.rejection(),
        }
    }

    fn is_valid(&self) -> (r: Result<(), ButtplugMessageError>) {
        match self {
            ButtplugSpecV0ServerMessage::OkV0(msg) => msg.is_valid(),
            ButtplugSpecV0ServerMessage::Error(msg) => msg.is_valid(),
            ButtplugSpecV0ServerMessage::Log(msg) => msg.is_valid(),
            ButtplugSpecV0ServerMessage::ServerInfo(msg) => msg.is_valid(),
            ButtplugSpecV0ServerMessage::DeviceList(msg) => msg.is_valid(),
            ButtplugSpecV0ServerMessage::DeviceAdded(msg) => msg.is_valid(),
            ButtplugSpecV0ServerMessage::DeviceRemoved(msg) => msg.is_valid(),
            ButtplugSpecV0ServerMessage::ScanningFinished(msg) => msg.is_valid(),
        }
    }
}

impl ButtplugMessage for ButtplugSpecV0ServerMessage {
    open spec fn message_id(&self) -> u32 {
        match self {
            ButtplugSpecV0ServerMessage::OkV0(msg) => msg.message_id(),
            ButtplugSpecV0ServerMessage::Error(msg) => msg.message_id(),
            ButtplugSpecV0ServerMessage::Log(msg) => msg.message_id(),
            ButtplugSpecV0ServerMessage::ServerInfo(msg) => msg.message_id(),
            ButtplugSpecV0ServerMessage::DeviceList(msg) => msg.message_id(),
            ButtplugSpecV0ServerMessage::DeviceAdded(msg) => msg.message_id(),
            ButtplugSpecV0ServerMessage::DeviceRemoved(msg) => msg.message_id(),
            ButtplugSpecV0ServerMessage::ScanningFinished(msg) => msg.message_id(),
        }
    }

    fn id(&self) -> (r: u32) {
        match self {
            ButtplugSpecV0ServerMessage::OkV0(msg) => msg.id(),
            ButtplugSpecV0ServerMessage::Error(msg) => msg.id(),
            ButtplugSpecV0ServerMessage::Log(msg) => msg.id(),
            ButtplugSpecV0ServerMessage::ServerInfo(msg) => msg.id(),
            ButtplugSpecV0ServerMessage::DeviceList(msg) => msg.id(),
            ButtplugSpecV0ServerMessage::DeviceAdded(msg) => msg.id(),
            ButtplugSpecV0ServerMessage::DeviceRemoved(msg) => msg.id(),
            ButtplugSpecV0ServerMessage::ScanningFinished(msg) => msg.id(),
        }
    }

    fn set_id(&mut self, id: u32)
        ensures
            final(self).with_id_of(*old(self), id),
    {
        match self {
            ButtplugSpecV0ServerMessage::OkV0(msg) => msg.set_id(id),
            ButtplugSpecV0ServerMessage::Error(msg) => msg.set_id(id),
            ButtplugSpecV0ServerMessage::Log(msg) => msg.set_id(id),
            ButtplugSpecV0ServerMessage::ServerInfo(msg) => msg.set_id(id),
            ButtplugSpecV0ServerMessage::DeviceList(msg) => msg.set_id(id),
            ButtplugSpecV0ServerMessage::DeviceAdded(msg) => msg.set_id(id),
            ButtplugSpecV0ServerMessage::DeviceRemoved(msg) => msg.set_id(id),
            ButtplugSpecV0ServerMessage::ScanningFinished(msg) => msg.set_id(id),
        }
    }
}

impl ButtplugServerMessageType for ButtplugSpecV0ServerMessage {

}

impl ButtplugSpecV0ServerMessage {
    /// Whether version 0 has a message of the type of `msg`.
    pub open spec fn has_counterpart(msg: ButtplugServerMessage) -> bool {
        match msg {
            ButtplugServerMessage::OkV0(_) => true,
            ButtplugServerMessage::Error(_) => true,
            ButtplugServerMessage::Log(_) => true,
            ButtplugServerMessage::ServerInfo(_) => true,
            ButtplugServerMessage::DeviceList(_) => true,
            ButtplugServerMessage::DeviceAdded(_) => true,
            ButtplugServerMessage::DeviceRemoved(_) => true,
            ButtplugServerMessage::ScanningFinished(_) => true,
            _ => false,
        }
    }

    /// Whether `r` is `msg` in the terms of version 0: the same message where
    /// the type has not changed, and where it has, the message that says as
    /// much of what `msg` says as version 0 can say.
    pub open spec fn downgrades(
        msg: ButtplugServerMessage,
        r: ButtplugSpecV0ServerMessage,
    ) -> bool {
        match msg {
            ButtplugServerMessage::OkV0(msg) => r == ButtplugSpecV0ServerMessage::OkV0(msg),
            ButtplugServerMessage::Error(msg) => {
                r == ButtplugSpecV0ServerMessage::Error(ErrorV0::downgraded(msg))
            },
            ButtplugServerMessage::Log(msg) => r == ButtplugSpecV0ServerMessage::Log(msg),
            ButtplugServerMessage::ServerInfo(msg) => {
                r == ButtplugSpecV0ServerMessage::ServerInfo(ServerInfoV0::downgraded(msg))
            },
            ButtplugServerMessage::DeviceList(msg) => {
                r matches ButtplugSpecV0ServerMessage::DeviceList(list)
                    && list.downgraded_from_v3(msg)
            },
            ButtplugServerMessage::DeviceAdded(msg) => r matches ButtplugSpecV0ServerMessage::DeviceAdded(added) && added.id == msg.id
                && added.info().downgraded_from_v3(msg.info()),
            ButtplugServerMessage::DeviceRemoved(msg) => {
                r == ButtplugSpecV0ServerMessage::DeviceRemoved(msg)
            },
            ButtplugServerMessage::ScanningFinished(msg) => {
                r == ButtplugSpecV0ServerMessage::ScanningFinished(msg)
            },
            _ => false,
        }
    }

    /// Takes a message of the server into version 0. Fails with a version
    /// error, which names both sets, on a message whose type version 0 lacks.
    pub fn try_from(
        msg: ButtplugServerMessage,
    ) -> (r: Result<ButtplugSpecV0ServerMessage, ButtplugMessageError>)
        ensures
            Self::has_counterpart(msg) ==> (r matches Ok(m) && Self::downgrades(msg, m)),
            !Self::has_counterpart(msg) ==> (r matches Err(e) && is_version_error(
                e,
                "ButtplugServerMessage"@,
                "ButtplugSpecV0ServerMessage"@,
            )),
    {
        match msg {
            ButtplugServerMessage::OkV0(msg) => Ok(ButtplugSpecV0ServerMessage::OkV0(msg)),
            ButtplugServerMessage::Error(msg) => {
                Ok(ButtplugSpecV0ServerMessage::Error(ErrorV0::from(msg)))
            },
            ButtplugServerMessage::Log(msg) => Ok(ButtplugSpecV0ServerMessage::Log(msg)),
            ButtplugServerMessage::ServerInfo(msg) => {
                Ok(ButtplugSpecV0ServerMessage::ServerInfo(ServerInfoV0::from(msg)))
            },
            ButtplugServerMessage::DeviceList(msg) => {
                Ok(ButtplugSpecV0ServerMessage::DeviceList(DeviceListV0::from_v3(msg)))
            },
            ButtplugServerMessage::DeviceAdded(msg) => {
                Ok(ButtplugSpecV0ServerMessage::DeviceAdded(DeviceAddedV0::from_v3(msg)))
            },
            ButtplugServerMessage::DeviceRemoved(msg) => {
                Ok(ButtplugSpecV0ServerMessage::DeviceRemoved(msg))
            },
            ButtplugServerMessage::ScanningFinished(msg) => {
                Ok(ButtplugSpecV0ServerMessage::ScanningFinished(msg))
            },
            other => Err(
                ButtplugMessageError::VersionError(
                    String::from_str("ButtplugServerMessage"),
                    debug_text(&other),
                    String::from_str("ButtplugSpecV0ServerMessage"),
                ),
            ),
        }
    }
}

} // verus!
