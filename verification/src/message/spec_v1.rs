//! Version 1 of the schema.

use vstd::prelude::*;
use vstd::string::StringExecFns;
use crate::errors::ButtplugMessageError;
use crate::message::{
    ButtplugMessage, ButtplugMessageFinalizer, ButtplugMessageValidator, ButtplugClientMessageType,
    ButtplugServerMessageType,
};
use crate::message::{
    DeviceAddedV1, DeviceListV1, DeviceRemoved, ErrorV0, FleshlightLaunchFW12Cmd, KiirooCmd,
    LinearCmd, Log, LovenseCmd, OkV0, Ping, RequestDeviceList, RequestServerInfo, RotateCmd,
    ScanningFinished, ServerInfoV0, SingleMotorVibrateCmd, StartScanning, StopAllDevices,
    StopDeviceCmd, StopScanning, VibrateCmd, VorzeA10CycloneCmd,
};
use crate::message::client_message::{ButtplugClientMessage, is_version_error};
use crate::text::debug_text;
use crate::message::server_message::ButtplugServerMessage;

verus! {

/// The messages that a client of version 1 can send.
#[derive(Debug, Clone, PartialEq)]
pub enum ButtplugSpecV1ClientMessage {
    RequestServerInfo(RequestServerInfo),
    Ping(Ping),
    StartScanning(StartScanning),
    StopScanning(StopScanning),
    RequestDeviceList(RequestDeviceList),
    StopAllDevices(StopAllDevices),
    VibrateCmd(VibrateCmd),
    LinearCmd(LinearCmd),
    RotateCmd(RotateCmd),
    StopDeviceCmd(StopDeviceCmd),
    SingleMotorVibrateCmd(SingleMotorVibrateCmd),
    FleshlightLaunchFW12Cmd(FleshlightLaunchFW12Cmd),
    LovenseCmd(LovenseCmd),
    KiirooCmd(KiirooCmd),
    VorzeA10CycloneCmd(VorzeA10CycloneCmd),
}

impl ButtplugSpecV1ClientMessage {
    /// Whether `self` is `before` with its id replaced by `id`.
    pub open spec fn with_id_of(self, before: ButtplugSpecV1ClientMessage, id: u32) -> bool {
        match before {
            ButtplugSpecV1ClientMessage::RequestServerInfo(msg) => {
                self == ButtplugSpecV1ClientMessage::RequestServerInfo(
                    RequestServerInfo { id, ..msg },
                )
            },
            ButtplugSpecV1ClientMessage::Ping(msg) => {
                self == ButtplugSpecV1ClientMessage::Ping(Ping { id, ..msg })
            },
            ButtplugSpecV1ClientMessage::StartScanning(msg) => {
                self == ButtplugSpecV1ClientMessage::StartScanning(StartScanning { id, ..msg })
            },
            ButtplugSpecV1ClientMessage::StopScanning(msg) => {
                self == ButtplugSpecV1ClientMessage::StopScanning(StopScanning { id, ..msg })
            },
            ButtplugSpecV1ClientMessage::RequestDeviceList(msg) => {
                self == ButtplugSpecV1ClientMessage::RequestDeviceList(
                    RequestDeviceList { id, ..msg },
                )
            },
            ButtplugSpecV1ClientMessage::StopAllDevices(msg) => {
                self == ButtplugSpecV1ClientMessage::StopAllDevices(StopAllDevices { id, ..msg })
            },
            ButtplugSpecV1ClientMessage::VibrateCmd(msg) => {
                self == ButtplugSpecV1ClientMessage::VibrateCmd(VibrateCmd { id, ..msg })
            },
            ButtplugSpecV1ClientMessage::LinearCmd(msg) => {
                self == ButtplugSpecV1ClientMessage::LinearCmd(LinearCmd { id, ..msg })
            },
            ButtplugSpecV1ClientMessage::RotateCmd(msg) => {
                self == ButtplugSpecV1ClientMessage::RotateCmd(RotateCmd { id, ..msg })
            },
            ButtplugSpecV1ClientMessage::StopDeviceCmd(msg) => {
                self == ButtplugSpecV1ClientMessage::StopDeviceCmd(StopDeviceCmd { id, ..msg })
            },
            ButtplugSpecV1ClientMessage::SingleMotorVibrateCmd(msg) => {
                self == ButtplugSpecV1ClientMessage::SingleMotorVibrateCmd(
                    SingleMotorVibrateCmd { id, ..msg },
                )
            },
            ButtplugSpecV1ClientMessage::FleshlightLaunchFW12Cmd(msg) => {
                self == ButtplugSpecV1ClientMessage::FleshlightLaunchFW12Cmd(
                    FleshlightLaunchFW12Cmd { id, ..msg },
                )
            },
            ButtplugSpecV1ClientMessage::LovenseCmd(msg) => {
                self == ButtplugSpecV1ClientMessage::LovenseCmd(LovenseCmd { id, ..msg })
            },
            ButtplugSpecV1ClientMessage::KiirooCmd(msg) => {
                self == ButtplugSpecV1ClientMessage::KiirooCmd(KiirooCmd { id, ..msg })
            },
            ButtplugSpecV1ClientMessage::VorzeA10CycloneCmd(msg) => {
                self == ButtplugSpecV1ClientMessage::VorzeA10CycloneCmd(
                    VorzeA10CycloneCmd { id, ..msg },
                )
            },
        }
    }
}

impl ButtplugMessageFinalizer for ButtplugSpecV1ClientMessage {
    fn finalize(&mut self)
        ensures
            *final(self) == *old(self),
    {
    }
}

impl ButtplugMessageValidator for ButtplugSpecV1ClientMessage {
    open spec fn valid(&self) -> bool {
        match self {
            ButtplugSpecV1ClientMessage::RequestServerInfo(msg) => msg.valid(),
            ButtplugSpecV1ClientMessage::Ping(msg) => msg.valid(),
            ButtplugSpecV1ClientMessage::StartScanning(msg) => msg.valid(),
            ButtplugSpecV1ClientMessage::StopScanning(msg) => msg.valid(),
            ButtplugSpecV1ClientMessage::RequestDeviceList(msg) => msg.valid(),
            ButtplugSpecV1ClientMessage::StopAllDevices(msg) => msg.valid(),
            ButtplugSpecV1ClientMessage::VibrateCmd(msg) => msg.valid(),
            ButtplugSpecV1ClientMessage::LinearCmd(msg) => msg.valid(),
            ButtplugSpecV1ClientMessage::RotateCmd(msg) => msg.valid(),
            ButtplugSpecV1ClientMessage::StopDeviceCmd(msg) => msg.valid(),
            ButtplugSpecV1ClientMessage::SingleMotorVibrateCmd(msg) => msg.valid(),
            ButtplugSpecV1ClientMessage::FleshlightLaunchFW12Cmd(msg) => msg.valid(),
            ButtplugSpecV1ClientMessage::LovenseCmd(msg) => msg.valid(),
            ButtplugSpecV1ClientMessage::KiirooCmd(msg) => msg.valid(),
            ButtplugSpecV1ClientMessage::VorzeA10CycloneCmd(msg) => msg.valid(),
        }
    }

    open spec fn rejection(&self) -> Seq<char> {
        match self {
            ButtplugSpecV1ClientMessage::RequestServerInfo(msg) => msg.rejection(),
            ButtplugSpecV1ClientMessage::Ping(msg) => msg.rejection(),
            ButtplugSpecV1ClientMessage::StartScanning(msg) => msg.rejection(),
            ButtplugSpecV1ClientMessage::StopScanning(msg) => msg.rejection(),
            ButtplugSpecV1ClientMessage::RequestDeviceList(msg) => msg.rejection(),
            ButtplugSpecV1ClientMessage::StopAllDevices(msg) => msg.rejection(),
            ButtplugSpecV1ClientMessage::VibrateCmd(msg) => msg.rejection(),
            ButtplugSpecV1ClientMessage::LinearCmd(msg) => msg.rejection(),
            ButtplugSpecV1ClientMessage::RotateCmd(msg) => msg.rejection(),
            ButtplugSpecV1ClientMessage::StopDeviceCmd(msg) => msg.rejection(),
            ButtplugSpecV1ClientMessage::SingleMotorVibrateCmd(msg) => msg.rejection(),
            ButtplugSpecV1ClientMessage::FleshlightLaunchFW12Cmd(msg) => msg.rejection(),
            ButtplugSpecV1ClientMessage::LovenseCmd(msg) => msg.rejection(),
            ButtplugSpecV1ClientMessage::KiirooCmd(msg) => msg.rejection(),
            ButtplugSpecV1ClientMessage::VorzeA10CycloneCmd(msg) => msg.rejection(),
        }
    }

    fn is_valid(&self) -> (r: Result<(), ButtplugMessageError>) {
        match self {
            ButtplugSpecV1ClientMessage::RequestServerInfo(msg) => msg.is_valid(),
            ButtplugSpecV1ClientMessage::Ping(msg) => msg.is_valid(),
            ButtplugSpecV1ClientMessage::StartScanning(msg) => msg.is_valid(),
            ButtplugSpecV1ClientMessage::StopScanning(msg) => msg.is_valid(),
            ButtplugSpecV1ClientMessage::RequestDeviceList(msg) => msg.is_valid(),
            ButtplugSpecV1ClientMessage::StopAllDevices(msg) => msg.is_valid(),
            ButtplugSpecV1ClientMessage::VibrateCmd(msg) => msg.is_valid(),
            ButtplugSpecV1ClientMessage::LinearCmd(msg) => msg.is_valid(),
            ButtplugSpecV1ClientMessage::RotateCmd(msg) => msg.is_valid(),
            ButtplugSpecV1ClientMessage::StopDeviceCmd(msg) => msg.is_valid(),
            ButtplugSpecV1ClientMessage::SingleMotorVibrateCmd(msg) => msg.is_valid(),
            ButtplugSpecV1ClientMessage::FleshlightLaunchFW12Cmd(msg) => msg.is_valid(),
            ButtplugSpecV1ClientMessage::LovenseCmd(msg) => msg.is_valid(),
            ButtplugSpecV1ClientMessage::KiirooCmd(msg) => msg.is_valid(),
            ButtplugSpecV1ClientMessage::VorzeA10CycloneCmd(msg) => msg.is_valid(),
        }
    }
}

impl ButtplugMessage for ButtplugSpecV1ClientMessage {
    open spec fn message_id(&self) -> u32 {
        match self {
            ButtplugSpecV1ClientMessage::RequestServerInfo(msg) => msg.message_id(),
            ButtplugSpecV1ClientMessage::Ping(msg) => msg.message_id(),
            ButtplugSpecV1ClientMessage::StartScanning(msg) => msg.message_id(),
            ButtplugSpecV1ClientMessage::StopScanning(msg) => msg.message_id(),
            ButtplugSpecV1ClientMessage::RequestDeviceList(msg) => msg.message_id(),
            ButtplugSpecV1ClientMessage::StopAllDevices(msg) => msg.message_id(),
            ButtplugSpecV1ClientMessage::VibrateCmd(msg) => msg.message_id(),
            ButtplugSpecV1ClientMessage::LinearCmd(msg) => msg.message_id(),
            ButtplugSpecV1ClientMessage::RotateCmd(msg) => msg.message_id(),
            ButtplugSpecV1ClientMessage::StopDeviceCmd(msg) => msg.message_id(),
            ButtplugSpecV1ClientMessage::SingleMotorVibrateCmd(msg) => msg.message_id(),
            ButtplugSpecV1ClientMessage::FleshlightLaunchFW12Cmd(msg) => msg.message_id(),
            ButtplugSpecV1ClientMessage::LovenseCmd(msg) => msg.message_id(),
            ButtplugSpecV1ClientMessage::KiirooCmd(msg) => msg.message_id(),
            ButtplugSpecV1ClientMessage::VorzeA10CycloneCmd(msg) => msg.message_id(),
        }
    }

    fn id(&self) -> (r: u32) {
        match self {
            ButtplugSpecV1ClientMessage::RequestServerInfo(msg) => msg.id(),
            ButtplugSpecV1ClientMessage::Ping(msg) => msg.id(),
            ButtplugSpecV1ClientMessage::StartScanning(msg) => msg.id(),
            ButtplugSpecV1ClientMessage::StopScanning(msg) => msg.id(),
            ButtplugSpecV1ClientMessage::RequestDeviceList(msg) => msg.id(),
            ButtplugSpecV1ClientMessage::StopAllDevices(msg) => msg.id(),
            ButtplugSpecV1ClientMessage::VibrateCmd(msg) => msg.id(),
            ButtplugSpecV1ClientMessage::LinearCmd(msg) => msg.id(),
            ButtplugSpecV1ClientMessage::RotateCmd(msg) => msg.id(),
            ButtplugSpecV1ClientMessage::StopDeviceCmd(msg) => msg.id(),
            ButtplugSpecV1ClientMessage::SingleMotorVibrateCmd(msg) => msg.id(),
            ButtplugSpecV1ClientMessage::FleshlightLaunchFW12Cmd(msg) => msg.id(),
            ButtplugSpecV1ClientMessage::LovenseCmd(msg) => msg.id(),
            ButtplugSpecV1ClientMessage::KiirooCmd(msg) => msg.id(),
            ButtplugSpecV1ClientMessage::VorzeA10CycloneCmd(msg) => msg.id(),
        }
    }

    fn set_id(&mut self, id: u32)
        ensures
            final(self).with_id_of(*old(self), id),
    {
        match self {
            ButtplugSpecV1ClientMessage::RequestServerInfo(msg) => msg.set_id(id),
            ButtplugSpecV1ClientMessage::Ping(msg) => msg.set_id(id),
            ButtplugSpecV1ClientMessage::StartScanning(msg) => msg.set_id(id),
            ButtplugSpecV1ClientMessage::StopScanning(msg) => msg.set_id(id),
            ButtplugSpecV1ClientMessage::RequestDeviceList(msg) => msg.set_id(id),
            ButtplugSpecV1ClientMessage::StopAllDevices(msg) => msg.set_id(id),
            ButtplugSpecV1ClientMessage::VibrateCmd(msg) => msg.set_id(id),
            ButtplugSpecV1ClientMessage::LinearCmd(msg) => msg.set_id(id),
            ButtplugSpecV1ClientMessage::RotateCmd(msg) => msg.set_id(id),
            ButtplugSpecV1ClientMessage::StopDeviceCmd(msg) => msg.set_id(id),
            ButtplugSpecV1ClientMessage::SingleMotorVibrateCmd(msg) => msg.set_id(id),
            ButtplugSpecV1ClientMessage::FleshlightLaunchFW12Cmd(msg) => msg.set_id(id),
            ButtplugSpecV1ClientMessage::LovenseCmd(msg) => msg.set_id(id),
            ButtplugSpecV1ClientMessage::KiirooCmd(msg) => msg.set_id(id),
            ButtplugSpecV1ClientMessage::VorzeA10CycloneCmd(msg) => msg.set_id(id),
        }
    }
}

impl ButtplugClientMessageType for ButtplugSpecV1ClientMessage {

}

impl ButtplugSpecV1ClientMessage {
    /// The message as a message of this set, if the set has its type.
    pub open spec fn narrowed(msg: ButtplugClientMessage) -> Option<ButtplugSpecV1ClientMessage> {
        match msg {
            ButtplugClientMessage::RequestServerInfo(msg) => {
                Some(ButtplugSpecV1ClientMessage::RequestServerInfo(msg))
            },
            ButtplugClientMessage::Ping(msg) => Some(ButtplugSpecV1ClientMessage::Ping(msg)),
            ButtplugClientMessage::StartScanning(msg) => {
                Some(ButtplugSpecV1ClientMessage::StartScanning(msg))
            },
            ButtplugClientMessage::StopScanning(msg) => {
                Some(ButtplugSpecV1ClientMessage::StopScanning(msg))
            },
            ButtplugClientMessage::RequestDeviceList(msg) => {
                Some(ButtplugSpecV1ClientMessage::RequestDeviceList(msg))
            },
            ButtplugClientMessage::StopAllDevices(msg) => {
                Some(ButtplugSpecV1ClientMessage::StopAllDevices(msg))
            },
            ButtplugClientMessage::VibrateCmd(msg) => {
                Some(ButtplugSpecV1ClientMessage::VibrateCmd(msg))
            },
            ButtplugClientMessage::LinearCmd(msg) => {
                Some(ButtplugSpecV1ClientMessage::LinearCmd(msg))
            },
            ButtplugClientMessage::RotateCmd(msg) => {
                Some(ButtplugSpecV1ClientMessage::RotateCmd(msg))
            },
            ButtplugClientMessage::StopDeviceCmd(msg) => {
                Some(ButtplugSpecV1ClientMessage::StopDeviceCmd(msg))
            },
            ButtplugClientMessage::SingleMotorVibrateCmd(msg) => {
                Some(ButtplugSpecV1ClientMessage::SingleMotorVibrateCmd(msg))
            },
            ButtplugClientMessage::FleshlightLaunchFW12Cmd(msg) => {
                Some(ButtplugSpecV1ClientMessage::FleshlightLaunchFW12Cmd(msg))
            },
            ButtplugClientMessage::LovenseCmd(msg) => {
                Some(ButtplugSpecV1ClientMessage::LovenseCmd(msg))
            },
            ButtplugClientMessage::KiirooCmd(msg) => {
                Some(ButtplugSpecV1ClientMessage::KiirooCmd(msg))
            },
            ButtplugClientMessage::VorzeA10CycloneCmd(msg) => {
                Some(ButtplugSpecV1ClientMessage::VorzeA10CycloneCmd(msg))
            },
            _ => None,
        }
    }

    /// The message as a message of the uniform set.
    pub open spec fn widened(self) -> ButtplugClientMessage {
        match self {
            ButtplugSpecV1ClientMessage::RequestServerInfo(msg) => {
                ButtplugClientMessage::RequestServerInfo(msg)
            },
            ButtplugSpecV1ClientMessage::Ping(msg) => ButtplugClientMessage::Ping(msg),
            ButtplugSpecV1ClientMessage::StartScanning(msg) => {
                ButtplugClientMessage::StartScanning(msg)
            },
            ButtplugSpecV1ClientMessage::StopScanning(msg) => {
                ButtplugClientMessage::StopScanning(msg)
            },
            ButtplugSpecV1ClientMessage::RequestDeviceList(msg) => {
                ButtplugClientMessage::RequestDeviceList(msg)
            },
            ButtplugSpecV1ClientMessage::StopAllDevices(msg) => {
                ButtplugClientMessage::StopAllDevices(msg)
            },
            ButtplugSpecV1ClientMessage::VibrateCmd(msg) => ButtplugClientMessage::VibrateCmd(msg),
            ButtplugSpecV1ClientMessage::LinearCmd(msg) => ButtplugClientMessage::LinearCmd(msg),
            ButtplugSpecV1ClientMessage::RotateCmd(msg) => ButtplugClientMessage::RotateCmd(msg),
            ButtplugSpecV1ClientMessage::StopDeviceCmd(msg) => {
                ButtplugClientMessage::StopDeviceCmd(msg)
            },
            ButtplugSpecV1ClientMessage::SingleMotorVibrateCmd(msg) => {
                ButtplugClientMessage::SingleMotorVibrateCmd(msg)
            },
            ButtplugSpecV1ClientMessage::FleshlightLaunchFW12Cmd(msg) => {
                ButtplugClientMessage::FleshlightLaunchFW12Cmd(msg)
            },
            ButtplugSpecV1ClientMessage::LovenseCmd(msg) => ButtplugClientMessage::LovenseCmd(msg),
            ButtplugSpecV1ClientMessage::KiirooCmd(msg) => ButtplugClientMessage::KiirooCmd(msg),
            ButtplugSpecV1ClientMessage::VorzeA10CycloneCmd(msg) => {
                ButtplugClientMessage::VorzeA10CycloneCmd(msg)
            },
        }
    }

    /// Takes a message of the uniform set into this set. Fails with a version
    /// error, which names both sets, on a message whose type this set lacks.
    pub fn try_from(
        msg: ButtplugClientMessage,
    ) -> (r: Result<ButtplugSpecV1ClientMessage, ButtplugMessageError>)
        ensures
            r matches Ok(m) ==> Some(m) == Self::narrowed(msg),
            r is Err <==> Self::narrowed(msg) is None,
            r matches Err(e) ==> is_version_error(
                e,
                "ButtplugClientMessage"@,
                "ButtplugSpecV1ClientMessage"@,
            ),
    {
        match msg {
            ButtplugClientMessage::RequestServerInfo(msg) => {
                Ok(ButtplugSpecV1ClientMessage::RequestServerInfo(msg))
            },
            ButtplugClientMessage::Ping(msg) => Ok(ButtplugSpecV1ClientMessage::Ping(msg)),
            ButtplugClientMessage::StartScanning(msg) => {
                Ok(ButtplugSpecV1ClientMessage::StartScanning(msg))
            },
            ButtplugClientMessage::StopScanning(msg) => {
                Ok(ButtplugSpecV1ClientMessage::StopScanning(msg))
            },
            ButtplugClientMessage::RequestDeviceList(msg) => {
                Ok(ButtplugSpecV1ClientMessage::RequestDeviceList(msg))
            },
            ButtplugClientMessage::StopAllDevices(msg) => {
                Ok(ButtplugSpecV1ClientMessage::StopAllDevices(msg))
            },
            ButtplugClientMessage::VibrateCmd(msg) => {
                Ok(ButtplugSpecV1ClientMessage::VibrateCmd(msg))
            },
            ButtplugClientMessage::LinearCmd(msg) => {
                Ok(ButtplugSpecV1ClientMessage::LinearCmd(msg))
            },
            ButtplugClientMessage::RotateCmd(msg) => {
                Ok(ButtplugSpecV1ClientMessage::RotateCmd(msg))
            },
            ButtplugClientMessage::StopDeviceCmd(msg) => {
                Ok(ButtplugSpecV1ClientMessage::StopDeviceCmd(msg))
            },
            ButtplugClientMessage::SingleMotorVibrateCmd(msg) => {
                Ok(ButtplugSpecV1ClientMessage::SingleMotorVibrateCmd(msg))
            },
            ButtplugClientMessage::FleshlightLaunchFW12Cmd(msg) => {
                Ok(ButtplugSpecV1ClientMessage::FleshlightLaunchFW12Cmd(msg))
            },
            ButtplugClientMessage::LovenseCmd(msg) => {
                Ok(ButtplugSpecV1ClientMessage::LovenseCmd(msg))
            },
            ButtplugClientMessage::KiirooCmd(msg) => {
                Ok(ButtplugSpecV1ClientMessage::KiirooCmd(msg))
            },
            ButtplugClientMessage::VorzeA10CycloneCmd(msg) => {
                Ok(ButtplugSpecV1ClientMessage::VorzeA10CycloneCmd(msg))
            },
            other => Err(
                ButtplugMessageError::VersionError(
                    String::from_str("ButtplugClientMessage"),
                    debug_text(&other),
                    String::from_str("ButtplugSpecV1ClientMessage"),
                ),
            ),
        }
    }

    /// Takes a message of this set into the uniform set.
    pub fn widen(self) -> (r: ButtplugClientMessage)
        ensures
            r == self.widened(),
    {
        match self {
            ButtplugSpecV1ClientMessage::RequestServerInfo(msg) => {
                ButtplugClientMessage::RequestServerInfo(msg)
            },
            ButtplugSpecV1ClientMessage::Ping(msg) => ButtplugClientMessage::Ping(msg),
            ButtplugSpecV1ClientMessage::StartScanning(msg) => {
                ButtplugClientMessage::StartScanning(msg)
            },
            ButtplugSpecV1ClientMessage::StopScanning(msg) => {
                ButtplugClientMessage::StopScanning(msg)
            },
            ButtplugSpecV1ClientMessage::RequestDeviceList(msg) => {
                ButtplugClientMessage::RequestDeviceList(msg)
            },
            ButtplugSpecV1ClientMessage::StopAllDevices(msg) => {
                ButtplugClientMessage::StopAllDevices(msg)
            },
            ButtplugSpecV1ClientMessage::VibrateCmd(msg) => ButtplugClientMessage::VibrateCmd(msg),
            ButtplugSpecV1ClientMessage::LinearCmd(msg) => ButtplugClientMessage::LinearCmd(msg),
            ButtplugSpecV1ClientMessage::RotateCmd(msg) => ButtplugClientMessage::RotateCmd(msg),
            ButtplugSpecV1ClientMessage::StopDeviceCmd(msg) => {
                ButtplugClientMessage::StopDeviceCmd(msg)
            },
            ButtplugSpecV1ClientMessage::SingleMotorVibrateCmd(msg) => {
                ButtplugClientMessage::SingleMotorVibrateCmd(msg)
            },
            ButtplugSpecV1ClientMessage::FleshlightLaunchFW12Cmd(msg) => {
                ButtplugClientMessage::FleshlightLaunchFW12Cmd(msg)
            },
            ButtplugSpecV1ClientMessage::LovenseCmd(msg) => ButtplugClientMessage::LovenseCmd(msg),
            ButtplugSpecV1ClientMessage::KiirooCmd(msg) => ButtplugClientMessage::KiirooCmd(msg),
            ButtplugSpecV1ClientMessage::VorzeA10CycloneCmd(msg) => {
                ButtplugClientMessage::VorzeA10CycloneCmd(msg)
            },
        }
    }

    /// Widening a message and taking it back gives the message again.
    pub proof fn lemma_widen_then_narrow(self)
        ensures
            Self::narrowed(self.widened()) == Some(self),
    {
    }
}

/// The messages that a server sends to a client of version 1.
#[derive(Debug, Clone, PartialEq)]
pub enum ButtplugSpecV1ServerMessage {
    OkV0(OkV0),
    Error(ErrorV0),
    Log(Log),
    ServerInfo(ServerInfoV0),
    DeviceList(DeviceListV1),
    DeviceAdded(DeviceAddedV1),
    DeviceRemoved(DeviceRemoved),
    ScanningFinished(ScanningFinished),
}

impl ButtplugSpecV1ServerMessage {
    /// Whether `self` is `before` with its id replaced by `id`.
    pub open spec fn with_id_of(self, before: ButtplugSpecV1ServerMessage, id: u32) -> bool {
        match before {
            ButtplugSpecV1ServerMessage::OkV0(msg) => {
                self == ButtplugSpecV1ServerMessage::OkV0(OkV0 { id, ..msg })
            },
            ButtplugSpecV1ServerMessage::Error(msg) => {
                self == ButtplugSpecV1ServerMessage::Error(ErrorV0 { id, ..msg })
            },
            ButtplugSpecV1ServerMessage::Log(msg) => {
                self == ButtplugSpecV1ServerMessage::Log(Log { id, ..msg })
            },
            ButtplugSpecV1ServerMessage::ServerInfo(msg) => {
                self == ButtplugSpecV1ServerMessage::ServerInfo(ServerInfoV0 { id, ..msg })
            },
            ButtplugSpecV1ServerMessage::DeviceList(msg) => {
                self == ButtplugSpecV1ServerMessage::DeviceList(DeviceListV1 { id, ..msg })
            },
            ButtplugSpecV1ServerMessage::DeviceAdded(msg) => {
                self == ButtplugSpecV1ServerMessage::DeviceAdded(DeviceAddedV1 { id, ..msg })
            },
            ButtplugSpecV1ServerMessage::DeviceRemoved(msg) => {
                self == ButtplugSpecV1ServerMessage::DeviceRemoved(DeviceRemoved { id, ..msg })
            },
            ButtplugSpecV1ServerMessage::ScanningFinished(msg) => {
                self == ButtplugSpecV1ServerMessage::ScanningFinished(
                    ScanningFinished { id, ..msg },
                )
            },
        }
    }
}

impl ButtplugMessageFinalizer for ButtplugSpecV1ServerMessage {
    fn finalize(&mut self)
        ensures
            *final(self) == *old(self),
    {
    }
}

impl ButtplugMessageValidator for ButtplugSpecV1ServerMessage {
    open spec fn valid(&self) -> bool {
        match self {
            ButtplugSpecV1ServerMessage::OkV0(msg) => msg.valid(),
            ButtplugSpecV1ServerMessage::Error(msg) => msg.valid(),
            ButtplugSpecV1ServerMessage::Log(msg) => msg.valid(),
            ButtplugSpecV1ServerMessage::ServerInfo(msg) => msg.valid(),
            ButtplugSpecV1ServerMessage::DeviceList(msg) => msg.valid(),
            ButtplugSpecV1ServerMessage::DeviceAdded(msg) => msg.valid(),
            ButtplugSpecV1ServerMessage::DeviceRemoved(msg) => msg.valid(),
            ButtplugSpecV1ServerMessage::ScanningFinished(msg) => msg.valid(),
        }
    }

    open spec fn rejection(&self) -> Seq<char> {
        match self {
            ButtplugSpecV1ServerMessage::OkV0(msg) => msg.rejection(),
            ButtplugSpecV1ServerMessage::Error(msg) => msg.rejection(),
            ButtplugSpecV1ServerMessage::Log(msg) => msg.rejection(),
            ButtplugSpecV1ServerMessage::ServerInfo(msg) => msg.rejection(),
            ButtplugSpecV1ServerMessage::DeviceList(msg) => msg.rejection(),
            ButtplugSpecV1ServerMessage::DeviceAdded(msg) => msg.rejection(),
            ButtplugSpecV1ServerMessage::DeviceRemoved(msg) => msg.rejection(),
            ButtplugSpecV1ServerMessage::ScanningFinished(msg) => msg.rejection(),
        }
    }

    fn is_valid(&self) -> (r: Result<(), ButtplugMessageError>) {
        match self {
            ButtplugSpecV1ServerMessage::OkV0(msg) => msg.is_valid(),
            ButtplugSpecV1ServerMessage::Error(msg) => msg.is_valid(),
            ButtplugSpecV1ServerMessage::Log(msg) => msg.is_valid(),
            ButtplugSpecV1ServerMessage::ServerInfo(msg) => msg.is_valid(),
            ButtplugSpecV1ServerMessage::DeviceList(msg) => msg.is_valid(),
            ButtplugSpecV1ServerMessage::DeviceAdded(msg) => msg.is_valid(),
            ButtplugSpecV1ServerMessage::DeviceRemoved(msg) => msg.is_valid(),
            ButtplugSpecV1ServerMessage::ScanningFinished(msg) => msg.is_valid(),
        }
    }
}

impl ButtplugMessage for ButtplugSpecV1ServerMessage {
    open spec fn message_id(&self) -> u32 {
        match self {
            ButtplugSpecV1ServerMessage::OkV0(msg) => msg.message_id(),
            ButtplugSpecV1ServerMessage::Error(msg) => msg.message_id(),
            ButtplugSpecV1ServerMessage::Log(msg) => msg.message_id(),
            ButtplugSpecV1ServerMessage::ServerInfo(msg) => msg.message_id(),
            ButtplugSpecV1ServerMessage::DeviceList(msg) => msg.message_id(),
            ButtplugSpecV1ServerMessage::DeviceAdded(msg) => msg.message_id(),
            ButtplugSpecV1ServerMessage::DeviceRemoved(msg) => msg.message_id(),
            ButtplugSpecV1ServerMessage::ScanningFinished(msg) => msg.message_id(),
        }
    }

    fn id(&self) -> (r: u32) {
        match self {
            ButtplugSpecV1ServerMessage::OkV0(msg) => msg.id(),
            ButtplugSpecV1ServerMessage::Error(msg) => msg.id(),
            ButtplugSpecV1ServerMessage::Log(msg) => msg.id(),
            ButtplugSpecV1ServerMessage::ServerInfo(msg) => msg.id(),
            ButtplugSpecV1ServerMessage::DeviceList(msg) => msg.id(),
            ButtplugSpecV1ServerMessage::DeviceAdded(msg) => msg.id(),
            ButtplugSpecV1ServerMessage::DeviceRemoved(msg) => msg.id(),
            ButtplugSpecV1ServerMessage::ScanningFinished(msg) => msg.id(),
        }
    }

    fn set_id(&mut self, id: u32)
        ensures
            final(self).with_id_of(*old(self), id),
    {
        match self {
            ButtplugSpecV1ServerMessage::OkV0(msg) => msg.set_id(id),
            ButtplugSpecV1ServerMessage::Error(msg) => msg.set_id(id),
            ButtplugSpecV1ServerMessage::Log(msg) => msg.set_id(id),
            ButtplugSpecV1ServerMessage::ServerInfo(msg) => msg.set_id(id),
            ButtplugSpecV1ServerMessage::DeviceList(msg) => msg.set_id(id),
            ButtplugSpecV1ServerMessage::DeviceAdded(msg) => msg.set_id(id),
            ButtplugSpecV1ServerMessage::DeviceRemoved(msg) => msg.set_id(id),
            ButtplugSpecV1ServerMessage::ScanningFinished(msg) => msg.set_id(id),
        }
    }
}

impl ButtplugServerMessageType for ButtplugSpecV1ServerMessage {

}

impl ButtplugSpecV1ServerMessage {
    /// Whether version 1 has a message of the type of `msg`.
    pub open spec fn has_counterpart(msg: ButtplugServerMessage) -> bool {
        match msg {
            ButtplugServerMessage::OkV0(_) => true,
            ButtplugServerMessage::Error(_) => true,
            ButtplugServerMessage::Log(_) => true,
            ButtplugServerMessage::ServerInfo(_) => true,
            ButtplugServerMessage::DeviceList(_) => true,
            ButtplugServerMessage::DeviceAdded(_) => true,
            ButtplugServerMessage::DeviceRemoved(_) => true,
            ButtplugServerMessage::ScanningFinished(_) => true,
            _ => false,
        }
    }

    /// Whether `r` is `msg` in the terms of version 1: the same message where
    /// the type has not changed, and where it has, the message that says as
    /// much of what `msg` says as version 1 can say.
    pub open spec fn downgrades(
        msg: ButtplugServerMessage,
        r: ButtplugSpecV1ServerMessage,
    ) -> bool {
        match msg {
            ButtplugServerMessage::OkV0(msg) => r == ButtplugSpecV1ServerMessage::OkV0(msg),
            ButtplugServerMessage::Error(msg) => {
                r == ButtplugSpecV1ServerMessage::Error(ErrorV0::downgraded(msg))
            },
            ButtplugServerMessage::Log(msg) => r == ButtplugSpecV1ServerMessage::Log(msg),
            ButtplugServerMessage::ServerInfo(msg) => {
                r == ButtplugSpecV1ServerMessage::ServerInfo(ServerInfoV0::downgraded(msg))
            },
            ButtplugServerMessage::DeviceList(msg) => {
                r matches ButtplugSpecV1ServerMessage::DeviceList(list)
                    && list.downgraded_from_v3(msg)
            },
            ButtplugServerMessage::DeviceAdded(msg) => r matches ButtplugSpecV1ServerMessage::DeviceAdded(added) && added.id == msg.id
                && added.info().downgraded_from_v3(msg.info()),
            ButtplugServerMessage::DeviceRemoved(msg) => {
                r == ButtplugSpecV1ServerMessage::DeviceRemoved(msg)
            },
            ButtplugServerMessage::ScanningFinished(msg) => {
                r == ButtplugSpecV1ServerMessage::ScanningFinished(msg)
            },
            _ => false,
        }
    }

    /// Takes a message of the server into version 1. Fails with a version
    /// error, which names both sets, on a message whose type version 1 lacks.
    pub fn try_from(
        msg: ButtplugServerMessage,
    ) -> (r: Result<ButtplugSpecV1ServerMessage, ButtplugMessageError>)
        ensures
            Self::has_counterpart(msg) ==> (r matches Ok(m) && Self::downgrades(msg, m)),
            !Self::has_counterpart(msg) ==> (r matches Err(e) && is_version_error(
                e,
                "ButtplugServerMessage"@,
                "ButtplugSpecV1ServerMessage"@,
            )),
    {
        match msg {
            ButtplugServerMessage::OkV0(msg) => Ok(ButtplugSpecV1ServerMessage::OkV0(msg)),
            ButtplugServerMessage::Error(msg) => {
                Ok(ButtplugSpecV1ServerMessage::Error(ErrorV0::from(msg)))
            },
            ButtplugServerMessage::Log(msg) => Ok(ButtplugSpecV1ServerMessage::Log(msg)),
            ButtplugServerMessage::ServerInfo(msg) => {
                Ok(ButtplugSpecV1ServerMessage::ServerInfo(ServerInfoV0::from(msg)))
            },
            ButtplugServerMessage::DeviceList(msg) => {
                Ok(ButtplugSpecV1ServerMessage::DeviceList(DeviceListV1::from_v3(msg)))
            },
            ButtplugServerMessage::DeviceAdded(msg) => {
                Ok(ButtplugSpecV1ServerMessage::DeviceAdded(DeviceAddedV1::from_v3(msg)))
            },
            ButtplugServerMessage::DeviceRemoved(msg) => {
                Ok(ButtplugSpecV1ServerMessage::DeviceRemoved(msg))
            },
            ButtplugServerMessage::ScanningFinished(msg) => {
                Ok(ButtplugSpecV1ServerMessage::ScanningFinished(msg))
            },
            other => Err(
                ButtplugMessageError::VersionError(
                    String::from_str("ButtplugServerMessage"),
                    debug_text(&other),
                    String::from_str("ButtplugSpecV1ServerMessage"),
                ),
            ),
        }
    }
}

} // verus!
