//! The uniform set of the messages of clients.

use vstd::prelude::*;
use crate::errors::ButtplugMessageError;
use crate::message::{
    ButtplugMessage, ButtplugMessageFinalizer, ButtplugMessageValidator, ButtplugClientMessageType,
};
use crate::message::{
    BatteryLevelCmdV2, FleshlightLaunchFW12Cmd, KiirooCmd, LinearCmd, LovenseCmd, Ping,
    RSSILevelCmd, RawReadCmd, RawSubscribeCmd, RawUnsubscribeCmd, RawWriteCmd, RequestDeviceList,
    RequestLog, RequestServerInfo, RotateCmd, ScalarCmd, SensorReadCmd, SensorSubscribeCmd,
    SensorUnsubscribeCmd, SingleMotorVibrateCmd, StartScanning, StopAllDevices, StopDeviceCmd,
    StopScanning, VibrateCmd, VorzeA10CycloneCmd,
};

verus! {

/// Whether `e` is the error of a message that a set lacks: a version error
/// that names the set that the message came from and the set that it was to
/// go to.
pub open spec fn is_version_error(
    e: ButtplugMessageError,
    source: Seq<char>,
    target: Seq<char>,
) -> bool {
    e matches ButtplugMessageError::VersionError(s, _, t) && s@ == source && t@ == target
}

/// Every message that a client can send, whatever the version of the schema.
/// This is the uniform set that a server works on.
#[derive(Debug, Clone, PartialEq)]
pub enum ButtplugClientMessage {
    Ping(Ping),
    RequestLog(RequestLog),
    RequestServerInfo(RequestServerInfo),
    StartScanning(StartScanning),
    StopScanning(StopScanning),
    RequestDeviceList(RequestDeviceList),
    StopAllDevices(StopAllDevices),
    VibrateCmd(VibrateCmd),
    LinearCmd(LinearCmd),
    RotateCmd(RotateCmd),
    RawWriteCmd(RawWriteCmd),
    RawReadCmd(RawReadCmd),
    StopDeviceCmd(StopDeviceCmd),
    RawSubscribeCmd(RawSubscribeCmd),
    RawUnsubscribeCmd(RawUnsubscribeCmd),
    ScalarCmd(ScalarCmd),
    BatteryLevelCmd(BatteryLevelCmdV2),
    RSSILevelCmd(RSSILevelCmd),
    SensorReadCmd(SensorReadCmd),
    SensorSubscribeCmd(SensorSubscribeCmd),
    SensorUnsubscribeCmd(SensorUnsubscribeCmd),
    SingleMotorVibrateCmd(SingleMotorVibrateCmd),
    FleshlightLaunchFW12Cmd(FleshlightLaunchFW12Cmd),
    LovenseCmd(LovenseCmd),
    KiirooCmd(KiirooCmd),
    VorzeA10CycloneCmd(VorzeA10CycloneCmd),
}

impl ButtplugClientMessage {
    /// Whether `self` is `before` with its id replaced by `id`.
    pub open spec fn with_id_of(self, before: ButtplugClientMessage, id: u32) -> bool {
        match before {
            ButtplugClientMessage::Ping(msg) => {
                self == ButtplugClientMessage::Ping(Ping { id, ..msg })
            },
            ButtplugClientMessage::RequestLog(msg) => {
                self == ButtplugClientMessage::RequestLog(RequestLog { id, ..msg })
            },
            ButtplugClientMessage::RequestServerInfo(msg) => {
                self == ButtplugClientMessage::RequestServerInfo(RequestServerInfo { id, ..msg })
            },
            ButtplugClientMessage::StartScanning(msg) => {
                self == ButtplugClientMessage::StartScanning(StartScanning { id, ..msg })
            },
            ButtplugClientMessage::StopScanning(msg) => {
                self == ButtplugClientMessage::StopScanning(StopScanning { id, ..msg })
            },
            ButtplugClientMessage::RequestDeviceList(msg) => {
                self == ButtplugClientMessage::RequestDeviceList(RequestDeviceList { id, ..msg })
            },
            ButtplugClientMessage::StopAllDevices(msg) => {
                self == ButtplugClientMessage::StopAllDevices(StopAllDevices { id, ..msg })
            },
            ButtplugClientMessage::VibrateCmd(msg) => {
                self == ButtplugClientMessage::VibrateCmd(VibrateCmd { id, ..msg })
            },
            ButtplugClientMessage::LinearCmd(msg) => {
                self == ButtplugClientMessage::LinearCmd(LinearCmd { id, ..msg })
            },
            ButtplugClientMessage::RotateCmd(msg) => {
                self == ButtplugClientMessage::RotateCmd(RotateCmd { id, ..msg })
            },
            ButtplugClientMessage::RawWriteCmd(msg) => {
                self == ButtplugClientMessage::RawWriteCmd(RawWriteCmd { id, ..msg })
            },
            ButtplugClientMessage::RawReadCmd(msg) => {
                self == ButtplugClientMessage::RawReadCmd(RawReadCmd { id, ..msg })
            },
            ButtplugClientMessage::StopDeviceCmd(msg) => {
                self == ButtplugClientMessage::StopDeviceCmd(StopDeviceCmd { id, ..msg })
            },
            ButtplugClientMessage::RawSubscribeCmd(msg) => {
                self == ButtplugClientMessage::RawSubscribeCmd(RawSubscribeCmd { id, ..msg })
            },
            ButtplugClientMessage::RawUnsubscribeCmd(msg) => {
                self == ButtplugClientMessage::RawUnsubscribeCmd(RawUnsubscribeCmd { id, ..msg })
            },
            ButtplugClientMessage::ScalarCmd(msg) => {
                self == ButtplugClientMessage::ScalarCmd(ScalarCmd { id, ..msg })
            },
            ButtplugClientMessage::BatteryLevelCmd(msg) => {
                self == ButtplugClientMessage::BatteryLevelCmd(BatteryLevelCmdV2 { id, ..msg })
            },
            ButtplugClientMessage::RSSILevelCmd(msg) => {
                self == ButtplugClientMessage::RSSILevelCmd(RSSILevelCmd { id, ..msg })
            },
            ButtplugClientMessage::SensorReadCmd(msg) => {
                self == ButtplugClientMessage::SensorReadCmd(SensorReadCmd { id, ..msg })
            },
            ButtplugClientMessage::SensorSubscribeCmd(msg) => {
                self == ButtplugClientMessage::SensorSubscribeCmd(SensorSubscribeCmd { id, ..msg })
            },
            ButtplugClientMessage::SensorUnsubscribeCmd(msg) => {
                self == ButtplugClientMessage::SensorUnsubscribeCmd(
                    SensorUnsubscribeCmd { id, ..msg },
                )
            },
            ButtplugClientMessage::SingleMotorVibrateCmd(msg) => {
                self == ButtplugClientMessage::SingleMotorVibrateCmd(
                    SingleMotorVibrateCmd { id, ..msg },
                )
            },
            ButtplugClientMessage::FleshlightLaunchFW12Cmd(msg) => {
                self == ButtplugClientMessage::FleshlightLaunchFW12Cmd(
                    FleshlightLaunchFW12Cmd { id, ..msg },
                )
            },
            ButtplugClientMessage::LovenseCmd(msg) => {
                self == ButtplugClientMessage::LovenseCmd(LovenseCmd { id, ..msg })
            },
            ButtplugClientMessage::KiirooCmd(msg) => {
                self == ButtplugClientMessage::KiirooCmd(KiirooCmd { id, ..msg })
            },
            ButtplugClientMessage::VorzeA10CycloneCmd(msg) => {
                self == ButtplugClientMessage::VorzeA10CycloneCmd(VorzeA10CycloneCmd { id, ..msg })
            },
        }
    }
}

impl ButtplugMessageFinalizer for ButtplugClientMessage {
    fn finalize(&mut self)
        ensures
            *final(self) == *old(self),
    {
    }
}

impl ButtplugMessageValidator for ButtplugClientMessage {
    open spec fn valid(&self) -> bool {
        match self {
            ButtplugClientMessage::Ping(msg) => msg.valid(),
            ButtplugClientMessage::RequestLog(msg) => msg.valid(),
            ButtplugClientMessage::RequestServerInfo(msg) => msg.valid(),
            ButtplugClientMessage::StartScanning(msg) => msg.valid(),
            ButtplugClientMessage::StopScanning(msg) => msg.valid(),
            ButtplugClientMessage::RequestDeviceList(msg) => msg.valid(),
            ButtplugClientMessage::StopAllDevices(msg) => msg.valid(),
            ButtplugClientMessage::VibrateCmd(msg) => msg.valid(),
            ButtplugClientMessage::LinearCmd(msg) => msg.valid(),
            ButtplugClientMessage::RotateCmd(msg) => msg.valid(),
            ButtplugClientMessage::RawWriteCmd(msg) => msg.valid(),
            ButtplugClientMessage::RawReadCmd(msg) => msg.valid(),
            ButtplugClientMessage::StopDeviceCmd(msg) => msg.valid(),
            ButtplugClientMessage::RawSubscribeCmd(msg) => msg.valid(),
            ButtplugClientMessage::RawUnsubscribeCmd(msg) => msg.valid(),
            ButtplugClientMessage::ScalarCmd(msg) => msg.valid(),
            ButtplugClientMessage::BatteryLevelCmd(msg) => msg.valid(),
            ButtplugClientMessage::RSSILevelCmd(msg) => msg.valid(),
            ButtplugClientMessage::SensorReadCmd(msg) => msg.valid(),
            ButtplugClientMessage::SensorSubscribeCmd(msg) => msg.valid(),
            ButtplugClientMessage::SensorUnsubscribeCmd(msg) => msg.valid(),
            ButtplugClientMessage::SingleMotorVibrateCmd(msg) => msg.valid(),
            ButtplugClientMessage::FleshlightLaunchFW12Cmd(msg) => msg.valid(),
            ButtplugClientMessage::LovenseCmd(msg) => msg.valid(),
            ButtplugClientMessage::KiirooCmd(msg) => msg.valid(),
            ButtplugClientMessage::VorzeA10CycloneCmd(msg) => msg.valid(),
        }
    }

    open spec fn rejection(&self) -> Seq<char> {
        match self {
            ButtplugClientMessage::Ping(msg) => msg.rejection(),
            ButtplugClientMessage::RequestLog(msg) => msg.rejection(),
            ButtplugClientMessage::RequestServerInfo(msg) => msg.rejection(),
            ButtplugClientMessage::StartScanning(msg) => msg.rejection(),
            ButtplugClientMessage::StopScanning(msg) => msg.rejection(),
            ButtplugClientMessage::RequestDeviceList(msg) => msg.rejection(),
            ButtplugClientMessage::StopAllDevices(msg) => msg.rejection(),
            ButtplugClientMessage::VibrateCmd(msg) => msg.rejection(),
            ButtplugClientMessage::LinearCmd(msg) => msg.rejection(),
            ButtplugClientMessage::RotateCmd(msg) => msg.rejection(),
            ButtplugClientMessage::RawWriteCmd(msg) => msg.rejection(),
            ButtplugClientMessage::RawReadCmd(msg) => msg.rejection(),
            ButtplugClientMessage::StopDeviceCmd(msg) => msg.rejection(),
            ButtplugClientMessage::RawSubscribeCmd(msg) => msg.rejection(),
            ButtplugClientMessage::RawUnsubscribeCmd(msg) => msg.rejection(),
            ButtplugClientMessage::ScalarCmd(msg) => msg.rejection(),
            ButtplugClientMessage::BatteryLevelCmd(msg) => msg.rejection(),
            ButtplugClientMessage::RSSILevelCmd(msg) => msg.rejection(),
            ButtplugClientMessage::SensorReadCmd(msg) => msg.rejection(),
            ButtplugClientMessage::SensorSubscribeCmd(msg) => msg.rejection(),
            ButtplugClientMessage::SensorUnsubscribeCmd(msg) => msg.rejection(),
            ButtplugClientMessage::SingleMotorVibrateCmd(msg) => msg.rejection(),
            ButtplugClientMessage::FleshlightLaunchFW12Cmd(msg) => msg.rejection(),
            ButtplugClientMessage::LovenseCmd(msg) => msg.rejection(),
            ButtplugClientMessage::KiirooCmd(msg) => msg.rejection(),
            ButtplugClientMessage::VorzeA10CycloneCmd(msg) => msg.rejection(),
        }
    }

    fn is_valid(&self) -> (r: Result<(), ButtplugMessageError>) {
        match self {
            ButtplugClientMessage::Ping(msg) => msg.is_valid(),
            ButtplugClientMessage::RequestLog(msg) => msg.is_valid(),
            ButtplugClientMessage::RequestServerInfo(msg) => msg.is_valid(),
            ButtplugClientMessage::StartScanning(msg) => msg.is_valid(),
            ButtplugClientMessage::StopScanning(msg) => msg.is_valid(),
            ButtplugClientMessage::RequestDeviceList(msg) => msg.is_valid(),
            ButtplugClientMessage::StopAllDevices(msg) => msg.is_valid(),
            ButtplugClientMessage::VibrateCmd(msg) => msg.is_valid(),
            ButtplugClientMessage::LinearCmd(msg) => msg.is_valid(),
            ButtplugClientMessage::RotateCmd(msg) => msg.is_valid(),
            ButtplugClientMessage::RawWriteCmd(msg) => msg.is_valid(),
            ButtplugClientMessage::RawReadCmd(msg) => msg.is_valid(),
            ButtplugClientMessage::StopDeviceCmd(msg) => msg.is_valid(),
            ButtplugClientMessage::RawSubscribeCmd(msg) => msg.is_valid(),
            ButtplugClientMessage::RawUnsubscribeCmd(msg) => msg.is_valid(),
            ButtplugClientMessage::ScalarCmd(msg) => msg.is_valid(),
            ButtplugClientMessage::BatteryLevelCmd(msg) => msg.is_valid(),
            ButtplugClientMessage::RSSILevelCmd(msg) => msg.is_valid(),
            ButtplugClientMessage::SensorReadCmd(msg) => msg.is_valid(),
            ButtplugClientMessage::SensorSubscribeCmd(msg) => msg.is_valid(),
            ButtplugClientMessage::SensorUnsubscribeCmd(msg) => msg.is_valid(),
            ButtplugClientMessage::SingleMotorVibrateCmd(msg) => msg.is_valid(),
            ButtplugClientMessage::FleshlightLaunchFW12Cmd(msg) => msg.is_valid(),
            ButtplugClientMessage::LovenseCmd(msg) => msg.is_valid(),
            ButtplugClientMessage::KiirooCmd(msg) => msg.is_valid(),
            ButtplugClientMessage::VorzeA10CycloneCmd(msg) => msg.is_valid(),
        }
    }
}

impl ButtplugMessage for ButtplugClientMessage {
    open spec fn message_id(&self) -> u32 {
        match self {
            ButtplugClientMessage::Ping(msg) => msg.message_id(),
            ButtplugClientMessage::RequestLog(msg) => msg.message_id(),
            ButtplugClientMessage::RequestServerInfo(msg) => msg.message_id(),
            ButtplugClientMessage::StartScanning(msg) => msg.message_id(),
            ButtplugClientMessage::StopScanning(msg) => msg.message_id(),
            ButtplugClientMessage::RequestDeviceList(msg) => msg.message_id(),
            ButtplugClientMessage::StopAllDevices(msg) => msg.message_id(),
            ButtplugClientMessage::VibrateCmd(msg) => msg.message_id(),
            ButtplugClientMessage::LinearCmd(msg) => msg.message_id(),
            ButtplugClientMessage::RotateCmd(msg) => msg.message_id(),
            ButtplugClientMessage::RawWriteCmd(msg) => msg.message_id(),
            ButtplugClientMessage::RawReadCmd(msg) => msg.message_id(),
            ButtplugClientMessage::StopDeviceCmd(msg) => msg.message_id(),
            ButtplugClientMessage::RawSubscribeCmd(msg) => msg.message_id(),
            ButtplugClientMessage::RawUnsubscribeCmd(msg) => msg.message_id(),
            ButtplugClientMessage::ScalarCmd(msg) => msg.message_id(),
            ButtplugClientMessage::BatteryLevelCmd(msg) => msg.message_id(),
            ButtplugClientMessage::RSSILevelCmd(msg) => msg.message_id(),
            ButtplugClientMessage::SensorReadCmd(msg) => msg.message_id(),
            ButtplugClientMessage::SensorSubscribeCmd(msg) => msg.message_id(),
            ButtplugClientMessage::SensorUnsubscribeCmd(msg) => msg.message_id(),
            ButtplugClientMessage::SingleMotorVibrateCmd(msg) => msg.message_id(),
            ButtplugClientMessage::FleshlightLaunchFW12Cmd(msg) => msg.message_id(),
            ButtplugClientMessage::LovenseCmd(msg) => msg.message_id(),
            ButtplugClientMessage::KiirooCmd(msg) => msg.message_id(),
            ButtplugClientMessage::VorzeA10CycloneCmd(msg) => msg.message_id(),
        }
    }

    fn id(&self) -> (r: u32) {
        match self {
            ButtplugClientMessage::Ping(msg) => msg.id(),
            ButtplugClientMessage::RequestLog(msg) => msg.id(),
            ButtplugClientMessage::RequestServerInfo(msg) => msg.id(),
            ButtplugClientMessage::StartScanning(msg) => msg.id(),
            ButtplugClientMessage::StopScanning(msg) => msg.id(),
            ButtplugClientMessage::RequestDeviceList(msg) => msg.id(),
            ButtplugClientMessage::StopAllDevices(msg) => msg.id(),
            ButtplugClientMessage::VibrateCmd(msg) => msg.id(),
            ButtplugClientMessage::LinearCmd(msg) => msg.id(),
            ButtplugClientMessage::RotateCmd(msg) => msg.id(),
            ButtplugClientMessage::RawWriteCmd(msg) => msg.id(),
            ButtplugClientMessage::RawReadCmd(msg) => msg.id(),
            ButtplugClientMessage::StopDeviceCmd(msg) => msg.id(),
            ButtplugClientMessage::RawSubscribeCmd(msg) => msg.id(),
            ButtplugClientMessage::RawUnsubscribeCmd(msg) => msg.id(),
            ButtplugClientMessage::ScalarCmd(msg) => msg.id(),
            ButtplugClientMessage::BatteryLevelCmd(msg) => msg.id(),
            ButtplugClientMessage::RSSILevelCmd(msg) => msg.id(),
            ButtplugClientMessage::SensorReadCmd(msg) => msg.id(),
            ButtplugClientMessage::SensorSubscribeCmd(msg) => msg.id(),
            ButtplugClientMessage::SensorUnsubscribeCmd(msg) => msg.id(),
            ButtplugClientMessage::SingleMotorVibrateCmd(msg) => msg.id(),
            ButtplugClientMessage::FleshlightLaunchFW12Cmd(msg) => msg.id(),
            ButtplugClientMessage::LovenseCmd(msg) => msg.id(),
            ButtplugClientMessage::KiirooCmd(msg) => msg.id(),
            ButtplugClientMessage::VorzeA10CycloneCmd(msg) => msg.id(),
        }
    }

    fn set_id(&mut self, id: u32)
        ensures
            final(self).with_id_of(*old(self), id),
    {
        match self {
            ButtplugClientMessage::Ping(msg) => msg.set_id(id),
            ButtplugClientMessage::RequestLog(msg) => msg.set_id(id),
            ButtplugClientMessage::RequestServerInfo(msg) => msg.set_id(id),
            ButtplugClientMessage::StartScanning(msg) => msg.set_id(id),
            ButtplugClientMessage::StopScanning(msg) => msg.set_id(id),
            ButtplugClientMessage::RequestDeviceList(msg) => msg.set_id(id),
            ButtplugClientMessage::StopAllDevices(msg) => msg.set_id(id),
            ButtplugClientMessage::VibrateCmd(msg) => msg.set_id(id),
            ButtplugClientMessage::LinearCmd(msg) => msg.set_id(id),
            ButtplugClientMessage::RotateCmd(msg) => msg.set_id(id),
            ButtplugClientMessage::RawWriteCmd(msg) => msg.set_id(id),
            ButtplugClientMessage::RawReadCmd(msg) => msg.set_id(id),
            ButtplugClientMessage::StopDeviceCmd(msg) => msg.set_id(id),
            ButtplugClientMessage::RawSubscribeCmd(msg) => msg.set_id(id),
            ButtplugClientMessage::RawUnsubscribeCmd(msg) => msg.set_id(id),
            ButtplugClientMessage::ScalarCmd(msg) => msg.set_id(id),
            ButtplugClientMessage::BatteryLevelCmd(msg) => msg.set_id(id),
            ButtplugClientMessage::RSSILevelCmd(msg) => msg.set_id(id),
            ButtplugClientMessage::SensorReadCmd(msg) => msg.set_id(id),
            ButtplugClientMessage::SensorSubscribeCmd(msg) => msg.set_id(id),
            ButtplugClientMessage::SensorUnsubscribeCmd(msg) => msg.set_id(id),
            ButtplugClientMessage::SingleMotorVibrateCmd(msg) => msg.set_id(id),
            ButtplugClientMessage::FleshlightLaunchFW12Cmd(msg) => msg.set_id(id),
            ButtplugClientMessage::LovenseCmd(msg) => msg.set_id(id),
            ButtplugClientMessage::KiirooCmd(msg) => msg.set_id(id),
            ButtplugClientMessage::VorzeA10CycloneCmd(msg) => msg.set_id(id),
        }
    }
}

impl ButtplugClientMessageType for ButtplugClientMessage {

}

} // verus!
