//! The messages of clients, sorted by the part of a server that handles them.

use vstd::prelude::*;
use vstd::string::StringExecFns;
use crate::errors::ButtplugMessageError;
use crate::message::{
    ButtplugMessage, ButtplugMessageFinalizer, ButtplugMessageValidator, ButtplugClientMessageType,
    ButtplugDeviceMessage,
};
use crate::message::{
    BatteryLevelCmdV2, FleshlightLaunchFW12Cmd, KiirooCmd, LinearCmd, RSSILevelCmd, RawReadCmd,
    RawSubscribeCmd, RawUnsubscribeCmd, RawWriteCmd, RequestDeviceList, RotateCmd, ScalarCmd,
    SensorReadCmd, SensorSubscribeCmd, SensorUnsubscribeCmd, SingleMotorVibrateCmd, StartScanning,
    StopAllDevices, StopDeviceCmd, StopScanning, VibrateCmd, VorzeA10CycloneCmd,
};
use crate::message::client_message::{ButtplugClientMessage, is_version_error};
use crate::text::debug_text;

verus! {

/// The requests that go to the part of a server that keeps the list of devices.
#[derive(Debug, Clone, PartialEq)]
pub enum ButtplugDeviceManagerMessageUnion {
    RequestDeviceList(RequestDeviceList),
    StopAllDevices(StopAllDevices),
    StartScanning(StartScanning),
    StopScanning(StopScanning),
}

impl ButtplugDeviceManagerMessageUnion {
    /// Whether `self` is `before` with its id replaced by `id`.
    pub open spec fn with_id_of(self, before: ButtplugDeviceManagerMessageUnion, id: u32) -> bool {
        match before {
            ButtplugDeviceManagerMessageUnion::RequestDeviceList(msg) => {
                self == ButtplugDeviceManagerMessageUnion::RequestDeviceList(
                    RequestDeviceList { id, ..msg },
                )
            },
            ButtplugDeviceManagerMessageUnion::StopAllDevices(msg) => {
                self == ButtplugDeviceManagerMessageUnion::StopAllDevices(
                    StopAllDevices { id, ..msg },
                )
            },
            ButtplugDeviceManagerMessageUnion::StartScanning(msg) => {
                self == ButtplugDeviceManagerMessageUnion::StartScanning(
                    StartScanning { id, ..msg },
                )
            },
            ButtplugDeviceManagerMessageUnion::StopScanning(msg) => {
                self == ButtplugDeviceManagerMessageUnion::StopScanning(StopScanning { id, ..msg })
            },
        }
    }
}

impl ButtplugMessageFinalizer for ButtplugDeviceManagerMessageUnion {
    fn finalize(&mut self)
        ensures
            *final(self) == *old(self),
    {
    }
}

impl ButtplugMessageValidator for ButtplugDeviceManagerMessageUnion {
    open spec fn valid(&self) -> bool {
        match self {
            ButtplugDeviceManagerMessageUnion::RequestDeviceList(msg) => msg.valid(),
            ButtplugDeviceManagerMessageUnion::StopAllDevices(msg) => msg.valid(),
            ButtplugDeviceManagerMessageUnion::StartScanning(msg) => msg.valid(),
            ButtplugDeviceManagerMessageUnion::StopScanning(msg) => msg.valid(),
        }
    }

    open spec fn rejection(&self) -> Seq<char> {
        match self {
            ButtplugDeviceManagerMessageUnion::RequestDeviceList(msg) => msg.rejection(),
            ButtplugDeviceManagerMessageUnion::StopAllDevices(msg) => msg.rejection(),
            ButtplugDeviceManagerMessageUnion::StartScanning(msg) => msg.rejection(),
            ButtplugDeviceManagerMessageUnion::StopScanning(msg) => msg.rejection(),
        }
    }

    fn is_valid(&self) -> (r: Result<(), ButtplugMessageError>) {
        match self {
            ButtplugDeviceManagerMessageUnion::RequestDeviceList(msg) => msg.is_valid(),
            ButtplugDeviceManagerMessageUnion::StopAllDevices(msg) => msg.is_valid(),
            ButtplugDeviceManagerMessageUnion::StartScanning(msg) => msg.is_valid(),
            ButtplugDeviceManagerMessageUnion::StopScanning(msg) => msg.is_valid(),
        }
    }
}

impl ButtplugMessage for ButtplugDeviceManagerMessageUnion {
    open spec fn message_id(&self) -> u32 {
        match self {
            ButtplugDeviceManagerMessageUnion::RequestDeviceList(msg) => msg.message_id(),
            ButtplugDeviceManagerMessageUnion::StopAllDevices(msg) => msg.message_id(),
            ButtplugDeviceManagerMessageUnion::StartScanning(msg) => msg.message_id(),
            ButtplugDeviceManagerMessageUnion::StopScanning(msg) => msg.message_id(),
        }
    }

    fn id(&self) -> (r: u32) {
        match self {
            ButtplugDeviceManagerMessageUnion::RequestDeviceList(msg) => msg.id(),
            ButtplugDeviceManagerMessageUnion::StopAllDevices(msg) => msg.id(),
            ButtplugDeviceManagerMessageUnion::StartScanning(msg) => msg.id(),
            ButtplugDeviceManagerMessageUnion::StopScanning(msg) => msg.id(),
        }
    }

    fn set_id(&mut self, id: u32)
        ensures
            final(self).with_id_of(*old(self), id),
    {
        match self {
            ButtplugDeviceManagerMessageUnion::RequestDeviceList(msg) => msg.set_id(id),
            ButtplugDeviceManagerMessageUnion::StopAllDevices(msg) => msg.set_id(id),
            ButtplugDeviceManagerMessageUnion::StartScanning(msg) => msg.set_id(id),
            ButtplugDeviceManagerMessageUnion::StopScanning(msg) => msg.set_id(id),
        }
    }
}

impl ButtplugClientMessageType for ButtplugDeviceManagerMessageUnion {

}

impl ButtplugDeviceManagerMessageUnion {
    /// The message as a message of this set, if the set has its type.
    pub open spec fn narrowed(
        msg: ButtplugClientMessage,
    ) -> Option<ButtplugDeviceManagerMessageUnion> {
        match msg {
            ButtplugClientMessage::RequestDeviceList(msg) => {
                Some(ButtplugDeviceManagerMessageUnion::RequestDeviceList(msg))
            },
            ButtplugClientMessage::StopAllDevices(msg) => {
                Some(ButtplugDeviceManagerMessageUnion::StopAllDevices(msg))
            },
            ButtplugClientMessage::StartScanning(msg) => {
                Some(ButtplugDeviceManagerMessageUnion::StartScanning(msg))
            },
            ButtplugClientMessage::StopScanning(msg) => {
                Some(ButtplugDeviceManagerMessageUnion::StopScanning(msg))
            },
            _ => None,
        }
    }

    /// The message as a message of the uniform set.
    pub open spec fn widened(self) -> ButtplugClientMessage {
        match self {
            ButtplugDeviceManagerMessageUnion::RequestDeviceList(msg) => {
                ButtplugClientMessage::RequestDeviceList(msg)
            },
            ButtplugDeviceManagerMessageUnion::StopAllDevices(msg) => {
                ButtplugClientMessage::StopAllDevices(msg)
            },
            ButtplugDeviceManagerMessageUnion::StartScanning(msg) => {
                ButtplugClientMessage::StartScanning(msg)
            },
            ButtplugDeviceManagerMessageUnion::StopScanning(msg) => {
                ButtplugClientMessage::StopScanning(msg)
            },
        }
    }

    /// Takes a message of the uniform set into this set. Fails with a version
    /// error, which names both sets, on a message whose type this set lacks.
    pub fn try_from(
        msg: ButtplugClientMessage,
    ) -> (r: Result<ButtplugDeviceManagerMessageUnion, ButtplugMessageError>)
        ensures
            r matches Ok(m) ==> Some(m) == Self::narrowed(msg),
            r is Err <==> Self::narrowed(msg) is None,
            r matches Err(e) ==> is_version_error(
                e,
                "ButtplugClientMessage"@,
                "ButtplugDeviceManagerMessageUnion"@,
            ),
    {
        match msg {
            ButtplugClientMessage::RequestDeviceList(msg) => {
                Ok(ButtplugDeviceManagerMessageUnion::RequestDeviceList(msg))
            },
            ButtplugClientMessage::StopAllDevices(msg) => {
                Ok(ButtplugDeviceManagerMessageUnion::StopAllDevices(msg))
            },
            ButtplugClientMessage::StartScanning(msg) => {
                Ok(ButtplugDeviceManagerMessageUnion::StartScanning(msg))
            },
            ButtplugClientMessage::StopScanning(msg) => {
                Ok(ButtplugDeviceManagerMessageUnion::StopScanning(msg))
            },
            other => Err(
                ButtplugMessageError::VersionError(
                    String::from_str("ButtplugClientMessage"),
                    debug_text(&other),
                    String::from_str("ButtplugDeviceManagerMessageUnion"),
                ),
            ),
        }
    }

    /// Takes a message of this set into the uniform set.
    pub fn widen(self) -> (r: ButtplugClientMessage)
        ensures
            r == self.widened(),
    {
        match self {
            ButtplugDeviceManagerMessageUnion::RequestDeviceList(msg) => {
                ButtplugClientMessage::RequestDeviceList(msg)
            },
            ButtplugDeviceManagerMessageUnion::StopAllDevices(msg) => {
                ButtplugClientMessage::StopAllDevices(msg)
            },
            ButtplugDeviceManagerMessageUnion::StartScanning(msg) => {
                ButtplugClientMessage::StartScanning(msg)
            },
            ButtplugDeviceManagerMessageUnion::StopScanning(msg) => {
                ButtplugClientMessage::StopScanning(msg)
            },
        }
    }

    /// Widening a message and taking it back gives the message again.
    pub proof fn lemma_widen_then_narrow(self)
        ensures
            Self::narrowed(self.widened()) == Some(self),
    {
    }
}

/// The commands that go to one device.
#[derive(Debug, Clone, PartialEq)]
pub enum ButtplugDeviceCommandMessageUnion {
    FleshlightLaunchFW12Cmd(FleshlightLaunchFW12Cmd),
    SingleMotorVibrateCmd(SingleMotorVibrateCmd),
    VorzeA10CycloneCmd(VorzeA10CycloneCmd),
    KiirooCmd(KiirooCmd),
    VibrateCmd(VibrateCmd),
    LinearCmd(LinearCmd),
    RotateCmd(RotateCmd),
    RawWriteCmd(RawWriteCmd),
    RawReadCmd(RawReadCmd),
    StopDeviceCmd(StopDeviceCmd),
    RawSubscribeCmd(RawSubscribeCmd),
    RawUnsubscribeCmd(RawUnsubscribeCmd),
    BatteryLevelCmd(BatteryLevelCmdV2),
    RSSILevelCmd(RSSILevelCmd),
    ScalarCmd(ScalarCmd),
    SensorReadCmd(SensorReadCmd),
    SensorSubscribeCmd(SensorSubscribeCmd),
    SensorUnsubscribeCmd(SensorUnsubscribeCmd),
}

impl ButtplugDeviceCommandMessageUnion {
    /// Whether `self` is `before` with its id replaced by `id`.
    pub open spec fn with_id_of(self, before: ButtplugDeviceCommandMessageUnion, id: u32) -> bool {
        match before {
            ButtplugDeviceCommandMessageUnion::FleshlightLaunchFW12Cmd(msg) => {
                self == ButtplugDeviceCommandMessageUnion::FleshlightLaunchFW12Cmd(
                    FleshlightLaunchFW12Cmd { id, ..msg },
                )
            },
            ButtplugDeviceCommandMessageUnion::SingleMotorVibrateCmd(msg) => {
                self == ButtplugDeviceCommandMessageUnion::SingleMotorVibrateCmd(
                    SingleMotorVibrateCmd { id, ..msg },
                )
            },
            ButtplugDeviceCommandMessageUnion::VorzeA10CycloneCmd(msg) => {
                self == ButtplugDeviceCommandMessageUnion::VorzeA10CycloneCmd(
                    VorzeA10CycloneCmd { id, ..msg },
                )
            },
            ButtplugDeviceCommandMessageUnion::KiirooCmd(msg) => {
                self == ButtplugDeviceCommandMessageUnion::KiirooCmd(KiirooCmd { id, ..msg })
            },
            ButtplugDeviceCommandMessageUnion::VibrateCmd(msg) => {
                self == ButtplugDeviceCommandMessageUnion::VibrateCmd(VibrateCmd { id, ..msg })
            },
            ButtplugDeviceCommandMessageUnion::LinearCmd(msg) => {
                self == ButtplugDeviceCommandMessageUnion::LinearCmd(LinearCmd { id, ..msg })
            },
            ButtplugDeviceCommandMessageUnion::RotateCmd(msg) => {
                self == ButtplugDeviceCommandMessageUnion::RotateCmd(RotateCmd { id, ..msg })
            },
            ButtplugDeviceCommandMessageUnion::RawWriteCmd(msg) => {
                self == ButtplugDeviceCommandMessageUnion::RawWriteCmd(RawWriteCmd { id, ..msg })
            },
            ButtplugDeviceCommandMessageUnion::RawReadCmd(msg) => {
                self == ButtplugDeviceCommandMessageUnion::RawReadCmd(RawReadCmd { id, ..msg })
            },
            ButtplugDeviceCommandMessageUnion::StopDeviceCmd(msg) => {
                self == ButtplugDeviceCommandMessageUnion::StopDeviceCmd(
                    StopDeviceCmd { id, ..msg },
                )
            },
            ButtplugDeviceCommandMessageUnion::RawSubscribeCmd(msg) => {
                self == ButtplugDeviceCommandMessageUnion::RawSubscribeCmd(
                    RawSubscribeCmd { id, ..msg },
                )
            },
            ButtplugDeviceCommandMessageUnion::RawUnsubscribeCmd(msg) => {
                self == ButtplugDeviceCommandMessageUnion::RawUnsubscribeCmd(
                    RawUnsubscribeCmd { id, ..msg },
                )
            },
            ButtplugDeviceCommandMessageUnion::BatteryLevelCmd(msg) => {
                self == ButtplugDeviceCommandMessageUnion::BatteryLevelCmd(
                    BatteryLevelCmdV2 { id, ..msg },
                )
            },
            ButtplugDeviceCommandMessageUnion::RSSILevelCmd(msg) => {
                self == ButtplugDeviceCommandMessageUnion::RSSILevelCmd(RSSILevelCmd { id, ..msg })
            },
            ButtplugDeviceCommandMessageUnion::ScalarCmd(msg) => {
                self == ButtplugDeviceCommandMessageUnion::ScalarCmd(ScalarCmd { id, ..msg })
            },
            ButtplugDeviceCommandMessageUnion::SensorReadCmd(msg) => {
                self == ButtplugDeviceCommandMessageUnion::SensorReadCmd(
                    SensorReadCmd { id, ..msg },
                )
            },
            ButtplugDeviceCommandMessageUnion::SensorSubscribeCmd(msg) => {
                self == ButtplugDeviceCommandMessageUnion::SensorSubscribeCmd(
                    SensorSubscribeCmd { id, ..msg },
                )
            },
            ButtplugDeviceCommandMessageUnion::SensorUnsubscribeCmd(msg) => {
                self == ButtplugDeviceCommandMessageUnion::SensorUnsubscribeCmd(
                    SensorUnsubscribeCmd { id, ..msg },
                )
            },
        }
    }
}

impl ButtplugMessageFinalizer for ButtplugDeviceCommandMessageUnion {
    fn finalize(&mut self)
        ensures
            *final(self) == *old(self),
    {
    }
}

impl ButtplugMessageValidator for ButtplugDeviceCommandMessageUnion {
    open spec fn valid(&self) -> bool {
        match self {
            ButtplugDeviceCommandMessageUnion::FleshlightLaunchFW12Cmd(msg) => msg.valid(),
            ButtplugDeviceCommandMessageUnion::SingleMotorVibrateCmd(msg) => msg.valid(),
            ButtplugDeviceCommandMessageUnion::VorzeA10CycloneCmd(msg) => msg.valid(),
            ButtplugDeviceCommandMessageUnion::KiirooCmd(msg) => msg.valid(),
            ButtplugDeviceCommandMessageUnion::VibrateCmd(msg) => msg.valid(),
            ButtplugDeviceCommandMessageUnion::LinearCmd(msg) => msg.valid(),
            ButtplugDeviceCommandMessageUnion::RotateCmd(msg) => msg.valid(),
            ButtplugDeviceCommandMessageUnion::RawWriteCmd(msg) => msg.valid(),
            ButtplugDeviceCommandMessageUnion::RawReadCmd(msg) => msg.valid(),
            ButtplugDeviceCommandMessageUnion::StopDeviceCmd(msg) => msg.valid(),
            ButtplugDeviceCommandMessageUnion::RawSubscribeCmd(msg) => msg.valid(),
            ButtplugDeviceCommandMessageUnion::RawUnsubscribeCmd(msg) => msg.valid(),
            ButtplugDeviceCommandMessageUnion::BatteryLevelCmd(msg) => msg.valid(),
            ButtplugDeviceCommandMessageUnion::RSSILevelCmd(msg) => msg.valid(),
            ButtplugDeviceCommandMessageUnion::ScalarCmd(msg) => msg.valid(),
            ButtplugDeviceCommandMessageUnion::SensorReadCmd(msg) => msg.valid(),
            ButtplugDeviceCommandMessageUnion::SensorSubscribeCmd(msg) => msg.valid(),
            ButtplugDeviceCommandMessageUnion::SensorUnsubscribeCmd(msg) => msg.valid(),
        }
    }

    open spec fn rejection(&self) -> Seq<char> {
        match self {
            ButtplugDeviceCommandMessageUnion::FleshlightLaunchFW12Cmd(msg) => msg.rejection(),
            ButtplugDeviceCommandMessageUnion::SingleMotorVibrateCmd(msg) => msg.rejection(),
            ButtplugDeviceCommandMessageUnion::VorzeA10CycloneCmd(msg) => msg.rejection(),
            ButtplugDeviceCommandMessageUnion::KiirooCmd(msg) => msg.rejection(),
            ButtplugDeviceCommandMessageUnion::VibrateCmd(msg) => msg.rejection(),
            ButtplugDeviceCommandMessageUnion::LinearCmd(msg) => msg.rejection(),
            ButtplugDeviceCommandMessageUnion::RotateCmd(msg) => msg.rejection(),
            ButtplugDeviceCommandMessageUnion::RawWriteCmd(msg) => msg.rejection(),
            ButtplugDeviceCommandMessageUnion::RawReadCmd(msg) => msg.rejection(),
            ButtplugDeviceCommandMessageUnion::StopDeviceCmd(msg) => msg.rejection(),
            ButtplugDeviceCommandMessageUnion::RawSubscribeCmd(msg) => msg.rejection(),
            ButtplugDeviceCommandMessageUnion::RawUnsubscribeCmd(msg) => msg.rejection(),
            ButtplugDeviceCommandMessageUnion::BatteryLevelCmd(msg) => msg.rejection(),
            ButtplugDeviceCommandMessageUnion::RSSILevelCmd(msg) => msg.rejection(),
            ButtplugDeviceCommandMessageUnion::ScalarCmd(msg) => msg.rejection(),
            ButtplugDeviceCommandMessageUnion::SensorReadCmd(msg) => msg.rejection(),
            ButtplugDeviceCommandMessageUnion::SensorSubscribeCmd(msg) => msg.rejection(),
            ButtplugDeviceCommandMessageUnion::SensorUnsubscribeCmd(msg) => msg.rejection(),
        }
    }

    fn is_valid(&self) -> (r: Result<(), ButtplugMessageError>) {
        match self {
            ButtplugDeviceCommandMessageUnion::FleshlightLaunchFW12Cmd(msg) => msg.is_valid(),
            ButtplugDeviceCommandMessageUnion::SingleMotorVibrateCmd(msg) => msg.is_valid(),
            ButtplugDeviceCommandMessageUnion::VorzeA10CycloneCmd(msg) => msg.is_valid(),
            ButtplugDeviceCommandMessageUnion::KiirooCmd(msg) => msg.is_valid(),
            ButtplugDeviceCommandMessageUnion::VibrateCmd(msg) => msg.is_valid(),
            ButtplugDeviceCommandMessageUnion::LinearCmd(msg) => msg.is_valid(),
            ButtplugDeviceCommandMessageUnion::RotateCmd(msg) => msg.is_valid(),
            ButtplugDeviceCommandMessageUnion::RawWriteCmd(msg) => msg.is_valid(),
            ButtplugDeviceCommandMessageUnion::RawReadCmd(msg) => msg.is_valid(),
            ButtplugDeviceCommandMessageUnion::StopDeviceCmd(msg) => msg.is_valid(),
            ButtplugDeviceCommandMessageUnion::RawSubscribeCmd(msg) => msg.is_valid(),
            ButtplugDeviceCommandMessageUnion::RawUnsubscribeCmd(msg) => msg.is_valid(),
            ButtplugDeviceCommandMessageUnion::BatteryLevelCmd(msg) => msg.is_valid(),
            ButtplugDeviceCommandMessageUnion::RSSILevelCmd(msg) => msg.is_valid(),
            ButtplugDeviceCommandMessageUnion::ScalarCmd(msg) => msg.is_valid(),
            ButtplugDeviceCommandMessageUnion::SensorReadCmd(msg) => msg.is_valid(),
            ButtplugDeviceCommandMessageUnion::SensorSubscribeCmd(msg) => msg.is_valid(),
            ButtplugDeviceCommandMessageUnion::SensorUnsubscribeCmd(msg) => msg.is_valid(),
        }
    }
}

impl ButtplugMessage for ButtplugDeviceCommandMessageUnion {
    open spec fn message_id(&self) -> u32 {
        match self {
            ButtplugDeviceCommandMessageUnion::FleshlightLaunchFW12Cmd(msg) => msg.message_id(),
            ButtplugDeviceCommandMessageUnion::SingleMotorVibrateCmd(msg) => msg.message_id(),
            ButtplugDeviceCommandMessageUnion::VorzeA10CycloneCmd(msg) => msg.message_id(),
            ButtplugDeviceCommandMessageUnion::KiirooCmd(msg) => msg.message_id(),
            ButtplugDeviceCommandMessageUnion::VibrateCmd(msg) => msg.message_id(),
            ButtplugDeviceCommandMessageUnion::LinearCmd(msg) => msg.message_id(),
            ButtplugDeviceCommandMessageUnion::RotateCmd(msg) => msg.message_id(),
            ButtplugDeviceCommandMessageUnion::RawWriteCmd(msg) => msg.message_id(),
            ButtplugDeviceCommandMessageUnion::RawReadCmd(msg) => msg.message_id(),
            ButtplugDeviceCommandMessageUnion::StopDeviceCmd(msg) => msg.message_id(),
            ButtplugDeviceCommandMessageUnion::RawSubscribeCmd(msg) => msg.message_id(),
            ButtplugDeviceCommandMessageUnion::RawUnsubscribeCmd(msg) => msg.message_id(),
            ButtplugDeviceCommandMessageUnion::BatteryLevelCmd(msg) => msg.message_id(),
            ButtplugDeviceCommandMessageUnion::RSSILevelCmd(msg) => msg.message_id(),
            ButtplugDeviceCommandMessageUnion::ScalarCmd(msg) => msg.message_id(),
            ButtplugDeviceCommandMessageUnion::SensorReadCmd(msg) => msg.message_id(),
            ButtplugDeviceCommandMessageUnion::SensorSubscribeCmd(msg) => msg.message_id(),
            ButtplugDeviceCommandMessageUnion::SensorUnsubscribeCmd(msg) => msg.message_id(),
        }
    }

    fn id(&self) -> (r: u32) {
        match self {
            ButtplugDeviceCommandMessageUnion::FleshlightLaunchFW12Cmd(msg) => msg.id(),
            ButtplugDeviceCommandMessageUnion::SingleMotorVibrateCmd(msg) => msg.id(),
            ButtplugDeviceCommandMessageUnion::VorzeA10CycloneCmd(msg) => msg.id(),
            ButtplugDeviceCommandMessageUnion::KiirooCmd(msg) => msg.id(),
            ButtplugDeviceCommandMessageUnion::VibrateCmd(msg) => msg.id(),
            ButtplugDeviceCommandMessageUnion::LinearCmd(msg) => msg.id(),
            ButtplugDeviceCommandMessageUnion::RotateCmd(msg) => msg.id(),
            ButtplugDeviceCommandMessageUnion::RawWriteCmd(msg) => msg.id(),
            ButtplugDeviceCommandMessageUnion::RawReadCmd(msg) => msg.id(),
            ButtplugDeviceCommandMessageUnion::StopDeviceCmd(msg) => msg.id(),
            ButtplugDeviceCommandMessageUnion::RawSubscribeCmd(msg) => msg.id(),
            ButtplugDeviceCommandMessageUnion::RawUnsubscribeCmd(msg) => msg.id(),
            ButtplugDeviceCommandMessageUnion::BatteryLevelCmd(msg) => msg.id(),
            ButtplugDeviceCommandMessageUnion::RSSILevelCmd(msg) => msg.id(),
            ButtplugDeviceCommandMessageUnion::ScalarCmd(msg) => msg.id(),
            ButtplugDeviceCommandMessageUnion::SensorReadCmd(msg) => msg.id(),
            ButtplugDeviceCommandMessageUnion::SensorSubscribeCmd(msg) => msg.id(),
            ButtplugDeviceCommandMessageUnion::SensorUnsubscribeCmd(msg) => msg.id(),
        }
    }

    fn set_id(&mut self, id: u32)
        ensures
            final(self).with_id_of(*old(self), id),
    {
        match self {
            ButtplugDeviceCommandMessageUnion::FleshlightLaunchFW12Cmd(msg) => msg.set_id(id),
            ButtplugDeviceCommandMessageUnion::SingleMotorVibrateCmd(msg) => msg.set_id(id),
            ButtplugDeviceCommandMessageUnion::VorzeA10CycloneCmd(msg) => msg.set_id(id),
            ButtplugDeviceCommandMessageUnion::KiirooCmd(msg) => msg.set_id(id),
            ButtplugDeviceCommandMessageUnion::VibrateCmd(msg) => msg.set_id(id),
            ButtplugDeviceCommandMessageUnion::LinearCmd(msg) => msg.set_id(id),
            ButtplugDeviceCommandMessageUnion::RotateCmd(msg) => msg.set_id(id),
            ButtplugDeviceCommandMessageUnion::RawWriteCmd(msg) => msg.set_id(id),
            ButtplugDeviceCommandMessageUnion::RawReadCmd(msg) => msg.set_id(id),
            ButtplugDeviceCommandMessageUnion::StopDeviceCmd(msg) => msg.set_id(id),
            ButtplugDeviceCommandMessageUnion::RawSubscribeCmd(msg) => msg.set_id(id),
            ButtplugDeviceCommandMessageUnion::RawUnsubscribeCmd(msg) => msg.set_id(id),
            ButtplugDeviceCommandMessageUnion::BatteryLevelCmd(msg) => msg.set_id(id),
            ButtplugDeviceCommandMessageUnion::RSSILevelCmd(msg) => msg.set_id(id),
            ButtplugDeviceCommandMessageUnion::ScalarCmd(msg) => msg.set_id(id),
            ButtplugDeviceCommandMessageUnion::SensorReadCmd(msg) => msg.set_id(id),
            ButtplugDeviceCommandMessageUnion::SensorSubscribeCmd(msg) => msg.set_id(id),
            ButtplugDeviceCommandMessageUnion::SensorUnsubscribeCmd(msg) => msg.set_id(id),
        }
    }
}

impl ButtplugDeviceCommandMessageUnion {
    /// Whether `self` is `before` with its device index replaced by
    /// `device_index`.
    pub open spec fn with_device_index_of(
        self,
        before: ButtplugDeviceCommandMessageUnion,
        device_index: u32,
    ) -> bool {
        match before {
            ButtplugDeviceCommandMessageUnion::FleshlightLaunchFW12Cmd(msg) => {
                self == ButtplugDeviceCommandMessageUnion::FleshlightLaunchFW12Cmd(
                    FleshlightLaunchFW12Cmd { device_index, ..msg },
                )
            },
            ButtplugDeviceCommandMessageUnion::SingleMotorVibrateCmd(msg) => {
                self == ButtplugDeviceCommandMessageUnion::SingleMotorVibrateCmd(
                    SingleMotorVibrateCmd { device_index, ..msg },
                )
            },
            ButtplugDeviceCommandMessageUnion::VorzeA10CycloneCmd(msg) => {
                self == ButtplugDeviceCommandMessageUnion::VorzeA10CycloneCmd(
                    VorzeA10CycloneCmd { device_index, ..msg },
                )
            },
            ButtplugDeviceCommandMessageUnion::KiirooCmd(msg) => {
                self == ButtplugDeviceCommandMessageUnion::KiirooCmd(
                    KiirooCmd { device_index, ..msg },
                )
            },
            ButtplugDeviceCommandMessageUnion::VibrateCmd(msg) => {
                self == ButtplugDeviceCommandMessageUnion::VibrateCmd(
                    VibrateCmd { device_index, ..msg },
                )
            },
            ButtplugDeviceCommandMessageUnion::LinearCmd(msg) => {
                self == ButtplugDeviceCommandMessageUnion::LinearCmd(
                    LinearCmd { device_index, ..msg },
                )
            },
            ButtplugDeviceCommandMessageUnion::RotateCmd(msg) => {
                self == ButtplugDeviceCommandMessageUnion::RotateCmd(
                    RotateCmd { device_index, ..msg },
                )
            },
            ButtplugDeviceCommandMessageUnion::RawWriteCmd(msg) => {
                self == ButtplugDeviceCommandMessageUnion::RawWriteCmd(
                    RawWriteCmd { device_index, ..msg },
                )
            },
            ButtplugDeviceCommandMessageUnion::RawReadCmd(msg) => {
                self == ButtplugDeviceCommandMessageUnion::RawReadCmd(
                    RawReadCmd { device_index, ..msg },
                )
            },
            ButtplugDeviceCommandMessageUnion::StopDeviceCmd(msg) => {
                self == ButtplugDeviceCommandMessageUnion::StopDeviceCmd(
                    StopDeviceCmd { device_index, ..msg },
                )
            },
            ButtplugDeviceCommandMessageUnion::RawSubscribeCmd(msg) => {
                self == ButtplugDeviceCommandMessageUnion::RawSubscribeCmd(
                    RawSubscribeCmd { device_index, ..msg },
                )
            },
            ButtplugDeviceCommandMessageUnion::RawUnsubscribeCmd(msg) => {
                self == ButtplugDeviceCommandMessageUnion::RawUnsubscribeCmd(
                    RawUnsubscribeCmd { device_index, ..msg },
                )
            },
            ButtplugDeviceCommandMessageUnion::BatteryLevelCmd(msg) => {
                self == ButtplugDeviceCommandMessageUnion::BatteryLevelCmd(
                    BatteryLevelCmdV2 { device_index, ..msg },
                )
            },
            ButtplugDeviceCommandMessageUnion::RSSILevelCmd(msg) => {
                self == ButtplugDeviceCommandMessageUnion::RSSILevelCmd(
                    RSSILevelCmd { device_index, ..msg },
                )
            },
            ButtplugDeviceCommandMessageUnion::ScalarCmd(msg) => {
                self == ButtplugDeviceCommandMessageUnion::ScalarCmd(
                    ScalarCmd { device_index, ..msg },
                )
            },
            ButtplugDeviceCommandMessageUnion::SensorReadCmd(msg) => {
                self == ButtplugDeviceCommandMessageUnion::SensorReadCmd(
                    SensorReadCmd { device_index, ..msg },
                )
            },
            ButtplugDeviceCommandMessageUnion::SensorSubscribeCmd(msg) => {
                self == ButtplugDeviceCommandMessageUnion::SensorSubscribeCmd(
                    SensorSubscribeCmd { device_index, ..msg },
                )
            },
            ButtplugDeviceCommandMessageUnion::SensorUnsubscribeCmd(msg) => {
                self == ButtplugDeviceCommandMessageUnion::SensorUnsubscribeCmd(
                    SensorUnsubscribeCmd { device_index, ..msg },
                )
            },
        }
    }
}

impl ButtplugDeviceMessage for ButtplugDeviceCommandMessageUnion {
    open spec fn message_device_index(&self) -> u32 {
        match self {
            ButtplugDeviceCommandMessageUnion::FleshlightLaunchFW12Cmd(msg) => {
                msg.message_device_index()
            },
            ButtplugDeviceCommandMessageUnion::SingleMotorVibrateCmd(msg) => {
                msg.message_device_index()
            },
            ButtplugDeviceCommandMessageUnion::VorzeA10CycloneCmd(msg) => {
                msg.message_device_index()
            },
            ButtplugDeviceCommandMessageUnion::KiirooCmd(msg) => msg.message_device_index(),
            ButtplugDeviceCommandMessageUnion::VibrateCmd(msg) => msg.message_device_index(),
            ButtplugDeviceCommandMessageUnion::LinearCmd(msg) => msg.message_device_index(),
            ButtplugDeviceCommandMessageUnion::RotateCmd(msg) => msg.message_device_index(),
            ButtplugDeviceCommandMessageUnion::RawWriteCmd(msg) => msg.message_device_index(),
            ButtplugDeviceCommandMessageUnion::RawReadCmd(msg) => msg.message_device_index(),
            ButtplugDeviceCommandMessageUnion::StopDeviceCmd(msg) => msg.message_device_index(),
            ButtplugDeviceCommandMessageUnion::RawSubscribeCmd(msg) => msg.message_device_index(),
            ButtplugDeviceCommandMessageUnion::RawUnsubscribeCmd(msg) => msg.message_device_index(),
            ButtplugDeviceCommandMessageUnion::BatteryLevelCmd(msg) => msg.message_device_index(),
            ButtplugDeviceCommandMessageUnion::RSSILevelCmd(msg) => msg.message_device_index(),
            ButtplugDeviceCommandMessageUnion::ScalarCmd(msg) => msg.message_device_index(),
            ButtplugDeviceCommandMessageUnion::SensorReadCmd(msg) => msg.message_device_index(),
            ButtplugDeviceCommandMessageUnion::SensorSubscribeCmd(msg) => {
                msg.message_device_index()
            },
            ButtplugDeviceCommandMessageUnion::SensorUnsubscribeCmd(msg) => {
                msg.message_device_index()
            },
        }
    }

    fn device_index(&self) -> (r: u32) {
        match self {
            ButtplugDeviceCommandMessageUnion::FleshlightLaunchFW12Cmd(msg) => msg.device_index(),
            ButtplugDeviceCommandMessageUnion::SingleMotorVibrateCmd(msg) => msg.device_index(),
            ButtplugDeviceCommandMessageUnion::VorzeA10CycloneCmd(msg) => msg.device_index(),
            ButtplugDeviceCommandMessageUnion::KiirooCmd(msg) => msg.device_index(),
            ButtplugDeviceCommandMessageUnion::VibrateCmd(msg) => msg.device_index(),
            ButtplugDeviceCommandMessageUnion::LinearCmd(msg) => msg.device_index(),
            ButtplugDeviceCommandMessageUnion::RotateCmd(msg) => msg.device_index(),
            ButtplugDeviceCommandMessageUnion::RawWriteCmd(msg) => msg.device_index(),
            ButtplugDeviceCommandMessageUnion::RawReadCmd(msg) => msg.device_index(),
            ButtplugDeviceCommandMessageUnion::StopDeviceCmd(msg) => msg.device_index(),
            ButtplugDeviceCommandMessageUnion::RawSubscribeCmd(msg) => msg.device_index(),
            ButtplugDeviceCommandMessageUnion::RawUnsubscribeCmd(msg) => msg.device_index(),
            ButtplugDeviceCommandMessageUnion::BatteryLevelCmd(msg) => msg.device_index(),
            ButtplugDeviceCommandMessageUnion::RSSILevelCmd(msg) => msg.device_index(),
            ButtplugDeviceCommandMessageUnion::ScalarCmd(msg) => msg.device_index(),
            ButtplugDeviceCommandMessageUnion::SensorReadCmd(msg) => msg.device_index(),
            ButtplugDeviceCommandMessageUnion::SensorSubscribeCmd(msg) => msg.device_index(),
            ButtplugDeviceCommandMessageUnion::SensorUnsubscribeCmd(msg) => msg.device_index(),
        }
    }

    fn set_device_index(&mut self, id: u32)
        ensures
            final(self).with_device_index_of(*old(self), id),
    {
        match self {
            ButtplugDeviceCommandMessageUnion::FleshlightLaunchFW12Cmd(msg) => {
                msg.set_device_index(id)
            },
            ButtplugDeviceCommandMessageUnion::SingleMotorVibrateCmd(msg) => {
                msg.set_device_index(id)
            },
            ButtplugDeviceCommandMessageUnion::VorzeA10CycloneCmd(msg) => msg.set_device_index(id),
            ButtplugDeviceCommandMessageUnion::KiirooCmd(msg) => msg.set_device_index(id),
            ButtplugDeviceCommandMessageUnion::VibrateCmd(msg) => msg.set_device_index(id),
            ButtplugDeviceCommandMessageUnion::LinearCmd(msg) => msg.set_device_index(id),
            ButtplugDeviceCommandMessageUnion::RotateCmd(msg) => msg.set_device_index(id),
            ButtplugDeviceCommandMessageUnion::RawWriteCmd(msg) => msg.set_device_index(id),
            ButtplugDeviceCommandMessageUnion::RawReadCmd(msg) => msg.set_device_index(id),
            ButtplugDeviceCommandMessageUnion::StopDeviceCmd(msg) => msg.set_device_index(id),
            ButtplugDeviceCommandMessageUnion::RawSubscribeCmd(msg) => msg.set_device_index(id),
            ButtplugDeviceCommandMessageUnion::RawUnsubscribeCmd(msg) => msg.set_device_index(id),
            ButtplugDeviceCommandMessageUnion::BatteryLevelCmd(msg) => msg.set_device_index(id),
            ButtplugDeviceCommandMessageUnion::RSSILevelCmd(msg) => msg.set_device_index(id),
            ButtplugDeviceCommandMessageUnion::ScalarCmd(msg) => msg.set_device_index(id),
            ButtplugDeviceCommandMessageUnion::SensorReadCmd(msg) => msg.set_device_index(id),
            ButtplugDeviceCommandMessageUnion::SensorSubscribeCmd(msg) => msg.set_device_index(id),
            ButtplugDeviceCommandMessageUnion::SensorUnsubscribeCmd(msg) => {
                msg.set_device_index(id)
            },
        }
    }
}

impl ButtplugClientMessageType for ButtplugDeviceCommandMessageUnion {

}

impl ButtplugDeviceCommandMessageUnion {
    /// The message as a message of this set, if the set has its type.
    pub open spec fn narrowed(
        msg: ButtplugClientMessage,
    ) -> Option<ButtplugDeviceCommandMessageUnion> {
        match msg {
            ButtplugClientMessage::FleshlightLaunchFW12Cmd(msg) => {
                Some(ButtplugDeviceCommandMessageUnion::FleshlightLaunchFW12Cmd(msg))
            },
            ButtplugClientMessage::SingleMotorVibrateCmd(msg) => {
                Some(ButtplugDeviceCommandMessageUnion::SingleMotorVibrateCmd(msg))
            },
            ButtplugClientMessage::VorzeA10CycloneCmd(msg) => {
                Some(ButtplugDeviceCommandMessageUnion::VorzeA10CycloneCmd(msg))
            },
            ButtplugClientMessage::KiirooCmd(msg) => {
                Some(ButtplugDeviceCommandMessageUnion::KiirooCmd(msg))
            },
            ButtplugClientMessage::VibrateCmd(msg) => {
                Some(ButtplugDeviceCommandMessageUnion::VibrateCmd(msg))
            },
            ButtplugClientMessage::LinearCmd(msg) => {
                Some(ButtplugDeviceCommandMessageUnion::LinearCmd(msg))
            },
            ButtplugClientMessage::RotateCmd(msg) => {
                Some(ButtplugDeviceCommandMessageUnion::RotateCmd(msg))
            },
            ButtplugClientMessage::RawWriteCmd(msg) => {
                Some(ButtplugDeviceCommandMessageUnion::RawWriteCmd(msg))
            },
            ButtplugClientMessage::RawReadCmd(msg) => {
                Some(ButtplugDeviceCommandMessageUnion::RawReadCmd(msg))
            },
            ButtplugClientMessage::StopDeviceCmd(msg) => {
                Some(ButtplugDeviceCommandMessageUnion::StopDeviceCmd(msg))
            },
            ButtplugClientMessage::RawSubscribeCmd(msg) => {
                Some(ButtplugDeviceCommandMessageUnion::RawSubscribeCmd(msg))
            },
            ButtplugClientMessage::RawUnsubscribeCmd(msg) => {
                Some(ButtplugDeviceCommandMessageUnion::RawUnsubscribeCmd(msg))
            },
            ButtplugClientMessage::BatteryLevelCmd(msg) => {
                Some(ButtplugDeviceCommandMessageUnion::BatteryLevelCmd(msg))
            },
            ButtplugClientMessage::RSSILevelCmd(msg) => {
                Some(ButtplugDeviceCommandMessageUnion::RSSILevelCmd(msg))
            },
            ButtplugClientMessage::ScalarCmd(msg) => {
                Some(ButtplugDeviceCommandMessageUnion::ScalarCmd(msg))
            },
            ButtplugClientMessage::SensorReadCmd(msg) => {
                Some(ButtplugDeviceCommandMessageUnion::SensorReadCmd(msg))
            },
            ButtplugClientMessage::SensorSubscribeCmd(msg) => {
                Some(ButtplugDeviceCommandMessageUnion::SensorSubscribeCmd(msg))
            },
            ButtplugClientMessage::SensorUnsubscribeCmd(msg) => {
                Some(ButtplugDeviceCommandMessageUnion::SensorUnsubscribeCmd(msg))
            },
            _ => None,
        }
    }

    /// The message as a message of the uniform set.
    pub open spec fn widened(self) -> ButtplugClientMessage {
        match self {
            ButtplugDeviceCommandMessageUnion::FleshlightLaunchFW12Cmd(msg) => {
                ButtplugClientMessage::FleshlightLaunchFW12Cmd(msg)
            },
            ButtplugDeviceCommandMessageUnion::SingleMotorVibrateCmd(msg) => {
                ButtplugClientMessage::SingleMotorVibrateCmd(msg)
            },
            ButtplugDeviceCommandMessageUnion::VorzeA10CycloneCmd(msg) => {
                ButtplugClientMessage::VorzeA10CycloneCmd(msg)
            },
            ButtplugDeviceCommandMessageUnion::KiirooCmd(msg) => {
                ButtplugClientMessage::KiirooCmd(msg)
            },
            ButtplugDeviceCommandMessageUnion::VibrateCmd(msg) => {
                ButtplugClientMessage::VibrateCmd(msg)
            },
            ButtplugDeviceCommandMessageUnion::LinearCmd(msg) => {
                ButtplugClientMessage::LinearCmd(msg)
            },
            ButtplugDeviceCommandMessageUnion::RotateCmd(msg) => {
                ButtplugClientMessage::RotateCmd(msg)
            },
            ButtplugDeviceCommandMessageUnion::RawWriteCmd(msg) => {
                ButtplugClientMessage::RawWriteCmd(msg)
            },
            ButtplugDeviceCommandMessageUnion::RawReadCmd(msg) => {
                ButtplugClientMessage::RawReadCmd(msg)
            },
            ButtplugDeviceCommandMessageUnion::StopDeviceCmd(msg) => {
                ButtplugClientMessage::StopDeviceCmd(msg)
            },
            ButtplugDeviceCommandMessageUnion::RawSubscribeCmd(msg) => {
                ButtplugClientMessage::RawSubscribeCmd(msg)
            },
            ButtplugDeviceCommandMessageUnion::RawUnsubscribeCmd(msg) => {
                ButtplugClientMessage::RawUnsubscribeCmd(msg)
            },
            ButtplugDeviceCommandMessageUnion::BatteryLevelCmd(msg) => {
                ButtplugClientMessage::BatteryLevelCmd(msg)
            },
            ButtplugDeviceCommandMessageUnion::RSSILevelCmd(msg) => {
                ButtplugClientMessage::RSSILevelCmd(msg)
            },
            ButtplugDeviceCommandMessageUnion::ScalarCmd(msg) => {
                ButtplugClientMessage::ScalarCmd(msg)
            },
            ButtplugDeviceCommandMessageUnion::SensorReadCmd(msg) => {
                ButtplugClientMessage::SensorReadCmd(msg)
            },
            ButtplugDeviceCommandMessageUnion::SensorSubscribeCmd(msg) => {
                ButtplugClientMessage::SensorSubscribeCmd(msg)
            },
            ButtplugDeviceCommandMessageUnion::SensorUnsubscribeCmd(msg) => {
                ButtplugClientMessage::SensorUnsubscribeCmd(msg)
            },
        }
    }

    /// Takes a message of the uniform set into this set. Fails with a version
    /// error, which names both sets, on a message whose type this set lacks.
    pub fn try_from(
        msg: ButtplugClientMessage,
    ) -> (r: Result<ButtplugDeviceCommandMessageUnion, ButtplugMessageError>)
        ensures
            r matches Ok(m) ==> Some(m) == Self::narrowed(msg),
            r is Err <==> Self::narrowed(msg) is None,
            r matches Err(e) ==> is_version_error(
                e,
                "ButtplugClientMessage"@,
                "ButtplugDeviceCommandMessageUnion"@,
            ),
    {
        match msg {
            ButtplugClientMessage::FleshlightLaunchFW12Cmd(msg) => {
                Ok(ButtplugDeviceCommandMessageUnion::FleshlightLaunchFW12Cmd(msg))
            },
            ButtplugClientMessage::SingleMotorVibrateCmd(msg) => {
                Ok(ButtplugDeviceCommandMessageUnion::SingleMotorVibrateCmd(msg))
            },
            ButtplugClientMessage::VorzeA10CycloneCmd(msg) => {
                Ok(ButtplugDeviceCommandMessageUnion::VorzeA10CycloneCmd(msg))
            },
            ButtplugClientMessage::KiirooCmd(msg) => {
                Ok(ButtplugDeviceCommandMessageUnion::KiirooCmd(msg))
            },
            ButtplugClientMessage::VibrateCmd(msg) => {
                Ok(ButtplugDeviceCommandMessageUnion::VibrateCmd(msg))
            },
            ButtplugClientMessage::LinearCmd(msg) => {
                Ok(ButtplugDeviceCommandMessageUnion::LinearCmd(msg))
            },
            ButtplugClientMessage::RotateCmd(msg) => {
                Ok(ButtplugDeviceCommandMessageUnion::RotateCmd(msg))
            },
            ButtplugClientMessage::RawWriteCmd(msg) => {
                Ok(ButtplugDeviceCommandMessageUnion::RawWriteCmd(msg))
            },
            ButtplugClientMessage::RawReadCmd(msg) => {
                Ok(ButtplugDeviceCommandMessageUnion::RawReadCmd(msg))
            },
            ButtplugClientMessage::StopDeviceCmd(msg) => {
                Ok(ButtplugDeviceCommandMessageUnion::StopDeviceCmd(msg))
            },
            ButtplugClientMessage::RawSubscribeCmd(msg) => {
                Ok(ButtplugDeviceCommandMessageUnion::RawSubscribeCmd(msg))
            },
            ButtplugClientMessage::RawUnsubscribeCmd(msg) => {
                Ok(ButtplugDeviceCommandMessageUnion::RawUnsubscribeCmd(msg))
            },
            ButtplugClientMessage::BatteryLevelCmd(msg) => {
                Ok(ButtplugDeviceCommandMessageUnion::BatteryLevelCmd(msg))
            },
            ButtplugClientMessage::RSSILevelCmd(msg) => {
                Ok(ButtplugDeviceCommandMessageUnion::RSSILevelCmd(msg))
            },
            ButtplugClientMessage::ScalarCmd(msg) => {
                Ok(ButtplugDeviceCommandMessageUnion::ScalarCmd(msg))
            },
            ButtplugClientMessage::SensorReadCmd(msg) => {
                Ok(ButtplugDeviceCommandMessageUnion::SensorReadCmd(msg))
            },
            ButtplugClientMessage::SensorSubscribeCmd(msg) => {
                Ok(ButtplugDeviceCommandMessageUnion::SensorSubscribeCmd(msg))
            },
            ButtplugClientMessage::SensorUnsubscribeCmd(msg) => {
                Ok(ButtplugDeviceCommandMessageUnion::SensorUnsubscribeCmd(msg))
            },
            other => Err(
                ButtplugMessageError::VersionError(
                    String::from_str("ButtplugClientMessage"),
                    debug_text(&other),
                    String::from_str("ButtplugDeviceCommandMessageUnion"),
                ),
            ),
        }
    }

    /// Takes a message of this set into the uniform set.
    pub fn widen(self) -> (r: ButtplugClientMessage)
        ensures
            r == self.widened(),
    {
        match self {
            ButtplugDeviceCommandMessageUnion::FleshlightLaunchFW12Cmd(msg) => {
                ButtplugClientMessage::FleshlightLaunchFW12Cmd(msg)
            },
            ButtplugDeviceCommandMessageUnion::SingleMotorVibrateCmd(msg) => {
                ButtplugClientMessage::SingleMotorVibrateCmd(msg)
            },
            ButtplugDeviceCommandMessageUnion::VorzeA10CycloneCmd(msg) => {
                ButtplugClientMessage::VorzeA10CycloneCmd(msg)
            },
            ButtplugDeviceCommandMessageUnion::KiirooCmd(msg) => {
                ButtplugClientMessage::KiirooCmd(msg)
            },
            ButtplugDeviceCommandMessageUnion::VibrateCmd(msg) => {
                ButtplugClientMessage::VibrateCmd(msg)
            },
            ButtplugDeviceCommandMessageUnion::LinearCmd(msg) => {
                ButtplugClientMessage::LinearCmd(msg)
            },
            ButtplugDeviceCommandMessageUnion::RotateCmd(msg) => {
                ButtplugClientMessage::RotateCmd(msg)
            },
            ButtplugDeviceCommandMessageUnion::RawWriteCmd(msg) => {
                ButtplugClientMessage::RawWriteCmd(msg)
            },
            ButtplugDeviceCommandMessageUnion::RawReadCmd(msg) => {
                ButtplugClientMessage::RawReadCmd(msg)
            },
            ButtplugDeviceCommandMessageUnion::StopDeviceCmd(msg) => {
                ButtplugClientMessage::StopDeviceCmd(msg)
            },
            ButtplugDeviceCommandMessageUnion::RawSubscribeCmd(msg) => {
                ButtplugClientMessage::RawSubscribeCmd(msg)
            },
            ButtplugDeviceCommandMessageUnion::RawUnsubscribeCmd(msg) => {
                ButtplugClientMessage::RawUnsubscribeCmd(msg)
            },
            ButtplugDeviceCommandMessageUnion::BatteryLevelCmd(msg) => {
                ButtplugClientMessage::BatteryLevelCmd(msg)
            },
            ButtplugDeviceCommandMessageUnion::RSSILevelCmd(msg) => {
                ButtplugClientMessage::RSSILevelCmd(msg)
            },
            ButtplugDeviceCommandMessageUnion::ScalarCmd(msg) => {
                ButtplugClientMessage::ScalarCmd(msg)
            },
            ButtplugDeviceCommandMessageUnion::SensorReadCmd(msg) => {
                ButtplugClientMessage::SensorReadCmd(msg)
            },
            ButtplugDeviceCommandMessageUnion::SensorSubscribeCmd(msg) => {
                ButtplugClientMessage::SensorSubscribeCmd(msg)
            },
            ButtplugDeviceCommandMessageUnion::SensorUnsubscribeCmd(msg) => {
                ButtplugClientMessage::SensorUnsubscribeCmd(msg)
            },
        }
    }

    /// Widening a message and taking it back gives the message again.
    pub proof fn lemma_widen_then_narrow(self)
        ensures
            Self::narrowed(self.widened()) == Some(self),
    {
    }
}

} // verus!
