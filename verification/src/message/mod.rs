//! The message schema.
//!
//! Every message of the protocol is a struct of its own. The messages that a
//! version of the schema knows are gathered in two enums for that version, one
//! for each direction. A server speaks the latest version and converts what it
//! sends into the version of its client.

pub mod endpoint;
pub mod device_feature;
pub mod status;
pub mod requests;
pub mod raw_commands;
pub mod sensor_commands;
pub mod battery_level_cmd;
pub mod device_commands;
pub mod client_device_message_attributes;
pub mod device_message_info;
pub mod device_added;
pub mod device_list;
pub mod client_message;
pub mod unions;
pub mod server_message;
pub mod spec_v0;
pub mod spec_v1;
pub mod spec_v2;
pub mod spec_v3;
pub mod spec_v4;

use vstd::prelude::*;
use vstd::string::StringExecFns;
use crate::errors::ButtplugMessageError;
use crate::double::Double;

pub use self::endpoint::Endpoint;
pub use self::status::{
    LogLevel, ErrorCode, OkV0, Error, ErrorV0, Test, Log, ServerInfo, ServerInfoV0,
    ScanningFinished, DeviceRemoved,
};
pub use self::requests::{
    Ping, RequestLog, RequestServerInfo, StartScanning, StopScanning, RequestDeviceList,
    StopAllDevices,
};
pub use self::raw_commands::{
    RawWriteCmd, RawReadCmd, RawSubscribeCmd, RawUnsubscribeCmd, RawReading,
};
pub use self::sensor_commands::{
    RSSILevelCmd, SensorReadCmd, SensorSubscribeCmd, SensorUnsubscribeCmd, SensorReading,
    BatteryLevelReading, RSSILevelReading,
};
pub use self::battery_level_cmd::BatteryLevelCmdV2;
pub use self::device_list::{DeviceList, DeviceListV0, DeviceListV1, DeviceListV2, DeviceListV3};
pub use self::device_message_info::{
    ClientActuatorInfo, DeviceMessageInfo, DeviceMessageInfoV0, DeviceMessageInfoV1,
    DeviceMessageInfoV2, DeviceMessageInfoV3, SensorInfo, ServerActuatorInfo,
};
pub use self::device_added::{
    DeviceAdded, DeviceAddedV0, DeviceAddedV1, DeviceAddedV2, DeviceAddedV3,
};
pub use self::client_device_message_attributes::{
    ClientDeviceMessageAttributes, ClientDeviceMessageAttributesV1,
    ClientDeviceMessageAttributesV2, ClientGenericDeviceMessageAttributes,
    GenericDeviceMessageAttributesV1, GenericDeviceMessageAttributesV2,
    NullDeviceMessageAttributes, RawDeviceMessageAttributes, SensorDeviceMessageAttributes,
};
pub use self::client_message::ButtplugClientMessage;
pub use self::server_message::{ButtplugServerMessage, ButtplugServerDeviceMessage};
pub use self::spec_v0::{ButtplugSpecV0ClientMessage, ButtplugSpecV0ServerMessage};
pub use self::spec_v1::{ButtplugSpecV1ClientMessage, ButtplugSpecV1ServerMessage};
pub use self::spec_v2::{ButtplugSpecV2ClientMessage, ButtplugSpecV2ServerMessage};
pub use self::spec_v3::{ButtplugSpecV3ClientMessage, ButtplugSpecV3ServerMessage};
pub use self::spec_v4::{ButtplugSpecV4ClientMessage, ButtplugSpecV4ServerMessage};
pub use self::unions::{ButtplugDeviceManagerMessageUnion, ButtplugDeviceCommandMessageUnion};
pub use self::device_commands::{
    StopDeviceCmd, VibrateCmd, VibrateSubcommand, ScalarCmd, ScalarSubcommand, RotateCmd,
    RotationSubcommand, LinearCmd, VectorSubcommand, SingleMotorVibrateCmd,
    FleshlightLaunchFW12Cmd, LovenseCmd, KiirooCmd, VorzeA10CycloneCmd,
};
pub use self::device_feature::{
    ActuatorType, SensorType, FeatureType, StepRange, SensorRange, DeviceFeature,
    DeviceFeatureActuator, DeviceFeatureSensor, DeviceFeatureView, DeviceFeatureActuatorView,
    DeviceFeatureSensorView,
};

verus! {

/// The id of messages that a server sends on its own account, not in reply to
/// a request.
pub const BUTTPLUG_SERVER_EVENT_ID: u32 = 0;

/// The versions of the message schema.
#[derive(Debug, Clone, Copy, PartialEq, Eq, PartialOrd, Ord, Hash, Structural)]
pub enum ButtplugMessageSpecVersion {
    Version0,
    Version1,
    Version2,
    Version3,
}

/// The latest version that the library speaks.
pub const BUTTPLUG_CURRENT_MESSAGE_SPEC_VERSION: ButtplugMessageSpecVersion =
    ButtplugMessageSpecVersion::Version3;

impl ButtplugMessageSpecVersion {
    /// The number of the version.
    pub open spec fn spec_number(self) -> u32 {
        match self {
            ButtplugMessageSpecVersion::Version0 => 0,
            ButtplugMessageSpecVersion::Version1 => 1,
            ButtplugMessageSpecVersion::Version2 => 2,
            ButtplugMessageSpecVersion::Version3 => 3,
        }
    }

    /// The number of the version, as it is written on the wire.
    pub fn number(&self) -> (r: u32)
        ensures
            r == self.spec_number(),
    {
        match self {
            ButtplugMessageSpecVersion::Version0 => 0,
            ButtplugMessageSpecVersion::Version1 => 1,
            ButtplugMessageSpecVersion::Version2 => 2,
            ButtplugMessageSpecVersion::Version3 => 3,
        }
    }

    /// The version with the given number, if there is one.
    pub fn from_number(number: u32) -> (r: Option<ButtplugMessageSpecVersion>)
        ensures
            number <= 3 <==> r is Some,
            r matches Some(v) ==> v.spec_number() == number,
    {
        if number == 0 {
            Some(ButtplugMessageSpecVersion::Version0)
        } else if number == 1 {
            Some(ButtplugMessageSpecVersion::Version1)
        } else if number == 2 {
            Some(ButtplugMessageSpecVersion::Version2)
        } else if number == 3 {
            Some(ButtplugMessageSpecVersion::Version3)
        } else {
            None
        }
    }
}

/// The messages of clients in the latest version.
pub type ButtplugCurrentSpecClientMessage = ButtplugSpecV3ClientMessage;

/// The messages of servers in the latest version.
pub type ButtplugCurrentSpecServerMessage = ButtplugSpecV3ServerMessage;

/// The types of messages that are addressed to a device. The attributes of a
/// device name its capabilities by them.
#[derive(Copy, Debug, Clone, PartialEq, Eq, Hash, Structural)]
pub enum ButtplugDeviceMessageType {
    VibrateCmd,
    LinearCmd,
    RotateCmd,
    StopDeviceCmd,
    RawWriteCmd,
    RawReadCmd,
    RawSubscribeCmd,
    RawUnsubscribeCmd,
    BatteryLevelCmd,
    RSSILevelCmd,
    ScalarCmd,
    SensorReadCmd,
    SensorSubscribeCmd,
    SensorUnsubscribeCmd,
    SingleMotorVibrateCmd,
    FleshlightLaunchFW12Cmd,
    LovenseCmd,
    KiirooCmd,
    VorzeA10CycloneCmd,
}

impl ButtplugDeviceMessageType {
    /// The place of the type when all types are put in the order of their
    /// names, letter by letter, capitals before small letters.
    pub open spec fn spec_rank(self) -> nat {
        match self {
            ButtplugDeviceMessageType::BatteryLevelCmd => 0,
            ButtplugDeviceMessageType::FleshlightLaunchFW12Cmd => 1,
            ButtplugDeviceMessageType::KiirooCmd => 2,
            ButtplugDeviceMessageType::LinearCmd => 3,
            ButtplugDeviceMessageType::LovenseCmd => 4,
            ButtplugDeviceMessageType::RSSILevelCmd => 5,
            ButtplugDeviceMessageType::RawReadCmd => 6,
            ButtplugDeviceMessageType::RawSubscribeCmd => 7,
            ButtplugDeviceMessageType::RawUnsubscribeCmd => 8,
            ButtplugDeviceMessageType::RawWriteCmd => 9,
            ButtplugDeviceMessageType::RotateCmd => 10,
            ButtplugDeviceMessageType::ScalarCmd => 11,
            ButtplugDeviceMessageType::SensorReadCmd => 12,
            ButtplugDeviceMessageType::SensorSubscribeCmd => 13,
            ButtplugDeviceMessageType::SensorUnsubscribeCmd => 14,
            ButtplugDeviceMessageType::SingleMotorVibrateCmd => 15,
            ButtplugDeviceMessageType::StopDeviceCmd => 16,
            ButtplugDeviceMessageType::VibrateCmd => 17,
            ButtplugDeviceMessageType::VorzeA10CycloneCmd => 18,
        }
    }

    /// The place of the type in the order of the names.
    pub fn rank(&self) -> (r: u8)
        ensures
            r == self.spec_rank(),
    {
        match self {
            ButtplugDeviceMessageType::BatteryLevelCmd => 0,
            ButtplugDeviceMessageType::FleshlightLaunchFW12Cmd => 1,
            ButtplugDeviceMessageType::KiirooCmd => 2,
            ButtplugDeviceMessageType::LinearCmd => 3,
            ButtplugDeviceMessageType::LovenseCmd => 4,
            ButtplugDeviceMessageType::RSSILevelCmd => 5,
            ButtplugDeviceMessageType::RawReadCmd => 6,
            ButtplugDeviceMessageType::RawSubscribeCmd => 7,
            ButtplugDeviceMessageType::RawUnsubscribeCmd => 8,
            ButtplugDeviceMessageType::RawWriteCmd => 9,
            ButtplugDeviceMessageType::RotateCmd => 10,
            ButtplugDeviceMessageType::ScalarCmd => 11,
            ButtplugDeviceMessageType::SensorReadCmd => 12,
            ButtplugDeviceMessageType::SensorSubscribeCmd => 13,
            ButtplugDeviceMessageType::SensorUnsubscribeCmd => 14,
            ButtplugDeviceMessageType::SingleMotorVibrateCmd => 15,
            ButtplugDeviceMessageType::StopDeviceCmd => 16,
            ButtplugDeviceMessageType::VibrateCmd => 17,
            ButtplugDeviceMessageType::VorzeA10CycloneCmd => 18,
        }
    }

    /// The name of the type, as it is written on the wire.
    pub open spec fn spec_name(self) -> Seq<char> {
        match self {
            ButtplugDeviceMessageType::VibrateCmd => "VibrateCmd"@,
            ButtplugDeviceMessageType::LinearCmd => "LinearCmd"@,
            ButtplugDeviceMessageType::RotateCmd => "RotateCmd"@,
            ButtplugDeviceMessageType::StopDeviceCmd => "StopDeviceCmd"@,
            ButtplugDeviceMessageType::RawWriteCmd => "RawWriteCmd"@,
            ButtplugDeviceMessageType::RawReadCmd => "RawReadCmd"@,
            ButtplugDeviceMessageType::RawSubscribeCmd => "RawSubscribeCmd"@,
            ButtplugDeviceMessageType::RawUnsubscribeCmd => "RawUnsubscribeCmd"@,
            ButtplugDeviceMessageType::BatteryLevelCmd => "BatteryLevelCmd"@,
            ButtplugDeviceMessageType::RSSILevelCmd => "RSSILevelCmd"@,
            ButtplugDeviceMessageType::ScalarCmd => "ScalarCmd"@,
            ButtplugDeviceMessageType::SensorReadCmd => "SensorReadCmd"@,
            ButtplugDeviceMessageType::SensorSubscribeCmd => "SensorSubscribeCmd"@,
            ButtplugDeviceMessageType::SensorUnsubscribeCmd => "SensorUnsubscribeCmd"@,
            ButtplugDeviceMessageType::SingleMotorVibrateCmd => "SingleMotorVibrateCmd"@,
            ButtplugDeviceMessageType::FleshlightLaunchFW12Cmd => "FleshlightLaunchFW12Cmd"@,
            ButtplugDeviceMessageType::LovenseCmd => "LovenseCmd"@,
            ButtplugDeviceMessageType::KiirooCmd => "KiirooCmd"@,
            ButtplugDeviceMessageType::VorzeA10CycloneCmd => "VorzeA10CycloneCmd"@,
        }
    }

    /// The name of the type, as it is written on the wire.
    pub fn name(&self) -> (r: &'static str)
        ensures
            r@ == self.spec_name(),
    {
        match self {
            ButtplugDeviceMessageType::VibrateCmd => "VibrateCmd",
            ButtplugDeviceMessageType::LinearCmd => "LinearCmd",
            ButtplugDeviceMessageType::RotateCmd => "RotateCmd",
            ButtplugDeviceMessageType::StopDeviceCmd => "StopDeviceCmd",
            ButtplugDeviceMessageType::RawWriteCmd => "RawWriteCmd",
            ButtplugDeviceMessageType::RawReadCmd => "RawReadCmd",
            ButtplugDeviceMessageType::RawSubscribeCmd => "RawSubscribeCmd",
            ButtplugDeviceMessageType::RawUnsubscribeCmd => "RawUnsubscribeCmd",
            ButtplugDeviceMessageType::BatteryLevelCmd => "BatteryLevelCmd",
            ButtplugDeviceMessageType::RSSILevelCmd => "RSSILevelCmd",
            ButtplugDeviceMessageType::ScalarCmd => "ScalarCmd",
            ButtplugDeviceMessageType::SensorReadCmd => "SensorReadCmd",
            ButtplugDeviceMessageType::SensorSubscribeCmd => "SensorSubscribeCmd",
            ButtplugDeviceMessageType::SensorUnsubscribeCmd => "SensorUnsubscribeCmd",
            ButtplugDeviceMessageType::SingleMotorVibrateCmd => "SingleMotorVibrateCmd",
            ButtplugDeviceMessageType::FleshlightLaunchFW12Cmd => "FleshlightLaunchFW12Cmd",
            ButtplugDeviceMessageType::LovenseCmd => "LovenseCmd",
            ButtplugDeviceMessageType::KiirooCmd => "KiirooCmd",
            ButtplugDeviceMessageType::VorzeA10CycloneCmd => "VorzeA10CycloneCmd",
        }
    }

    /// Whether `self` comes before `other` in the order of the names.
    pub fn precedes(&self, other: &ButtplugDeviceMessageType) -> (r: bool)
        ensures
            r == (self.spec_rank() < other.spec_rank()),
    {
        self.rank() < other.rank()
    }

    /// The device message type of a command for actuators.
    pub fn from(value: ButtplugActuatorFeatureMessageType) -> (r: ButtplugDeviceMessageType)
        ensures
            r == value.device_message_type(),
    {
        match value {
            ButtplugActuatorFeatureMessageType::LinearCmd => ButtplugDeviceMessageType::LinearCmd,
            ButtplugActuatorFeatureMessageType::RotateCmd => ButtplugDeviceMessageType::RotateCmd,
            ButtplugActuatorFeatureMessageType::ScalarCmd => ButtplugDeviceMessageType::ScalarCmd,
        }
    }

    /// The device message type of a command for sensors.
    pub fn from_sensor_message_type(value: ButtplugSensorFeatureMessageType) -> (r:
        ButtplugDeviceMessageType)
        ensures
            r == value.device_message_type(),
    {
        match value {
            ButtplugSensorFeatureMessageType::SensorReadCmd => {
                ButtplugDeviceMessageType::SensorReadCmd
            },
            ButtplugSensorFeatureMessageType::SensorSubscribeCmd => {
                ButtplugDeviceMessageType::SensorSubscribeCmd
            },
        }
    }

    /// The device message type of a command for raw channels.
    pub fn from_raw_message_type(value: ButtplugRawFeatureMessageType) -> (r:
        ButtplugDeviceMessageType)
        ensures
            r == value.device_message_type(),
    {
        match value {
            ButtplugRawFeatureMessageType::RawReadCmd => ButtplugDeviceMessageType::RawReadCmd,
            ButtplugRawFeatureMessageType::RawWriteCmd => ButtplugDeviceMessageType::RawWriteCmd,
            ButtplugRawFeatureMessageType::RawSubscribeCmd => {
                ButtplugDeviceMessageType::RawSubscribeCmd
            },
        }
    }
}

/// The commands that an actuator can take.
#[derive(Copy, Debug, Clone, Hash, PartialEq, Eq, Structural)]
pub enum ButtplugActuatorFeatureMessageType {
    ScalarCmd,
    RotateCmd,
    LinearCmd,
}

impl ButtplugActuatorFeatureMessageType {
    /// The same command as a device message type.
    pub open spec fn device_message_type(self) -> ButtplugDeviceMessageType {
        match self {
            ButtplugActuatorFeatureMessageType::ScalarCmd => ButtplugDeviceMessageType::ScalarCmd,
            ButtplugActuatorFeatureMessageType::RotateCmd => ButtplugDeviceMessageType::RotateCmd,
            ButtplugActuatorFeatureMessageType::LinearCmd => ButtplugDeviceMessageType::LinearCmd,
        }
    }

    /// The command for actuators that a device message type stands for.
    /// Fails on every type that is not one of the three.
    pub fn try_from(value: ButtplugDeviceMessageType) -> (r: Result<
        ButtplugActuatorFeatureMessageType,
        (),
    >)
        ensures
            r matches Ok(t) ==> t.device_message_type() == value,
            r is Err ==> forall|t: ButtplugActuatorFeatureMessageType|
                #[trigger] t.device_message_type() != value,
    {
        match value {
            ButtplugDeviceMessageType::LinearCmd => Ok(
                ButtplugActuatorFeatureMessageType::LinearCmd,
            ),
            ButtplugDeviceMessageType::RotateCmd => Ok(
                ButtplugActuatorFeatureMessageType::RotateCmd,
            ),
            ButtplugDeviceMessageType::ScalarCmd => Ok(
                ButtplugActuatorFeatureMessageType::ScalarCmd,
            ),
            _ => Err(()),
        }
    }
}

/// The commands that a sensor can take.
#[derive(Copy, Debug, Clone, Hash, PartialEq, Eq, Structural)]
pub enum ButtplugSensorFeatureMessageType {
    SensorReadCmd,
    SensorSubscribeCmd,
}

impl ButtplugSensorFeatureMessageType {
    /// The same command as a device message type.
    pub open spec fn device_message_type(self) -> ButtplugDeviceMessageType {
        match self {
            ButtplugSensorFeatureMessageType::SensorReadCmd => {
                ButtplugDeviceMessageType::SensorReadCmd
            },
            ButtplugSensorFeatureMessageType::SensorSubscribeCmd => {
                ButtplugDeviceMessageType::SensorSubscribeCmd
            },
        }
    }

    /// The command for sensors that a device message type stands for. Fails
    /// on every type that is not one of the two.
    pub fn try_from(value: ButtplugDeviceMessageType) -> (r: Result<
        ButtplugSensorFeatureMessageType,
        (),
    >)
        ensures
            r matches Ok(t) ==> t.device_message_type() == value,
            r is Err ==> forall|t: ButtplugSensorFeatureMessageType|
                #[trigger] t.device_message_type() != value,
    {
        match value {
            ButtplugDeviceMessageType::SensorReadCmd => Ok(
                ButtplugSensorFeatureMessageType::SensorReadCmd,
            ),
            ButtplugDeviceMessageType::SensorSubscribeCmd => Ok(
                ButtplugSensorFeatureMessageType::SensorSubscribeCmd,
            ),
            _ => Err(()),
        }
    }
}

/// The commands that a raw channel can take.
#[derive(Copy, Debug, Clone, Hash, PartialEq, Eq, Structural)]
pub enum ButtplugRawFeatureMessageType {
    RawReadCmd,
    RawWriteCmd,
    RawSubscribeCmd,
}

impl ButtplugRawFeatureMessageType {
    /// The same command as a device message type.
    pub open spec fn device_message_type(self) -> ButtplugDeviceMessageType {
        match self {
            ButtplugRawFeatureMessageType::RawReadCmd => ButtplugDeviceMessageType::RawReadCmd,
            ButtplugRawFeatureMessageType::RawWriteCmd => ButtplugDeviceMessageType::RawWriteCmd,
            ButtplugRawFeatureMessageType::RawSubscribeCmd => {
                ButtplugDeviceMessageType::RawSubscribeCmd
            },
        }
    }

    /// The command for raw channels that a device message type stands for.
    /// Fails on every type that is not one of the three.
    pub fn try_from(value: ButtplugDeviceMessageType) -> (r: Result<
        ButtplugRawFeatureMessageType,
        (),
    >)
        ensures
            r matches Ok(t) ==> t.device_message_type() == value,
            r is Err ==> forall|t: ButtplugRawFeatureMessageType|
                #[trigger] t.device_message_type() != value,
    {
        match value {
            ButtplugDeviceMessageType::RawReadCmd => Ok(ButtplugRawFeatureMessageType::RawReadCmd),
            ButtplugDeviceMessageType::RawWriteCmd => Ok(
                ButtplugRawFeatureMessageType::RawWriteCmd,
            ),
            ButtplugDeviceMessageType::RawSubscribeCmd => Ok(
                ButtplugRawFeatureMessageType::RawSubscribeCmd,
            ),
            _ => Err(()),
        }
    }
}

/// Text of the error for a message that should carry the id of server events.
pub open spec fn system_id_text() -> Seq<char> {
    "Message should have id of 0, as it is a system message."@
}

/// Text of the error for a message that should not carry the id of server
/// events.
pub open spec fn not_system_id_text() -> Seq<char> {
    "Message should not have 0 for an Id. Id of 0 is reserved for system messages."@
}

/// The result of a validation that found the fault described by `text`.
pub open spec fn rejected_with(r: Result<(), ButtplugMessageError>, text: Seq<char>) -> bool {
    r matches Err(ButtplugMessageError::InvalidMessageContents(s)) && s@ == text
}

/// Derives the fields that a constructor does not take. Runs once, right
/// after a message has been built.
pub trait ButtplugMessageFinalizer {
    fn finalize(&mut self);
}

/// Checks the content of a message against the rules of its type.
pub trait ButtplugMessageValidator {
    /// Whether the message obeys the rules of its type.
    spec fn valid(&self) -> bool;

    /// The description of the first fault of a message that does not obey the
    /// rules of its type.
    spec fn rejection(&self) -> Seq<char>;

    /// Succeeds on a message that obeys the rules of its type, and fails with
    /// the description of its first fault on any other.
    fn is_valid(&self) -> (r: Result<(), ButtplugMessageError>)
        ensures
            self.valid() ==> r is Ok,
            !self.valid() ==> rejected_with(r, self.rejection()),
    ;

    /// Succeeds on the id of server events only.
    fn is_system_id(&self, id: u32) -> (r: Result<(), ButtplugMessageError>)
        ensures
            id == BUTTPLUG_SERVER_EVENT_ID ==> r is Ok,
            id != BUTTPLUG_SERVER_EVENT_ID ==> rejected_with(r, system_id_text()),
    {
        if id == 0 {
            Ok(())
        } else {
            Err(
                ButtplugMessageError::InvalidMessageContents(
                    String::from_str("Message should have id of 0, as it is a system message."),
                ),
            )
        }
    }

    /// Succeeds on every id but that of server events.
    fn is_not_system_id(&self, id: u32) -> (r: Result<(), ButtplugMessageError>)
        ensures
            id != BUTTPLUG_SERVER_EVENT_ID ==> r is Ok,
            id == BUTTPLUG_SERVER_EVENT_ID ==> rejected_with(r, not_system_id_text()),
    {
        if id == 0 {
            Err(
                ButtplugMessageError::InvalidMessageContents(
                    String::from_str(
                        "Message should not have 0 for an Id. Id of 0 is reserved for system messages.",
                    ),
                ),
            )
        } else {
            Ok(())
        }
    }

    /// Succeeds on a value between zero and one, both included, and fails
    /// with the given description on any other.
    fn is_in_command_range(&self, value: Double, error_msg: String) -> (r: Result<
        (),
        ButtplugMessageError,
    >)
        ensures
            value.in_unit_interval() ==> r is Ok,
            !value.in_unit_interval() ==> rejected_with(r, error_msg@),
    {
        if value.is_in_unit_interval() {
            Ok(())
        } else {
            Err(ButtplugMessageError::InvalidMessageContents(error_msg))
        }
    }
}

/// What all messages share: an id that pairs a reply with its request.
pub trait ButtplugMessage: ButtplugMessageValidator + ButtplugMessageFinalizer + Clone {
    /// The id of the message.
    spec fn message_id(&self) -> u32;

    /// Returns the id of the message.
    fn id(&self) -> (r: u32)
        ensures
            r == self.message_id(),
    ;

    /// Sets the id of the message.
    fn set_id(&mut self, id: u32)
        ensures
            final(self).message_id() == id,
    ;

    /// Whether the message is an event that the server sends on its own
    /// account.
    fn is_server_event(&self) -> (r: bool)
        ensures
            r == (self.message_id() == BUTTPLUG_SERVER_EVENT_ID),
    {
        self.id() == BUTTPLUG_SERVER_EVENT_ID
    }
}

/// Marks the messages that a client sends.
pub trait ButtplugClientMessageType: ButtplugMessage {

}

/// Marks the messages that a server sends.
pub trait ButtplugServerMessageType: ButtplugMessage {

}

/// A message that is addressed to one device.
pub trait ButtplugDeviceMessage: ButtplugMessage {
    /// The index of the device.
    spec fn message_device_index(&self) -> u32;

    /// Returns the index of the device.
    fn device_index(&self) -> (r: u32)
        ensures
            r == self.message_device_index(),
    ;

    /// Sets the index of the device.
    fn set_device_index(&mut self, id: u32)
        ensures
            final(self).message_device_index() == id,
            final(self).message_id() == old(self).message_id(),
    ;
}

} // verus!
