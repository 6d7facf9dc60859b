//! The uniform set of the messages of servers.

use vstd::prelude::*;
use crate::errors::ButtplugMessageError;
use crate::message::{
    ButtplugMessage, ButtplugMessageFinalizer, ButtplugMessageValidator, ButtplugServerMessageType,
};
use crate::message::{
    BatteryLevelReading, DeviceAddedV3, DeviceListV3, DeviceRemoved, Error, Log, OkV0,
    RSSILevelReading, RawReading, ScanningFinished, SensorReading, ServerInfo, Test,
};

verus! {

/// Every message that a server can send, in the terms of the latest version of
/// the schema. This is the uniform set that a server works on; what goes to a
/// client of an earlier version is converted from it.
#[derive(Debug, Clone, PartialEq)]
pub enum ButtplugServerMessage {
    OkV0(OkV0),
    Error(Error),
    Test(Test),
    Log(Log),
    ServerInfo(ServerInfo),
    DeviceList(DeviceListV3),
    DeviceAdded(DeviceAddedV3),
    DeviceRemoved(DeviceRemoved),
    ScanningFinished(ScanningFinished),
    RawReading(RawReading),
    SensorReading(SensorReading),
    BatteryLevelReading(BatteryLevelReading),
    RSSILevelReading(RSSILevelReading),
}

impl ButtplugServerMessage {
    /// Whether `self` is `before` with its id replaced by `id`.
    pub open spec fn with_id_of(self, before: ButtplugServerMessage, id: u32) -> bool {
        match before {
            ButtplugServerMessage::OkV0(msg) => {
                self == ButtplugServerMessage::OkV0(OkV0 { id, ..msg })
            },
            ButtplugServerMessage::Error(msg) => {
                self == ButtplugServerMessage::Error(Error { id, ..msg })
            },
            ButtplugServerMessage::Test(msg) => {
                self == ButtplugServerMessage::Test(Test { id, ..msg })
            },
            ButtplugServerMessage::Log(msg) => {
                self == ButtplugServerMessage::Log(Log { id, ..msg })
            },
            ButtplugServerMessage::ServerInfo(msg) => {
                self == ButtplugServerMessage::ServerInfo(ServerInfo { id, ..msg })
            },
            ButtplugServerMessage::DeviceList(msg) => {
                self == ButtplugServerMessage::DeviceList(DeviceListV3 { id, ..msg })
            },
            ButtplugServerMessage::DeviceAdded(msg) => {
                self == ButtplugServerMessage::DeviceAdded(DeviceAddedV3 { id, ..msg })
            },
            ButtplugServerMessage::DeviceRemoved(msg) => {
                self == ButtplugServerMessage::DeviceRemoved(DeviceRemoved { id, ..msg })
            },
            ButtplugServerMessage::ScanningFinished(msg) => {
                self == ButtplugServerMessage::ScanningFinished(ScanningFinished { id, ..msg })
            },
            ButtplugServerMessage::RawReading(msg) => {
                self == ButtplugServerMessage::RawReading(RawReading { id, ..msg })
            },
            ButtplugServerMessage::SensorReading(msg) => {
                self == ButtplugServerMessage::SensorReading(SensorReading { id, ..msg })
            },
            ButtplugServerMessage::BatteryLevelReading(msg) => {
                self == ButtplugServerMessage::BatteryLevelReading(
                    BatteryLevelReading { id, ..msg },
                )
            },
            ButtplugServerMessage::RSSILevelReading(msg) => {
                self == ButtplugServerMessage::RSSILevelReading(RSSILevelReading { id, ..msg })
            },
        }
    }
}

impl ButtplugServerMessage {
    /// Whether `self` is `before` after it has been finalized: in a notice of
    /// a new device and in a list of devices the indices are derived, and
    /// every other message is as it was.
    pub open spec fn finalized_from(self, before: ButtplugServerMessage) -> bool {
        match before {
            ButtplugServerMessage::DeviceAdded(msg) => self matches ButtplugServerMessage::DeviceAdded(done) && done.id == msg.id
                && done.info().finalized_from(msg.info()),
            ButtplugServerMessage::DeviceList(msg) => {
                self matches ButtplugServerMessage::DeviceList(done) && done.finalized_from(msg)
            },
            _ => self == before,
        }
    }
}

impl ButtplugMessageFinalizer for ButtplugServerMessage {
    fn finalize(&mut self)
        ensures
            final(self).finalized_from(*old(self)),
    {
        match self {
            ButtplugServerMessage::DeviceAdded(da) => da.finalize(),
            ButtplugServerMessage::DeviceList(dl) => dl.finalize(),
            _ => {},
        }
    }
}

impl ButtplugMessageValidator for ButtplugServerMessage {
    open spec fn valid(&self) -> bool {
        match self {
            ButtplugServerMessage::OkV0(msg) => msg.valid(),
            ButtplugServerMessage::Error(msg) => msg.valid(),
            ButtplugServerMessage::Test(msg) => msg.valid(),
            ButtplugServerMessage::Log(msg) => msg.valid(),
            ButtplugServerMessage::ServerInfo(msg) => msg.valid(),
            ButtplugServerMessage::DeviceList(msg) => msg.valid(),
            ButtplugServerMessage::DeviceAdded(msg) => msg.valid(),
            ButtplugServerMessage::DeviceRemoved(msg) => msg.valid(),
            ButtplugServerMessage::ScanningFinished(msg) => msg.valid(),
            ButtplugServerMessage::RawReading(msg) => msg.valid(),
            ButtplugServerMessage::SensorReading(msg) => msg.valid(),
            ButtplugServerMessage::BatteryLevelReading(msg) => msg.valid(),
            ButtplugServerMessage::RSSILevelReading(msg) => msg.valid(),
        }
    }

    open spec fn rejection(&self) -> Seq<char> {
        match self {
            ButtplugServerMessage::OkV0(msg) => msg.rejection(),
            ButtplugServerMessage::Error(msg) => msg.rejection(),
            ButtplugServerMessage::Test(msg) => msg.rejection(),
            ButtplugServerMessage::Log(msg) => msg.rejection(),
            ButtplugServerMessage::ServerInfo(msg) => msg.rejection(),
            ButtplugServerMessage::DeviceList(msg) => msg.rejection(),
            ButtplugServerMessage::DeviceAdded(msg) => msg.rejection(),
            ButtplugServerMessage::DeviceRemoved(msg) => msg.rejection(),
            ButtplugServerMessage::ScanningFinished(msg) => msg.rejection(),
            ButtplugServerMessage::RawReading(msg) => msg.rejection(),
            ButtplugServerMessage::SensorReading(msg) => msg.rejection(),
            ButtplugServerMessage::BatteryLevelReading(msg) => msg.rejection(),
            ButtplugServerMessage::RSSILevelReading(msg) => msg.rejection(),
        }
    }

    fn is_valid(&self) -> (r: Result<(), ButtplugMessageError>) {
        match self {
            ButtplugServerMessage::OkV0(msg) => msg.is_valid(),
            ButtplugServerMessage::Error(msg) => msg.is_valid(),
            ButtplugServerMessage::Test(msg) => msg.is_valid(),
            ButtplugServerMessage::Log(msg) => msg.is_valid(),
            ButtplugServerMessage::ServerInfo(msg) => msg.is_valid(),
            ButtplugServerMessage::DeviceList(msg) => msg.is_valid(),
            ButtplugServerMessage::DeviceAdded(msg) => msg.is_valid(),
            ButtplugServerMessage::DeviceRemoved(msg) => msg.is_valid(),
            ButtplugServerMessage::ScanningFinished(msg) => msg.is_valid(),
            ButtplugServerMessage::RawReading(msg) => msg.is_valid(),
            ButtplugServerMessage::SensorReading(msg) => msg.is_valid(),
            ButtplugServerMessage::BatteryLevelReading(msg) => msg.is_valid(),
            ButtplugServerMessage::RSSILevelReading(msg) => msg.is_valid(),
        }
    }
}

impl ButtplugMessage for ButtplugServerMessage {
    open spec fn message_id(&self) -> u32 {
        match self {
            ButtplugServerMessage::OkV0(msg) => msg.message_id(),
            ButtplugServerMessage::Error(msg) => msg.message_id(),
            ButtplugServerMessage::Test(msg) => msg.message_id(),
            ButtplugServerMessage::Log(msg) => msg.message_id(),
            ButtplugServerMessage::ServerInfo(msg) => msg.message_id(),
            ButtplugServerMessage::DeviceList(msg) => msg.message_id(),
            ButtplugServerMessage::DeviceAdded(msg) => msg.message_id(),
            ButtplugServerMessage::DeviceRemoved(msg) => msg.message_id(),
            ButtplugServerMessage::ScanningFinished(msg) => msg.message_id(),
            ButtplugServerMessage::RawReading(msg) => msg.message_id(),
            ButtplugServerMessage::SensorReading(msg) => msg.message_id(),
            ButtplugServerMessage::BatteryLevelReading(msg) => msg.message_id(),
            ButtplugServerMessage::RSSILevelReading(msg) => msg.message_id(),
        }
    }

    fn id(&self) -> (r: u32) {
        match self {
            ButtplugServerMessage::OkV0(msg) => msg.id(),
            ButtplugServerMessage::Error(msg) => msg.id(),
            ButtplugServerMessage::Test(msg) => msg.id(),
            ButtplugServerMessage::Log(msg) => msg.id(),
            ButtplugServerMessage::ServerInfo(msg) => msg.id(),
            ButtplugServerMessage::DeviceList(msg) => msg.id(),
            ButtplugServerMessage::DeviceAdded(msg) => msg.id(),
            ButtplugServerMessage::DeviceRemoved(msg) => msg.id(),
            ButtplugServerMessage::ScanningFinished(msg) => msg.id(),
            ButtplugServerMessage::RawReading(msg) => msg.id(),
            ButtplugServerMessage::SensorReading(msg) => msg.id(),
            ButtplugServerMessage::BatteryLevelReading(msg) => msg.id(),
            ButtplugServerMessage::RSSILevelReading(msg) => msg.id(),
        }
    }

    fn set_id(&mut self, id: u32)
        ensures
            final(self).with_id_of(*old(self), id),
    {
        match self {
            ButtplugServerMessage::OkV0(msg) => msg.set_id(id),
            ButtplugServerMessage::Error(msg) => msg.set_id(id),
            ButtplugServerMessage::Test(msg) => msg.set_id(id),
            ButtplugServerMessage::Log(msg) => msg.set_id(id),
            ButtplugServerMessage::ServerInfo(msg) => msg.set_id(id),
            ButtplugServerMessage::DeviceList(msg) => msg.set_id(id),
            ButtplugServerMessage::DeviceAdded(msg) => msg.set_id(id),
            ButtplugServerMessage::DeviceRemoved(msg) => msg.set_id(id),
            ButtplugServerMessage::ScanningFinished(msg) => msg.set_id(id),
            ButtplugServerMessage::RawReading(msg) => msg.set_id(id),
            ButtplugServerMessage::SensorReading(msg) => msg.set_id(id),
            ButtplugServerMessage::BatteryLevelReading(msg) => msg.set_id(id),
            ButtplugServerMessage::RSSILevelReading(msg) => msg.set_id(id),
        }
    }
}

impl ButtplugServerMessageType for ButtplugServerMessage {

}

/// The messages of a server that report what a device sent on its own account.
/// They carry the id of server events.
#[derive(Debug, Clone, PartialEq)]
pub enum ButtplugServerDeviceMessage {
    RawReading(RawReading),
    SensorReading(SensorReading),
}

impl ButtplugServerDeviceMessage {
    /// Whether `self` is `before` with its id replaced by `id`.
    pub open spec fn with_id_of(self, before: ButtplugServerDeviceMessage, id: u32) -> bool {
        match before {
            ButtplugServerDeviceMessage::RawReading(msg) => {
                self == ButtplugServerDeviceMessage::RawReading(RawReading { id, ..msg })
            },
            ButtplugServerDeviceMessage::SensorReading(msg) => {
                self == ButtplugServerDeviceMessage::SensorReading(SensorReading { id, ..msg })
            },
        }
    }
}

impl ButtplugMessageFinalizer for ButtplugServerDeviceMessage {
    fn finalize(&mut self)
        ensures
            *final(self) == *old(self),
    {
    }
}

impl ButtplugMessageValidator for ButtplugServerDeviceMessage {
    open spec fn valid(&self) -> bool {
        match self {
            ButtplugServerDeviceMessage::RawReading(msg) => msg.valid(),
            ButtplugServerDeviceMessage::SensorReading(msg) => msg.valid(),
        }
    }

    open spec fn rejection(&self) -> Seq<char> {
        match self {
            ButtplugServerDeviceMessage::RawReading(msg) => msg.rejection(),
            ButtplugServerDeviceMessage::SensorReading(msg) => msg.rejection(),
        }
    }

    fn is_valid(&self) -> (r: Result<(), ButtplugMessageError>) {
        match self {
            ButtplugServerDeviceMessage::RawReading(msg) => msg.is_valid(),
            ButtplugServerDeviceMessage::SensorReading(msg) => msg.is_valid(),
        }
    }
}

impl ButtplugMessage for ButtplugServerDeviceMessage {
    open spec fn message_id(&self) -> u32 {
        match self {
            ButtplugServerDeviceMessage::RawReading(msg) => msg.message_id(),
            ButtplugServerDeviceMessage::SensorReading(msg) => msg.message_id(),
        }
    }

    fn id(&self) -> (r: u32) {
        match self {
            ButtplugServerDeviceMessage::RawReading(msg) => msg.id(),
            ButtplugServerDeviceMessage::SensorReading(msg) => msg.id(),
        }
    }

    fn set_id(&mut self, id: u32)
        ensures
            final(self).with_id_of(*old(self), id),
    {
        match self {
            ButtplugServerDeviceMessage::RawReading(msg) => msg.set_id(id),
            ButtplugServerDeviceMessage::SensorReading(msg) => msg.set_id(id),
        }
    }
}

impl ButtplugServerMessageType for ButtplugServerDeviceMessage {

}

impl ButtplugServerDeviceMessage {
    /// The report as a message of the uniform set.
    pub open spec fn widened(self) -> ButtplugServerMessage {
        match self {
            ButtplugServerDeviceMessage::RawReading(msg) => ButtplugServerMessage::RawReading(msg),
            ButtplugServerDeviceMessage::SensorReading(msg) => ButtplugServerMessage::SensorReading(
                msg,
            ),
        }
    }
}

impl ButtplugServerMessage {
    /// Takes a report of a device into the uniform set.
    pub fn from(other: ButtplugServerDeviceMessage) -> (r: ButtplugServerMessage)
        ensures
            r == other.widened(),
    {
        match other {
            ButtplugServerDeviceMessage::RawReading(msg) => ButtplugServerMessage::RawReading(msg),
            ButtplugServerDeviceMessage::SensorReading(msg) => ButtplugServerMessage::SensorReading(
                msg,
            ),
        }
    }
}

} // verus!
