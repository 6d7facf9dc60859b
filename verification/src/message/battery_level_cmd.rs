//! The request for a device's battery charge.

use vstd::prelude::*;
use crate::errors::ButtplugMessageError;
use crate::message::{
    ButtplugMessage, ButtplugMessageFinalizer, ButtplugMessageValidator, ButtplugDeviceMessage,
    ButtplugClientMessageType, BUTTPLUG_SERVER_EVENT_ID, not_system_id_text,
};

verus! {

/// Asks for the charge of a device's battery. Only version 2 of the schema has
/// it.
#[derive(Debug, Clone, PartialEq, Eq)]
pub struct BatteryLevelCmdV2 {
    pub id: u32,
    pub device_index: u32,
}

impl BatteryLevelCmdV2 {
    /// Builds the message. It carries the id 1 until its sender gives it
    /// another.
    pub fn new(device_index: u32) -> (r: BatteryLevelCmdV2)
        ensures
            r.id == 1,
            r.device_index == device_index,
    {
        BatteryLevelCmdV2 { id: 1, device_index }
    }
}

impl ButtplugMessageFinalizer for BatteryLevelCmdV2 {
    fn finalize(&mut self)
        ensures
            *final(self) == *old(self),
    {
    }
}

impl ButtplugMessageValidator for BatteryLevelCmdV2 {
    open spec fn valid(&self) -> bool {
        self.id != BUTTPLUG_SERVER_EVENT_ID
    }

    /// The fault of a message that carries the wrong kind of id.
    open spec fn rejection(&self) -> Seq<char> {
        not_system_id_text()
    }

    fn is_valid(&self) -> (r: Result<(), ButtplugMessageError>) {
        self.is_not_system_id(self.id)
    }
}

impl ButtplugMessage for BatteryLevelCmdV2 {
    open spec fn message_id(&self) -> u32 {
        self.id
    }

    fn id(&self) -> (r: u32) {
        self.id
    }

    fn set_id(&mut self, id: u32)
        ensures
            *final(self) == (BatteryLevelCmdV2 { id, ..*old(self) }),
    {
        self.id = id;
    }
}

impl ButtplugDeviceMessage for BatteryLevelCmdV2 {
    open spec fn message_device_index(&self) -> u32 {
        self.device_index
    }

    fn device_index(&self) -> (r: u32) {
        self.device_index
    }

    fn set_device_index(&mut self, id: u32)
        ensures
            *final(self) == (BatteryLevelCmdV2 { device_index: id, ..*old(self) }),
    {
        self.device_index = id;
    }
}

impl ButtplugClientMessageType for BatteryLevelCmdV2 {

}

} // verus!
