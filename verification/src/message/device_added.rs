//! The notice of a new device, in the terms of each version of the schema.

use vstd::prelude::*;
use crate::errors::ButtplugMessageError;
use crate::message::{
    ButtplugMessage, ButtplugMessageFinalizer, ButtplugMessageValidator, ButtplugServerMessageType,
    BUTTPLUG_SERVER_EVENT_ID, system_id_text,
};
use crate::message::{ButtplugDeviceMessageType, Endpoint};
use crate::message::client_device_message_attributes::{
    ClientDeviceMessageAttributes, ClientDeviceMessageAttributesV1,
    ClientDeviceMessageAttributesV2,
};
use crate::message::device_message_info::{
    DeviceMessageInfo, DeviceMessageInfoV0, DeviceMessageInfoV1, DeviceMessageInfoV2,
    DeviceMessageInfoV3, SensorInfo, ServerActuatorInfo,
};

verus! {

/// Tells the client that a device has been found and connected, in version 4 of
/// the schema, which is still in the making.
#[derive(Debug, Clone, PartialEq, Eq)]
pub struct DeviceAdded {
    pub id: u32,
    pub index: u32,
    pub name: String,
    pub display_name: Option<String>,
    pub message_timing_gap: Option<u32>,
    pub actuators: Option<Vec<ServerActuatorInfo>>,
    pub sensors: Option<Vec<SensorInfo>>,
    pub raw: Option<Vec<Endpoint>>,
}

impl DeviceAdded {
    /// The index of the device.
    pub fn index(&self) -> (r: u32)
        ensures
            r == self.index,
    {
        self.index
    }

    /// The name of the device.
    pub fn name(&self) -> (r: &String)
        ensures
            *r == self.name,
    {
        &self.name
    }

    /// The name that the user gave the device, if any.
    pub fn display_name(&self) -> (r: &Option<String>)
        ensures
            *r == self.display_name,
    {
        &self.display_name
    }

    /// The least time between two commands, in milliseconds, if the device asks
    /// for one.
    pub fn message_timing_gap(&self) -> (r: &Option<u32>)
        ensures
            *r == self.message_timing_gap,
    {
        &self.message_timing_gap
    }

    /// The actuators of the device.
    pub fn actuators(&self) -> (r: &Option<Vec<ServerActuatorInfo>>)
        ensures
            *r == self.actuators,
    {
        &self.actuators
    }

    /// The sensors of the device.
    pub fn sensors(&self) -> (r: &Option<Vec<SensorInfo>>)
        ensures
            *r == self.sensors,
    {
        &self.sensors
    }

    /// The raw channels of the device.
    pub fn raw(&self) -> (r: &Option<Vec<Endpoint>>)
        ensures
            *r == self.raw,
    {
        &self.raw
    }

    /// Builds the notice. It carries the id of server events.
    pub fn new(
        index: u32,
        name: &str,
        display_name: &Option<String>,
        message_timing_gap: &Option<u32>,
        actuators: Option<Vec<ServerActuatorInfo>>,
        sensors: Option<Vec<SensorInfo>>,
        raw: Option<Vec<Endpoint>>,
    ) -> (r: DeviceAdded)
        ensures
            r.id == 0,
            r.index == index,
            r.name@ == name@,
            r.display_name == *display_name,
            r.message_timing_gap == *message_timing_gap,
            r.actuators == actuators,
            r.sensors == sensors,
            r.raw == raw,
    {
        let mut obj = DeviceAdded {
            id: 0,
            index,
            name: name.to_owned(),
            display_name: match display_name {
                Some(name) => Some(name.clone()),
                None => None,
            },
            message_timing_gap: *message_timing_gap,
            actuators,
            sensors,
            raw,
        };
        obj.finalize();
        obj
    }

    /// What the notice says of the device.
    pub open spec fn info(self) -> DeviceMessageInfo {
        DeviceMessageInfo {
            index: self.index,
            name: self.name,
            display_name: self.display_name,
            message_timing_gap: self.message_timing_gap,
            actuators: self.actuators,
            sensors: self.sensors,
            raw: self.raw,
        }
    }
}

impl ButtplugMessageFinalizer for DeviceAdded {
    fn finalize(&mut self)
        ensures
            *final(self) == *old(self),
    {
    }
}

impl ButtplugMessageValidator for DeviceAdded {
    open spec fn valid(&self) -> bool {
        self.id == BUTTPLUG_SERVER_EVENT_ID
    }

    /// The fault of a message that carries the wrong kind of id.
    open spec fn rejection(&self) -> Seq<char> {
        system_id_text()
    }

    fn is_valid(&self) -> (r: Result<(), ButtplugMessageError>) {
        self.is_system_id(self.id)
    }
}

impl ButtplugMessage for DeviceAdded {
    open spec fn message_id(&self) -> u32 {
        self.id
    }

    fn id(&self) -> (r: u32) {
        self.id
    }

    fn set_id(&mut self, id: u32)
        ensures
            *final(self) == (DeviceAdded { id, ..*old(self) }),
    {
        self.id = id;
    }
}

impl ButtplugServerMessageType for DeviceAdded {

}

/// Tells the client that a device has been found and connected, in version 3 of
/// the schema.
#[derive(Debug, Clone, PartialEq, Eq)]
pub struct DeviceAddedV3 {
    pub id: u32,
    pub device_index: u32,
    pub device_name: String,
    pub device_display_name: Option<String>,
    pub device_message_timing_gap: Option<u32>,
    pub device_messages: ClientDeviceMessageAttributes,
}

impl DeviceAddedV3 {
    /// The index of the device.
    pub fn device_index(&self) -> (r: u32)
        ensures
            r == self.device_index,
    {
        self.device_index
    }

    /// The name of the device.
    pub fn device_name(&self) -> (r: &String)
        ensures
            *r == self.device_name,
    {
        &self.device_name
    }

    /// The name that the user gave the device, if any.
    pub fn device_display_name(&self) -> (r: &Option<String>)
        ensures
            *r == self.device_display_name,
    {
        &self.device_display_name
    }

    /// The least time between two commands, in milliseconds, if the device asks
    /// for one.
    pub fn device_message_timing_gap(&self) -> (r: &Option<u32>)
        ensures
            *r == self.device_message_timing_gap,
    {
        &self.device_message_timing_gap
    }

    /// The commands that the device takes, and what each can address.
    pub fn device_messages(&self) -> (r: &ClientDeviceMessageAttributes)
        ensures
            *r == self.device_messages,
    {
        &self.device_messages
    }

    /// Builds the notice and finalizes it. It carries the id of server
    /// events.
    pub fn new(
        device_index: u32,
        device_name: &str,
        device_display_name: &Option<String>,
        device_message_timing_gap: &Option<u32>,
        device_messages: ClientDeviceMessageAttributes,
    ) -> (r: DeviceAddedV3)
        ensures
            r.id == 0,
            r.device_index == device_index,
            r.device_name@ == device_name@,
            r.device_display_name == *device_display_name,
            r.device_message_timing_gap == *device_message_timing_gap,
            r.device_messages.finalized_from(device_messages),
    {
        let mut obj = DeviceAddedV3 {
            id: 0,
            device_index,
            device_name: device_name.to_owned(),
            device_display_name: match device_display_name {
                Some(name) => Some(name.clone()),
                None => None,
            },
            device_message_timing_gap: *device_message_timing_gap,
            device_messages,
        };
        obj.finalize();
        obj
    }

    /// What the notice says of the device.
    pub open spec fn info(self) -> DeviceMessageInfoV3 {
        DeviceMessageInfoV3 {
            device_index: self.device_index,
            device_name: self.device_name,
            device_display_name: self.device_display_name,
            device_message_timing_gap: self.device_message_timing_gap,
            device_messages: self.device_messages,
        }
    }

    /// The notice in the terms of version 3. The id stays.
    pub fn from(msg: DeviceAdded) -> (r: DeviceAddedV3)
        ensures
            r.id == msg.id,
            r.info().downgraded_from(msg.info()),
    {
        let id = msg.id;
        let dmi = DeviceMessageInfo::from(msg);
        let dmiv3 = DeviceMessageInfoV3::from(dmi);
        DeviceAddedV3 {
            id,
            device_index: dmiv3.device_index,
            device_display_name: dmiv3.device_display_name,
            device_name: dmiv3.device_name,
            device_messages: dmiv3.device_messages,
            device_message_timing_gap: dmiv3.device_message_timing_gap,
        }
    }
}

impl ButtplugMessageFinalizer for DeviceAddedV3 {
    /// Derives the indices in the description of the device.
    fn finalize(&mut self)
        ensures
            final(self).id == old(self).id,
            final(self).info().finalized_from(old(self).info()),
    {
        self.device_messages.finalize();
    }
}

impl ButtplugMessageValidator for DeviceAddedV3 {
    open spec fn valid(&self) -> bool {
        self.id == BUTTPLUG_SERVER_EVENT_ID
    }

    /// The fault of a message that carries the wrong kind of id.
    open spec fn rejection(&self) -> Seq<char> {
        system_id_text()
    }

    fn is_valid(&self) -> (r: Result<(), ButtplugMessageError>) {
        self.is_system_id(self.id)
    }
}

impl ButtplugMessage for DeviceAddedV3 {
    open spec fn message_id(&self) -> u32 {
        self.id
    }

    fn id(&self) -> (r: u32) {
        self.id
    }

    fn set_id(&mut self, id: u32)
        ensures
            *final(self) == (DeviceAddedV3 { id, ..*old(self) }),
    {
        self.id = id;
    }
}

impl ButtplugServerMessageType for DeviceAddedV3 {

}

/// Tells the client that a device has been found and connected, in version 2 of
/// the schema.
#[derive(Debug, Clone, PartialEq, Eq)]
pub struct DeviceAddedV2 {
    pub id: u32,
    pub device_index: u32,
    pub device_name: String,
    pub device_messages: ClientDeviceMessageAttributesV2,
}

impl DeviceAddedV2 {
    /// The index of the device.
    pub fn device_index(&self) -> (r: u32)
        ensures
            r == self.device_index,
    {
        self.device_index
    }

    /// The name of the device.
    pub fn device_name(&self) -> (r: &String)
        ensures
            *r == self.device_name,
    {
        &self.device_name
    }

    /// The commands that the device takes.
    pub fn device_messages(&self) -> (r: &ClientDeviceMessageAttributesV2)
        ensures
            *r == self.device_messages,
    {
        &self.device_messages
    }

    /// What the notice says of the device.
    pub open spec fn info(self) -> DeviceMessageInfoV2 {
        DeviceMessageInfoV2 {
            device_index: self.device_index,
            device_name: self.device_name,
            device_messages: self.device_messages,
        }
    }

    /// The notice in the terms of version 2. The id stays.
    pub fn from(msg: DeviceAdded) -> (r: DeviceAddedV2)
        ensures
            r.id == msg.id,
            r.info().downgraded_from_latest(msg.info()),
    {
        let id = msg.id;
        let dmiv3 = DeviceMessageInfoV3::from(DeviceMessageInfo::from(msg));
        let ghost v3 = dmiv3;
        let dmi = DeviceMessageInfoV2::from(dmiv3);
        assert(v3.downgraded_from(msg.info()));
        DeviceAddedV2 {
            id,
            device_index: dmi.device_index,
            device_name: dmi.device_name,
            device_messages: dmi.device_messages,
        }
    }

    /// The notice of version 3 in the terms of version 2. The id stays.
    pub fn from_v3(msg: DeviceAddedV3) -> (r: DeviceAddedV2)
        ensures
            r.id == msg.id,
            r.info().downgraded_from(msg.info()),
    {
        let id = msg.id;
        let dmi = DeviceMessageInfoV2::from_device_added(msg);
        DeviceAddedV2 {
            id,
            device_index: dmi.device_index,
            device_name: dmi.device_name,
            device_messages: dmi.device_messages,
        }
    }
}

impl ButtplugMessageFinalizer for DeviceAddedV2 {
    fn finalize(&mut self)
        ensures
            *final(self) == *old(self),
    {
    }
}

impl ButtplugMessageValidator for DeviceAddedV2 {
    open spec fn valid(&self) -> bool {
        self.id == BUTTPLUG_SERVER_EVENT_ID
    }

    /// The fault of a message that carries the wrong kind of id.
    open spec fn rejection(&self) -> Seq<char> {
        system_id_text()
    }

    fn is_valid(&self) -> (r: Result<(), ButtplugMessageError>) {
        self.is_system_id(self.id)
    }
}

impl ButtplugMessage for DeviceAddedV2 {
    open spec fn message_id(&self) -> u32 {
        self.id
    }

    fn id(&self) -> (r: u32) {
        self.id
    }

    fn set_id(&mut self, id: u32)
        ensures
            *final(self) == (DeviceAddedV2 { id, ..*old(self) }),
    {
        self.id = id;
    }
}

impl ButtplugServerMessageType for DeviceAddedV2 {

}

/// Tells the client that a device has been found and connected, in version 1 of
/// the schema.
#[derive(Debug, Clone, PartialEq, Eq)]
pub struct DeviceAddedV1 {
    pub id: u32,
    pub device_index: u32,
    pub device_name: String,
    pub device_messages: ClientDeviceMessageAttributesV1,
}

impl DeviceAddedV1 {
    /// The index of the device.
    pub fn device_index(&self) -> (r: u32)
        ensures
            r == self.device_index,
    {
        self.device_index
    }

    /// The name of the device.
    pub fn device_name(&self) -> (r: &String)
        ensures
            *r == self.device_name,
    {
        &self.device_name
    }

    /// The commands that the device takes.
    pub fn device_messages(&self) -> (r: &ClientDeviceMessageAttributesV1)
        ensures
            *r == self.device_messages,
    {
        &self.device_messages
    }

    /// What the notice says of the device.
    pub open spec fn info(self) -> DeviceMessageInfoV1 {
        DeviceMessageInfoV1 {
            device_index: self.device_index,
            device_name: self.device_name,
            device_messages: self.device_messages,
        }
    }

    /// The notice in the terms of version 1. The id stays.
    pub fn from(msg: DeviceAdded) -> (r: DeviceAddedV1)
        ensures
            r.id == msg.id,
            r.info().downgraded_from_latest(msg.info()),
    {
        let id = msg.id;
        let dmiv3 = DeviceMessageInfoV3::from(DeviceMessageInfo::from(msg));
        let ghost v3 = dmiv3;
        let dmiv2 = DeviceMessageInfoV2::from(dmiv3);
        let ghost v2 = dmiv2;
        let dmi = DeviceMessageInfoV1::from(dmiv2);
        assert(v2.downgraded_from(v3));
        assert(dmi.downgraded_from_v3(v3));
        assert(v3.downgraded_from(msg.info()));
        DeviceAddedV1 {
            id,
            device_index: dmi.device_index,
            device_name: dmi.device_name,
            device_messages: dmi.device_messages,
        }
    }

    /// The notice of version 3 in the terms of version 1. The id stays.
    pub fn from_v3(msg: DeviceAddedV3) -> (r: DeviceAddedV1)
        ensures
            r.id == msg.id,
            r.info().downgraded_from_v3(msg.info()),
    {
        let id = msg.id;
        let dmi = DeviceMessageInfoV1::from_device_added(msg);
        DeviceAddedV1 {
            id,
            device_index: dmi.device_index,
            device_name: dmi.device_name,
            device_messages: dmi.device_messages,
        }
    }
}

impl ButtplugMessageFinalizer for DeviceAddedV1 {
    fn finalize(&mut self)
        ensures
            *final(self) == *old(self),
    {
    }
}

impl ButtplugMessageValidator for DeviceAddedV1 {
    open spec fn valid(&self) -> bool {
        self.id == BUTTPLUG_SERVER_EVENT_ID
    }

    /// The fault of a message that carries the wrong kind of id.
    open spec fn rejection(&self) -> Seq<char> {
        system_id_text()
    }

    fn is_valid(&self) -> (r: Result<(), ButtplugMessageError>) {
        self.is_system_id(self.id)
    }
}

impl ButtplugMessage for DeviceAddedV1 {
    open spec fn message_id(&self) -> u32 {
        self.id
    }

    fn id(&self) -> (r: u32) {
        self.id
    }

    fn set_id(&mut self, id: u32)
        ensures
            *final(self) == (DeviceAddedV1 { id, ..*old(self) }),
    {
        self.id = id;
    }
}

impl ButtplugServerMessageType for DeviceAddedV1 {

}

/// Tells the client that a device has been found and connected, in version 0 of
/// the schema.
#[derive(Debug, Clone, PartialEq, Eq)]
pub struct DeviceAddedV0 {
    pub id: u32,
    pub device_index: u32,
    pub device_name: String,
    pub device_messages: Vec<ButtplugDeviceMessageType>,
}

impl DeviceAddedV0 {
    /// The index of the device.
    pub fn device_index(&self) -> (r: u32)
        ensures
            r == self.device_index,
    {
        self.device_index
    }

    /// The name of the device.
    pub fn device_name(&self) -> (r: &String)
        ensures
            *r == self.device_name,
    {
        &self.device_name
    }

    /// The commands that the device takes, in the order of their names.
    pub fn device_messages(&self) -> (r: &Vec<ButtplugDeviceMessageType>)
        ensures
            *r == self.device_messages,
    {
        &self.device_messages
    }

    /// What the notice says of the device.
    pub open spec fn info(self) -> DeviceMessageInfoV0 {
        DeviceMessageInfoV0 {
            device_index: self.device_index,
            device_name: self.device_name,
            device_messages: self.device_messages,
        }
    }

    /// The notice in the terms of version 0. The id stays.
    pub fn from(msg: DeviceAdded) -> (r: DeviceAddedV0)
        ensures
            r.id == msg.id,
            r.info().downgraded_from_latest(msg.info()),
    {
        let id = msg.id;
        let dmiv3 = DeviceMessageInfoV3::from(DeviceMessageInfo::from(msg));
        let ghost v3 = dmiv3;
        let dmiv2 = DeviceMessageInfoV2::from(dmiv3);
        let ghost v2 = dmiv2;
        let dmiv1 = DeviceMessageInfoV1::from(dmiv2);
        let ghost v1 = dmiv1;
        let dmi = DeviceMessageInfoV0::from(dmiv1);
        assert(v2.downgraded_from(v3));
        assert(v1.downgraded_from_v3(v3));
        assert(dmi.downgraded_from_v3(v3));
        assert(v3.downgraded_from(msg.info()));
        DeviceAddedV0 {
            id,
            device_index: dmi.device_index,
            device_name: dmi.device_name,
            device_messages: dmi.device_messages,
        }
    }

    /// The notice of version 3 in the terms of version 0. The id stays.
    pub fn from_v3(msg: DeviceAddedV3) -> (r: DeviceAddedV0)
        ensures
            r.id == msg.id,
            r.info().downgraded_from_v3(msg.info()),
    {
        let id = msg.id;
        let dmi = DeviceMessageInfoV0::from_device_added(msg);
        DeviceAddedV0 {
            id,
            device_index: dmi.device_index,
            device_name: dmi.device_name,
            device_messages: dmi.device_messages,
        }
    }
}

impl ButtplugMessageFinalizer for DeviceAddedV0 {
    fn finalize(&mut self)
        ensures
            *final(self) == *old(self),
    {
    }
}

impl ButtplugMessageValidator for DeviceAddedV0 {
    open spec fn valid(&self) -> bool {
        self.id == BUTTPLUG_SERVER_EVENT_ID
    }

    /// The fault of a message that carries the wrong kind of id.
    open spec fn rejection(&self) -> Seq<char> {
        system_id_text()
    }

    fn is_valid(&self) -> (r: Result<(), ButtplugMessageError>) {
        self.is_system_id(self.id)
    }
}

impl ButtplugMessage for DeviceAddedV0 {
    open spec fn message_id(&self) -> u32 {
        self.id
    }

    fn id(&self) -> (r: u32) {
        self.id
    }

    fn set_id(&mut self, id: u32)
        ensures
            *final(self) == (DeviceAddedV0 { id, ..*old(self) }),
    {
        self.id = id;
    }
}

impl ButtplugServerMessageType for DeviceAddedV0 {

}

} // verus!
