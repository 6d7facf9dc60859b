//! The list of the connected devices, in the terms of each version of the
//! schema.

use vstd::prelude::*;
use crate::errors::ButtplugMessageError;
use crate::message::{
    ButtplugMessage, ButtplugMessageFinalizer, ButtplugMessageValidator, ButtplugServerMessageType,
    BUTTPLUG_SERVER_EVENT_ID, not_system_id_text,
};
use crate::message::device_message_info::{
    DeviceMessageInfo, DeviceMessageInfoV0, DeviceMessageInfoV1, DeviceMessageInfoV2,
    DeviceMessageInfoV3,
};

verus! {

/// The devices that are connected, in version 4 of the schema, which is still
/// in the making: the reply to a request for them.
#[derive(Debug, Clone, PartialEq, Eq)]
pub struct DeviceList {
    pub id: u32,
    pub devices: Vec<DeviceMessageInfo>,
}

impl DeviceList {
    /// Builds the reply; it takes the id of the client's request afterwards.
    pub fn new(devices: Vec<DeviceMessageInfo>) -> (r: DeviceList)
        ensures
            r.id == 1,
            r.devices == devices,
    {
        DeviceList { id: 1, devices }
    }

    /// What is said of each device.
    pub fn devices(&self) -> (r: &Vec<DeviceMessageInfo>)
        ensures
            *r == self.devices,
    {
        &self.devices
    }
}

impl ButtplugMessageFinalizer for DeviceList {
    fn finalize(&mut self)
        ensures
            *final(self) == *old(self),
    {
    }
}

impl ButtplugMessageValidator for DeviceList {
    open spec fn valid(&self) -> bool {
        self.id != BUTTPLUG_SERVER_EVENT_ID
    }

    /// The fault of a message that carries the wrong kind of id.
    open spec fn rejection(&self) -> Seq<char> {
        not_system_id_text()
    }

    fn is_valid(&self) -> (r: Result<(), ButtplugMessageError>) {
        self.is_not_system_id(self.id)
    }
}

impl ButtplugMessage for DeviceList {
    open spec fn message_id(&self) -> u32 {
        self.id
    }

    fn id(&self) -> (r: u32) {
        self.id
    }

    fn set_id(&mut self, id: u32)
        ensures
            *final(self) == (DeviceList { id, ..*old(self) }),
    {
        self.id = id;
    }
}

impl ButtplugServerMessageType for DeviceList {

}

/// The devices that are connected, in version 3 of the schema: the reply to a
/// request for them.
#[derive(Debug, Clone, PartialEq, Eq)]
pub struct DeviceListV3 {
    pub id: u32,
    pub devices: Vec<DeviceMessageInfoV3>,
}

impl DeviceListV3 {
    /// Builds the reply; it takes the id of the client's request afterwards.
    pub fn new(devices: Vec<DeviceMessageInfoV3>) -> (r: DeviceListV3)
        ensures
            r.id == 1,
            r.devices == devices,
    {
        DeviceListV3 { id: 1, devices }
    }

    /// What is said of each device.
    pub fn devices(&self) -> (r: &Vec<DeviceMessageInfoV3>)
        ensures
            *r == self.devices,
    {
        &self.devices
    }

    /// Whether `self` lists the devices of `other`, each in the terms of
    /// version 3.
    pub open spec fn downgraded_from(self, other: DeviceList) -> bool {
        &&& self.id == other.id
        &&& self.devices@.len() == other.devices@.len()
        &&& forall|i: int|
            0 <= i < other.devices@.len() ==> (#[trigger] self.devices@[i]).downgraded_from(
                other.devices@[i],
            )
    }

    /// The list in the terms of this version, device by device. The id stays.
    pub fn from(msg: DeviceList) -> (r: DeviceListV3)
        ensures
            r.downgraded_from(msg),
    {
        let mut devices: Vec<DeviceMessageInfoV3> = Vec::new();
        let mut i: usize = 0;
        while i < msg.devices.len()
            invariant
                i <= msg.devices.len(),
                devices@.len() == i,
                forall|j: int|
                    0 <= j < i ==> (#[trigger] devices@[j]).downgraded_from(msg.devices@[j]),
            decreases msg.devices.len() - i,
        {
            let v3 = DeviceMessageInfoV3::from_ref(&msg.devices[i]);
            assert(v3.downgraded_from(msg.devices@[i as int]));
            devices.push(v3);
            i = i + 1;
        }
        DeviceListV3 { id: msg.id, devices }
    }

    /// Whether `self` is `before` with the indices derived in the description
    /// of every device.
    pub open spec fn finalized_from(self, before: DeviceListV3) -> bool {
        &&& self.id == before.id
        &&& self.devices@.len() == before.devices@.len()
        &&& forall|i: int|
            0 <= i < before.devices@.len() ==> (#[trigger] self.devices@[i]).finalized_from(
                before.devices@[i],
            )
    }
}

impl ButtplugMessageFinalizer for DeviceListV3 {
    /// Derives the indices in the description of every device.
    fn finalize(&mut self)
        ensures
            final(self).finalized_from(*old(self)),
    {
        let mut i: usize = 0;
        while i < self.devices.len()
            invariant
                i <= self.devices.len(),
                self.id == old(self).id,
                self.devices@.len() == old(self).devices@.len(),
                forall|j: int|
                    0 <= j < i ==> (#[trigger] self.devices@[j]).finalized_from(old(self).devices@[j]),
                forall|j: int|
                    i <= j < self.devices@.len() ==> (#[trigger] self.devices@[j]) == old(
                        self,
                    ).devices@[j],
            decreases self.devices.len() - i,
        {
            self.devices[i].device_messages.finalize();
            i = i + 1;
        }
    }
}

impl ButtplugMessageValidator for DeviceListV3 {
    open spec fn valid(&self) -> bool {
        self.id != BUTTPLUG_SERVER_EVENT_ID
    }

    /// The fault of a message that carries the wrong kind of id.
    open spec fn rejection(&self) -> Seq<char> {
        not_system_id_text()
    }

    fn is_valid(&self) -> (r: Result<(), ButtplugMessageError>) {
        self.is_not_system_id(self.id)
    }
}

impl ButtplugMessage for DeviceListV3 {
    open spec fn message_id(&self) -> u32 {
        self.id
    }

    fn id(&self) -> (r: u32) {
        self.id
    }

    fn set_id(&mut self, id: u32)
        ensures
            *final(self) == (DeviceListV3 { id, ..*old(self) }),
    {
        self.id = id;
    }
}

impl ButtplugServerMessageType for DeviceListV3 {

}

/// The devices that are connected, in version 2 of the schema: the reply to a
/// request for them.
#[derive(Debug, Clone, PartialEq, Eq)]
pub struct DeviceListV2 {
    pub id: u32,
    pub devices: Vec<DeviceMessageInfoV2>,
}

impl DeviceListV2 {
    /// Builds the reply; it takes the id of the client's request afterwards.
    pub fn new(devices: Vec<DeviceMessageInfoV2>) -> (r: DeviceListV2)
        ensures
            r.id == 1,
            r.devices == devices,
    {
        DeviceListV2 { id: 1, devices }
    }

    /// What is said of each device.
    pub fn devices(&self) -> (r: &Vec<DeviceMessageInfoV2>)
        ensures
            *r == self.devices,
    {
        &self.devices
    }

    /// Whether `self` lists the devices of `other`, each in the terms of
    /// version 2.
    pub open spec fn downgraded_from(self, other: DeviceListV3) -> bool {
        &&& self.id == other.id
        &&& self.devices@.len() == other.devices@.len()
        &&& forall|i: int|
            0 <= i < other.devices@.len() ==> (#[trigger] self.devices@[i]).downgraded_from(
                other.devices@[i],
            )
    }

    /// The list in the terms of this version, device by device. The id stays.
    pub fn from_v3(msg: DeviceListV3) -> (r: DeviceListV2)
        ensures
            r.downgraded_from(msg),
    {
        let mut devices: Vec<DeviceMessageInfoV2> = Vec::new();
        let mut i: usize = 0;
        while i < msg.devices.len()
            invariant
                i <= msg.devices.len(),
                devices@.len() == i,
                forall|j: int|
                    0 <= j < i ==> (#[trigger] devices@[j]).downgraded_from(msg.devices@[j]),
            decreases msg.devices.len() - i,
        {
            let v2 = DeviceMessageInfoV2::from_ref(&msg.devices[i]);
            assert(v2.downgraded_from(msg.devices@[i as int]));
            devices.push(v2);
            i = i + 1;
        }
        DeviceListV2 { id: msg.id, devices }
    }

    /// Whether `self` lists the devices of `other`, each in the terms of
    /// version 2.
    pub open spec fn downgraded_from_latest(self, other: DeviceList) -> bool {
        &&& self.id == other.id
        &&& self.devices@.len() == other.devices@.len()
        &&& forall|i: int|
            0 <= i < other.devices@.len() ==> (#[trigger] self.devices@[i]).downgraded_from_latest(
                other.devices@[i],
            )
    }

    /// The list in the terms of this version, device by device. The id stays.
    pub fn from(msg: DeviceList) -> (r: DeviceListV2)
        ensures
            r.downgraded_from_latest(msg),
    {
        let mut devices: Vec<DeviceMessageInfoV2> = Vec::new();
        let mut i: usize = 0;
        while i < msg.devices.len()
            invariant
                i <= msg.devices.len(),
                devices@.len() == i,
                forall|j: int|
                    0 <= j < i ==> (#[trigger] devices@[j]).downgraded_from_latest(msg.devices@[j]),
            decreases msg.devices.len() - i,
        {
            let v3 = DeviceMessageInfoV3::from_ref(&msg.devices[i]);
            let v2 = DeviceMessageInfoV2::from_ref(&v3);
            assert(v3.downgraded_from(msg.devices@[i as int]));
            assert(v2.downgraded_from_latest(msg.devices@[i as int]));
            devices.push(v2);
            i = i + 1;
        }
        DeviceListV2 { id: msg.id, devices }
    }
}

impl ButtplugMessageFinalizer for DeviceListV2 {
    fn finalize(&mut self)
        ensures
            *final(self) == *old(self),
    {
    }
}

impl ButtplugMessageValidator for DeviceListV2 {
    open spec fn valid(&self) -> bool {
        self.id != BUTTPLUG_SERVER_EVENT_ID
    }

    /// The fault of a message that carries the wrong kind of id.
    open spec fn rejection(&self) -> Seq<char> {
        not_system_id_text()
    }

    fn is_valid(&self) -> (r: Result<(), ButtplugMessageError>) {
        self.is_not_system_id(self.id)
    }
}

impl ButtplugMessage for DeviceListV2 {
    open spec fn message_id(&self) -> u32 {
        self.id
    }

    fn id(&self) -> (r: u32) {
        self.id
    }

    fn set_id(&mut self, id: u32)
        ensures
            *final(self) == (DeviceListV2 { id, ..*old(self) }),
    {
        self.id = id;
    }
}

impl ButtplugServerMessageType for DeviceListV2 {

}

/// The devices that are connected, in version 1 of the schema: the reply to a
/// request for them.
#[derive(Debug, Clone, PartialEq, Eq)]
pub struct DeviceListV1 {
    pub id: u32,
    pub devices: Vec<DeviceMessageInfoV1>,
}

impl DeviceListV1 {
    /// Builds the reply; it takes the id of the client's request afterwards.
    pub fn new(devices: Vec<DeviceMessageInfoV1>) -> (r: DeviceListV1)
        ensures
            r.id == 1,
            r.devices == devices,
    {
        DeviceListV1 { id: 1, devices }
    }

    /// What is said of each device.
    pub fn devices(&self) -> (r: &Vec<DeviceMessageInfoV1>)
        ensures
            *r == self.devices,
    {
        &self.devices
    }

    /// Whether `self` lists the devices of `other`, each in the terms of
    /// version 1.
    pub open spec fn downgraded_from_v3(self, other: DeviceListV3) -> bool {
        &&& self.id == other.id
        &&& self.devices@.len() == other.devices@.len()
        &&& forall|i: int|
            0 <= i < other.devices@.len() ==> (#[trigger] self.devices@[i]).downgraded_from_v3(
                other.devices@[i],
            )
    }

    /// The list in the terms of this version, device by device. The id stays.
    pub fn from_v3(msg: DeviceListV3) -> (r: DeviceListV1)
        ensures
            r.downgraded_from_v3(msg),
    {
        let mut devices: Vec<DeviceMessageInfoV1> = Vec::new();
        let mut i: usize = 0;
        while i < msg.devices.len()
            invariant
                i <= msg.devices.len(),
                devices@.len() == i,
                forall|j: int|
                    0 <= j < i ==> (#[trigger] devices@[j]).downgraded_from_v3(msg.devices@[j]),
            decreases msg.devices.len() - i,
        {
            let v2 = DeviceMessageInfoV2::from_ref(&msg.devices[i]);
            let v1 = DeviceMessageInfoV1::from_ref(&v2);
            assert(v2.downgraded_from(msg.devices@[i as int]));
            assert(v1.downgraded_from_v3(msg.devices@[i as int]));
            devices.push(v1);
            i = i + 1;
        }
        DeviceListV1 { id: msg.id, devices }
    }

    /// Whether `self` lists the devices of `other`, each in the terms of
    /// version 1.
    pub open spec fn downgraded_from_latest(self, other: DeviceList) -> bool {
        &&& self.id == other.id
        &&& self.devices@.len() == other.devices@.len()
        &&& forall|i: int|
            0 <= i < other.devices@.len() ==> (#[trigger] self.devices@[i]).downgraded_from_latest(
                other.devices@[i],
            )
    }

    /// The list in the terms of this version, device by device. The id stays.
    pub fn from(msg: DeviceList) -> (r: DeviceListV1)
        ensures
            r.downgraded_from_latest(msg),
    {
        let mut devices: Vec<DeviceMessageInfoV1> = Vec::new();
        let mut i: usize = 0;
        while i < msg.devices.len()
            invariant
                i <= msg.devices.len(),
                devices@.len() == i,
                forall|j: int|
                    0 <= j < i ==> (#[trigger] devices@[j]).downgraded_from_latest(msg.devices@[j]),
            decreases msg.devices.len() - i,
        {
            let v3 = DeviceMessageInfoV3::from_ref(&msg.devices[i]);
            let v2 = DeviceMessageInfoV2::from_ref(&v3);
            let v1 = DeviceMessageInfoV1::from_ref(&v2);
            assert(v3.downgraded_from(msg.devices@[i as int]));
            assert(v2.downgraded_from(v3));
            assert(v1.downgraded_from_v3(v3));
            assert(v1.downgraded_from_latest(msg.devices@[i as int]));
            devices.push(v1);
            i = i + 1;
        }
        DeviceListV1 { id: msg.id, devices }
    }
}

impl ButtplugMessageFinalizer for DeviceListV1 {
    fn finalize(&mut self)
        ensures
            *final(self) == *old(self),
    {
    }
}

impl ButtplugMessageValidator for DeviceListV1 {
    open spec fn valid(&self) -> bool {
        self.id != BUTTPLUG_SERVER_EVENT_ID
    }

    /// The fault of a message that carries the wrong kind of id.
    open spec fn rejection(&self) -> Seq<char> {
        not_system_id_text()
    }

    fn is_valid(&self) -> (r: Result<(), ButtplugMessageError>) {
        self.is_not_system_id(self.id)
    }
}

impl ButtplugMessage for DeviceListV1 {
    open spec fn message_id(&self) -> u32 {
        self.id
    }

    fn id(&self) -> (r: u32) {
        self.id
    }

    fn set_id(&mut self, id: u32)
        ensures
            *final(self) == (DeviceListV1 { id, ..*old(self) }),
    {
        self.id = id;
    }
}

impl ButtplugServerMessageType for DeviceListV1 {

}

/// The devices that are connected, in version 0 of the schema: the reply to a
/// request for them.
#[derive(Debug, Clone, PartialEq, Eq)]
pub struct DeviceListV0 {
    pub id: u32,
    pub devices: Vec<DeviceMessageInfoV0>,
}

impl DeviceListV0 {
    /// Builds the reply; it takes the id of the client's request afterwards.
    pub fn new(devices: Vec<DeviceMessageInfoV0>) -> (r: DeviceListV0)
        ensures
            r.id == 1,
            r.devices == devices,
    {
        DeviceListV0 { id: 1, devices }
    }

    /// What is said of each device.
    pub fn devices(&self) -> (r: &Vec<DeviceMessageInfoV0>)
        ensures
            *r == self.devices,
    {
        &self.devices
    }

    /// Whether `self` lists the devices of `other`, each in the terms of
    /// version 0.
    pub open spec fn downgraded_from_v3(self, other: DeviceListV3) -> bool {
        &&& self.id == other.id
        &&& self.devices@.len() == other.devices@.len()
        &&& forall|i: int|
            0 <= i < other.devices@.len() ==> (#[trigger] self.devices@[i]).downgraded_from_v3(
                other.devices@[i],
            )
    }

    /// The list in the terms of this version, device by device. The id stays.
    pub fn from_v3(msg: DeviceListV3) -> (r: DeviceListV0)
        ensures
            r.downgraded_from_v3(msg),
    {
        let mut devices: Vec<DeviceMessageInfoV0> = Vec::new();
        let mut i: usize = 0;
        while i < msg.devices.len()
            invariant
                i <= msg.devices.len(),
                devices@.len() == i,
                forall|j: int|
                    0 <= j < i ==> (#[trigger] devices@[j]).downgraded_from_v3(msg.devices@[j]),
            decreases msg.devices.len() - i,
        {
            let v2 = DeviceMessageInfoV2::from_ref(&msg.devices[i]);
            let v1 = DeviceMessageInfoV1::from_ref(&v2);
            let v0 = DeviceMessageInfoV0::from_ref(&v1);
            assert(v2.downgraded_from(msg.devices@[i as int]));
            assert(v1.downgraded_from_v3(msg.devices@[i as int]));
            assert(v0.downgraded_from_v3(msg.devices@[i as int]));
            devices.push(v0);
            i = i + 1;
        }
        DeviceListV0 { id: msg.id, devices }
    }

    /// Whether `self` lists the devices of `other`, each in the terms of
    /// version 0.
    pub open spec fn downgraded_from_latest(self, other: DeviceList) -> bool {
        &&& self.id == other.id
        &&& self.devices@.len() == other.devices@.len()
        &&& forall|i: int|
            0 <= i < other.devices@.len() ==> (#[trigger] self.devices@[i]).downgraded_from_latest(
                other.devices@[i],
            )
    }

    /// The list in the terms of this version, device by device. The id stays.
    pub fn from(msg: DeviceList) -> (r: DeviceListV0)
        ensures
            r.downgraded_from_latest(msg),
    {
        let mut devices: Vec<DeviceMessageInfoV0> = Vec::new();
        let mut i: usize = 0;
        while i < msg.devices.len()
            invariant
                i <= msg.devices.len(),
                devices@.len() == i,
                forall|j: int|
                    0 <= j < i ==> (#[trigger] devices@[j]).downgraded_from_latest(msg.devices@[j]),
            decreases msg.devices.len() - i,
        {
            let v3 = DeviceMessageInfoV3::from_ref(&msg.devices[i]);
            let v2 = DeviceMessageInfoV2::from_ref(&v3);
            let v1 = DeviceMessageInfoV1::from_ref(&v2);
            let v0 = DeviceMessageInfoV0::from_ref(&v1);
            assert(v3.downgraded_from(msg.devices@[i as int]));
            assert(v2.downgraded_from(v3));
            assert(v1.downgraded_from_v3(v3));
            assert(v0.downgraded_from_v3(v3));
            assert(v0.downgraded_from_latest(msg.devices@[i as int]));
            devices.push(v0);
            i = i + 1;
        }
        DeviceListV0 { id: msg.id, devices }
    }
}

impl ButtplugMessageFinalizer for DeviceListV0 {
    fn finalize(&mut self)
        ensures
            *final(self) == *old(self),
    {
    }
}

impl ButtplugMessageValidator for DeviceListV0 {
    open spec fn valid(&self) -> bool {
        self.id != BUTTPLUG_SERVER_EVENT_ID
    }

    /// The fault of a message that carries the wrong kind of id.
    open spec fn rejection(&self) -> Seq<char> {
        not_system_id_text()
    }

    fn is_valid(&self) -> (r: Result<(), ButtplugMessageError>) {
        self.is_not_system_id(self.id)
    }
}

impl ButtplugMessage for DeviceListV0 {
    open spec fn message_id(&self) -> u32 {
        self.id
    }

    fn id(&self) -> (r: u32) {
        self.id
    }

    fn set_id(&mut self, id: u32)
        ensures
            *final(self) == (DeviceListV0 { id, ..*old(self) }),
    {
        self.id = id;
    }
}

impl ButtplugServerMessageType for DeviceListV0 {

}

} // verus!
