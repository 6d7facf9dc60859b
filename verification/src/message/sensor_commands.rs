//! Commands for the sensors of a device, and what the sensors report.

use vstd::prelude::*;
use crate::errors::ButtplugMessageError;
use crate::message::{
    ButtplugMessage, ButtplugMessageFinalizer, ButtplugMessageValidator, ButtplugDeviceMessage,
    ButtplugClientMessageType, ButtplugServerMessageType, BUTTPLUG_SERVER_EVENT_ID,
    not_system_id_text,
};
use crate::message::SensorType;
use crate::double::Double;

verus! {

/// Asks for the strength of a device's radio signal. Only version 2 of the
/// schema has it.
#[derive(Debug, Clone, PartialEq, Eq)]
pub struct RSSILevelCmd {
    pub id: u32,
    pub device_index: u32,
}

impl RSSILevelCmd {
    /// Builds the message. It carries the id 1 until its sender gives it
    /// another.
    pub fn new(device_index: u32) -> (r: RSSILevelCmd)
        ensures
            r.id == 1,
            r.device_index == device_index,
    {
        RSSILevelCmd { id: 1, device_index }
    }
}

impl ButtplugMessageFinalizer for RSSILevelCmd {
    fn finalize(&mut self)
        ensures
            *final(self) == *old(self),
    {
    }
}

impl ButtplugMessageValidator for RSSILevelCmd {
    open spec fn valid(&self) -> bool {
        self.id != BUTTPLUG_SERVER_EVENT_ID
    }

    /// The fault of a message that carries the wrong kind of id.
    open spec fn rejection(&self) -> Seq<char> {
        not_system_id_text()
    }

    fn is_valid(&self) -> (r: Result<(), ButtplugMessageError>) {
        self.is_not_system_id(self.id)
    }
}

impl ButtplugMessage for RSSILevelCmd {
    open spec fn message_id(&self) -> u32 {
        self.id
    }

    fn id(&self) -> (r: u32) {
        self.id
    }

    fn set_id(&mut self, id: u32)
        ensures
            *final(self) == (RSSILevelCmd { id, ..*old(self) }),
    {
        self.id = id;
    }
}

impl ButtplugDeviceMessage for RSSILevelCmd {
    open spec fn message_device_index(&self) -> u32 {
        self.device_index
    }

    fn device_index(&self) -> (r: u32) {
        self.device_index
    }

    fn set_device_index(&mut self, id: u32)
        ensures
            *final(self) == (RSSILevelCmd { device_index: id, ..*old(self) }),
    {
        self.device_index = id;
    }
}

impl ButtplugClientMessageType for RSSILevelCmd {

}

/// Asks for the present value of a sensor.
#[derive(Debug, Clone, PartialEq, Eq)]
pub struct SensorReadCmd {
    pub id: u32,
    pub device_index: u32,
    pub sensor_index: u32,
    pub sensor_type: SensorType,
}

impl SensorReadCmd {
    /// Builds the message. It carries the id 1 until its sender gives it
    /// another.
    pub fn new(device_index: u32, sensor_index: u32, sensor_type: SensorType) -> (r: SensorReadCmd)
        ensures
            r.id == 1,
            r.device_index == device_index,
            r.sensor_index == sensor_index,
            r.sensor_type == sensor_type,
    {
        SensorReadCmd { id: 1, device_index, sensor_index, sensor_type }
    }

    /// The index of the sensor among the device's sensors.
    pub fn sensor_index(&self) -> (r: u32)
        ensures
            r == self.sensor_index,
    {
        self.sensor_index
    }

    /// What the sensor measures.
    pub fn sensor_type(&self) -> (r: SensorType)
        ensures
            r == self.sensor_type,
    {
        self.sensor_type
    }
}

impl ButtplugMessageFinalizer for SensorReadCmd {
    fn finalize(&mut self)
        ensures
            *final(self) == *old(self),
    {
    }
}

impl ButtplugMessageValidator for SensorReadCmd {
    open spec fn valid(&self) -> bool {
        self.id != BUTTPLUG_SERVER_EVENT_ID
    }

    /// The fault of a message that carries the wrong kind of id.
    open spec fn rejection(&self) -> Seq<char> {
        not_system_id_text()
    }

    fn is_valid(&self) -> (r: Result<(), ButtplugMessageError>) {
        self.is_not_system_id(self.id)
    }
}

impl ButtplugMessage for SensorReadCmd {
    open spec fn message_id(&self) -> u32 {
        self.id
    }

    fn id(&self) -> (r: u32) {
        self.id
    }

    fn set_id(&mut self, id: u32)
        ensures
            *final(self) == (SensorReadCmd { id, ..*old(self) }),
    {
        self.id = id;
    }
}

impl ButtplugDeviceMessage for SensorReadCmd {
    open spec fn message_device_index(&self) -> u32 {
        self.device_index
    }

    fn device_index(&self) -> (r: u32) {
        self.device_index
    }

    fn set_device_index(&mut self, id: u32)
        ensures
            *final(self) == (SensorReadCmd { device_index: id, ..*old(self) }),
    {
        self.device_index = id;
    }
}

impl ButtplugClientMessageType for SensorReadCmd {

}

/// Asks for the values that a sensor reports on its own account.
#[derive(Debug, Clone, PartialEq, Eq)]
pub struct SensorSubscribeCmd {
    pub id: u32,
    pub device_index: u32,
    pub sensor_index: u32,
    pub sensor_type: SensorType,
}

impl SensorSubscribeCmd {
    /// Builds the message. It carries the id 1 until its sender gives it
    /// another.
    pub fn new(
        device_index: u32,
        sensor_index: u32,
        sensor_type: SensorType,
    ) -> (r: SensorSubscribeCmd)
        ensures
            r.id == 1,
            r.device_index == device_index,
            r.sensor_index == sensor_index,
            r.sensor_type == sensor_type,
    {
        SensorSubscribeCmd { id: 1, device_index, sensor_index, sensor_type }
    }

    /// The index of the sensor among the device's sensors.
    pub fn sensor_index(&self) -> (r: u32)
        ensures
            r == self.sensor_index,
    {
        self.sensor_index
    }

    /// What the sensor measures.
    pub fn sensor_type(&self) -> (r: SensorType)
        ensures
            r == self.sensor_type,
    {
        self.sensor_type
    }
}

impl ButtplugMessageFinalizer for SensorSubscribeCmd {
    fn finalize(&mut self)
        ensures
            *final(self) == *old(self),
    {
    }
}

impl ButtplugMessageValidator for SensorSubscribeCmd {
    open spec fn valid(&self) -> bool {
        self.id != BUTTPLUG_SERVER_EVENT_ID
    }

    /// The fault of a message that carries the wrong kind of id.
    open spec fn rejection(&self) -> Seq<char> {
        not_system_id_text()
    }

    fn is_valid(&self) -> (r: Result<(), ButtplugMessageError>) {
        self.is_not_system_id(self.id)
    }
}

impl ButtplugMessage for SensorSubscribeCmd {
    open spec fn message_id(&self) -> u32 {
        self.id
    }

    fn id(&self) -> (r: u32) {
        self.id
    }

    fn set_id(&mut self, id: u32)
        ensures
            *final(self) == (SensorSubscribeCmd { id, ..*old(self) }),
    {
        self.id = id;
    }
}

impl ButtplugDeviceMessage for SensorSubscribeCmd {
    open spec fn message_device_index(&self) -> u32 {
        self.device_index
    }

    fn device_index(&self) -> (r: u32) {
        self.device_index
    }

    fn set_device_index(&mut self, id: u32)
        ensures
            *final(self) == (SensorSubscribeCmd { device_index: id, ..*old(self) }),
    {
        self.device_index = id;
    }
}

impl ButtplugClientMessageType for SensorSubscribeCmd {

}

/// Ends a subscription to a sensor.
#[derive(Debug, Clone, PartialEq, Eq)]
pub struct SensorUnsubscribeCmd {
    pub id: u32,
    pub device_index: u32,
    pub sensor_index: u32,
    pub sensor_type: SensorType,
}

impl SensorUnsubscribeCmd {
    /// Builds the message. It carries the id 1 until its sender gives it
    /// another.
    pub fn new(
        device_index: u32,
        sensor_index: u32,
        sensor_type: SensorType,
    ) -> (r: SensorUnsubscribeCmd)
        ensures
            r.id == 1,
            r.device_index == device_index,
            r.sensor_index == sensor_index,
            r.sensor_type == sensor_type,
    {
        SensorUnsubscribeCmd { id: 1, device_index, sensor_index, sensor_type }
    }

    /// The index of the sensor among the device's sensors.
    pub fn sensor_index(&self) -> (r: u32)
        ensures
            r == self.sensor_index,
    {
        self.sensor_index
    }

    /// What the sensor measures.
    pub fn sensor_type(&self) -> (r: SensorType)
        ensures
            r == self.sensor_type,
    {
        self.sensor_type
    }
}

impl ButtplugMessageFinalizer for SensorUnsubscribeCmd {
    fn finalize(&mut self)
        ensures
            *final(self) == *old(self),
    {
    }
}

impl ButtplugMessageValidator for SensorUnsubscribeCmd {
    open spec fn valid(&self) -> bool {
        self.id != BUTTPLUG_SERVER_EVENT_ID
    }

    /// The fault of a message that carries the wrong kind of id.
    open spec fn rejection(&self) -> Seq<char> {
        not_system_id_text()
    }

    fn is_valid(&self) -> (r: Result<(), ButtplugMessageError>) {
        self.is_not_system_id(self.id)
    }
}

impl ButtplugMessage for SensorUnsubscribeCmd {
    open spec fn message_id(&self) -> u32 {
        self.id
    }

    fn id(&self) -> (r: u32) {
        self.id
    }

    fn set_id(&mut self, id: u32)
        ensures
            *final(self) == (SensorUnsubscribeCmd { id, ..*old(self) }),
    {
        self.id = id;
    }
}

impl ButtplugDeviceMessage for SensorUnsubscribeCmd {
    open spec fn message_device_index(&self) -> u32 {
        self.device_index
    }

    fn device_index(&self) -> (r: u32) {
        self.device_index
    }

    fn set_device_index(&mut self, id: u32)
        ensures
            *final(self) == (SensorUnsubscribeCmd { device_index: id, ..*old(self) }),
    {
        self.device_index = id;
    }
}

impl ButtplugClientMessageType for SensorUnsubscribeCmd {

}

/// Values of a sensor: the reply to a read, with the id of the request, or what
/// a subscribed sensor reported, with the id of server events.
#[derive(Debug, Clone, PartialEq, Eq)]
pub struct SensorReading {
    pub id: u32,
    pub device_index: u32,
    pub sensor_index: u32,
    pub sensor_type: SensorType,
    pub data: Vec<i32>,
}

impl SensorReading {
    /// Builds the message as a notice; a reply takes the id of its request
    /// afterwards.
    pub fn new(
        device_index: u32,
        sensor_index: u32,
        sensor_type: SensorType,
        data: Vec<i32>,
    ) -> (r: SensorReading)
        ensures
            r.id == 0,
            r.device_index == device_index,
            r.sensor_index == sensor_index,
            r.sensor_type == sensor_type,
            r.data == data,
    {
        SensorReading { id: 0, device_index, sensor_index, sensor_type, data }
    }

    /// The index of the sensor among the device's sensors.
    pub fn sensor_index(&self) -> (r: u32)
        ensures
            r == self.sensor_index,
    {
        self.sensor_index
    }

    /// What the sensor measures.
    pub fn sensor_type(&self) -> (r: SensorType)
        ensures
            r == self.sensor_type,
    {
        self.sensor_type
    }

    /// The values, one for each range of the sensor.
    pub fn data(&self) -> (r: &Vec<i32>)
        ensures
            *r == self.data,
    {
        &self.data
    }
}

impl ButtplugMessageFinalizer for SensorReading {
    fn finalize(&mut self)
        ensures
            *final(self) == *old(self),
    {
    }
}

impl ButtplugMessageValidator for SensorReading {
    open spec fn valid(&self) -> bool {
        true
    }

    /// No message of this type is rejected.
    open spec fn rejection(&self) -> Seq<char> {
        Seq::empty()
    }

    fn is_valid(&self) -> (r: Result<(), ButtplugMessageError>) {
        Ok(())
    }
}

impl ButtplugMessage for SensorReading {
    open spec fn message_id(&self) -> u32 {
        self.id
    }

    fn id(&self) -> (r: u32) {
        self.id
    }

    fn set_id(&mut self, id: u32)
        ensures
            *final(self) == (SensorReading { id, ..*old(self) }),
    {
        self.id = id;
    }
}

impl ButtplugDeviceMessage for SensorReading {
    open spec fn message_device_index(&self) -> u32 {
        self.device_index
    }

    fn device_index(&self) -> (r: u32) {
        self.device_index
    }

    fn set_device_index(&mut self, id: u32)
        ensures
            *final(self) == (SensorReading { device_index: id, ..*old(self) }),
    {
        self.device_index = id;
    }
}

impl ButtplugServerMessageType for SensorReading {

}

/// The charge of a device's battery, as a part of one. A reply of version 2 of
/// the schema.
#[derive(Debug, Clone, PartialEq, Eq)]
pub struct BatteryLevelReading {
    pub id: u32,
    pub device_index: u32,
    pub battery_level: Double,
}

impl BatteryLevelReading {
    /// Builds the reply; it takes the id of the client's request afterwards.
    pub fn new(device_index: u32, battery_level: Double) -> (r: BatteryLevelReading)
        ensures
            r.id == 0,
            r.device_index == device_index,
            r.battery_level == battery_level,
    {
        BatteryLevelReading { id: 0, device_index, battery_level }
    }

    /// The charge, between zero and one.
    pub fn battery_level(&self) -> (r: Double)
        ensures
            r == self.battery_level,
    {
        self.battery_level
    }
}

impl ButtplugMessageFinalizer for BatteryLevelReading {
    fn finalize(&mut self)
        ensures
            *final(self) == *old(self),
    {
    }
}

impl ButtplugMessageValidator for BatteryLevelReading {
    open spec fn valid(&self) -> bool {
        self.id != BUTTPLUG_SERVER_EVENT_ID
    }

    /// The fault of a message that carries the wrong kind of id.
    open spec fn rejection(&self) -> Seq<char> {
        not_system_id_text()
    }

    fn is_valid(&self) -> (r: Result<(), ButtplugMessageError>) {
        self.is_not_system_id(self.id)
    }
}

impl ButtplugMessage for BatteryLevelReading {
    open spec fn message_id(&self) -> u32 {
        self.id
    }

    fn id(&self) -> (r: u32) {
        self.id
    }

    fn set_id(&mut self, id: u32)
        ensures
            *final(self) == (BatteryLevelReading { id, ..*old(self) }),
    {
        self.id = id;
    }
}

impl ButtplugDeviceMessage for BatteryLevelReading {
    open spec fn message_device_index(&self) -> u32 {
        self.device_index
    }

    fn device_index(&self) -> (r: u32) {
        self.device_index
    }

    fn set_device_index(&mut self, id: u32)
        ensures
            *final(self) == (BatteryLevelReading { device_index: id, ..*old(self) }),
    {
        self.device_index = id;
    }
}

impl ButtplugServerMessageType for BatteryLevelReading {

}

/// The strength of a device's radio signal. A reply of version 2 of the schema.
#[derive(Debug, Clone, PartialEq, Eq)]
pub struct RSSILevelReading {
    pub id: u32,
    pub device_index: u32,
    pub rssi_level: i32,
}

impl RSSILevelReading {
    /// Builds the reply; it takes the id of the client's request afterwards.
    pub fn new(device_index: u32, rssi_level: i32) -> (r: RSSILevelReading)
        ensures
            r.id == 0,
            r.device_index == device_index,
            r.rssi_level == rssi_level,
    {
        RSSILevelReading { id: 0, device_index, rssi_level }
    }

    /// The strength in dBm; zero or below.
    pub fn rssi_level(&self) -> (r: i32)
        ensures
            r == self.rssi_level,
    {
        self.rssi_level
    }
}

impl ButtplugMessageFinalizer for RSSILevelReading {
    fn finalize(&mut self)
        ensures
            *final(self) == *old(self),
    {
    }
}

impl ButtplugMessageValidator for RSSILevelReading {
    open spec fn valid(&self) -> bool {
        self.id != BUTTPLUG_SERVER_EVENT_ID
    }

    /// The fault of a message that carries the wrong kind of id.
    open spec fn rejection(&self) -> Seq<char> {
        not_system_id_text()
    }

    fn is_valid(&self) -> (r: Result<(), ButtplugMessageError>) {
        self.is_not_system_id(self.id)
    }
}

impl ButtplugMessage for RSSILevelReading {
    open spec fn message_id(&self) -> u32 {
        self.id
    }

    fn id(&self) -> (r: u32) {
        self.id
    }

    fn set_id(&mut self, id: u32)
        ensures
            *final(self) == (RSSILevelReading { id, ..*old(self) }),
    {
        self.id = id;
    }
}

impl ButtplugDeviceMessage for RSSILevelReading {
    open spec fn message_device_index(&self) -> u32 {
        self.device_index
    }

    fn device_index(&self) -> (r: u32) {
        self.device_index
    }

    fn set_device_index(&mut self, id: u32)
        ensures
            *final(self) == (RSSILevelReading { device_index: id, ..*old(self) }),
    {
        self.device_index = id;
    }
}

impl ButtplugServerMessageType for RSSILevelReading {

}

} // verus!
