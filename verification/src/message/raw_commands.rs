//! Raw access to the channels of a device.

use vstd::prelude::*;
use crate::errors::ButtplugMessageError;
use vstd::slice::slice_to_vec;
use crate::message::{
    ButtplugMessage, ButtplugMessageFinalizer, ButtplugMessageValidator, ButtplugDeviceMessage,
    ButtplugClientMessageType, ButtplugServerMessageType, BUTTPLUG_SERVER_EVENT_ID,
    not_system_id_text,
};
use crate::message::Endpoint;

verus! {

/// Writes bytes to a channel of a device, as they are.
#[derive(Debug, Clone, PartialEq, Eq)]
pub struct RawWriteCmd {
    pub id: u32,
    pub device_index: u32,
    pub endpoint: Endpoint,
    pub data: Vec<u8>,
    pub write_with_response: bool,
}

impl RawWriteCmd {
    /// Builds the message. It carries the id 1 until its sender gives it
    /// another.
    pub fn new(
        device_index: u32,
        endpoint: Endpoint,
        data: &[u8],
        write_with_response: bool,
    ) -> (r: RawWriteCmd)
        ensures
            r.id == 1,
            r.device_index == device_index,
            r.endpoint == endpoint,
            r.data@ == data@,
            r.write_with_response == write_with_response,
    {
        RawWriteCmd {
            id: 1,
            device_index,
            endpoint,
            data: slice_to_vec(data),
            write_with_response,
        }
    }

    /// The channel to write to.
    pub fn endpoint(&self) -> (r: Endpoint)
        ensures
            r == self.endpoint,
    {
        self.endpoint
    }

    /// The bytes to write.
    pub fn data(&self) -> (r: &Vec<u8>)
        ensures
            *r == self.data,
    {
        &self.data
    }

    /// Whether the device is to confirm the write.
    pub fn write_with_response(&self) -> (r: bool)
        ensures
            r == self.write_with_response,
    {
        self.write_with_response
    }
}

impl ButtplugMessageFinalizer for RawWriteCmd {
    fn finalize(&mut self)
        ensures
            *final(self) == *old(self),
    {
    }
}

impl ButtplugMessageValidator for RawWriteCmd {
    open spec fn valid(&self) -> bool {
        self.id != BUTTPLUG_SERVER_EVENT_ID
    }

    /// The fault of a message that carries the wrong kind of id.
    open spec fn rejection(&self) -> Seq<char> {
        not_system_id_text()
    }

    fn is_valid(&self) -> (r: Result<(), ButtplugMessageError>) {
        self.is_not_system_id(self.id)
    }
}

impl ButtplugMessage for RawWriteCmd {
    open spec fn message_id(&self) -> u32 {
        self.id
    }

    fn id(&self) -> (r: u32) {
        self.id
    }

    fn set_id(&mut self, id: u32)
        ensures
            *final(self) == (RawWriteCmd { id, ..*old(self) }),
    {
        self.id = id;
    }
}

impl ButtplugDeviceMessage for RawWriteCmd {
    open spec fn message_device_index(&self) -> u32 {
        self.device_index
    }

    fn device_index(&self) -> (r: u32) {
        self.device_index
    }

    fn set_device_index(&mut self, id: u32)
        ensures
            *final(self) == (RawWriteCmd { device_index: id, ..*old(self) }),
    {
        self.device_index = id;
    }
}

impl ButtplugClientMessageType for RawWriteCmd {

}

/// Reads bytes from a channel of a device.
#[derive(Debug, Clone, PartialEq, Eq)]
pub struct RawReadCmd {
    pub id: u32,
    pub device_index: u32,
    pub endpoint: Endpoint,
    pub expected_length: u32,
    pub timeout: u32,
}

impl RawReadCmd {
    /// Builds the message. It carries the id 1 until its sender gives it
    /// another.
    pub fn new(
        device_index: u32,
        endpoint: Endpoint,
        expected_length: u32,
        timeout: u32,
    ) -> (r: RawReadCmd)
        ensures
            r.id == 1,
            r.device_index == device_index,
            r.endpoint == endpoint,
            r.expected_length == expected_length,
            r.timeout == timeout,
    {
        RawReadCmd { id: 1, device_index, endpoint, expected_length, timeout }
    }

    /// The channel to read from.
    pub fn endpoint(&self) -> (r: Endpoint)
        ensures
            r == self.endpoint,
    {
        self.endpoint
    }

    /// How many bytes the client expects; zero for as many as there are.
    pub fn expected_length(&self) -> (r: u32)
        ensures
            r == self.expected_length,
    {
        self.expected_length
    }

    /// Milliseconds to wait for the bytes; zero for no limit.
    pub fn timeout(&self) -> (r: u32)
        ensures
            r == self.timeout,
    {
        self.timeout
    }
}

impl ButtplugMessageFinalizer for RawReadCmd {
    fn finalize(&mut self)
        ensures
            *final(self) == *old(self),
    {
    }
}

impl ButtplugMessageValidator for RawReadCmd {
    open spec fn valid(&self) -> bool {
        self.id != BUTTPLUG_SERVER_EVENT_ID
    }

    /// The fault of a message that carries the wrong kind of id.
    open spec fn rejection(&self) -> Seq<char> {
        not_system_id_text()
    }

    fn is_valid(&self) -> (r: Result<(), ButtplugMessageError>) {
        self.is_not_system_id(self.id)
    }
}

impl ButtplugMessage for RawReadCmd {
    open spec fn message_id(&self) -> u32 {
        self.id
    }

    fn id(&self) -> (r: u32) {
        self.id
    }

    fn set_id(&mut self, id: u32)
        ensures
            *final(self) == (RawReadCmd { id, ..*old(self) }),
    {
        self.id = id;
    }
}

impl ButtplugDeviceMessage for RawReadCmd {
    open spec fn message_device_index(&self) -> u32 {
        self.device_index
    }

    fn device_index(&self) -> (r: u32) {
        self.device_index
    }

    fn set_device_index(&mut self, id: u32)
        ensures
            *final(self) == (RawReadCmd { device_index: id, ..*old(self) }),
    {
        self.device_index = id;
    }
}

impl ButtplugClientMessageType for RawReadCmd {

}

/// Asks for the bytes that a channel of a device sends on its own account.
#[derive(Debug, Clone, PartialEq, Eq)]
pub struct RawSubscribeCmd {
    pub id: u32,
    pub device_index: u32,
    pub endpoint: Endpoint,
}

impl RawSubscribeCmd {
    /// Builds the message. It carries the id 1 until its sender gives it
    /// another.
    pub fn new(device_index: u32, endpoint: Endpoint) -> (r: RawSubscribeCmd)
        ensures
            r.id == 1,
            r.device_index == device_index,
            r.endpoint == endpoint,
    {
        RawSubscribeCmd { id: 1, device_index, endpoint }
    }

    /// The channel to listen to.
    pub fn endpoint(&self) -> (r: Endpoint)
        ensures
            r == self.endpoint,
    {
        self.endpoint
    }
}

impl ButtplugMessageFinalizer for RawSubscribeCmd {
    fn finalize(&mut self)
        ensures
            *final(self) == *old(self),
    {
    }
}

impl ButtplugMessageValidator for RawSubscribeCmd {
    open spec fn valid(&self) -> bool {
        self.id != BUTTPLUG_SERVER_EVENT_ID
    }

    /// The fault of a message that carries the wrong kind of id.
    open spec fn rejection(&self) -> Seq<char> {
        not_system_id_text()
    }

    fn is_valid(&self) -> (r: Result<(), ButtplugMessageError>) {
        self.is_not_system_id(self.id)
    }
}

impl ButtplugMessage for RawSubscribeCmd {
    open spec fn message_id(&self) -> u32 {
        self.id
    }

    fn id(&self) -> (r: u32) {
        self.id
    }

    fn set_id(&mut self, id: u32)
        ensures
            *final(self) == (RawSubscribeCmd { id, ..*old(self) }),
    {
        self.id = id;
    }
}

impl ButtplugDeviceMessage for RawSubscribeCmd {
    open spec fn message_device_index(&self) -> u32 {
        self.device_index
    }

    fn device_index(&self) -> (r: u32) {
        self.device_index
    }

    fn set_device_index(&mut self, id: u32)
        ensures
            *final(self) == (RawSubscribeCmd { device_index: id, ..*old(self) }),
    {
        self.device_index = id;
    }
}

impl ButtplugClientMessageType for RawSubscribeCmd {

}

/// Ends a subscription to a channel of a device.
#[derive(Debug, Clone, PartialEq, Eq)]
pub struct RawUnsubscribeCmd {
    pub id: u32,
    pub device_index: u32,
    pub endpoint: Endpoint,
}

impl RawUnsubscribeCmd {
    /// Builds the message. It carries the id 1 until its sender gives it
    /// another.
    pub fn new(device_index: u32, endpoint: Endpoint) -> (r: RawUnsubscribeCmd)
        ensures
            r.id == 1,
            r.device_index == device_index,
            r.endpoint == endpoint,
    {
        RawUnsubscribeCmd { id: 1, device_index, endpoint }
    }

    /// The channel to stop listening to.
    pub fn endpoint(&self) -> (r: Endpoint)
        ensures
            r == self.endpoint,
    {
        self.endpoint
    }
}

impl ButtplugMessageFinalizer for RawUnsubscribeCmd {
    fn finalize(&mut self)
        ensures
            *final(self) == *old(self),
    {
    }
}

impl ButtplugMessageValidator for RawUnsubscribeCmd {
    open spec fn valid(&self) -> bool {
        self.id != BUTTPLUG_SERVER_EVENT_ID
    }

    /// The fault of a message that carries the wrong kind of id.
    open spec fn rejection(&self) -> Seq<char> {
        not_system_id_text()
    }

    fn is_valid(&self) -> (r: Result<(), ButtplugMessageError>) {
        self.is_not_system_id(self.id)
    }
}

impl ButtplugMessage for RawUnsubscribeCmd {
    open spec fn message_id(&self) -> u32 {
        self.id
    }

    fn id(&self) -> (r: u32) {
        self.id
    }

    fn set_id(&mut self, id: u32)
        ensures
            *final(self) == (RawUnsubscribeCmd { id, ..*old(self) }),
    {
        self.id = id;
    }
}

impl ButtplugDeviceMessage for RawUnsubscribeCmd {
    open spec fn message_device_index(&self) -> u32 {
        self.device_index
    }

    fn device_index(&self) -> (r: u32) {
        self.device_index
    }

    fn set_device_index(&mut self, id: u32)
        ensures
            *final(self) == (RawUnsubscribeCmd { device_index: id, ..*old(self) }),
    {
        self.device_index = id;
    }
}

impl ButtplugClientMessageType for RawUnsubscribeCmd {

}

/// Bytes that came from a channel of a device: the reply to a read, with the id
/// of the request, or what a subscribed channel sent, with the id of server
/// events.
#[derive(Debug, Clone, PartialEq, Eq)]
pub struct RawReading {
    pub id: u32,
    pub device_index: u32,
    pub endpoint: Endpoint,
    pub data: Vec<u8>,
}

impl RawReading {
    /// Builds the message as a notice; a reply takes the id of its request
    /// afterwards.
    pub fn new(device_index: u32, endpoint: Endpoint, data: Vec<u8>) -> (r: RawReading)
        ensures
            r.id == 0,
            r.device_index == device_index,
            r.endpoint == endpoint,
            r.data == data,
    {
        RawReading { id: 0, device_index, endpoint, data }
    }

    /// The channel that the bytes came from.
    pub fn endpoint(&self) -> (r: Endpoint)
        ensures
            r == self.endpoint,
    {
        self.endpoint
    }

    /// The bytes.
    pub fn data(&self) -> (r: &Vec<u8>)
        ensures
            *r == self.data,
    {
        &self.data
    }
}

impl ButtplugMessageFinalizer for RawReading {
    fn finalize(&mut self)
        ensures
            *final(self) == *old(self),
    {
    }
}

impl ButtplugMessageValidator for RawReading {
    open spec fn valid(&self) -> bool {
        true
    }

    /// No message of this type is rejected.
    open spec fn rejection(&self) -> Seq<char> {
        Seq::empty()
    }

    fn is_valid(&self) -> (r: Result<(), ButtplugMessageError>) {
        Ok(())
    }
}

impl ButtplugMessage for RawReading {
    open spec fn message_id(&self) -> u32 {
        self.id
    }

    fn id(&self) -> (r: u32) {
        self.id
    }

    fn set_id(&mut self, id: u32)
        ensures
            *final(self) == (RawReading { id, ..*old(self) }),
    {
        self.id = id;
    }
}

impl ButtplugDeviceMessage for RawReading {
    open spec fn message_device_index(&self) -> u32 {
        self.device_index
    }

    fn device_index(&self) -> (r: u32) {
        self.device_index
    }

    fn set_device_index(&mut self, id: u32)
        ensures
            *final(self) == (RawReading { device_index: id, ..*old(self) }),
    {
        self.device_index = id;
    }
}

impl ButtplugServerMessageType for RawReading {

}

} // verus!
