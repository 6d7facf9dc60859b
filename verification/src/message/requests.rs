//! Requests of the client that concern the session or all devices.

use vstd::prelude::*;
use crate::errors::ButtplugMessageError;
use crate::message::{
    ButtplugMessage, ButtplugMessageFinalizer, ButtplugMessageValidator, BUTTPLUG_SERVER_EVENT_ID,
    ButtplugClientMessageType, not_system_id_text,
};
use crate::message::ButtplugMessageSpecVersion;
use crate::message::status::LogLevel;

verus! {

/// Keeps the session alive. A server that asked for pings ends the session when
/// none arrives in time.
#[derive(Debug, Clone, PartialEq, Eq)]
pub struct Ping {
    pub id: u32,
}

impl Ping {
    /// Builds the message. It carries the id 1 until its sender gives it
    /// another.
    pub fn new() -> (r: Ping)
        ensures
            r.id == 1,
    {
        Ping { id: 1 }
    }
}

impl ButtplugMessageFinalizer for Ping {
    fn finalize(&mut self)
        ensures
            *final(self) == *old(self),
    {
    }
}

impl ButtplugMessageValidator for Ping {
    open spec fn valid(&self) -> bool {
        self.id != BUTTPLUG_SERVER_EVENT_ID
    }

    /// The fault of a message that carries the wrong kind of id.
    open spec fn rejection(&self) -> Seq<char> {
        not_system_id_text()
    }

    fn is_valid(&self) -> (r: Result<(), ButtplugMessageError>) {
        self.is_not_system_id(self.id)
    }
}

impl ButtplugMessage for Ping {
    open spec fn message_id(&self) -> u32 {
        self.id
    }

    fn id(&self) -> (r: u32) {
        self.id
    }

    fn set_id(&mut self, id: u32)
        ensures
            *final(self) == (Ping { id, ..*old(self) }),
    {
        self.id = id;
    }
}

impl ButtplugClientMessageType for Ping {

}

/// Asks the server to send its log, down to the given level. Only version 0 of
/// the schema has it.
#[derive(Debug, Clone, PartialEq, Eq)]
pub struct RequestLog {
    pub id: u32,
    pub log_level: LogLevel,
}

impl RequestLog {
    /// Builds the message. It carries the id 1 until its sender gives it
    /// another.
    pub fn new(log_level: LogLevel) -> (r: RequestLog)
        ensures
            r.id == 1,
            r.log_level == log_level,
    {
        RequestLog { id: 1, log_level }
    }

    /// The least grave level that the client wants to see.
    pub fn log_level(&self) -> (r: LogLevel)
        ensures
            r == self.log_level,
    {
        self.log_level
    }
}

impl ButtplugMessageFinalizer for RequestLog {
    fn finalize(&mut self)
        ensures
            *final(self) == *old(self),
    {
    }
}

impl ButtplugMessageValidator for RequestLog {
    open spec fn valid(&self) -> bool {
        self.id != BUTTPLUG_SERVER_EVENT_ID
    }

    /// The fault of a message that carries the wrong kind of id.
    open spec fn rejection(&self) -> Seq<char> {
        not_system_id_text()
    }

    fn is_valid(&self) -> (r: Result<(), ButtplugMessageError>) {
        self.is_not_system_id(self.id)
    }
}

impl ButtplugMessage for RequestLog {
    open spec fn message_id(&self) -> u32 {
        self.id
    }

    fn id(&self) -> (r: u32) {
        self.id
    }

    fn set_id(&mut self, id: u32)
        ensures
            *final(self) == (RequestLog { id, ..*old(self) }),
    {
        self.id = id;
    }
}

impl ButtplugClientMessageType for RequestLog {

}

/// The client's half of the handshake: its name and the latest version of the
/// schema that it speaks.
#[derive(Debug, Clone, PartialEq, Eq)]
pub struct RequestServerInfo {
    pub id: u32,
    pub client_name: String,
    pub message_version: ButtplugMessageSpecVersion,
}

impl RequestServerInfo {
    /// Builds the message. It carries the id 1 until its sender gives it
    /// another.
    pub fn new(
        client_name: &str,
        message_version: ButtplugMessageSpecVersion,
    ) -> (r: RequestServerInfo)
        ensures
            r.id == 1,
            r.client_name@ == client_name@,
            r.message_version == message_version,
    {
        RequestServerInfo { id: 1, client_name: client_name.to_owned(), message_version }
    }

    /// The name of the client.
    pub fn client_name(&self) -> (r: &String)
        ensures
            *r == self.client_name,
    {
        &self.client_name
    }

    /// The latest version of the schema that the client speaks.
    pub fn message_version(&self) -> (r: ButtplugMessageSpecVersion)
        ensures
            r == self.message_version,
    {
        self.message_version
    }
}

impl ButtplugMessageFinalizer for RequestServerInfo {
    fn finalize(&mut self)
        ensures
            *final(self) == *old(self),
    {
    }
}

impl ButtplugMessageValidator for RequestServerInfo {
    open spec fn valid(&self) -> bool {
        self.id != BUTTPLUG_SERVER_EVENT_ID
    }

    /// The fault of a message that carries the wrong kind of id.
    open spec fn rejection(&self) -> Seq<char> {
        not_system_id_text()
    }

    fn is_valid(&self) -> (r: Result<(), ButtplugMessageError>) {
        self.is_not_system_id(self.id)
    }
}

impl ButtplugMessage for RequestServerInfo {
    open spec fn message_id(&self) -> u32 {
        self.id
    }

    fn id(&self) -> (r: u32) {
        self.id
    }

    fn set_id(&mut self, id: u32)
        ensures
            *final(self) == (RequestServerInfo { id, ..*old(self) }),
    {
        self.id = id;
    }
}

impl ButtplugClientMessageType for RequestServerInfo {

}

/// Asks the server to search for devices.
#[derive(Debug, Clone, PartialEq, Eq)]
pub struct StartScanning {
    pub id: u32,
}

impl StartScanning {
    /// Builds the message. It carries the id 1 until its sender gives it
    /// another.
    pub fn new() -> (r: StartScanning)
        ensures
            r.id == 1,
    {
        StartScanning { id: 1 }
    }
}

impl ButtplugMessageFinalizer for StartScanning {
    fn finalize(&mut self)
        ensures
            *final(self) == *old(self),
    {
    }
}

impl ButtplugMessageValidator for StartScanning {
    open spec fn valid(&self) -> bool {
        self.id != BUTTPLUG_SERVER_EVENT_ID
    }

    /// The fault of a message that carries the wrong kind of id.
    open spec fn rejection(&self) -> Seq<char> {
        not_system_id_text()
    }

    fn is_valid(&self) -> (r: Result<(), ButtplugMessageError>) {
        self.is_not_system_id(self.id)
    }
}

impl ButtplugMessage for StartScanning {
    open spec fn message_id(&self) -> u32 {
        self.id
    }

    fn id(&self) -> (r: u32) {
        self.id
    }

    fn set_id(&mut self, id: u32)
        ensures
            *final(self) == (StartScanning { id, ..*old(self) }),
    {
        self.id = id;
    }
}

impl ButtplugClientMessageType for StartScanning {

}

/// Asks the server to end the search for devices.
#[derive(Debug, Clone, PartialEq, Eq)]
pub struct StopScanning {
    pub id: u32,
}

impl StopScanning {
    /// Builds the message. It carries the id 1 until its sender gives it
    /// another.
    pub fn new() -> (r: StopScanning)
        ensures
            r.id == 1,
    {
        StopScanning { id: 1 }
    }
}

impl ButtplugMessageFinalizer for StopScanning {
    fn finalize(&mut self)
        ensures
            *final(self) == *old(self),
    {
    }
}

impl ButtplugMessageValidator for StopScanning {
    open spec fn valid(&self) -> bool {
        self.id != BUTTPLUG_SERVER_EVENT_ID
    }

    /// The fault of a message that carries the wrong kind of id.
    open spec fn rejection(&self) -> Seq<char> {
        not_system_id_text()
    }

    fn is_valid(&self) -> (r: Result<(), ButtplugMessageError>) {
        self.is_not_system_id(self.id)
    }
}

impl ButtplugMessage for StopScanning {
    open spec fn message_id(&self) -> u32 {
        self.id
    }

    fn id(&self) -> (r: u32) {
        self.id
    }

    fn set_id(&mut self, id: u32)
        ensures
            *final(self) == (StopScanning { id, ..*old(self) }),
    {
        self.id = id;
    }
}

impl ButtplugClientMessageType for StopScanning {

}

/// Asks the server for the devices that are connected.
#[derive(Debug, Clone, PartialEq, Eq)]
pub struct RequestDeviceList {
    pub id: u32,
}

impl RequestDeviceList {
    /// Builds the message. It carries the id 1 until its sender gives it
    /// another.
    pub fn new() -> (r: RequestDeviceList)
        ensures
            r.id == 1,
    {
        RequestDeviceList { id: 1 }
    }
}

impl ButtplugMessageFinalizer for RequestDeviceList {
    fn finalize(&mut self)
        ensures
            *final(self) == *old(self),
    {
    }
}

impl ButtplugMessageValidator for RequestDeviceList {
    open spec fn valid(&self) -> bool {
        self.id != BUTTPLUG_SERVER_EVENT_ID
    }

    /// The fault of a message that carries the wrong kind of id.
    open spec fn rejection(&self) -> Seq<char> {
        not_system_id_text()
    }

    fn is_valid(&self) -> (r: Result<(), ButtplugMessageError>) {
        self.is_not_system_id(self.id)
    }
}

impl ButtplugMessage for RequestDeviceList {
    open spec fn message_id(&self) -> u32 {
        self.id
    }

    fn id(&self) -> (r: u32) {
        self.id
    }

    fn set_id(&mut self, id: u32)
        ensures
            *final(self) == (RequestDeviceList { id, ..*old(self) }),
    {
        self.id = id;
    }
}

impl ButtplugClientMessageType for RequestDeviceList {

}

/// Asks the server to stop every device.
#[derive(Debug, Clone, PartialEq, Eq)]
pub struct StopAllDevices {
    pub id: u32,
}

impl StopAllDevices {
    /// Builds the message. It carries the id 1 until its sender gives it
    /// another.
    pub fn new() -> (r: StopAllDevices)
        ensures
            r.id == 1,
    {
        StopAllDevices { id: 1 }
    }
}

impl ButtplugMessageFinalizer for StopAllDevices {
    fn finalize(&mut self)
        ensures
            *final(self) == *old(self),
    {
    }
}

impl ButtplugMessageValidator for StopAllDevices {
    open spec fn valid(&self) -> bool {
        self.id != BUTTPLUG_SERVER_EVENT_ID
    }

    /// The fault of a message that carries the wrong kind of id.
    open spec fn rejection(&self) -> Seq<char> {
        not_system_id_text()
    }

    fn is_valid(&self) -> (r: Result<(), ButtplugMessageError>) {
        self.is_not_system_id(self.id)
    }
}

impl ButtplugMessage for StopAllDevices {
    open spec fn message_id(&self) -> u32 {
        self.id
    }

    fn id(&self) -> (r: u32) {
        self.id
    }

    fn set_id(&mut self, id: u32)
        ensures
            *final(self) == (StopAllDevices { id, ..*old(self) }),
    {
        self.id = id;
    }
}

impl ButtplugClientMessageType for StopAllDevices {

}

} // verus!
