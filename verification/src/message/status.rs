//! Replies and notices of the server that concern the session, not one device's
//! data.

use vstd::prelude::*;
use crate::errors::ButtplugMessageError;
use crate::message::{
    ButtplugMessage, ButtplugMessageFinalizer, ButtplugMessageValidator, BUTTPLUG_SERVER_EVENT_ID,
    ButtplugServerMessageType, system_id_text, not_system_id_text,
};
use crate::message::ButtplugMessageSpecVersion;

verus! {

/// How grave a log entry is.
#[derive(Debug, Clone, Copy, PartialEq, Eq, Hash, Structural)]
pub enum LogLevel {
    Off,
    Fatal,
    Error,
    Warn,
    Info,
    Debug,
    Trace,
}

/// The classes of errors that a server reports.
#[derive(Debug, Clone, Copy, PartialEq, Eq, Hash, Structural)]
pub enum ErrorCode {
    ErrorUnknown,
    ErrorHandshake,
    ErrorPing,
    ErrorMessage,
    ErrorDevice,
}

/// Tells the client that a request was carried out. It carries the id of the
/// request.
#[derive(Debug, Clone, PartialEq, Eq)]
pub struct OkV0 {
    pub id: u32,
}

impl OkV0 {
    /// Builds the message with the id of the request that it answers.
    pub fn new(id: u32) -> (r: OkV0)
        ensures
            r.id == id,
    {
        OkV0 { id }
    }
}

impl ButtplugMessageFinalizer for OkV0 {
    fn finalize(&mut self)
        ensures
            *final(self) == *old(self),
    {
    }
}

impl ButtplugMessageValidator for OkV0 {
    open spec fn valid(&self) -> bool {
        self.id != BUTTPLUG_SERVER_EVENT_ID
    }

    /// The fault of a message that carries the wrong kind of id.
    open spec fn rejection(&self) -> Seq<char> {
        not_system_id_text()
    }

    fn is_valid(&self) -> (r: Result<(), ButtplugMessageError>) {
        self.is_not_system_id(self.id)
    }
}

impl ButtplugMessage for OkV0 {
    open spec fn message_id(&self) -> u32 {
        self.id
    }

    fn id(&self) -> (r: u32) {
        self.id
    }

    fn set_id(&mut self, id: u32)
        ensures
            *final(self) == (OkV0 { id, ..*old(self) }),
    {
        self.id = id;
    }
}

impl ButtplugServerMessageType for OkV0 {

}

/// Tells the client that a request failed, or that something went wrong on the
/// server's own account. With the id of a request it is a reply; with the id of
/// server events it is a notice.
#[derive(Debug, Clone, PartialEq, Eq)]
pub struct Error {
    pub id: u32,
    pub error_code: ErrorCode,
    pub error_message: String,
}

impl Error {
    /// Builds an error notice; a reply takes the id of its request afterwards.
    pub fn new(error_code: ErrorCode, error_message: &str) -> (r: Error)
        ensures
            r.id == 0,
            r.error_code == error_code,
            r.error_message@ == error_message@,
    {
        Error { id: 0, error_code, error_message: error_message.to_owned() }
    }

    /// The class of the error.
    pub fn error_code(&self) -> (r: ErrorCode)
        ensures
            r == self.error_code,
    {
        self.error_code
    }

    /// What went wrong, in words.
    pub fn error_message(&self) -> (r: &String)
        ensures
            *r == self.error_message,
    {
        &self.error_message
    }
}

impl ButtplugMessageFinalizer for Error {
    fn finalize(&mut self)
        ensures
            *final(self) == *old(self),
    {
    }
}

impl ButtplugMessageValidator for Error {
    open spec fn valid(&self) -> bool {
        true
    }

    /// No message of this type is rejected.
    open spec fn rejection(&self) -> Seq<char> {
        Seq::empty()
    }

    fn is_valid(&self) -> (r: Result<(), ButtplugMessageError>) {
        Ok(())
    }
}

impl ButtplugMessage for Error {
    open spec fn message_id(&self) -> u32 {
        self.id
    }

    fn id(&self) -> (r: u32) {
        self.id
    }

    fn set_id(&mut self, id: u32)
        ensures
            *final(self) == (Error { id, ..*old(self) }),
    {
        self.id = id;
    }
}

impl ButtplugServerMessageType for Error {

}

/// The error message of versions 0 and 1 of the schema.
#[derive(Debug, Clone, PartialEq, Eq)]
pub struct ErrorV0 {
    pub id: u32,
    pub error_code: ErrorCode,
    pub error_message: String,
}

impl ErrorV0 {
    /// Builds the message. It carries the id of server events.
    pub fn new(error_code: ErrorCode, error_message: &str) -> (r: ErrorV0)
        ensures
            r.id == 0,
            r.error_code == error_code,
            r.error_message@ == error_message@,
    {
        ErrorV0 { id: 0, error_code, error_message: error_message.to_owned() }
    }

    /// The class of the error.
    pub fn error_code(&self) -> (r: ErrorCode)
        ensures
            r == self.error_code,
    {
        self.error_code
    }

    /// What went wrong, in words.
    pub fn error_message(&self) -> (r: &String)
        ensures
            *r == self.error_message,
    {
        &self.error_message
    }

    /// The same error in the form of versions 0 and 1.
    pub open spec fn downgraded(msg: Error) -> ErrorV0 {
        ErrorV0 { id: msg.id, error_code: msg.error_code, error_message: msg.error_message }
    }

    /// The same error in the form of versions 0 and 1.
    pub fn from(msg: Error) -> (r: ErrorV0)
        ensures
            r == Self::downgraded(msg),
    {
        ErrorV0 { id: msg.id, error_code: msg.error_code, error_message: msg.error_message }
    }
}

impl ButtplugMessageFinalizer for ErrorV0 {
    fn finalize(&mut self)
        ensures
            *final(self) == *old(self),
    {
    }
}

impl ButtplugMessageValidator for ErrorV0 {
    open spec fn valid(&self) -> bool {
        true
    }

    /// No message of this type is rejected.
    open spec fn rejection(&self) -> Seq<char> {
        Seq::empty()
    }

    fn is_valid(&self) -> (r: Result<(), ButtplugMessageError>) {
        Ok(())
    }
}

impl ButtplugMessage for ErrorV0 {
    open spec fn message_id(&self) -> u32 {
        self.id
    }

    fn id(&self) -> (r: u32) {
        self.id
    }

    fn set_id(&mut self, id: u32)
        ensures
            *final(self) == (ErrorV0 { id, ..*old(self) }),
    {
        self.id = id;
    }
}

impl ButtplugServerMessageType for ErrorV0 {

}

/// Asks the server to send the text back. Early versions of the schema used it
/// to try a connection.
#[derive(Debug, Clone, PartialEq, Eq)]
pub struct Test {
    pub id: u32,
    pub test_string: String,
}

impl Test {
    /// Builds the message. It carries the id 1 until its sender gives it
    /// another.
    pub fn new(test_string: &str) -> (r: Test)
        ensures
            r.id == 1,
            r.test_string@ == test_string@,
    {
        Test { id: 1, test_string: test_string.to_owned() }
    }

    /// The text to send back.
    pub fn test_string(&self) -> (r: &String)
        ensures
            *r == self.test_string,
    {
        &self.test_string
    }
}

impl ButtplugMessageFinalizer for Test {
    fn finalize(&mut self)
        ensures
            *final(self) == *old(self),
    {
    }
}

impl ButtplugMessageValidator for Test {
    open spec fn valid(&self) -> bool {
        self.id != BUTTPLUG_SERVER_EVENT_ID
    }

    /// The fault of a message that carries the wrong kind of id.
    open spec fn rejection(&self) -> Seq<char> {
        not_system_id_text()
    }

    fn is_valid(&self) -> (r: Result<(), ButtplugMessageError>) {
        self.is_not_system_id(self.id)
    }
}

impl ButtplugMessage for Test {
    open spec fn message_id(&self) -> u32 {
        self.id
    }

    fn id(&self) -> (r: u32) {
        self.id
    }

    fn set_id(&mut self, id: u32)
        ensures
            *final(self) == (Test { id, ..*old(self) }),
    {
        self.id = id;
    }
}

impl ButtplugServerMessageType for Test {

}

/// One entry of the server's log, sent to a client that asked for the log.
#[derive(Debug, Clone, PartialEq, Eq)]
pub struct Log {
    pub id: u32,
    pub log_level: LogLevel,
    pub log_message: String,
}

impl Log {
    /// Builds the message. It carries the id of server events.
    pub fn new(log_level: LogLevel, log_message: &str) -> (r: Log)
        ensures
            r.id == 0,
            r.log_level == log_level,
            r.log_message@ == log_message@,
    {
        Log { id: 0, log_level, log_message: log_message.to_owned() }
    }

    /// How grave the entry is.
    pub fn log_level(&self) -> (r: LogLevel)
        ensures
            r == self.log_level,
    {
        self.log_level
    }

    /// The entry.
    pub fn log_message(&self) -> (r: &String)
        ensures
            *r == self.log_message,
    {
        &self.log_message
    }
}

impl ButtplugMessageFinalizer for Log {
    fn finalize(&mut self)
        ensures
            *final(self) == *old(self),
    {
    }
}

impl ButtplugMessageValidator for Log {
    open spec fn valid(&self) -> bool {
        self.id == BUTTPLUG_SERVER_EVENT_ID
    }

    /// The fault of a message that carries the wrong kind of id.
    open spec fn rejection(&self) -> Seq<char> {
        system_id_text()
    }

    fn is_valid(&self) -> (r: Result<(), ButtplugMessageError>) {
        self.is_system_id(self.id)
    }
}

impl ButtplugMessage for Log {
    open spec fn message_id(&self) -> u32 {
        self.id
    }

    fn id(&self) -> (r: u32) {
        self.id
    }

    fn set_id(&mut self, id: u32)
        ensures
            *final(self) == (Log { id, ..*old(self) }),
    {
        self.id = id;
    }
}

impl ButtplugServerMessageType for Log {

}

/// The server's half of the handshake: its name, the version of the schema it
/// will speak on this connection, and how long it waits for a ping.
#[derive(Debug, Clone, PartialEq, Eq)]
pub struct ServerInfo {
    pub id: u32,
    pub message_version: ButtplugMessageSpecVersion,
    pub max_ping_time: u32,
    pub server_name: String,
}

impl ServerInfo {
    /// Builds the reply; it takes the id of the client's request afterwards.
    pub fn new(
        message_version: ButtplugMessageSpecVersion,
        max_ping_time: u32,
        server_name: &str,
    ) -> (r: ServerInfo)
        ensures
            r.id == 0,
            r.message_version == message_version,
            r.max_ping_time == max_ping_time,
            r.server_name@ == server_name@,
    {
        ServerInfo { id: 0, message_version, max_ping_time, server_name: server_name.to_owned() }
    }

    /// The version of the schema for this connection.
    pub fn message_version(&self) -> (r: ButtplugMessageSpecVersion)
        ensures
            r == self.message_version,
    {
        self.message_version
    }

    /// Milliseconds that may pass between two pings; zero if the server asks
    /// for none.
    pub fn max_ping_time(&self) -> (r: u32)
        ensures
            r == self.max_ping_time,
    {
        self.max_ping_time
    }

    /// The name of the server.
    pub fn server_name(&self) -> (r: &String)
        ensures
            *r == self.server_name,
    {
        &self.server_name
    }
}

impl ButtplugMessageFinalizer for ServerInfo {
    fn finalize(&mut self)
        ensures
            *final(self) == *old(self),
    {
    }
}

impl ButtplugMessageValidator for ServerInfo {
    open spec fn valid(&self) -> bool {
        self.id != BUTTPLUG_SERVER_EVENT_ID
    }

    /// The fault of a message that carries the wrong kind of id.
    open spec fn rejection(&self) -> Seq<char> {
        not_system_id_text()
    }

    fn is_valid(&self) -> (r: Result<(), ButtplugMessageError>) {
        self.is_not_system_id(self.id)
    }
}

impl ButtplugMessage for ServerInfo {
    open spec fn message_id(&self) -> u32 {
        self.id
    }

    fn id(&self) -> (r: u32) {
        self.id
    }

    fn set_id(&mut self, id: u32)
        ensures
            *final(self) == (ServerInfo { id, ..*old(self) }),
    {
        self.id = id;
    }
}

impl ButtplugServerMessageType for ServerInfo {

}

/// The server's half of the handshake in versions 0 and 1 of the schema, which
/// also carried the version of the server program.
#[derive(Debug, Clone, PartialEq, Eq)]
pub struct ServerInfoV0 {
    pub id: u32,
    pub major_version: u32,
    pub minor_version: u32,
    pub build_version: u32,
    pub message_version: ButtplugMessageSpecVersion,
    pub max_ping_time: u32,
    pub server_name: String,
}

impl ServerInfoV0 {
    /// Builds the message. It carries the id of server events.
    pub fn new(
        major_version: u32,
        minor_version: u32,
        build_version: u32,
        message_version: ButtplugMessageSpecVersion,
        max_ping_time: u32,
        server_name: &str,
    ) -> (r: ServerInfoV0)
        ensures
            r.id == 0,
            r.major_version == major_version,
            r.minor_version == minor_version,
            r.build_version == build_version,
            r.message_version == message_version,
            r.max_ping_time == max_ping_time,
            r.server_name@ == server_name@,
    {
        ServerInfoV0 {
            id: 0,
            major_version,
            minor_version,
            build_version,
            message_version,
            max_ping_time,
            server_name: server_name.to_owned(),
        }
    }

    /// First number of the server program's version.
    pub fn major_version(&self) -> (r: u32)
        ensures
            r == self.major_version,
    {
        self.major_version
    }

    /// Second number of the server program's version.
    pub fn minor_version(&self) -> (r: u32)
        ensures
            r == self.minor_version,
    {
        self.minor_version
    }

    /// Third number of the server program's version.
    pub fn build_version(&self) -> (r: u32)
        ensures
            r == self.build_version,
    {
        self.build_version
    }

    /// The version of the schema for this connection.
    pub fn message_version(&self) -> (r: ButtplugMessageSpecVersion)
        ensures
            r == self.message_version,
    {
        self.message_version
    }

    /// Milliseconds that may pass between two pings; zero if the server asks
    /// for none.
    pub fn max_ping_time(&self) -> (r: u32)
        ensures
            r == self.max_ping_time,
    {
        self.max_ping_time
    }

    /// The name of the server.
    pub fn server_name(&self) -> (r: &String)
        ensures
            *r == self.server_name,
    {
        &self.server_name
    }

    /// The same reply in the form of versions 0 and 1. The version of the
    /// server program is no longer known and is given as zeros.
    pub open spec fn downgraded(msg: ServerInfo) -> ServerInfoV0 {
        ServerInfoV0 {
            id: msg.id,
            major_version: 0,
            minor_version: 0,
            build_version: 0,
            message_version: msg.message_version,
            max_ping_time: msg.max_ping_time,
            server_name: msg.server_name,
        }
    }

    /// The same reply in the form of versions 0 and 1.
    pub fn from(msg: ServerInfo) -> (r: ServerInfoV0)
        ensures
            r == Self::downgraded(msg),
    {
        ServerInfoV0 {
            id: msg.id,
            major_version: 0,
            minor_version: 0,
            build_version: 0,
            message_version: msg.message_version,
            max_ping_time: msg.max_ping_time,
            server_name: msg.server_name,
        }
    }
}

impl ButtplugMessageFinalizer for ServerInfoV0 {
    fn finalize(&mut self)
        ensures
            *final(self) == *old(self),
    {
    }
}

impl ButtplugMessageValidator for ServerInfoV0 {
    open spec fn valid(&self) -> bool {
        self.id != BUTTPLUG_SERVER_EVENT_ID
    }

    /// The fault of a message that carries the wrong kind of id.
    open spec fn rejection(&self) -> Seq<char> {
        not_system_id_text()
    }

    fn is_valid(&self) -> (r: Result<(), ButtplugMessageError>) {
        self.is_not_system_id(self.id)
    }
}

impl ButtplugMessage for ServerInfoV0 {
    open spec fn message_id(&self) -> u32 {
        self.id
    }

    fn id(&self) -> (r: u32) {
        self.id
    }

    fn set_id(&mut self, id: u32)
        ensures
            *final(self) == (ServerInfoV0 { id, ..*old(self) }),
    {
        self.id = id;
    }
}

impl ButtplugServerMessageType for ServerInfoV0 {

}

/// Tells the client that the search for devices has ended.
#[derive(Debug, Clone, PartialEq, Eq)]
pub struct ScanningFinished {
    pub id: u32,
}

impl ScanningFinished {
    /// Builds the message. It carries the id of server events.
    pub fn new() -> (r: ScanningFinished)
        ensures
            r.id == 0,
    {
        ScanningFinished { id: 0 }
    }
}

impl ButtplugMessageFinalizer for ScanningFinished {
    fn finalize(&mut self)
        ensures
            *final(self) == *old(self),
    {
    }
}

impl ButtplugMessageValidator for ScanningFinished {
    open spec fn valid(&self) -> bool {
        self.id == BUTTPLUG_SERVER_EVENT_ID
    }

    /// The fault of a message that carries the wrong kind of id.
    open spec fn rejection(&self) -> Seq<char> {
        system_id_text()
    }

    fn is_valid(&self) -> (r: Result<(), ButtplugMessageError>) {
        self.is_system_id(self.id)
    }
}

impl ButtplugMessage for ScanningFinished {
    open spec fn message_id(&self) -> u32 {
        self.id
    }

    fn id(&self) -> (r: u32) {
        self.id
    }

    fn set_id(&mut self, id: u32)
        ensures
            *final(self) == (ScanningFinished { id, ..*old(self) }),
    {
        self.id = id;
    }
}

impl ButtplugServerMessageType for ScanningFinished {

}

/// Tells the client that a device has gone.
#[derive(Debug, Clone, PartialEq, Eq)]
pub struct DeviceRemoved {
    pub id: u32,
    pub device_index: u32,
}

impl DeviceRemoved {
    /// Builds the message. It carries the id of server events.
    pub fn new(device_index: u32) -> (r: DeviceRemoved)
        ensures
            r.id == 0,
            r.device_index == device_index,
    {
        DeviceRemoved { id: 0, device_index }
    }

    /// The index of the device that has gone.
    pub fn device_index(&self) -> (r: u32)
        ensures
            r == self.device_index,
    {
        self.device_index
    }
}

impl ButtplugMessageFinalizer for DeviceRemoved {
    fn finalize(&mut self)
        ensures
            *final(self) == *old(self),
    {
    }
}

impl ButtplugMessageValidator for DeviceRemoved {
    open spec fn valid(&self) -> bool {
        self.id == BUTTPLUG_SERVER_EVENT_ID
    }

    /// The fault of a message that carries the wrong kind of id.
    open spec fn rejection(&self) -> Seq<char> {
        system_id_text()
    }

    fn is_valid(&self) -> (r: Result<(), ButtplugMessageError>) {
        self.is_system_id(self.id)
    }
}

impl ButtplugMessage for DeviceRemoved {
    open spec fn message_id(&self) -> u32 {
        self.id
    }

    fn id(&self) -> (r: u32) {
        self.id
    }

    fn set_id(&mut self, id: u32)
        ensures
            *final(self) == (DeviceRemoved { id, ..*old(self) }),
    {
        self.id = id;
    }
}

impl ButtplugServerMessageType for DeviceRemoved {

}

} // verus!
