//! Errors of the protocol core.
//!
//! Every error is final for the operation that produced it and carries a
//! description for the caller.

use vstd::prelude::*;
use crate::message::status::{Error, ErrorCode};

verus! {

/// A message that is malformed, or that has no form in the requested version of
/// the schema.
#[derive(Clone, Debug, PartialEq, Eq)]
pub enum ButtplugMessageError {
    /// The content of a message breaks one of its rules.
    InvalidMessageContents(String),
    /// A message has no counterpart in another version of the schema. The
    /// fields name the source type, the message, and the target type.
    VersionError(String, String, String),
    /// A reply is not of the kind that the request calls for.
    UnexpectedMessageType(String),
    /// An error of this class that a server reported, with its words.
    UntypedDeserializedError(String),
}

/// A command that a device cannot carry out.
#[derive(Clone, Debug, PartialEq, Eq)]
pub enum ButtplugDeviceError {
    /// The command does not fit the device's features.
    ProtocolRequirementError(String),
    /// The command is outside of what the device handles.
    UnhandledCommand(String),
    /// An error of this class that a server reported, with its words.
    UntypedDeserializedError(String),
}

/// Any error of the core.
#[derive(Clone, Debug, PartialEq, Eq)]
pub enum ButtplugError {
    /// The handshake failed; the words are those of the server.
    ButtplugHandshakeError(String),
    ButtplugMessageError(ButtplugMessageError),
    /// A ping came too late; the words are those of the server.
    ButtplugPingError(String),
    ButtplugDeviceError(ButtplugDeviceError),
    /// An error of no known class; the words are those of the server.
    ButtplugUnknownError(String),
}

impl ButtplugMessageError {
    /// The description carried by the error; for a version error, the text of
    /// the message that could not be converted.
    pub open spec fn text(&self) -> String {
        match *self {
            ButtplugMessageError::InvalidMessageContents(s) => s,
            ButtplugMessageError::VersionError(_, s, _) => s,
            ButtplugMessageError::UnexpectedMessageType(s) => s,
            ButtplugMessageError::UntypedDeserializedError(s) => s,
        }
    }

    pub fn description(&self) -> (r: &String)
        ensures
            *r == self.text(),
    {
        match self {
            ButtplugMessageError::InvalidMessageContents(s) => s,
            ButtplugMessageError::VersionError(_, s, _) => s,
            ButtplugMessageError::UnexpectedMessageType(s) => s,
            ButtplugMessageError::UntypedDeserializedError(s) => s,
        }
    }
}

impl ButtplugDeviceError {
    /// The description carried by the error.
    pub open spec fn text(&self) -> String {
        match *self {
            ButtplugDeviceError::ProtocolRequirementError(s) => s,
            ButtplugDeviceError::UnhandledCommand(s) => s,
            ButtplugDeviceError::UntypedDeserializedError(s) => s,
        }
    }

    pub fn description(&self) -> (r: &String)
        ensures
            *r == self.text(),
    {
        match self {
            ButtplugDeviceError::ProtocolRequirementError(s) => s,
            ButtplugDeviceError::UnhandledCommand(s) => s,
            ButtplugDeviceError::UntypedDeserializedError(s) => s,
        }
    }
}

impl ButtplugError {
    /// The description carried by the error.
    pub open spec fn text(&self) -> String {
        match *self {
            ButtplugError::ButtplugHandshakeError(s) => s,
            ButtplugError::ButtplugMessageError(e) => e.text(),
            ButtplugError::ButtplugPingError(s) => s,
            ButtplugError::ButtplugDeviceError(e) => e.text(),
            ButtplugError::ButtplugUnknownError(s) => s,
        }
    }

    pub fn description(&self) -> (r: &String)
        ensures
            *r == self.text(),
    {
        match self {
            ButtplugError::ButtplugHandshakeError(s) => s,
            ButtplugError::ButtplugMessageError(e) => e.description(),
            ButtplugError::ButtplugPingError(s) => s,
            ButtplugError::ButtplugDeviceError(e) => e.description(),
            ButtplugError::ButtplugUnknownError(s) => s,
        }
    }

    /// The error that an error message of a server stands for: the error of
    /// the class that the message names, with the words of the message.
    pub open spec fn reported(msg: Error) -> ButtplugError {
        match msg.error_code {
            ErrorCode::ErrorDevice => ButtplugError::ButtplugDeviceError(
                ButtplugDeviceError::UntypedDeserializedError(msg.error_message),
            ),
            ErrorCode::ErrorMessage => ButtplugError::ButtplugMessageError(
                ButtplugMessageError::UntypedDeserializedError(msg.error_message),
            ),
            ErrorCode::ErrorHandshake => ButtplugError::ButtplugHandshakeError(msg.error_message),
            ErrorCode::ErrorUnknown => ButtplugError::ButtplugUnknownError(msg.error_message),
            ErrorCode::ErrorPing => ButtplugError::ButtplugPingError(msg.error_message),
        }
    }

    /// Turns an error message of a server into the error it stands for.
    pub fn from(msg: Error) -> (r: ButtplugError)
        ensures
            r == Self::reported(msg),
    {
        match msg.error_code {
            ErrorCode::ErrorDevice => ButtplugError::ButtplugDeviceError(
                ButtplugDeviceError::UntypedDeserializedError(msg.error_message),
            ),
            ErrorCode::ErrorMessage => ButtplugError::ButtplugMessageError(
                ButtplugMessageError::UntypedDeserializedError(msg.error_message),
            ),
            ErrorCode::ErrorHandshake => ButtplugError::ButtplugHandshakeError(msg.error_message),
            ErrorCode::ErrorUnknown => ButtplugError::ButtplugUnknownError(msg.error_message),
            ErrorCode::ErrorPing => ButtplugError::ButtplugPingError(msg.error_message),
        }
    }
}

} // verus!
