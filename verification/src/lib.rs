//! The core of a protocol for the control of devices with actuators and
//! sensors.
//!
//! * `message` holds the messages of every version of the schema, the
//!   description of what a device can do, and the conversions that take what
//!   a server sends down to the version of its client.
//! * `server` holds the command manager of a connected device, which turns
//!   the levels that a client sends into step values, hands out only what
//!   has changed, and knows how to bring the device to rest.
//! * `client` holds the handles through which a client addresses the
//!   features of a device. A handle checks a value and builds the message;
//!   it does not send.
//! * `double`, `rounding`, `scaling` and `division` carry the binary64
//!   numbers of the protocol as their encodings and compute on them with
//!   integers, to the results that binary64 arithmetic gives.
//! * `errors` and `text` hold the errors and the wording of their
//!   descriptions.
//!
//! Nothing here waits, sends or receives.

pub mod double;
pub mod rounding;
pub mod scaling;
pub mod division;
pub mod text;
pub mod errors;
pub mod message;
pub mod server;
pub mod client;
