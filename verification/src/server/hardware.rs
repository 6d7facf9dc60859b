//! What a protocol tells the hardware to do.

use vstd::prelude::*;
use crate::message::Endpoint;

verus! {

/// Bytes to write to a channel of a device.
#[derive(Debug, Clone, PartialEq, Eq)]
pub struct HardwareWriteCmd {
    pub endpoint: Endpoint,
    pub data: Vec<u8>,
    pub write_with_response: bool,
}

impl HardwareWriteCmd {
    /// Builds the value from its parts.
    pub fn new(
        endpoint: Endpoint,
        data: Vec<u8>,
        write_with_response: bool,
    ) -> (r: HardwareWriteCmd)
        ensures
            r.endpoint == endpoint,
            r.data == data,
            r.write_with_response == write_with_response,
    {
        HardwareWriteCmd { endpoint, data, write_with_response }
    }
}

/// A read from a channel of a device.
#[derive(Debug, Clone, Copy, PartialEq, Eq, Structural)]
pub struct HardwareReadCmd {
    pub endpoint: Endpoint,
    pub length: u32,
    pub timeout_ms: u32,
}

impl HardwareReadCmd {
    /// Builds the value from its parts.
    pub fn new(endpoint: Endpoint, length: u32, timeout_ms: u32) -> (r: HardwareReadCmd)
        ensures
            r.endpoint == endpoint,
            r.length == length,
            r.timeout_ms == timeout_ms,
    {
        HardwareReadCmd { endpoint, length, timeout_ms }
    }
}

/// A subscription to a channel of a device.
#[derive(Debug, Clone, Copy, PartialEq, Eq, Structural)]
pub struct HardwareSubscribeCmd {
    pub endpoint: Endpoint,
}

/// The end of a subscription to a channel of a device.
#[derive(Debug, Clone, Copy, PartialEq, Eq, Structural)]
pub struct HardwareUnsubscribeCmd {
    pub endpoint: Endpoint,
}

/// One thing for the hardware to do.
#[derive(Debug, Clone, PartialEq, Eq)]
pub enum HardwareCommand {
    Write(HardwareWriteCmd),
    Read(HardwareReadCmd),
    Subscribe(HardwareSubscribeCmd),
    Unsubscribe(HardwareUnsubscribeCmd),
}

/// The level of a battery as the one byte that a device reports: the level
/// itself where it lies between nothing and a hundred, else the nearer of the
/// two.
pub open spec fn battery_byte(level: i32) -> u8 {
    if level < 0 {
        0
    } else if level > 100 {
        100
    } else {
        level as u8
    }
}

/// Computes `battery_byte`.
pub fn clamp_battery(level: i32) -> (r: u8)
    ensures
        r == battery_byte(level),
{
    if level < 0 {
        0
    } else if level > 100 {
        100
    } else {
        level as u8
    }
}

} // verus!
