//! Names of the channels of a device.

use vstd::prelude::*;

verus! {

/// A channel of a device that raw data is written to or read from. Which
/// channel stands for what is a matter of each device's protocol.
#[derive(Debug, Clone, Copy, PartialEq, Eq, Hash, Structural)]
pub enum Endpoint {
    Command,
    Firmware,
    Rx,
    RxAccel,
    RxBLEBattery,
    RxBLEModel,
    RxPressure,
    RxTouch,
    Tx,
    TxMode,
    TxShock,
    TxVibrate,
    TxVendorControl,
    Whitelist,
    Generic0,
    Generic1,
    Generic2,
    Generic3,
    Generic4,
    Generic5,
    Generic6,
    Generic7,
    Generic8,
    Generic9,
    Generic10,
    Generic11,
    Generic12,
    Generic13,
    Generic14,
    Generic15,
    Generic16,
    Generic17,
    Generic18,
    Generic19,
    Generic20,
    Generic21,
    Generic22,
    Generic23,
    Generic24,
    Generic25,
    Generic26,
    Generic27,
    Generic28,
    Generic29,
    Generic30,
    Generic31,
}

} // verus!
