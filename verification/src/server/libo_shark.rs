//! The protocol of a device with two vibrators that are set by one byte.

use vstd::prelude::*;
use crate::errors::ButtplugDeviceError;
use crate::message::{ActuatorType, Endpoint};
use crate::server::hardware::{HardwareCommand, HardwareWriteCmd};

verus! {

/// The low four bits of a step value, moved to the high half of a byte.
pub open spec fn high_half(steps: u32) -> u8 {
    ((steps % 16) * 16) as u8
}

/// The low eight bits of a step value.
pub open spec fn low_byte(steps: u32) -> u8 {
    (steps % 256) as u8
}

/// The byte that sets both vibrators: the first in the high half, the second
/// in the low half. A vibrator without a new value counts as zero.
pub open spec fn packed(
    first: Option<(ActuatorType, u32)>,
    second: Option<(ActuatorType, u32)>,
) -> u8 {
    let high = match first {
        Some((_, speed)) => high_half(speed),
        None => 0u8,
    };
    let low = match second {
        Some((_, speed)) => low_byte(speed),
        None => 0u8,
    };
    high | low
}

/// The protocol handler of the device.
#[derive(Debug, Clone, Copy, Default, PartialEq, Eq)]
pub struct LiboShark {

}

impl LiboShark {
    /// The write that sets both vibrators of the device: one byte to the
    /// channel for commands, unconfirmed.
    pub fn handle_scalar_cmd(&self, cmds: &[Option<(ActuatorType, u32)>]) -> (r: Result<
        Vec<HardwareCommand>,
        ButtplugDeviceError,
    >)
        requires
            cmds@.len() >= 2,
        ensures
            r matches Ok(commands) && commands@.len() == 1 && (
            commands@[0] matches HardwareCommand::Write(write) && write.endpoint == Endpoint::Tx
                && !write.write_with_response && write.data@ == seq![packed(cmds@[0], cmds@[1])]),
    {
        let mut data: u8 = 0;
        if let Some((_, speed)) = cmds[0] {
            data = data | (((speed % 16) * 16) as u8);
        }
        if let Some((_, speed)) = cmds[1] {
            data = data | ((speed % 256) as u8);
        }
        assert(forall|x: u8| #![auto] 0u8 | x == x) by (bit_vector);
        assert(forall|x: u8| #![auto] x | 0u8 == x) by (bit_vector);
        let mut bytes: Vec<u8> = Vec::new();
        bytes.push(data);
        let mut commands: Vec<HardwareCommand> = Vec::new();
        commands.push(HardwareCommand::Write(HardwareWriteCmd::new(Endpoint::Tx, bytes, false)));
        assert(bytes@ =~= seq![packed(cmds@[0], cmds@[1])]);
        Ok(commands)
    }
}

} // verus!
