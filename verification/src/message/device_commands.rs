//! Commands for the actuators of a device.

use vstd::prelude::*;
use crate::errors::ButtplugMessageError;
use vstd::string::StringExecFns;
use crate::message::{
    ButtplugMessage, ButtplugMessageFinalizer, ButtplugMessageValidator, ButtplugDeviceMessage,
    ButtplugClientMessageType, BUTTPLUG_SERVER_EVENT_ID, not_system_id_text,
};
use crate::message::ActuatorType;
use crate::double::Double;
use crate::text::{decimal, decimal_text};

verus! {

/// Text of the error for a value that is not between zero and one.
pub open spec fn out_of_range_text(command: Seq<char>, index: nat) -> Seq<char> {
    command + " value for index "@ + decimal(index)
        + " is invalid. The value should be between 0.0 and 1.0."@
}

/// Writes the error text for a value that is not between zero and one.
pub fn out_of_range_message(command: &str, index: u32) -> (r: String)
    ensures
        r@ == out_of_range_text(command@, index as nat),
{
    let mut text = command.to_owned();
    text.append(" value for index ");
    let number = decimal_text(index as usize);
    text.append(number.as_str());
    text.append(" is invalid. The value should be between 0.0 and 1.0.");
    text
}

/// Asks the server to stop one device.
#[derive(Debug, Clone, PartialEq, Eq)]
pub struct StopDeviceCmd {
    pub id: u32,
    pub device_index: u32,
}

impl StopDeviceCmd {
    /// Builds the message. It carries the id 1 until its sender gives it
    /// another.
    pub fn new(device_index: u32) -> (r: StopDeviceCmd)
        ensures
            r.id == 1,
            r.device_index == device_index,
    {
        StopDeviceCmd { id: 1, device_index }
    }
}

impl ButtplugMessageFinalizer for StopDeviceCmd {
    fn finalize(&mut self)
        ensures
            *final(self) == *old(self),
    {
    }
}

impl ButtplugMessageValidator for StopDeviceCmd {
    open spec fn valid(&self) -> bool {
        self.id != BUTTPLUG_SERVER_EVENT_ID
    }

    /// The fault of a message that carries the wrong kind of id.
    open spec fn rejection(&self) -> Seq<char> {
        not_system_id_text()
    }

    fn is_valid(&self) -> (r: Result<(), ButtplugMessageError>) {
        self.is_not_system_id(self.id)
    }
}

impl ButtplugMessage for StopDeviceCmd {
    open spec fn message_id(&self) -> u32 {
        self.id
    }

    fn id(&self) -> (r: u32) {
        self.id
    }

    fn set_id(&mut self, id: u32)
        ensures
            *final(self) == (StopDeviceCmd { id, ..*old(self) }),
    {
        self.id = id;
    }
}

impl ButtplugDeviceMessage for StopDeviceCmd {
    open spec fn message_device_index(&self) -> u32 {
        self.device_index
    }

    fn device_index(&self) -> (r: u32) {
        self.device_index
    }

    fn set_device_index(&mut self, id: u32)
        ensures
            *final(self) == (StopDeviceCmd { device_index: id, ..*old(self) }),
    {
        self.device_index = id;
    }
}

impl ButtplugClientMessageType for StopDeviceCmd {

}

/// The speed for one vibrator of a device.
#[derive(Debug, Clone, Copy, PartialEq, Eq, Structural)]
pub struct VibrateSubcommand {
    pub index: u32,
    pub speed: Double,
}

impl VibrateSubcommand {
    /// Builds the value from its parts.
    pub fn new(index: u32, speed: Double) -> (r: VibrateSubcommand)
        ensures
            r.index == index,
            r.speed == speed,
    {
        VibrateSubcommand { index, speed }
    }

    /// The index of the vibrator among the device's vibrators.
    pub fn index(&self) -> (r: u32)
        ensures
            r == self.index,
    {
        self.index
    }

    /// The speed, between zero and one.
    pub fn speed(&self) -> (r: Double)
        ensures
            r == self.speed,
    {
        self.speed
    }
}

/// Sets the speeds of vibrators of a device.
#[derive(Debug, Clone, PartialEq, Eq)]
pub struct VibrateCmd {
    pub id: u32,
    pub device_index: u32,
    pub speeds: Vec<VibrateSubcommand>,
}

impl VibrateCmd {
    /// Builds the message. It carries the id 1 until its sender gives it
    /// another.
    pub fn new(device_index: u32, speeds: Vec<VibrateSubcommand>) -> (r: VibrateCmd)
        ensures
            r.id == 1,
            r.device_index == device_index,
            r.speeds == speeds,
    {
        VibrateCmd { id: 1, device_index, speeds }
    }

    /// One entry for each vibrator to set.
    pub fn speeds(&self) -> (r: &Vec<VibrateSubcommand>)
        ensures
            *r == self.speeds,
    {
        &self.speeds
    }
}

impl ButtplugMessageFinalizer for VibrateCmd {
    fn finalize(&mut self)
        ensures
            *final(self) == *old(self),
    {
    }
}

impl ButtplugMessageValidator for VibrateCmd {
    open spec fn valid(&self) -> bool {
        self.id != BUTTPLUG_SERVER_EVENT_ID && forall|i: int|
            0 <= i < self.speeds@.len() ==> (#[trigger] self.speeds@[i]).speed.in_unit_interval()
    }

    /// A message with the id of server events is rejected for that. After
    /// that, the first value that is not between zero and one is named.
    open spec fn rejection(&self) -> Seq<char> {
        if self.id == BUTTPLUG_SERVER_EVENT_ID {
            not_system_id_text()
        } else {
            out_of_range_text("VibrateCmd"@, self.speeds@[self.first_out_of_range()].index as nat)
        }
    }

    fn is_valid(&self) -> (r: Result<(), ButtplugMessageError>) {
        match self.is_not_system_id(self.id) {
            Ok(()) => {},
            Err(e) => {
                return Err(e);
            },
        }
        let mut i: usize = 0;
        while i < self.speeds.len()
            invariant
                i <= self.speeds.len(),
                self.id != BUTTPLUG_SERVER_EVENT_ID,
                forall|j: int| 0 <= j < i ==> (#[trigger] self.speeds@[j]).speed.in_unit_interval(),
            decreases self.speeds.len() - i,
        {
            let text = out_of_range_message("VibrateCmd", self.speeds[i].index);
            match self.is_in_command_range(self.speeds[i].speed, text) {
                Ok(()) => {},
                Err(e) => {
                    proof {
                        assert(self.is_first_out_of_range(i as int));
                        let k = self.first_out_of_range();
                        if k < i {
                            assert(self.speeds@[k].speed.in_unit_interval());
                        } else if i < k {
                            assert(self.speeds@[i as int].speed.in_unit_interval());
                        }
                    }
                    return Err(e);
                },
            }
            i = i + 1;
        }
        Ok(())
    }
}

impl VibrateCmd {
    /// Whether the value at place `i` is the first that is not between zero
    /// and one.
    pub open spec fn is_first_out_of_range(self, i: int) -> bool {
        &&& 0 <= i < self.speeds@.len()
        &&& !self.speeds@[i].speed.in_unit_interval()
        &&& forall|j: int| 0 <= j < i ==> (#[trigger] self.speeds@[j]).speed.in_unit_interval()
    }

    /// The place of the first value that is not between zero and one, in a
    /// message that has one.
    pub open spec fn first_out_of_range(self) -> int {
        choose|i: int| self.is_first_out_of_range(i)
    }
}

impl ButtplugMessage for VibrateCmd {
    open spec fn message_id(&self) -> u32 {
        self.id
    }

    fn id(&self) -> (r: u32) {
        self.id
    }

    fn set_id(&mut self, id: u32)
        ensures
            *final(self) == (VibrateCmd { id, ..*old(self) }),
    {
        self.id = id;
    }
}

impl ButtplugDeviceMessage for VibrateCmd {
    open spec fn message_device_index(&self) -> u32 {
        self.device_index
    }

    fn device_index(&self) -> (r: u32) {
        self.device_index
    }

    fn set_device_index(&mut self, id: u32)
        ensures
            *final(self) == (VibrateCmd { device_index: id, ..*old(self) }),
    {
        self.device_index = id;
    }
}

impl ButtplugClientMessageType for VibrateCmd {

}

/// The level for one scalar actuator of a device.
#[derive(Debug, Clone, Copy, PartialEq, Eq, Structural)]
pub struct ScalarSubcommand {
    pub index: u32,
    pub scalar: Double,
    pub actuator_type: ActuatorType,
}

impl ScalarSubcommand {
    /// Builds the value from its parts.
    pub fn new(index: u32, scalar: Double, actuator_type: ActuatorType) -> (r: ScalarSubcommand)
        ensures
            r.index == index,
            r.scalar == scalar,
            r.actuator_type == actuator_type,
    {
        ScalarSubcommand { index, scalar, actuator_type }
    }

    /// The index of the actuator among the device's scalar actuators.
    pub fn index(&self) -> (r: u32)
        ensures
            r == self.index,
    {
        self.index
    }

    /// The level, between zero and one.
    pub fn scalar(&self) -> (r: Double)
        ensures
            r == self.scalar,
    {
        self.scalar
    }

    /// What the actuator does.
    pub fn actuator_type(&self) -> (r: ActuatorType)
        ensures
            r == self.actuator_type,
    {
        self.actuator_type
    }
}

/// Sets the levels of scalar actuators of a device.
#[derive(Debug, Clone, PartialEq, Eq)]
pub struct ScalarCmd {
    pub id: u32,
    pub device_index: u32,
    pub scalars: Vec<ScalarSubcommand>,
}

impl ScalarCmd {
    /// Builds the message. It carries the id 1 until its sender gives it
    /// another.
    pub fn new(device_index: u32, scalars: Vec<ScalarSubcommand>) -> (r: ScalarCmd)
        ensures
            r.id == 1,
            r.device_index == device_index,
            r.scalars == scalars,
    {
        ScalarCmd { id: 1, device_index, scalars }
    }

    /// One entry for each actuator to set.
    pub fn scalars(&self) -> (r: &Vec<ScalarSubcommand>)
        ensures
            *r == self.scalars,
    {
        &self.scalars
    }
}

impl ButtplugMessageFinalizer for ScalarCmd {
    fn finalize(&mut self)
        ensures
            *final(self) == *old(self),
    {
    }
}

impl ButtplugMessageValidator for ScalarCmd {
    open spec fn valid(&self) -> bool {
        self.id != BUTTPLUG_SERVER_EVENT_ID && forall|i: int|
            0 <= i < self.scalars@.len() ==> (#[trigger] self.scalars@[i]).scalar.in_unit_interval()
    }

    /// A message with the id of server events is rejected for that. After
    /// that, the first value that is not between zero and one is named.
    open spec fn rejection(&self) -> Seq<char> {
        if self.id == BUTTPLUG_SERVER_EVENT_ID {
            not_system_id_text()
        } else {
            out_of_range_text("ScalarCmd"@, self.scalars@[self.first_out_of_range()].index as nat)
        }
    }

    fn is_valid(&self) -> (r: Result<(), ButtplugMessageError>) {
        match self.is_not_system_id(self.id) {
            Ok(()) => {},
            Err(e) => {
                return Err(e);
            },
        }
        let mut i: usize = 0;
        while i < self.scalars.len()
            invariant
                i <= self.scalars.len(),
                self.id != BUTTPLUG_SERVER_EVENT_ID,
                forall|j: int| 0 <= j < i ==> (#[trigger] self.scalars@[j]).scalar.in_unit_interval(),
            decreases self.scalars.len() - i,
        {
            let text = out_of_range_message("ScalarCmd", self.scalars[i].index);
            match self.is_in_command_range(self.scalars[i].scalar, text) {
                Ok(()) => {},
                Err(e) => {
                    proof {
                        assert(self.is_first_out_of_range(i as int));
                        let k = self.first_out_of_range();
                        if k < i {
                            assert(self.scalars@[k].scalar.in_unit_interval());
                        } else if i < k {
                            assert(self.scalars@[i as int].scalar.in_unit_interval());
                        }
                    }
                    return Err(e);
                },
            }
            i = i + 1;
        }
        Ok(())
    }
}

impl ScalarCmd {
    /// Whether the value at place `i` is the first that is not between zero
    /// and one.
    pub open spec fn is_first_out_of_range(self, i: int) -> bool {
        &&& 0 <= i < self.scalars@.len()
        &&& !self.scalars@[i].scalar.in_unit_interval()
        &&& forall|j: int| 0 <= j < i ==> (#[trigger] self.scalars@[j]).scalar.in_unit_interval()
    }

    /// The place of the first value that is not between zero and one, in a
    /// message that has one.
    pub open spec fn first_out_of_range(self) -> int {
        choose|i: int| self.is_first_out_of_range(i)
    }
}

impl ButtplugMessage for ScalarCmd {
    open spec fn message_id(&self) -> u32 {
        self.id
    }

    fn id(&self) -> (r: u32) {
        self.id
    }

    fn set_id(&mut self, id: u32)
        ensures
            *final(self) == (ScalarCmd { id, ..*old(self) }),
    {
        self.id = id;
    }
}

impl ButtplugDeviceMessage for ScalarCmd {
    open spec fn message_device_index(&self) -> u32 {
        self.device_index
    }

    fn device_index(&self) -> (r: u32) {
        self.device_index
    }

    fn set_device_index(&mut self, id: u32)
        ensures
            *final(self) == (ScalarCmd { device_index: id, ..*old(self) }),
    {
        self.device_index = id;
    }
}

impl ButtplugClientMessageType for ScalarCmd {

}

/// The speed and the direction for one rotator of a device.
#[derive(Debug, Clone, Copy, PartialEq, Eq, Structural)]
pub struct RotationSubcommand {
    pub index: u32,
    pub speed: Double,
    pub clockwise: bool,
}

impl RotationSubcommand {
    /// Builds the value from its parts.
    pub fn new(index: u32, speed: Double, clockwise: bool) -> (r: RotationSubcommand)
        ensures
            r.index == index,
            r.speed == speed,
            r.clockwise == clockwise,
    {
        RotationSubcommand { index, speed, clockwise }
    }

    /// The index of the rotator among the device's rotators.
    pub fn index(&self) -> (r: u32)
        ensures
            r == self.index,
    {
        self.index
    }

    /// The speed, between zero and one.
    pub fn speed(&self) -> (r: Double)
        ensures
            r == self.speed,
    {
        self.speed
    }

    /// Whether to turn clockwise.
    pub fn clockwise(&self) -> (r: bool)
        ensures
            r == self.clockwise,
    {
        self.clockwise
    }
}

/// Sets the speeds and the directions of rotators of a device.
#[derive(Debug, Clone, PartialEq, Eq)]
pub struct RotateCmd {
    pub id: u32,
    pub device_index: u32,
    pub rotations: Vec<RotationSubcommand>,
}

impl RotateCmd {
    /// Builds the message. It carries the id 1 until its sender gives it
    /// another.
    pub fn new(device_index: u32, rotations: Vec<RotationSubcommand>) -> (r: RotateCmd)
        ensures
            r.id == 1,
            r.device_index == device_index,
            r.rotations == rotations,
    {
        RotateCmd { id: 1, device_index, rotations }
    }

    /// One entry for each rotator to set.
    pub fn rotations(&self) -> (r: &Vec<RotationSubcommand>)
        ensures
            *r == self.rotations,
    {
        &self.rotations
    }
}

impl ButtplugMessageFinalizer for RotateCmd {
    fn finalize(&mut self)
        ensures
            *final(self) == *old(self),
    {
    }
}

impl ButtplugMessageValidator for RotateCmd {
    open spec fn valid(&self) -> bool {
        self.id != BUTTPLUG_SERVER_EVENT_ID && forall|i: int|
            0 <= i < self.rotations@.len() ==> (#[trigger] self.rotations@[i]).speed.in_unit_interval()
    }

    /// A message with the id of server events is rejected for that. After
    /// that, the first value that is not between zero and one is named.
    open spec fn rejection(&self) -> Seq<char> {
        if self.id == BUTTPLUG_SERVER_EVENT_ID {
            not_system_id_text()
        } else {
            out_of_range_text("RotateCmd"@, self.rotations@[self.first_out_of_range()].index as nat)
        }
    }

    fn is_valid(&self) -> (r: Result<(), ButtplugMessageError>) {
        match self.is_not_system_id(self.id) {
            Ok(()) => {},
            Err(e) => {
                return Err(e);
            },
        }
        let mut i: usize = 0;
        while i < self.rotations.len()
            invariant
                i <= self.rotations.len(),
                self.id != BUTTPLUG_SERVER_EVENT_ID,
                forall|j: int| 0 <= j < i ==> (#[trigger] self.rotations@[j]).speed.in_unit_interval(),
            decreases self.rotations.len() - i,
        {
            let text = out_of_range_message("RotateCmd", self.rotations[i].index);
            match self.is_in_command_range(self.rotations[i].speed, text) {
                Ok(()) => {},
                Err(e) => {
                    proof {
                        assert(self.is_first_out_of_range(i as int));
                        let k = self.first_out_of_range();
                        if k < i {
                            assert(self.rotations@[k].speed.in_unit_interval());
                        } else if i < k {
                            assert(self.rotations@[i as int].speed.in_unit_interval());
                        }
                    }
                    return Err(e);
                },
            }
            i = i + 1;
        }
        Ok(())
    }
}

impl RotateCmd {
    /// Whether the value at place `i` is the first that is not between zero
    /// and one.
    pub open spec fn is_first_out_of_range(self, i: int) -> bool {
        &&& 0 <= i < self.rotations@.len()
        &&& !self.rotations@[i].speed.in_unit_interval()
        &&& forall|j: int| 0 <= j < i ==> (#[trigger] self.rotations@[j]).speed.in_unit_interval()
    }

    /// The place of the first value that is not between zero and one, in a
    /// message that has one.
    pub open spec fn first_out_of_range(self) -> int {
        choose|i: int| self.is_first_out_of_range(i)
    }
}

impl ButtplugMessage for RotateCmd {
    open spec fn message_id(&self) -> u32 {
        self.id
    }

    fn id(&self) -> (r: u32) {
        self.id
    }

    fn set_id(&mut self, id: u32)
        ensures
            *final(self) == (RotateCmd { id, ..*old(self) }),
    {
        self.id = id;
    }
}

impl ButtplugDeviceMessage for RotateCmd {
    open spec fn message_device_index(&self) -> u32 {
        self.device_index
    }

    fn device_index(&self) -> (r: u32) {
        self.device_index
    }

    fn set_device_index(&mut self, id: u32)
        ensures
            *final(self) == (RotateCmd { device_index: id, ..*old(self) }),
    {
        self.device_index = id;
    }
}

impl ButtplugClientMessageType for RotateCmd {

}

/// The target for one linear actuator of a device: where to go and in what
/// time.
#[derive(Debug, Clone, Copy, PartialEq, Eq, Structural)]
pub struct VectorSubcommand {
    pub index: u32,
    pub duration: u32,
    pub position: Double,
}

impl VectorSubcommand {
    /// Builds the value from its parts.
    pub fn new(index: u32, duration: u32, position: Double) -> (r: VectorSubcommand)
        ensures
            r.index == index,
            r.duration == duration,
            r.position == position,
    {
        VectorSubcommand { index, duration, position }
    }

    /// The index of the actuator among the device's linear actuators.
    pub fn index(&self) -> (r: u32)
        ensures
            r == self.index,
    {
        self.index
    }

    /// Milliseconds that the move is to take.
    pub fn duration(&self) -> (r: u32)
        ensures
            r == self.duration,
    {
        self.duration
    }

    /// Where to go, between zero and one.
    pub fn position(&self) -> (r: Double)
        ensures
            r == self.position,
    {
        self.position
    }
}

/// Moves linear actuators of a device.
#[derive(Debug, Clone, PartialEq, Eq)]
pub struct LinearCmd {
    pub id: u32,
    pub device_index: u32,
    pub vectors: Vec<VectorSubcommand>,
}

impl LinearCmd {
    /// Builds the message. It carries the id 1 until its sender gives it
    /// another.
    pub fn new(device_index: u32, vectors: Vec<VectorSubcommand>) -> (r: LinearCmd)
        ensures
            r.id == 1,
            r.device_index == device_index,
            r.vectors == vectors,
    {
        LinearCmd { id: 1, device_index, vectors }
    }

    /// One entry for each actuator to move.
    pub fn vectors(&self) -> (r: &Vec<VectorSubcommand>)
        ensures
            *r == self.vectors,
    {
        &self.vectors
    }
}

impl ButtplugMessageFinalizer for LinearCmd {
    fn finalize(&mut self)
        ensures
            *final(self) == *old(self),
    {
    }
}

impl ButtplugMessageValidator for LinearCmd {
    open spec fn valid(&self) -> bool {
        self.id != BUTTPLUG_SERVER_EVENT_ID && forall|i: int|
            0 <= i < self.vectors@.len() ==> (#[trigger] self.vectors@[i]).position.in_unit_interval()
    }

    /// A message with the id of server events is rejected for that. After
    /// that, the first value that is not between zero and one is named.
    open spec fn rejection(&self) -> Seq<char> {
        if self.id == BUTTPLUG_SERVER_EVENT_ID {
            not_system_id_text()
        } else {
            out_of_range_text("LinearCmd"@, self.vectors@[self.first_out_of_range()].index as nat)
        }
    }

    fn is_valid(&self) -> (r: Result<(), ButtplugMessageError>) {
        match self.is_not_system_id(self.id) {
            Ok(()) => {},
            Err(e) => {
                return Err(e);
            },
        }
        let mut i: usize = 0;
        while i < self.vectors.len()
            invariant
                i <= self.vectors.len(),
                self.id != BUTTPLUG_SERVER_EVENT_ID,
                forall|j: int| 0 <= j < i ==> (#[trigger] self.vectors@[j]).position.in_unit_interval(),
            decreases self.vectors.len() - i,
        {
            let text = out_of_range_message("LinearCmd", self.vectors[i].index);
            match self.is_in_command_range(self.vectors[i].position, text) {
                Ok(()) => {},
                Err(e) => {
                    proof {
                        assert(self.is_first_out_of_range(i as int));
                        let k = self.first_out_of_range();
                        if k < i {
                            assert(self.vectors@[k].position.in_unit_interval());
                        } else if i < k {
                            assert(self.vectors@[i as int].position.in_unit_interval());
                        }
                    }
                    return Err(e);
                },
            }
            i = i + 1;
        }
        Ok(())
    }
}

impl LinearCmd {
    /// Whether the value at place `i` is the first that is not between zero
    /// and one.
    pub open spec fn is_first_out_of_range(self, i: int) -> bool {
        &&& 0 <= i < self.vectors@.len()
        &&& !self.vectors@[i].position.in_unit_interval()
        &&& forall|j: int| 0 <= j < i ==> (#[trigger] self.vectors@[j]).position.in_unit_interval()
    }

    /// The place of the first value that is not between zero and one, in a
    /// message that has one.
    pub open spec fn first_out_of_range(self) -> int {
        choose|i: int| self.is_first_out_of_range(i)
    }
}

impl ButtplugMessage for LinearCmd {
    open spec fn message_id(&self) -> u32 {
        self.id
    }

    fn id(&self) -> (r: u32) {
        self.id
    }

    fn set_id(&mut self, id: u32)
        ensures
            *final(self) == (LinearCmd { id, ..*old(self) }),
    {
        self.id = id;
    }
}

impl ButtplugDeviceMessage for LinearCmd {
    open spec fn message_device_index(&self) -> u32 {
        self.device_index
    }

    fn device_index(&self) -> (r: u32) {
        self.device_index
    }

    fn set_device_index(&mut self, id: u32)
        ensures
            *final(self) == (LinearCmd { device_index: id, ..*old(self) }),
    {
        self.device_index = id;
    }
}

impl ButtplugClientMessageType for LinearCmd {

}

/// Sets all vibrators of a device to one speed. Only versions 0 and 1 of the
/// schema have it.
#[derive(Debug, Clone, PartialEq, Eq)]
pub struct SingleMotorVibrateCmd {
    pub id: u32,
    pub device_index: u32,
    pub speed: Double,
}

impl SingleMotorVibrateCmd {
    /// Builds the message. It carries the id 1 until its sender gives it
    /// another.
    pub fn new(device_index: u32, speed: Double) -> (r: SingleMotorVibrateCmd)
        ensures
            r.id == 1,
            r.device_index == device_index,
            r.speed == speed,
    {
        SingleMotorVibrateCmd { id: 1, device_index, speed }
    }

    /// The speed, between zero and one.
    pub fn speed(&self) -> (r: Double)
        ensures
            r == self.speed,
    {
        self.speed
    }
}

impl ButtplugMessageFinalizer for SingleMotorVibrateCmd {
    fn finalize(&mut self)
        ensures
            *final(self) == *old(self),
    {
    }
}

impl ButtplugMessageValidator for SingleMotorVibrateCmd {
    open spec fn valid(&self) -> bool {
        self.id != BUTTPLUG_SERVER_EVENT_ID && self.speed.in_unit_interval()
    }

    /// A message with the id of server events is rejected for that, and after
    /// that a speed that is not between zero and one.
    open spec fn rejection(&self) -> Seq<char> {
        if self.id == BUTTPLUG_SERVER_EVENT_ID {
            not_system_id_text()
        } else {
            out_of_range_text("SingleMotorVibrateCmd"@, 0)
        }
    }

    fn is_valid(&self) -> (r: Result<(), ButtplugMessageError>) {
        match self.is_not_system_id(self.id) {
            Ok(()) => {},
            Err(e) => {
                return Err(e);
            },
        }
        let text = out_of_range_message("SingleMotorVibrateCmd", 0);
        self.is_in_command_range(self.speed, text)
    }
}

impl ButtplugMessage for SingleMotorVibrateCmd {
    open spec fn message_id(&self) -> u32 {
        self.id
    }

    fn id(&self) -> (r: u32) {
        self.id
    }

    fn set_id(&mut self, id: u32)
        ensures
            *final(self) == (SingleMotorVibrateCmd { id, ..*old(self) }),
    {
        self.id = id;
    }
}

impl ButtplugDeviceMessage for SingleMotorVibrateCmd {
    open spec fn message_device_index(&self) -> u32 {
        self.device_index
    }

    fn device_index(&self) -> (r: u32) {
        self.device_index
    }

    fn set_device_index(&mut self, id: u32)
        ensures
            *final(self) == (SingleMotorVibrateCmd { device_index: id, ..*old(self) }),
    {
        self.device_index = id;
    }
}

impl ButtplugClientMessageType for SingleMotorVibrateCmd {

}

/// Moves a stroker of one make to a position at a speed, both in the units of
/// the device. Only versions 0 and 1 of the schema have it.
#[derive(Debug, Clone, PartialEq, Eq)]
pub struct FleshlightLaunchFW12Cmd {
    pub id: u32,
    pub device_index: u32,
    pub position: u8,
    pub speed: u8,
}

impl FleshlightLaunchFW12Cmd {
    /// Builds the message. It carries the id 1 until its sender gives it
    /// another.
    pub fn new(device_index: u32, position: u8, speed: u8) -> (r: FleshlightLaunchFW12Cmd)
        ensures
            r.id == 1,
            r.device_index == device_index,
            r.position == position,
            r.speed == speed,
    {
        FleshlightLaunchFW12Cmd { id: 1, device_index, position, speed }
    }

    /// Where to go, from 0 to 99.
    pub fn position(&self) -> (r: u8)
        ensures
            r == self.position,
    {
        self.position
    }

    /// How fast to go, from 0 to 99.
    pub fn speed(&self) -> (r: u8)
        ensures
            r == self.speed,
    {
        self.speed
    }
}

impl ButtplugMessageFinalizer for FleshlightLaunchFW12Cmd {
    fn finalize(&mut self)
        ensures
            *final(self) == *old(self),
    {
    }
}

impl ButtplugMessageValidator for FleshlightLaunchFW12Cmd {
    open spec fn valid(&self) -> bool {
        self.id != BUTTPLUG_SERVER_EVENT_ID
    }

    /// The fault of a message that carries the wrong kind of id.
    open spec fn rejection(&self) -> Seq<char> {
        not_system_id_text()
    }

    fn is_valid(&self) -> (r: Result<(), ButtplugMessageError>) {
        self.is_not_system_id(self.id)
    }
}

impl ButtplugMessage for FleshlightLaunchFW12Cmd {
    open spec fn message_id(&self) -> u32 {
        self.id
    }

    fn id(&self) -> (r: u32) {
        self.id
    }

    fn set_id(&mut self, id: u32)
        ensures
            *final(self) == (FleshlightLaunchFW12Cmd { id, ..*old(self) }),
    {
        self.id = id;
    }
}

impl ButtplugDeviceMessage for FleshlightLaunchFW12Cmd {
    open spec fn message_device_index(&self) -> u32 {
        self.device_index
    }

    fn device_index(&self) -> (r: u32) {
        self.device_index
    }

    fn set_device_index(&mut self, id: u32)
        ensures
            *final(self) == (FleshlightLaunchFW12Cmd { device_index: id, ..*old(self) }),
    {
        self.device_index = id;
    }
}

impl ButtplugClientMessageType for FleshlightLaunchFW12Cmd {

}

/// A command in the text form of one maker's devices. Only versions 0 and 1 of
/// the schema have it.
#[derive(Debug, Clone, PartialEq, Eq)]
pub struct LovenseCmd {
    pub id: u32,
    pub device_index: u32,
    pub command: String,
}

impl LovenseCmd {
    /// Builds the message. It carries the id 1 until its sender gives it
    /// another.
    pub fn new(device_index: u32, command: &str) -> (r: LovenseCmd)
        ensures
            r.id == 1,
            r.device_index == device_index,
            r.command@ == command@,
    {
        LovenseCmd { id: 1, device_index, command: command.to_owned() }
    }

    /// The command.
    pub fn command(&self) -> (r: &String)
        ensures
            *r == self.command,
    {
        &self.command
    }
}

impl ButtplugMessageFinalizer for LovenseCmd {
    fn finalize(&mut self)
        ensures
            *final(self) == *old(self),
    {
    }
}

impl ButtplugMessageValidator for LovenseCmd {
    open spec fn valid(&self) -> bool {
        self.id != BUTTPLUG_SERVER_EVENT_ID
    }

    /// The fault of a message that carries the wrong kind of id.
    open spec fn rejection(&self) -> Seq<char> {
        not_system_id_text()
    }

    fn is_valid(&self) -> (r: Result<(), ButtplugMessageError>) {
        self.is_not_system_id(self.id)
    }
}

impl ButtplugMessage for LovenseCmd {
    open spec fn message_id(&self) -> u32 {
        self.id
    }

    fn id(&self) -> (r: u32) {
        self.id
    }

    fn set_id(&mut self, id: u32)
        ensures
            *final(self) == (LovenseCmd { id, ..*old(self) }),
    {
        self.id = id;
    }
}

impl ButtplugDeviceMessage for LovenseCmd {
    open spec fn message_device_index(&self) -> u32 {
        self.device_index
    }

    fn device_index(&self) -> (r: u32) {
        self.device_index
    }

    fn set_device_index(&mut self, id: u32)
        ensures
            *final(self) == (LovenseCmd { device_index: id, ..*old(self) }),
    {
        self.device_index = id;
    }
}

impl ButtplugClientMessageType for LovenseCmd {

}

/// A command in the text form of one maker's devices. Only versions 0 and 1 of
/// the schema have it.
#[derive(Debug, Clone, PartialEq, Eq)]
pub struct KiirooCmd {
    pub id: u32,
    pub device_index: u32,
    pub command: String,
}

impl KiirooCmd {
    /// Builds the message. It carries the id 1 until its sender gives it
    /// another.
    pub fn new(device_index: u32, command: &str) -> (r: KiirooCmd)
        ensures
            r.id == 1,
            r.device_index == device_index,
            r.command@ == command@,
    {
        KiirooCmd { id: 1, device_index, command: command.to_owned() }
    }

    /// The command.
    pub fn command(&self) -> (r: &String)
        ensures
            *r == self.command,
    {
        &self.command
    }
}

impl ButtplugMessageFinalizer for KiirooCmd {
    fn finalize(&mut self)
        ensures
            *final(self) == *old(self),
    {
    }
}

impl ButtplugMessageValidator for KiirooCmd {
    open spec fn valid(&self) -> bool {
        self.id != BUTTPLUG_SERVER_EVENT_ID
    }

    /// The fault of a message that carries the wrong kind of id.
    open spec fn rejection(&self) -> Seq<char> {
        not_system_id_text()
    }

    fn is_valid(&self) -> (r: Result<(), ButtplugMessageError>) {
        self.is_not_system_id(self.id)
    }
}

impl ButtplugMessage for KiirooCmd {
    open spec fn message_id(&self) -> u32 {
        self.id
    }

    fn id(&self) -> (r: u32) {
        self.id
    }

    fn set_id(&mut self, id: u32)
        ensures
            *final(self) == (KiirooCmd { id, ..*old(self) }),
    {
        self.id = id;
    }
}

impl ButtplugDeviceMessage for KiirooCmd {
    open spec fn message_device_index(&self) -> u32 {
        self.device_index
    }

    fn device_index(&self) -> (r: u32) {
        self.device_index
    }

    fn set_device_index(&mut self, id: u32)
        ensures
            *final(self) == (KiirooCmd { device_index: id, ..*old(self) }),
    {
        self.device_index = id;
    }
}

impl ButtplugClientMessageType for KiirooCmd {

}

/// Turns a rotator of one make at a speed in the units of the device. Only
/// versions 0 and 1 of the schema have it.
#[derive(Debug, Clone, PartialEq, Eq)]
pub struct VorzeA10CycloneCmd {
    pub id: u32,
    pub device_index: u32,
    pub speed: u32,
    pub clockwise: bool,
}

impl VorzeA10CycloneCmd {
    /// Builds the message. It carries the id 1 until its sender gives it
    /// another.
    pub fn new(device_index: u32, speed: u32, clockwise: bool) -> (r: VorzeA10CycloneCmd)
        ensures
            r.id == 1,
            r.device_index == device_index,
            r.speed == speed,
            r.clockwise == clockwise,
    {
        VorzeA10CycloneCmd { id: 1, device_index, speed, clockwise }
    }

    /// How fast to turn, from 0 to 99.
    pub fn speed(&self) -> (r: u32)
        ensures
            r == self.speed,
    {
        self.speed
    }

    /// Whether to turn clockwise.
    pub fn clockwise(&self) -> (r: bool)
        ensures
            r == self.clockwise,
    {
        self.clockwise
    }
}

impl ButtplugMessageFinalizer for VorzeA10CycloneCmd {
    fn finalize(&mut self)
        ensures
            *final(self) == *old(self),
    {
    }
}

impl ButtplugMessageValidator for VorzeA10CycloneCmd {
    open spec fn valid(&self) -> bool {
        self.id != BUTTPLUG_SERVER_EVENT_ID
    }

    /// The fault of a message that carries the wrong kind of id.
    open spec fn rejection(&self) -> Seq<char> {
        not_system_id_text()
    }

    fn is_valid(&self) -> (r: Result<(), ButtplugMessageError>) {
        self.is_not_system_id(self.id)
    }
}

impl ButtplugMessage for VorzeA10CycloneCmd {
    open spec fn message_id(&self) -> u32 {
        self.id
    }

    fn id(&self) -> (r: u32) {
        self.id
    }

    fn set_id(&mut self, id: u32)
        ensures
            *final(self) == (VorzeA10CycloneCmd { id, ..*old(self) }),
    {
        self.id = id;
    }
}

impl ButtplugDeviceMessage for VorzeA10CycloneCmd {
    open spec fn message_device_index(&self) -> u32 {
        self.device_index
    }

    fn device_index(&self) -> (r: u32) {
        self.device_index
    }

    fn set_device_index(&mut self, id: u32)
        ensures
            *final(self) == (VorzeA10CycloneCmd { device_index: id, ..*old(self) }),
    {
        self.device_index = id;
    }
}

impl ButtplugClientMessageType for VorzeA10CycloneCmd {

}

} // verus!
