//! Handles for the actuators of a device.
//!
//! A handle is typed by what its actuator does and offers the commands that
//! the actuator takes. It checks a level before it builds a command from it:
//! what is out of range never becomes a message.

use vstd::prelude::*;
use vstd::string::StringExecFns;
use crate::double::Double;
use crate::errors::{ButtplugDeviceError, ButtplugError};
use crate::message::{
    ActuatorType, ButtplugActuatorFeatureMessageType, ButtplugCurrentSpecClientMessage,
    ButtplugSpecV3ClientMessage, ClientDeviceMessageAttributes,
    ClientGenericDeviceMessageAttributes, LinearCmd, RotateCmd, RotationSubcommand, ScalarCmd,
    ScalarSubcommand, VectorSubcommand,
};

verus! {

/// Whether a level may be sent: it is not negative, which a negative zero
/// is, and not above one.
pub open spec fn sendable(value: Double) -> bool {
    !value.sign() && !value.above_one()
}

/// Text of the error for a level that may not be sent.
pub open spec fn not_sendable_text() -> Seq<char> {
    "Value must be 0 <= x <= 1"@
}

/// Whether `r` is the failure for a level that may not be sent.
pub open spec fn refused(r: Result<ButtplugCurrentSpecClientMessage, ButtplugError>) -> bool {
    r matches Err(ButtplugError::ButtplugDeviceError(ButtplugDeviceError::UnhandledCommand(text)))
        && text@ == not_sendable_text()
}

/// Checks a level before anything is built from it.
pub fn check_level(value: Double) -> (r: Result<(), ButtplugError>)
    ensures
        sendable(value) ==> r is Ok,
        !sendable(value) ==> (r matches Err(
            ButtplugError::ButtplugDeviceError(ButtplugDeviceError::UnhandledCommand(text)),
        ) && text@ == not_sendable_text()),
{
    if value.is_sign_negative() || value.exceeds_one() {
        Err(
            ButtplugError::ButtplugDeviceError(
                ButtplugDeviceError::UnhandledCommand(String::from_str("Value must be 0 <= x <= 1")),
            ),
        )
    } else {
        Ok(())
    }
}

/// A copy of the description of an actuator.
pub fn copy_attributes(attributes: &ClientGenericDeviceMessageAttributes) -> (r:
    ClientGenericDeviceMessageAttributes)
    ensures
        r == *attributes,
{
    ClientGenericDeviceMessageAttributes {
        feature_descriptor: attributes.feature_descriptor.clone(),
        actuator_type: attributes.actuator_type,
        step_count: attributes.step_count,
        index: attributes.index,
    }
}

/// The scalar command that sets one actuator of a device to a level.
pub open spec fn scalar_message(
    device_index: u32,
    attributes: ClientGenericDeviceMessageAttributes,
    scalar: Double,
    message: ButtplugCurrentSpecClientMessage,
) -> bool {
    message matches ButtplugSpecV3ClientMessage::ScalarCmd(cmd) && cmd.id == 1 && cmd.device_index
        == device_index && cmd.scalars@ == seq![
        ScalarSubcommand {
            index: attributes.index,
            scalar,
            actuator_type: attributes.actuator_type,
        },
    ]
}

fn build_scalar(
    device_index: u32,
    attributes: &ClientGenericDeviceMessageAttributes,
    scalar: Double,
) -> (r:
    Result<ButtplugCurrentSpecClientMessage, ButtplugError>)
    ensures
        sendable(scalar) ==> (r matches Ok(message) && scalar_message(
            device_index,
            *attributes,
            scalar,
            message,
        )),
        !sendable(scalar) ==> refused(r),
{
    match check_level(scalar) {
        Ok(()) => {},
        Err(e) => {
            return Err(e);
        },
    }
    let subcmd = ScalarSubcommand::new(attributes.index, scalar, attributes.actuator_type);
    let mut scalars: Vec<ScalarSubcommand> = Vec::new();
    scalars.push(subcmd);
    let scalarcmd = ScalarCmd::new(device_index, scalars);
    assert(scalarcmd.scalars@ =~= seq![subcmd]);
    Ok(ButtplugSpecV3ClientMessage::ScalarCmd(scalarcmd))
}

/// An actuator that is set by a level between zero and one.
pub trait ScalarActuator {
    /// The index of the device that the actuator belongs to.
    spec fn owner(&self) -> u32;

    /// What the device says of the actuator.
    spec fn described(&self) -> ClientGenericDeviceMessageAttributes;

    /// Builds the command that sets the actuator to a level. A level that is
    /// negative or above one is refused, and nothing is built.
    fn scalar(&self, scalar: Double) -> (r: Result<ButtplugCurrentSpecClientMessage, ButtplugError>)
        ensures
            sendable(scalar) ==> (r matches Ok(message) && scalar_message(
                self.owner(),
                self.described(),
                scalar,
                message,
            )),
            !sendable(scalar) ==> refused(r),
    ;
}

/// What every actuator says of itself.
pub trait ActuatorAttributes {
    /// What the device says of the actuator.
    spec fn attributes_of(&self) -> ClientGenericDeviceMessageAttributes;

    /// The label of the actuator.
    fn descriptor(&self) -> (r: &String)
        ensures
            *r == self.attributes_of().feature_descriptor,
    ;

    /// How many steps the actuator has.
    fn step_count(&self) -> (r: u32)
        ensures
            r == self.attributes_of().step_count,
    ;
}

/// The handle of a vibrator.
#[derive(Debug, Clone, PartialEq, Eq)]
pub struct VibrateActuator {
    pub device_index: u32,
    pub attributes: ClientGenericDeviceMessageAttributes,
}

impl ActuatorAttributes for VibrateActuator {
    open spec fn attributes_of(&self) -> ClientGenericDeviceMessageAttributes {
        self.attributes
    }

    fn descriptor(&self) -> (r: &String) {
        &self.attributes.feature_descriptor
    }

    fn step_count(&self) -> (r: u32) {
        self.attributes.step_count
    }
}

impl VibrateActuator {
    /// The handle for an actuator of the device with the given index.
    pub fn new(
        device_index: u32,
        attributes: &ClientGenericDeviceMessageAttributes,
    ) -> (r: VibrateActuator)
        ensures
            r.device_index == device_index,
            r.attributes == *attributes,
    {
        VibrateActuator { device_index, attributes: copy_attributes(attributes) }
    }

    /// Builds the command that sets the speed of the vibrator. A level that is
    /// negative or above one is refused, and nothing is built.
    pub fn vibrate(
        &self,
        speed: Double,
    ) -> (r: Result<ButtplugCurrentSpecClientMessage, ButtplugError>)
        ensures
            sendable(speed) ==> (r matches Ok(message) && scalar_message(
                self.device_index,
                self.attributes,
                speed,
                message,
            )),
            !sendable(speed) ==> refused(r),
    {
        self.scalar(speed)
    }
}

impl ScalarActuator for VibrateActuator {
    open spec fn owner(&self) -> u32 {
        self.device_index
    }

    open spec fn described(&self) -> ClientGenericDeviceMessageAttributes {
        self.attributes
    }

    fn scalar(
        &self,
        scalar: Double,
    ) -> (r: Result<ButtplugCurrentSpecClientMessage, ButtplugError>) {
        build_scalar(self.device_index, &self.attributes, scalar)
    }
}

/// The handle of a rotator that takes a speed only.
#[derive(Debug, Clone, PartialEq, Eq)]
pub struct RotateActuator {
    pub device_index: u32,
    pub attributes: ClientGenericDeviceMessageAttributes,
}

impl ActuatorAttributes for RotateActuator {
    open spec fn attributes_of(&self) -> ClientGenericDeviceMessageAttributes {
        self.attributes
    }

    fn descriptor(&self) -> (r: &String) {
        &self.attributes.feature_descriptor
    }

    fn step_count(&self) -> (r: u32) {
        self.attributes.step_count
    }
}

impl RotateActuator {
    /// The handle for an actuator of the device with the given index.
    pub fn new(
        device_index: u32,
        attributes: &ClientGenericDeviceMessageAttributes,
    ) -> (r: RotateActuator)
        ensures
            r.device_index == device_index,
            r.attributes == *attributes,
    {
        RotateActuator { device_index, attributes: copy_attributes(attributes) }
    }

    /// Builds the command that sets the speed of the rotator. A level that is
    /// negative or above one is refused, and nothing is built.
    pub fn rotate(
        &self,
        speed: Double,
    ) -> (r: Result<ButtplugCurrentSpecClientMessage, ButtplugError>)
        ensures
            sendable(speed) ==> (r matches Ok(message) && scalar_message(
                self.device_index,
                self.attributes,
                speed,
                message,
            )),
            !sendable(speed) ==> refused(r),
    {
        self.scalar(speed)
    }
}

impl ScalarActuator for RotateActuator {
    open spec fn owner(&self) -> u32 {
        self.device_index
    }

    open spec fn described(&self) -> ClientGenericDeviceMessageAttributes {
        self.attributes
    }

    fn scalar(
        &self,
        scalar: Double,
    ) -> (r: Result<ButtplugCurrentSpecClientMessage, ButtplugError>) {
        build_scalar(self.device_index, &self.attributes, scalar)
    }
}

/// The handle of an oscillator.
#[derive(Debug, Clone, PartialEq, Eq)]
pub struct OscillateActuator {
    pub device_index: u32,
    pub attributes: ClientGenericDeviceMessageAttributes,
}

impl ActuatorAttributes for OscillateActuator {
    open spec fn attributes_of(&self) -> ClientGenericDeviceMessageAttributes {
        self.attributes
    }

    fn descriptor(&self) -> (r: &String) {
        &self.attributes.feature_descriptor
    }

    fn step_count(&self) -> (r: u32) {
        self.attributes.step_count
    }
}

impl OscillateActuator {
    /// The handle for an actuator of the device with the given index.
    pub fn new(
        device_index: u32,
        attributes: &ClientGenericDeviceMessageAttributes,
    ) -> (r: OscillateActuator)
        ensures
            r.device_index == device_index,
            r.attributes == *attributes,
    {
        OscillateActuator { device_index, attributes: copy_attributes(attributes) }
    }

    /// Builds the command that sets the speed of the oscillator. A level that
    /// is negative or above one is refused, and nothing is built.
    pub fn oscillate(
        &self,
        speed: Double,
    ) -> (r: Result<ButtplugCurrentSpecClientMessage, ButtplugError>)
        ensures
            sendable(speed) ==> (r matches Ok(message) && scalar_message(
                self.device_index,
                self.attributes,
                speed,
                message,
            )),
            !sendable(speed) ==> refused(r),
    {
        self.scalar(speed)
    }
}

impl ScalarActuator for OscillateActuator {
    open spec fn owner(&self) -> u32 {
        self.device_index
    }

    open spec fn described(&self) -> ClientGenericDeviceMessageAttributes {
        self.attributes
    }

    fn scalar(
        &self,
        scalar: Double,
    ) -> (r: Result<ButtplugCurrentSpecClientMessage, ButtplugError>) {
        build_scalar(self.device_index, &self.attributes, scalar)
    }
}

/// The handle of an actuator that takes a position only.
#[derive(Debug, Clone, PartialEq, Eq)]
pub struct PositionActuator {
    pub device_index: u32,
    pub attributes: ClientGenericDeviceMessageAttributes,
}

impl ActuatorAttributes for PositionActuator {
    open spec fn attributes_of(&self) -> ClientGenericDeviceMessageAttributes {
        self.attributes
    }

    fn descriptor(&self) -> (r: &String) {
        &self.attributes.feature_descriptor
    }

    fn step_count(&self) -> (r: u32) {
        self.attributes.step_count
    }
}

impl PositionActuator {
    /// The handle for an actuator of the device with the given index.
    pub fn new(
        device_index: u32,
        attributes: &ClientGenericDeviceMessageAttributes,
    ) -> (r: PositionActuator)
        ensures
            r.device_index == device_index,
            r.attributes == *attributes,
    {
        PositionActuator { device_index, attributes: copy_attributes(attributes) }
    }

    /// Builds the command that sends the actuator to a position. A level that
    /// is negative or above one is refused, and nothing is built.
    pub fn position(
        &self,
        speed: Double,
    ) -> (r: Result<ButtplugCurrentSpecClientMessage, ButtplugError>)
        ensures
            sendable(speed) ==> (r matches Ok(message) && scalar_message(
                self.device_index,
                self.attributes,
                speed,
                message,
            )),
            !sendable(speed) ==> refused(r),
    {
        self.scalar(speed)
    }
}

impl ScalarActuator for PositionActuator {
    open spec fn owner(&self) -> u32 {
        self.device_index
    }

    open spec fn described(&self) -> ClientGenericDeviceMessageAttributes {
        self.attributes
    }

    fn scalar(
        &self,
        scalar: Double,
    ) -> (r: Result<ButtplugCurrentSpecClientMessage, ButtplugError>) {
        build_scalar(self.device_index, &self.attributes, scalar)
    }
}

/// The handle of an inflater.
#[derive(Debug, Clone, PartialEq, Eq)]
pub struct InflateActuator {
    pub device_index: u32,
    pub attributes: ClientGenericDeviceMessageAttributes,
}

impl ActuatorAttributes for InflateActuator {
    open spec fn attributes_of(&self) -> ClientGenericDeviceMessageAttributes {
        self.attributes
    }

    fn descriptor(&self) -> (r: &String) {
        &self.attributes.feature_descriptor
    }

    fn step_count(&self) -> (r: u32) {
        self.attributes.step_count
    }
}

impl InflateActuator {
    /// The handle for an actuator of the device with the given index.
    pub fn new(
        device_index: u32,
        attributes: &ClientGenericDeviceMessageAttributes,
    ) -> (r: InflateActuator)
        ensures
            r.device_index == device_index,
            r.attributes == *attributes,
    {
        InflateActuator { device_index, attributes: copy_attributes(attributes) }
    }

    /// Builds the command that sets how far the inflater is filled. A level
    /// that is negative or above one is refused, and nothing is built.
    pub fn inflate(
        &self,
        speed: Double,
    ) -> (r: Result<ButtplugCurrentSpecClientMessage, ButtplugError>)
        ensures
            sendable(speed) ==> (r matches Ok(message) && scalar_message(
                self.device_index,
                self.attributes,
                speed,
                message,
            )),
            !sendable(speed) ==> refused(r),
    {
        self.scalar(speed)
    }
}

impl ScalarActuator for InflateActuator {
    open spec fn owner(&self) -> u32 {
        self.device_index
    }

    open spec fn described(&self) -> ClientGenericDeviceMessageAttributes {
        self.attributes
    }

    fn scalar(
        &self,
        scalar: Double,
    ) -> (r: Result<ButtplugCurrentSpecClientMessage, ButtplugError>) {
        build_scalar(self.device_index, &self.attributes, scalar)
    }
}

/// The handle of a constrictor.
#[derive(Debug, Clone, PartialEq, Eq)]
pub struct ConstrictActuator {
    pub device_index: u32,
    pub attributes: ClientGenericDeviceMessageAttributes,
}

impl ActuatorAttributes for ConstrictActuator {
    open spec fn attributes_of(&self) -> ClientGenericDeviceMessageAttributes {
        self.attributes
    }

    fn descriptor(&self) -> (r: &String) {
        &self.attributes.feature_descriptor
    }

    fn step_count(&self) -> (r: u32) {
        self.attributes.step_count
    }
}

impl ConstrictActuator {
    /// The handle for an actuator of the device with the given index.
    pub fn new(
        device_index: u32,
        attributes: &ClientGenericDeviceMessageAttributes,
    ) -> (r: ConstrictActuator)
        ensures
            r.device_index == device_index,
            r.attributes == *attributes,
    {
        ConstrictActuator { device_index, attributes: copy_attributes(attributes) }
    }

    /// Builds the command that sets how tight the constrictor is. A level that
    /// is negative or above one is refused, and nothing is built.
    pub fn constrict(
        &self,
        speed: Double,
    ) -> (r: Result<ButtplugCurrentSpecClientMessage, ButtplugError>)
        ensures
            sendable(speed) ==> (r matches Ok(message) && scalar_message(
                self.device_index,
                self.attributes,
                speed,
                message,
            )),
            !sendable(speed) ==> refused(r),
    {
        self.scalar(speed)
    }
}

impl ScalarActuator for ConstrictActuator {
    open spec fn owner(&self) -> u32 {
        self.device_index
    }

    open spec fn described(&self) -> ClientGenericDeviceMessageAttributes {
        self.attributes
    }

    fn scalar(
        &self,
        scalar: Double,
    ) -> (r: Result<ButtplugCurrentSpecClientMessage, ButtplugError>) {
        build_scalar(self.device_index, &self.attributes, scalar)
    }
}

/// The handle of an actuator that takes a position and the time to get there.
#[derive(Debug, Clone, PartialEq, Eq)]
pub struct PositionWithDurationActuator {
    pub device_index: u32,
    pub attributes: ClientGenericDeviceMessageAttributes,
}

impl ActuatorAttributes for PositionWithDurationActuator {
    open spec fn attributes_of(&self) -> ClientGenericDeviceMessageAttributes {
        self.attributes
    }

    fn descriptor(&self) -> (r: &String) {
        &self.attributes.feature_descriptor
    }

    fn step_count(&self) -> (r: u32) {
        self.attributes.step_count
    }
}

impl PositionWithDurationActuator {
    /// The handle for an actuator of the device with the given index.
    pub fn new(
        device_index: u32,
        attributes: &ClientGenericDeviceMessageAttributes,
    ) -> (r: PositionWithDurationActuator)
        ensures
            r.device_index == device_index,
            r.attributes == *attributes,
    {
        PositionWithDurationActuator { device_index, attributes: copy_attributes(attributes) }
    }

    /// Builds the command that sends the actuator to a position in the given
    /// number of milliseconds. A position that is negative or above one is
    /// refused, and nothing is built. The time has no limit.
    pub fn position_with_duration(&self, position: Double, duration: u32) -> (r: Result<
        ButtplugCurrentSpecClientMessage,
        ButtplugError,
    >)
        ensures
            sendable(position) ==> (r matches Ok(ButtplugSpecV3ClientMessage::LinearCmd(cmd))
                && cmd.id
                == 1 && cmd.device_index == self.device_index && cmd.vectors@ == seq![
                VectorSubcommand { index: self.attributes.index, duration, position },
            ]),
            !sendable(position) ==> refused(r),
    {
        match check_level(position) {
            Ok(()) => {},
            Err(e) => {
                return Err(e);
            },
        }
        let subcmd = VectorSubcommand::new(self.attributes.index, duration, position);
        let mut vectors: Vec<VectorSubcommand> = Vec::new();
        vectors.push(subcmd);
        let linearcmd = LinearCmd::new(self.device_index, vectors);
        assert(linearcmd.vectors@ =~= seq![subcmd]);
        Ok(ButtplugSpecV3ClientMessage::LinearCmd(linearcmd))
    }
}

/// The handle of a rotator that takes a speed and a direction.
#[derive(Debug, Clone, PartialEq, Eq)]
pub struct RotateWithDirectionActuator {
    pub device_index: u32,
    pub attributes: ClientGenericDeviceMessageAttributes,
}

impl ActuatorAttributes for RotateWithDirectionActuator {
    open spec fn attributes_of(&self) -> ClientGenericDeviceMessageAttributes {
        self.attributes
    }

    fn descriptor(&self) -> (r: &String) {
        &self.attributes.feature_descriptor
    }

    fn step_count(&self) -> (r: u32) {
        self.attributes.step_count
    }
}

impl RotateWithDirectionActuator {
    /// The handle for an actuator of the device with the given index.
    pub fn new(
        device_index: u32,
        attributes: &ClientGenericDeviceMessageAttributes,
    ) -> (r: RotateWithDirectionActuator)
        ensures
            r.device_index == device_index,
            r.attributes == *attributes,
    {
        RotateWithDirectionActuator { device_index, attributes: copy_attributes(attributes) }
    }

    /// Builds the command that turns the rotator at a speed in a direction. A
    /// speed that is negative or above one is refused, and nothing is built.
    pub fn rotate_with_direction(&self, speed: Double, clockwise: bool) -> (r: Result<
        ButtplugCurrentSpecClientMessage,
        ButtplugError,
    >)
        ensures
            sendable(speed) ==> (r matches Ok(ButtplugSpecV3ClientMessage::RotateCmd(cmd)) && cmd.id
                == 1 && cmd.device_index == self.device_index && cmd.rotations@ == seq![
                RotationSubcommand { index: self.attributes.index, speed, clockwise },
            ]),
            !sendable(speed) ==> refused(r),
    {
        match check_level(speed) {
            Ok(()) => {},
            Err(e) => {
                return Err(e);
            },
        }
        let subcmd = RotationSubcommand::new(self.attributes.index, speed, clockwise);
        let mut rotations: Vec<RotationSubcommand> = Vec::new();
        rotations.push(subcmd);
        let rotatecmd = RotateCmd::new(self.device_index, rotations);
        assert(rotatecmd.rotations@ =~= seq![subcmd]);
        Ok(ButtplugSpecV3ClientMessage::RotateCmd(rotatecmd))
    }
}

/// The handle of an actuator of a kind that the library has no name for.
#[derive(Debug, Clone, PartialEq, Eq)]
pub struct UnknownActuator {
    pub device_index: u32,
    pub attributes: ClientGenericDeviceMessageAttributes,
}

impl ActuatorAttributes for UnknownActuator {
    open spec fn attributes_of(&self) -> ClientGenericDeviceMessageAttributes {
        self.attributes
    }

    fn descriptor(&self) -> (r: &String) {
        &self.attributes.feature_descriptor
    }

    fn step_count(&self) -> (r: u32) {
        self.attributes.step_count
    }
}

impl UnknownActuator {
    /// The handle for an actuator of the device with the given index.
    pub fn new(
        device_index: u32,
        attributes: &ClientGenericDeviceMessageAttributes,
    ) -> (r: UnknownActuator)
        ensures
            r.device_index == device_index,
            r.attributes == *attributes,
    {
        UnknownActuator { device_index, attributes: copy_attributes(attributes) }
    }
}

impl ScalarActuator for UnknownActuator {
    open spec fn owner(&self) -> u32 {
        self.device_index
    }

    open spec fn described(&self) -> ClientGenericDeviceMessageAttributes {
        self.attributes
    }

    fn scalar(
        &self,
        scalar: Double,
    ) -> (r: Result<ButtplugCurrentSpecClientMessage, ButtplugError>) {
        build_scalar(self.device_index, &self.attributes, scalar)
    }
}

/// The handle of one actuator of a device, by what the actuator does.
#[derive(Debug, Clone, PartialEq, Eq)]
pub enum Actuator {
    Unknown(UnknownActuator),
    Vibrate(VibrateActuator),
    Rotate(RotateActuator),
    Oscillate(OscillateActuator),
    Position(PositionActuator),
    Inflate(InflateActuator),
    Constrict(ConstrictActuator),
    PositionWithDuration(PositionWithDurationActuator),
    RotateWithDirection(RotateWithDirectionActuator),
}

/// The handles of the actuators of a list, in its order, as handles for
/// the command of the given family.
pub open spec fn handles(
    device_index: u32,
    list: Option<Vec<ClientGenericDeviceMessageAttributes>>,
    family: ButtplugActuatorFeatureMessageType,
) -> Seq<Actuator> {
    match list {
        None => Seq::empty(),
        Some(list) => Seq::new(
            list@.len(),
            |i: int| Actuator::handle_for(family, device_index, list@[i]),
        ),
    }
}

impl Actuator {
    /// The index of the device that the actuator belongs to.
    pub open spec fn spec_device_index(self) -> u32 {
        match self {
            Actuator::Unknown(a) => a.device_index,
            Actuator::Vibrate(a) => a.device_index,
            Actuator::Rotate(a) => a.device_index,
            Actuator::Oscillate(a) => a.device_index,
            Actuator::Position(a) => a.device_index,
            Actuator::Inflate(a) => a.device_index,
            Actuator::Constrict(a) => a.device_index,
            Actuator::PositionWithDuration(a) => a.device_index,
            Actuator::RotateWithDirection(a) => a.device_index,
        }
    }

    /// What the device says of the actuator.
    pub open spec fn spec_attributes(self) -> ClientGenericDeviceMessageAttributes {
        match self {
            Actuator::Unknown(a) => a.attributes,
            Actuator::Vibrate(a) => a.attributes,
            Actuator::Rotate(a) => a.attributes,
            Actuator::Oscillate(a) => a.attributes,
            Actuator::Position(a) => a.attributes,
            Actuator::Inflate(a) => a.attributes,
            Actuator::Constrict(a) => a.attributes,
            Actuator::PositionWithDuration(a) => a.attributes,
            Actuator::RotateWithDirection(a) => a.attributes,
        }
    }

    /// The handle of an actuator that takes scalar commands: the one for
    /// what the actuator does.
    pub open spec fn scalar_handle(
        device_index: u32,
        attributes: ClientGenericDeviceMessageAttributes,
    ) -> Actuator {
        match attributes.actuator_type {
            ActuatorType::Vibrate => {
                Actuator::Vibrate(VibrateActuator { device_index, attributes })
            },
            ActuatorType::Constrict => Actuator::Constrict(
                ConstrictActuator { device_index, attributes },
            ),
            ActuatorType::Inflate => {
                Actuator::Inflate(InflateActuator { device_index, attributes })
            },
            ActuatorType::Oscillate => Actuator::Oscillate(
                OscillateActuator { device_index, attributes },
            ),
            ActuatorType::Position => {
                Actuator::Position(PositionActuator { device_index, attributes })
            },
            ActuatorType::Rotate => Actuator::Rotate(RotateActuator { device_index, attributes }),
            ActuatorType::Unknown => {
                Actuator::Unknown(UnknownActuator { device_index, attributes })
            },
        }
    }

    /// The handle of a rotator that takes a speed and a direction.
    pub open spec fn rotate_handle(
        device_index: u32,
        attributes: ClientGenericDeviceMessageAttributes,
    ) -> Actuator {
        Actuator::RotateWithDirection(RotateWithDirectionActuator { device_index, attributes })
    }

    /// The handle of an actuator that takes a position and a time.
    pub open spec fn linear_handle(
        device_index: u32,
        attributes: ClientGenericDeviceMessageAttributes,
    ) -> Actuator {
        Actuator::PositionWithDuration(PositionWithDurationActuator { device_index, attributes })
    }

    /// Makes the handle of an actuator that takes scalar commands.
    pub fn from_scalarcmd_attributes(
        device_index: u32,
        attributes: &ClientGenericDeviceMessageAttributes,
    ) -> (r:
        Actuator)
        ensures
            r == Self::scalar_handle(device_index, *attributes),
    {
        match attributes.actuator_type {
            ActuatorType::Vibrate => {
                Actuator::Vibrate(VibrateActuator::new(device_index, attributes))
            },
            ActuatorType::Constrict => Actuator::Constrict(
                ConstrictActuator::new(device_index, attributes),
            ),
            ActuatorType::Inflate => {
                Actuator::Inflate(InflateActuator::new(device_index, attributes))
            },
            ActuatorType::Oscillate => Actuator::Oscillate(
                OscillateActuator::new(device_index, attributes),
            ),
            ActuatorType::Position => Actuator::Position(
                PositionActuator::new(device_index, attributes),
            ),
            ActuatorType::Rotate => Actuator::Rotate(RotateActuator::new(device_index, attributes)),
            ActuatorType::Unknown => {
                Actuator::Unknown(UnknownActuator::new(device_index, attributes))
            },
        }
    }

    /// Makes the handle of a rotator that takes a speed and a direction.
    pub fn from_rotatecmd_attributes(
        device_index: u32,
        attributes: &ClientGenericDeviceMessageAttributes,
    ) -> (r:
        Actuator)
        ensures
            r == Self::rotate_handle(device_index, *attributes),
    {
        Actuator::RotateWithDirection(RotateWithDirectionActuator::new(device_index, attributes))
    }

    /// Makes the handle of an actuator that takes a position and a time.
    pub fn from_linearcmd_attributes(
        device_index: u32,
        attributes: &ClientGenericDeviceMessageAttributes,
    ) -> (r:
        Actuator)
        ensures
            r == Self::linear_handle(device_index, *attributes),
    {
        Actuator::PositionWithDuration(PositionWithDurationActuator::new(device_index, attributes))
    }

    /// The handle of an actuator for the command of the given family.
    pub open spec fn handle_for(
        family: ButtplugActuatorFeatureMessageType,
        device_index: u32,
        attributes: ClientGenericDeviceMessageAttributes,
    ) -> Actuator {
        match family {
            ButtplugActuatorFeatureMessageType::ScalarCmd => Self::scalar_handle(
                device_index,
                attributes,
            ),
            ButtplugActuatorFeatureMessageType::RotateCmd => Self::rotate_handle(
                device_index,
                attributes,
            ),
            ButtplugActuatorFeatureMessageType::LinearCmd => Self::linear_handle(
                device_index,
                attributes,
            ),
        }
    }

    #[verifier::loop_isolation(false)]
    fn push_handles(
        out: &mut Vec<Actuator>,
        device_index: u32,
        list: &Option<Vec<ClientGenericDeviceMessageAttributes>>,
        family: ButtplugActuatorFeatureMessageType,
    )
        ensures
            final(out)@ == old(out)@ + handles(device_index, *list, family),
    {
        let ghost wanted = handles(device_index, *list, family);
        match list {
            Some(list) => {
                let mut i: usize = 0;
                while i < list.len()
                    invariant
                        i <= list.len(),
                        out@ == old(out)@ + wanted.take(i as int),
                    decreases list.len() - i,
                {
                    let handle = match family {
                        ButtplugActuatorFeatureMessageType::ScalarCmd => {
                            Actuator::from_scalarcmd_attributes(device_index, &list[i])
                        },
                        ButtplugActuatorFeatureMessageType::RotateCmd => {
                            Actuator::from_rotatecmd_attributes(device_index, &list[i])
                        },
                        ButtplugActuatorFeatureMessageType::LinearCmd => {
                            Actuator::from_linearcmd_attributes(device_index, &list[i])
                        },
                    };
                    out.push(handle);
                    assert(out@ =~= old(out)@ + wanted.take(i + 1));
                    i = i + 1;
                }
                assert(wanted.take(list@.len() as int) =~= wanted);
            },
            None => {
                assert(out@ =~= old(out)@ + wanted);
            },
        }
    }

    /// Makes the handles of all actuators of a device: first those that take
    /// scalar commands, then the rotators with a direction, then the
    /// actuators that take a position and a time, each group in the order of
    /// the device's description.
    pub fn from_client_device_message_attributes(
        device_index: u32,
        attributes: &ClientDeviceMessageAttributes,
    ) -> (r:
        Vec<Actuator>)
        ensures
            r@ == handles(
                device_index,
                attributes.scalar_cmd,
                ButtplugActuatorFeatureMessageType::ScalarCmd,
            ) + handles(
                device_index,
                attributes.rotate_cmd,
                ButtplugActuatorFeatureMessageType::RotateCmd,
            ) + handles(
                device_index,
                attributes.linear_cmd,
                ButtplugActuatorFeatureMessageType::LinearCmd,
            ),
    {
        let mut actuator_vec: Vec<Actuator> = Vec::new();
        Self::push_handles(
            &mut actuator_vec,
            device_index,
            &attributes.scalar_cmd,
            ButtplugActuatorFeatureMessageType::ScalarCmd,
        );
        Self::push_handles(
            &mut actuator_vec,
            device_index,
            &attributes.rotate_cmd,
            ButtplugActuatorFeatureMessageType::RotateCmd,
        );
        Self::push_handles(
            &mut actuator_vec,
            device_index,
            &attributes.linear_cmd,
            ButtplugActuatorFeatureMessageType::LinearCmd,
        );
        actuator_vec
    }
}

} // verus!
