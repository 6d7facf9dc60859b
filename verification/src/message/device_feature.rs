//! What a device can do, feature by feature.
//!
//! A device has a fixed list of features. The position of a feature in that
//! list is its index; it is given once, when the device is configured, and
//! stays for as long as the device is connected.

use vstd::prelude::*;
use crate::message::ButtplugDeviceMessageType;

verus! {

/// What an actuator does.
#[derive(Debug, Clone, Copy, PartialEq, Eq, Hash, Structural)]
pub enum ActuatorType {
    Unknown,
    Vibrate,
    Rotate,
    Oscillate,
    Constrict,
    Inflate,
    Position,
}

/// What a sensor measures.
#[derive(Debug, Clone, Copy, PartialEq, Eq, Hash, Structural)]
pub enum SensorType {
    Unknown,
    Battery,
    RSSI,
    Button,
    Pressure,
}

/// What a feature is: one of the kinds of actuator, one of the kinds of
/// sensor, or a raw channel.
#[derive(Debug, Clone, Copy, PartialEq, Eq, Hash, Structural)]
pub enum FeatureType {
    Unknown,
    Vibrate,
    Rotate,
    Oscillate,
    Constrict,
    Inflate,
    Position,
    Battery,
    RSSI,
    Button,
    Pressure,
    Raw,
}

impl FeatureType {
    /// The kind of actuator that the feature type names, if it names one.
    pub open spec fn actuator_type(self) -> Option<ActuatorType> {
        match self {
            FeatureType::Unknown => Some(ActuatorType::Unknown),
            FeatureType::Vibrate => Some(ActuatorType::Vibrate),
            FeatureType::Rotate => Some(ActuatorType::Rotate),
            FeatureType::Oscillate => Some(ActuatorType::Oscillate),
            FeatureType::Constrict => Some(ActuatorType::Constrict),
            FeatureType::Inflate => Some(ActuatorType::Inflate),
            FeatureType::Position => Some(ActuatorType::Position),
            _ => None,
        }
    }

    /// The kind of sensor that the feature type names, if it names one.
    pub open spec fn sensor_type(self) -> Option<SensorType> {
        match self {
            FeatureType::Unknown => Some(SensorType::Unknown),
            FeatureType::Battery => Some(SensorType::Battery),
            FeatureType::RSSI => Some(SensorType::RSSI),
            FeatureType::Button => Some(SensorType::Button),
            FeatureType::Pressure => Some(SensorType::Pressure),
            _ => None,
        }
    }

    /// The feature type of a kind of actuator.
    pub fn from_actuator_type(value: ActuatorType) -> (r: FeatureType)
        ensures
            r.actuator_type() == Some(value),
    {
        match value {
            ActuatorType::Unknown => FeatureType::Unknown,
            ActuatorType::Vibrate => FeatureType::Vibrate,
            ActuatorType::Rotate => FeatureType::Rotate,
            ActuatorType::Oscillate => FeatureType::Oscillate,
            ActuatorType::Constrict => FeatureType::Constrict,
            ActuatorType::Inflate => FeatureType::Inflate,
            ActuatorType::Position => FeatureType::Position,
        }
    }

    /// The feature type of a kind of sensor.
    pub fn from_sensor_type(value: SensorType) -> (r: FeatureType)
        ensures
            r.sensor_type() == Some(value),
    {
        match value {
            SensorType::Unknown => FeatureType::Unknown,
            SensorType::Battery => FeatureType::Battery,
            SensorType::RSSI => FeatureType::RSSI,
            SensorType::Button => FeatureType::Button,
            SensorType::Pressure => FeatureType::Pressure,
        }
    }
}

impl ActuatorType {
    /// The kind of actuator that a feature type names. Fails on the types of
    /// sensors and of raw channels.
    pub fn try_from(value: FeatureType) -> (r: Result<ActuatorType, ()>)
        ensures
            r == match value.actuator_type() {
                Some(a) => Ok::<ActuatorType, ()>(a),
                None => Err::<ActuatorType, ()>(()),
            },
    {
        match value {
            FeatureType::Unknown => Ok(ActuatorType::Unknown),
            FeatureType::Vibrate => Ok(ActuatorType::Vibrate),
            FeatureType::Rotate => Ok(ActuatorType::Rotate),
            FeatureType::Oscillate => Ok(ActuatorType::Oscillate),
            FeatureType::Constrict => Ok(ActuatorType::Constrict),
            FeatureType::Inflate => Ok(ActuatorType::Inflate),
            FeatureType::Position => Ok(ActuatorType::Position),
            _ => Err(()),
        }
    }
}

impl SensorType {
    /// The kind of sensor that a feature type names. Fails on the types of
    /// actuators and of raw channels.
    pub fn try_from(value: FeatureType) -> (r: Result<SensorType, ()>)
        ensures
            r == match value.sensor_type() {
                Some(s) => Ok::<SensorType, ()>(s),
                None => Err::<SensorType, ()>(()),
            },
    {
        match value {
            FeatureType::Unknown => Ok(SensorType::Unknown),
            FeatureType::Battery => Ok(SensorType::Battery),
            FeatureType::RSSI => Ok(SensorType::RSSI),
            FeatureType::Button => Ok(SensorType::Button),
            FeatureType::Pressure => Ok(SensorType::Pressure),
            _ => Err(()),
        }
    }
}

/// The hardware steps that an actuator accepts: every whole number from
/// `start` to `end`, both included.
#[derive(Debug, Clone, Copy, PartialEq, Eq, Hash, Structural)]
pub struct StepRange {
    pub start: u32,
    pub end: u32,
}

impl StepRange {
    /// Builds the value from its parts.
    pub fn new(start: u32, end: u32) -> (r: StepRange)
        ensures
            r.start == start,
            r.end == end,
    {
        StepRange { start, end }
    }

    /// The first step of the range.
    pub fn start(&self) -> (r: u32)
        ensures
            r == self.start,
    {
        self.start
    }

    /// The last step of the range.
    pub fn end(&self) -> (r: u32)
        ensures
            r == self.end,
    {
        self.end
    }

    /// Whether the range holds no step at all.
    pub fn is_empty(&self) -> (r: bool)
        ensures
            r == (self.start > self.end),
    {
        self.start > self.end
    }
}

/// The values that a sensor can report: every whole number from `start` to
/// `end`, both included.
#[derive(Debug, Clone, Copy, PartialEq, Eq, Hash, Structural)]
pub struct SensorRange {
    pub start: i32,
    pub end: i32,
}

impl SensorRange {
    /// Builds the value from its parts.
    pub fn new(start: i32, end: i32) -> (r: SensorRange)
        ensures
            r.start == start,
            r.end == end,
    {
        SensorRange { start, end }
    }

    /// The least value of the range.
    pub fn start(&self) -> (r: i32)
        ensures
            r == self.start,
    {
        self.start
    }

    /// The greatest value of the range.
    pub fn end(&self) -> (r: i32)
        ensures
            r == self.end,
    {
        self.end
    }
}

/// How an actuator is driven: its step range and the commands it takes.
#[derive(Debug, Clone, PartialEq, Eq)]
pub struct DeviceFeatureActuator {
    pub step_range: StepRange,
    pub messages: Vec<ButtplugDeviceMessageType>,
}

/// The mathematical content of a `DeviceFeatureActuator`.
pub struct DeviceFeatureActuatorView {
    pub step_range: StepRange,
    pub messages: Seq<ButtplugDeviceMessageType>,
}

impl View for DeviceFeatureActuator {
    type V = DeviceFeatureActuatorView;

    open spec fn view(&self) -> DeviceFeatureActuatorView {
        DeviceFeatureActuatorView { step_range: self.step_range, messages: self.messages@ }
    }
}

impl DeviceFeatureActuator {
    /// Builds the value from its parts.
    pub fn new(step_range: &StepRange, messages: Vec<ButtplugDeviceMessageType>) -> (r:
        DeviceFeatureActuator)
        ensures
            r.step_range == *step_range,
            r.messages == messages,
    {
        DeviceFeatureActuator { step_range: *step_range, messages }
    }

    /// The step range of the actuator.
    pub fn step_range(&self) -> (r: &StepRange)
        ensures
            *r == self.step_range,
    {
        &self.step_range
    }

    /// The commands that the actuator takes.
    pub fn messages(&self) -> (r: &Vec<ButtplugDeviceMessageType>)
        ensures
            *r == self.messages,
    {
        &self.messages
    }

    /// Whether the actuator takes commands of the given type.
    pub fn supports(&self, message_type: ButtplugDeviceMessageType) -> (r: bool)
        ensures
            r == self@.messages.contains(message_type),
    {
        let mut i: usize = 0;
        while i < self.messages.len()
            invariant
                i <= self.messages.len(),
                forall|j: int| 0 <= j < i ==> self.messages@[j] != message_type,
            decreases self.messages.len() - i,
        {
            if self.messages[i] == message_type {
                return true;
            }
            i = i + 1;
        }
        false
    }

    /// A copy of the description.
    pub fn duplicate(&self) -> (r: DeviceFeatureActuator)
        ensures
            r@ == self@,
    {
        let mut messages: Vec<ButtplugDeviceMessageType> = Vec::new();
        let mut i: usize = 0;
        while i < self.messages.len()
            invariant
                i <= self.messages.len(),
                messages@ == self.messages@.subrange(0, i as int),
            decreases self.messages.len() - i,
        {
            messages.push(self.messages[i]);
            assert(messages@ =~= self.messages@.subrange(0, i + 1));
            i = i + 1;
        }
        assert(messages@ =~= self.messages@);
        DeviceFeatureActuator { step_range: self.step_range, messages }
    }
}

/// What a sensor reports: the ranges of its values, and whether it can be
/// read on request and subscribed to.
#[derive(Debug, Clone, PartialEq, Eq)]
pub struct DeviceFeatureSensor {
    pub value_range: Vec<SensorRange>,
    pub readable: bool,
    pub subscribable: bool,
}

/// The mathematical content of a `DeviceFeatureSensor`.
pub struct DeviceFeatureSensorView {
    pub value_range: Seq<SensorRange>,
    pub readable: bool,
    pub subscribable: bool,
}

impl View for DeviceFeatureSensor {
    type V = DeviceFeatureSensorView;

    open spec fn view(&self) -> DeviceFeatureSensorView {
        DeviceFeatureSensorView {
            value_range: self.value_range@,
            readable: self.readable,
            subscribable: self.subscribable,
        }
    }
}

impl DeviceFeatureSensor {
    /// Builds the value from its parts.
    pub fn new(value_range: Vec<SensorRange>, readable: bool, subscribable: bool) -> (r:
        DeviceFeatureSensor)
        ensures
            r.value_range == value_range,
            r.readable == readable,
            r.subscribable == subscribable,
    {
        DeviceFeatureSensor { value_range, readable, subscribable }
    }

    /// The ranges of the values that the sensor reports.
    pub fn value_range(&self) -> (r: &Vec<SensorRange>)
        ensures
            *r == self.value_range,
    {
        &self.value_range
    }

    /// Whether the sensor can be read on request.
    pub fn readable(&self) -> (r: bool)
        ensures
            r == self.readable,
    {
        self.readable
    }

    /// Whether the sensor reports on its own once subscribed to.
    pub fn subscribable(&self) -> (r: bool)
        ensures
            r == self.subscribable,
    {
        self.subscribable
    }

    /// A copy of the description.
    pub fn duplicate(&self) -> (r: DeviceFeatureSensor)
        ensures
            r@ == self@,
    {
        let mut value_range: Vec<SensorRange> = Vec::new();
        let mut i: usize = 0;
        while i < self.value_range.len()
            invariant
                i <= self.value_range.len(),
                value_range@ == self.value_range@.subrange(0, i as int),
            decreases self.value_range.len() - i,
        {
            value_range.push(self.value_range[i]);
            assert(value_range@ =~= self.value_range@.subrange(0, i + 1));
            i = i + 1;
        }
        assert(value_range@ =~= self.value_range@);
        DeviceFeatureSensor {
            value_range,
            readable: self.readable,
            subscribable: self.subscribable,
        }
    }
}

/// One thing that a device can do.
#[derive(Debug, Clone, PartialEq, Eq)]
pub struct DeviceFeature {
    pub description: String,
    pub feature_type: FeatureType,
    pub actuator: Option<DeviceFeatureActuator>,
    pub sensor: Option<DeviceFeatureSensor>,
}

/// The mathematical content of a `DeviceFeature`.
pub struct DeviceFeatureView {
    pub description: Seq<char>,
    pub feature_type: FeatureType,
    pub actuator: Option<DeviceFeatureActuatorView>,
    pub sensor: Option<DeviceFeatureSensorView>,
}

impl DeviceFeatureView {
    /// Whether the feature is an actuator that takes commands of the given
    /// type.
    pub open spec fn supports(self, message_type: ButtplugDeviceMessageType) -> bool {
        self.actuator matches Some(a) && a.messages.contains(message_type)
    }

    /// A feature that takes scalar or rotation commands has a step range that
    /// is not empty, and one that takes scalar commands has a feature type
    /// that names a kind of actuator.
    pub open spec fn wf(self) -> bool {
        &&& self.supports(ButtplugDeviceMessageType::ScalarCmd) || self.supports(
            ButtplugDeviceMessageType::RotateCmd,
        ) ==> self.actuator.unwrap().step_range.start <= self.actuator.unwrap().step_range.end
        &&& self.supports(ButtplugDeviceMessageType::ScalarCmd)
            ==> self.feature_type.actuator_type() is Some
    }
}

impl View for DeviceFeature {
    type V = DeviceFeatureView;

    open spec fn view(&self) -> DeviceFeatureView {
        DeviceFeatureView {
            description: self.description@,
            feature_type: self.feature_type,
            actuator: match self.actuator {
                Some(a) => Some(a@),
                None => None,
            },
            sensor: match self.sensor {
                Some(s) => Some(s@),
                None => None,
            },
        }
    }
}

impl DeviceFeature {
    /// Builds the value from its parts.
    pub fn new(
        description: &str,
        feature_type: FeatureType,
        actuator: Option<DeviceFeatureActuator>,
        sensor: Option<DeviceFeatureSensor>,
    ) -> (r: DeviceFeature)
        ensures
            r.description@ == description@,
            r.feature_type == feature_type,
            r.actuator == actuator,
            r.sensor == sensor,
    {
        DeviceFeature { description: description.to_owned(), feature_type, actuator, sensor }
    }

    /// The label of the feature.
    pub fn description(&self) -> (r: &String)
        ensures
            *r == self.description,
    {
        &self.description
    }

    /// What the feature is.
    pub fn feature_type(&self) -> (r: FeatureType)
        ensures
            r == self.feature_type,
    {
        self.feature_type
    }

    /// How the feature is driven, if it is an actuator.
    pub fn actuator(&self) -> (r: &Option<DeviceFeatureActuator>)
        ensures
            *r == self.actuator,
    {
        &self.actuator
    }

    /// What the feature reports, if it is a sensor.
    pub fn sensor(&self) -> (r: &Option<DeviceFeatureSensor>)
        ensures
            *r == self.sensor,
    {
        &self.sensor
    }

    /// Whether the feature is an actuator that takes commands of the given
    /// type.
    pub fn supports(&self, message_type: ButtplugDeviceMessageType) -> (r: bool)
        ensures
            r == self@.supports(message_type),
    {
        match &self.actuator {
            Some(actuator) => actuator.supports(message_type),
            None => false,
        }
    }

    /// Whether the description is consistent: see `DeviceFeatureView::wf`.
    pub fn is_well_formed(&self) -> (r: bool)
        ensures
            r == self@.wf(),
    {
        match &self.actuator {
            Some(actuator) => {
                let scalar = actuator.supports(ButtplugDeviceMessageType::ScalarCmd);
                let rotate = actuator.supports(ButtplugDeviceMessageType::RotateCmd);
                let ordered = actuator.step_range.start <= actuator.step_range.end;
                (!(scalar || rotate) || ordered) && (!scalar || ActuatorType::try_from(
                    self.feature_type,
                ).is_ok())
            },
            None => true,
        }
    }

    /// A copy of the feature.
    pub fn duplicate(&self) -> (r: DeviceFeature)
        ensures
            r@ == self@,
    {
        DeviceFeature {
            description: self.description.clone(),
            feature_type: self.feature_type,
            actuator: match &self.actuator {
                Some(a) => Some(a.duplicate()),
                None => None,
            },
            sensor: match &self.sensor {
                Some(s) => Some(s.duplicate()),
                None => None,
            },
        }
    }
}

} // verus!
