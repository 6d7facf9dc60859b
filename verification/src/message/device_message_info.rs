//! What the server says of one device, in the terms of each version of the
//! schema.

use vstd::prelude::*;
use crate::message::{
    ActuatorType, ButtplugDeviceMessageType, SensorType, SensorRange, StepRange, Endpoint,
};
use crate::message::client_device_message_attributes::{
    ClientDeviceMessageAttributes, ClientDeviceMessageAttributesV1,
    ClientDeviceMessageAttributesV2, ClientGenericDeviceMessageAttributes,
    NullDeviceMessageAttributes, RawDeviceMessageAttributes, SensorDeviceMessageAttributes,
    index_at, index_of,
};
use crate::message::device_added::{DeviceAdded, DeviceAddedV2, DeviceAddedV3};

verus! {

/// What a server says of one actuator of a device: its label, what it does, and
/// its step range.
#[derive(Debug, Clone, PartialEq, Eq)]
pub struct ServerActuatorInfo {
    pub descriptor: String,
    pub actuator_type: ActuatorType,
    pub step_range: StepRange,
}

impl ServerActuatorInfo {
    /// The label of the actuator.
    pub fn descriptor(&self) -> (r: &String)
        ensures
            *r == self.descriptor,
    {
        &self.descriptor
    }

    /// What the actuator does.
    pub fn actuator_type(&self) -> (r: ActuatorType)
        ensures
            r == self.actuator_type,
    {
        self.actuator_type
    }

    /// The steps that the actuator accepts.
    pub fn step_range(&self) -> (r: &StepRange)
        ensures
            *r == self.step_range,
    {
        &self.step_range
    }

    /// Builds the value from its parts.
    pub fn new(descriptor: &str, actuator_type: ActuatorType, step_range: &StepRange) -> (r:
        ServerActuatorInfo)
        ensures
            r.descriptor@ == descriptor@,
            r.actuator_type == actuator_type,
            r.step_range == *step_range,
    {
        ServerActuatorInfo { descriptor: descriptor.to_owned(), actuator_type, step_range: *step_range }
    }

    /// How many steps lie above the first one; none in a range that is
    /// empty.
    pub open spec fn spec_step_count(self) -> u32 {
        if self.step_range.start <= self.step_range.end {
            (self.step_range.end - self.step_range.start) as u32
        } else {
            0
        }
    }

    /// How many steps lie above the first one.
    pub fn step_count(&self) -> (r: u32)
        ensures
            r == self.spec_step_count(),
    {
        if self.step_range.start <= self.step_range.end {
            self.step_range.end - self.step_range.start
        } else {
            0
        }
    }
}

/// What a client is told of one actuator of a device: its index, its label,
/// what it does, and how many steps it has.
#[derive(Debug, Clone, PartialEq, Eq)]
pub struct ClientActuatorInfo {
    pub index: u32,
    pub descriptor: String,
    pub actuator_type: ActuatorType,
    pub step_count: u32,
}

impl ClientActuatorInfo {
    /// The index of the actuator.
    pub fn index(&self) -> (r: u32)
        ensures
            r == self.index,
    {
        self.index
    }

    /// The label of the actuator.
    pub fn descriptor(&self) -> (r: &String)
        ensures
            *r == self.descriptor,
    {
        &self.descriptor
    }

    /// What the actuator does.
    pub fn actuator_type(&self) -> (r: ActuatorType)
        ensures
            r == self.actuator_type,
    {
        self.actuator_type
    }

    /// How many steps the actuator has.
    pub fn step_count(&self) -> (r: u32)
        ensures
            r == self.step_count,
    {
        self.step_count
    }

    /// Describes an actuator. The commands that the actuator takes are not
    /// part of the description.
    pub fn new(
        index: u32,
        descriptor: &str,
        actuator_type: ActuatorType,
        messages: &Vec<ButtplugDeviceMessageType>,
        step_count: u32,
    ) -> (r: ClientActuatorInfo)
        ensures
            r.index == index,
            r.descriptor@ == descriptor@,
            r.actuator_type == actuator_type,
            r.step_count == step_count,
    {
        ClientActuatorInfo { index, descriptor: descriptor.to_owned(), actuator_type, step_count }
    }
}

/// What is said of one sensor of a device: its index, its label, what it
/// measures, the ranges of its values, and whether it can be read and
/// subscribed to.
#[derive(Debug, Clone, PartialEq, Eq)]
pub struct SensorInfo {
    pub index: u32,
    pub descriptor: String,
    pub sensor_type: SensorType,
    pub sensor_range: Vec<SensorRange>,
    pub readable: bool,
    pub subscribable: bool,
}

impl SensorInfo {
    /// Builds the value from its parts.
    pub fn new(
        index: u32,
        descriptor: &str,
        sensor_type: SensorType,
        sensor_range: Vec<SensorRange>,
        readable: bool,
        subscribable: bool,
    ) -> (r: SensorInfo)
        ensures
            r.index == index,
            r.descriptor@ == descriptor@,
            r.sensor_type == sensor_type,
            r.sensor_range == sensor_range,
            r.readable == readable,
            r.subscribable == subscribable,
    {
        SensorInfo {
            index,
            descriptor: descriptor.to_owned(),
            sensor_type,
            sensor_range,
            readable,
            subscribable,
        }
    }

    /// The index of the sensor.
    pub fn index(&self) -> (r: u32)
        ensures
            r == self.index,
    {
        self.index
    }

    /// The label of the sensor.
    pub fn descriptor(&self) -> (r: &String)
        ensures
            *r == self.descriptor,
    {
        &self.descriptor
    }

    /// What the sensor measures.
    pub fn sensor_type(&self) -> (r: SensorType)
        ensures
            r == self.sensor_type,
    {
        self.sensor_type
    }

    /// The ranges of the values that the sensor reports.
    pub fn sensor_range(&self) -> (r: &Vec<SensorRange>)
        ensures
            *r == self.sensor_range,
    {
        &self.sensor_range
    }

    /// Whether the sensor can be read on request.
    pub fn readable(&self) -> (r: bool)
        ensures
            r == self.readable,
    {
        self.readable
    }

    /// Whether the sensor reports on its own once subscribed to.
    pub fn subscribable(&self) -> (r: bool)
        ensures
            r == self.subscribable,
    {
        self.subscribable
    }
}

/// What is said of a device in version 4 of the schema, which is still in the
/// making: its actuators, its sensors and its raw channels, each in a list of
/// its own.
#[derive(Debug, Clone, PartialEq, Eq)]
pub struct DeviceMessageInfo {
    pub index: u32,
    pub name: String,
    pub display_name: Option<String>,
    pub message_timing_gap: Option<u32>,
    pub actuators: Option<Vec<ServerActuatorInfo>>,
    pub sensors: Option<Vec<SensorInfo>>,
    pub raw: Option<Vec<Endpoint>>,
}

impl DeviceMessageInfo {
    /// The index of the device.
    pub fn index(&self) -> (r: u32)
        ensures
            r == self.index,
    {
        self.index
    }

    /// The name of the device.
    pub fn name(&self) -> (r: &String)
        ensures
            *r == self.name,
    {
        &self.name
    }

    /// The name that the user gave the device, if any.
    pub fn display_name(&self) -> (r: &Option<String>)
        ensures
            *r == self.display_name,
    {
        &self.display_name
    }

    /// The least time between two commands, in milliseconds, if the device asks
    /// for one.
    pub fn message_timing_gap(&self) -> (r: &Option<u32>)
        ensures
            *r == self.message_timing_gap,
    {
        &self.message_timing_gap
    }

    /// The actuators of the device.
    pub fn actuators(&self) -> (r: &Option<Vec<ServerActuatorInfo>>)
        ensures
            *r == self.actuators,
    {
        &self.actuators
    }

    /// The sensors of the device.
    pub fn sensors(&self) -> (r: &Option<Vec<SensorInfo>>)
        ensures
            *r == self.sensors,
    {
        &self.sensors
    }

    /// The raw channels of the device.
    pub fn raw(&self) -> (r: &Option<Vec<Endpoint>>)
        ensures
            *r == self.raw,
    {
        &self.raw
    }

    /// What a notice of a new device says of the device.
    pub fn from(device_added: DeviceAdded) -> (r: DeviceMessageInfo)
        ensures
            r == device_added.info(),
    {
        DeviceMessageInfo {
            index: device_added.index,
            name: device_added.name,
            display_name: device_added.display_name,
            message_timing_gap: device_added.message_timing_gap,
            actuators: device_added.actuators,
            sensors: device_added.sensors,
            raw: device_added.raw,
        }
    }
}

/// Whether `attribute` describes the actuator `info` at place `place` of a
/// list, in the terms of version 3.
pub open spec fn describes_actuator(
    attribute: ClientGenericDeviceMessageAttributes,
    info: ServerActuatorInfo,
    place: int,
) -> bool {
    &&& attribute.feature_descriptor == info.descriptor
    &&& attribute.actuator_type == info.actuator_type
    &&& attribute.step_count == info.spec_step_count()
    &&& attribute.index == index_of(place)
}

/// Whether `attributes` describe the actuators of a device one by one.
pub open spec fn describes_actuators(
    attributes: Option<Vec<ClientGenericDeviceMessageAttributes>>,
    actuators: Option<Vec<ServerActuatorInfo>>,
) -> bool {
    match actuators {
        None => attributes is None,
        Some(list) => attributes matches Some(described) && described@.len() == list@.len()
            && forall|i: int|
            0 <= i < list@.len() ==> describes_actuator(#[trigger] described@[i], list@[i], i),
    }
}

/// The sensors of a list that can be read or, with `subscribable`, that can
/// be subscribed to, in their order.
pub open spec fn sensors_that(list: Seq<SensorInfo>, subscribable: bool) -> Seq<SensorInfo>
    decreases list.len(),
{
    if list.len() == 0 {
        Seq::empty()
    } else {
        let rest = sensors_that(list.drop_last(), subscribable);
        let last = list.last();
        if (subscribable && last.subscribable) || (!subscribable && last.readable) {
            rest.push(last)
        } else {
            rest
        }
    }
}

/// Whether `attribute` describes the sensor `info` at place `place` of a list,
/// in the terms of version 3.
pub open spec fn describes_sensor(
    attribute: SensorDeviceMessageAttributes,
    info: SensorInfo,
    place: int,
) -> bool {
    &&& attribute.feature_descriptor == info.descriptor
    &&& attribute.sensor_type == info.sensor_type
    &&& attribute.sensor_range@ == info.sensor_range@
    &&& attribute.index == index_of(place)
}

/// Whether `attributes` describe those sensors of a device that can be read
/// or, with `subscribable`, subscribed to.
pub open spec fn describes_sensors(
    attributes: Option<Vec<SensorDeviceMessageAttributes>>,
    sensors: Option<Vec<SensorInfo>>,
    subscribable: bool,
) -> bool {
    match sensors {
        None => attributes is None,
        Some(list) => {
            let chosen = sensors_that(list@, subscribable);
            attributes matches Some(described) && described@.len() == chosen.len() && forall|i: int|
                0 <= i < chosen.len() ==> describes_sensor(#[trigger] described@[i], chosen[i], i)
        },
    }
}

/// Whether `attributes` name the raw channels of a device.
pub open spec fn describes_raw(
    attributes: Option<RawDeviceMessageAttributes>,
    raw: Option<Vec<Endpoint>>,
) -> bool {
    match raw {
        None => attributes is None,
        Some(endpoints) => attributes matches Some(a) && a.endpoints@ == endpoints@,
    }
}

fn actuator_attributes(actuators: &Option<Vec<ServerActuatorInfo>>) -> (r: Option<
    Vec<ClientGenericDeviceMessageAttributes>,
>)
    ensures
        describes_actuators(r, *actuators),
{
    match actuators {
        None => None,
        Some(list) => {
            let mut out: Vec<ClientGenericDeviceMessageAttributes> = Vec::new();
            let mut i: usize = 0;
            while i < list.len()
                invariant
                    i <= list.len(),
                    out@.len() == i,
                    forall|j: int|
                        0 <= j < i ==> describes_actuator(#[trigger] out@[j], list@[j], j),
                decreases list.len() - i,
            {
                out.push(
                    ClientGenericDeviceMessageAttributes {
                        feature_descriptor: list[i].descriptor.clone(),
                        actuator_type: list[i].actuator_type,
                        step_count: list[i].step_count(),
                        index: index_at(i),
                    },
                );
                i = i + 1;
            }
            Some(out)
        },
    }
}

fn sensor_attributes(sensors: &Option<Vec<SensorInfo>>, subscribable: bool) -> (r: Option<
    Vec<SensorDeviceMessageAttributes>,
>)
    ensures
        describes_sensors(r, *sensors, subscribable),
{
    match sensors {
        None => None,
        Some(list) => {
            let mut out: Vec<SensorDeviceMessageAttributes> = Vec::new();
            let mut i: usize = 0;
            while i < list.len()
                invariant
                    i <= list.len(),
                    out@.len() == sensors_that(list@.take(i as int), subscribable).len(),
                    forall|j: int|
                        0 <= j < out@.len() ==> describes_sensor(
                            #[trigger] out@[j],
                            sensors_that(list@.take(i as int), subscribable)[j],
                            j,
                        ),
                decreases list.len() - i,
            {
                proof {
                    assert(list@.take(i + 1).drop_last() =~= list@.take(i as int));
                    assert(list@.take(i + 1).last() == list@[i as int]);
                }
                let sensor = &list[i];
                if (subscribable && sensor.subscribable) || (!subscribable && sensor.readable) {
                    let sensor_range = sensor.sensor_range.clone();
                    assert(sensor_range@ =~= sensor.sensor_range@);
                    out.push(
                        SensorDeviceMessageAttributes {
                            feature_descriptor: sensor.descriptor.clone(),
                            sensor_type: sensor.sensor_type,
                            sensor_range,
                            index: index_at(out.len()),
                        },
                    );
                }
                i = i + 1;
            }
            proof {
                assert(list@.take(list@.len() as int) =~= list@);
            }
            Some(out)
        },
    }
}

fn raw_attributes(raw: &Option<Vec<Endpoint>>) -> (r: Option<RawDeviceMessageAttributes>)
    ensures
        describes_raw(r, *raw),
{
    match raw {
        None => None,
        Some(endpoints) => {
            let copy = endpoints.clone();
            assert(copy@ =~= endpoints@);
            Some(RawDeviceMessageAttributes { endpoints: copy })
        },
    }
}

/// What is said of a device in version 3 of the schema.
#[derive(Debug, Clone, PartialEq, Eq)]
pub struct DeviceMessageInfoV3 {
    pub device_index: u32,
    pub device_name: String,
    pub device_display_name: Option<String>,
    pub device_message_timing_gap: Option<u32>,
    pub device_messages: ClientDeviceMessageAttributes,
}

impl DeviceMessageInfoV3 {
    /// The index of the device.
    pub fn device_index(&self) -> (r: u32)
        ensures
            r == self.device_index,
    {
        self.device_index
    }

    /// The name of the device.
    pub fn device_name(&self) -> (r: &String)
        ensures
            *r == self.device_name,
    {
        &self.device_name
    }

    /// The name that the user gave the device, if any.
    pub fn device_display_name(&self) -> (r: &Option<String>)
        ensures
            *r == self.device_display_name,
    {
        &self.device_display_name
    }

    /// The least time between two commands, in milliseconds, if the device asks
    /// for one.
    pub fn device_message_timing_gap(&self) -> (r: &Option<u32>)
        ensures
            *r == self.device_message_timing_gap,
    {
        &self.device_message_timing_gap
    }

    /// The commands that the device takes, and what each can address.
    pub fn device_messages(&self) -> (r: &ClientDeviceMessageAttributes)
        ensures
            *r == self.device_messages,
    {
        &self.device_messages
    }

    /// Builds the value from its parts.
    pub fn new(
        device_index: u32,
        device_name: &str,
        device_display_name: &Option<String>,
        device_message_timing_gap: &Option<u32>,
        device_messages: ClientDeviceMessageAttributes,
    ) -> (r: DeviceMessageInfoV3)
        ensures
            r.device_index == device_index,
            r.device_name@ == device_name@,
            r.device_display_name == *device_display_name,
            r.device_message_timing_gap == *device_message_timing_gap,
            r.device_messages == device_messages,
    {
        DeviceMessageInfoV3 {
            device_index,
            device_name: device_name.to_owned(),
            device_display_name: match device_display_name {
                Some(name) => Some(name.clone()),
                None => None,
            },
            device_message_timing_gap: *device_message_timing_gap,
            device_messages,
        }
    }

    /// Whether `self` says of a device what `other` says, as far as version 3
    /// can say it. Every actuator is one that takes scalar commands. The
    /// sensors that can be read and those that can be subscribed to are listed
    /// apart. The raw channels can be read, written to and subscribed to.
    pub open spec fn downgraded_from(self, other: DeviceMessageInfo) -> bool {
        &&& self.device_index == other.index
        &&& self.device_name == other.name
        &&& self.device_display_name == other.display_name
        &&& self.device_message_timing_gap == other.message_timing_gap
        &&& describes_actuators(self.device_messages.scalar_cmd, other.actuators)
        &&& self.device_messages.rotate_cmd is None
        &&& self.device_messages.linear_cmd is None
        &&& describes_sensors(self.device_messages.sensor_read_cmd, other.sensors, false)
        &&& describes_sensors(self.device_messages.sensor_subscribe_cmd, other.sensors, true)
        &&& describes_raw(self.device_messages.raw_read_cmd, other.raw)
        &&& describes_raw(self.device_messages.raw_write_cmd, other.raw)
        &&& describes_raw(self.device_messages.raw_subscribe_cmd, other.raw)
        &&& self.device_messages.fleshlight_launch_fw12_cmd is None
        &&& self.device_messages.vorze_a10_cyclone_cmd is None
    }

    /// Says of a device, in the terms of version 3, what version 4 says of it.
    pub fn from(device_info: DeviceMessageInfo) -> (r: DeviceMessageInfoV3)
        ensures
            r.downgraded_from(device_info),
    {
        Self::from_ref(&device_info)
    }

    /// Says of a device, in the terms of version 3, what version 4 says of it.
    pub fn from_ref(device_info: &DeviceMessageInfo) -> (r: DeviceMessageInfoV3)
        ensures
            r.downgraded_from(*device_info),
    {
        let device_messages = ClientDeviceMessageAttributes {
            scalar_cmd: actuator_attributes(&device_info.actuators),
            rotate_cmd: None,
            linear_cmd: None,
            sensor_read_cmd: sensor_attributes(&device_info.sensors, false),
            sensor_subscribe_cmd: sensor_attributes(&device_info.sensors, true),
            stop_device_cmd: NullDeviceMessageAttributes {  },
            raw_read_cmd: raw_attributes(&device_info.raw),
            raw_write_cmd: raw_attributes(&device_info.raw),
            raw_subscribe_cmd: raw_attributes(&device_info.raw),
            fleshlight_launch_fw12_cmd: None,
            vorze_a10_cyclone_cmd: None,
        };
        DeviceMessageInfoV3 {
            device_index: device_info.index,
            device_name: device_info.name.clone(),
            device_display_name: match &device_info.display_name {
                Some(name) => Some(name.clone()),
                None => None,
            },
            device_message_timing_gap: device_info.message_timing_gap,
            device_messages,
        }
    }

    /// The same description, with its indices derived.
    pub open spec fn finalized_from(self, before: DeviceMessageInfoV3) -> bool {
        &&& self.device_index == before.device_index
        &&& self.device_name == before.device_name
        &&& self.device_display_name == before.device_display_name
        &&& self.device_message_timing_gap == before.device_message_timing_gap
        &&& self.device_messages.finalized_from(before.device_messages)
    }

    /// What a notice of a new device says of the device.
    pub fn from_device_added(device_added: DeviceAddedV3) -> (r: DeviceMessageInfoV3)
        ensures
            r == device_added.info(),
    {
        DeviceMessageInfoV3 {
            device_index: device_added.device_index,
            device_name: device_added.device_name,
            device_display_name: device_added.device_display_name,
            device_message_timing_gap: device_added.device_message_timing_gap,
            device_messages: device_added.device_messages,
        }
    }
}

/// What is said of a device in version 2 of the schema.
#[derive(Debug, Clone, PartialEq, Eq)]
pub struct DeviceMessageInfoV2 {
    pub device_index: u32,
    pub device_name: String,
    pub device_messages: ClientDeviceMessageAttributesV2,
}

impl DeviceMessageInfoV2 {
    /// The index of the device.
    pub fn device_index(&self) -> (r: u32)
        ensures
            r == self.device_index,
    {
        self.device_index
    }

    /// The name of the device.
    pub fn device_name(&self) -> (r: &String)
        ensures
            *r == self.device_name,
    {
        &self.device_name
    }

    /// The commands that the device takes, and what each can address.
    pub fn device_messages(&self) -> (r: &ClientDeviceMessageAttributesV2)
        ensures
            *r == self.device_messages,
    {
        &self.device_messages
    }

    /// Whether `self` says of a device what `other` says, as far as version 2
    /// can say it.
    pub open spec fn downgraded_from(self, other: DeviceMessageInfoV3) -> bool {
        &&& self.device_index == other.device_index
        &&& self.device_name == other.device_name
        &&& self.device_messages.downgraded_from(other.device_messages)
    }

    /// Whether `self` says of a device what version 4 says, by way of version
    /// 3.
    pub open spec fn downgraded_from_latest(self, other: DeviceMessageInfo) -> bool {
        exists|v3: DeviceMessageInfoV3| #[trigger]
            v3.downgraded_from(other) && self.downgraded_from(v3)
    }

    /// Says of a device, in the terms of version 2, what version 3 says of it.
    pub fn from(device_message_info: DeviceMessageInfoV3) -> (r: DeviceMessageInfoV2)
        ensures
            r.downgraded_from(device_message_info),
    {
        Self::from_ref(&device_message_info)
    }

    /// Says of a device, in the terms of version 2, what version 3 says of it.
    pub fn from_ref(device_message_info: &DeviceMessageInfoV3) -> (r: DeviceMessageInfoV2)
        ensures
            r.downgraded_from(*device_message_info),
    {
        DeviceMessageInfoV2 {
            device_index: device_message_info.device_index,
            device_name: device_message_info.device_name.clone(),
            device_messages: ClientDeviceMessageAttributesV2::from_ref(
                &device_message_info.device_messages,
            ),
        }
    }

    /// What a notice of a new device says of the device, in the terms of
    /// version 2.
    pub fn from_device_added(device_added: DeviceAddedV3) -> (r: DeviceMessageInfoV2)
        ensures
            r.downgraded_from(device_added.info()),
    {
        let dmi = DeviceMessageInfoV3::from_device_added(device_added);
        DeviceMessageInfoV2::from(dmi)
    }

    /// What a notice of version 2 says of the device.
    pub fn from_device_added_v2(device_added: DeviceAddedV2) -> (r: DeviceMessageInfoV2)
        ensures
            r == device_added.info(),
    {
        DeviceMessageInfoV2 {
            device_index: device_added.device_index,
            device_name: device_added.device_name,
            device_messages: device_added.device_messages,
        }
    }
}

/// What is said of a device in version 1 of the schema.
#[derive(Debug, Clone, PartialEq, Eq)]
pub struct DeviceMessageInfoV1 {
    pub device_index: u32,
    pub device_name: String,
    pub device_messages: ClientDeviceMessageAttributesV1,
}

impl DeviceMessageInfoV1 {
    /// The index of the device.
    pub fn device_index(&self) -> (r: u32)
        ensures
            r == self.device_index,
    {
        self.device_index
    }

    /// The name of the device.
    pub fn device_name(&self) -> (r: &String)
        ensures
            *r == self.device_name,
    {
        &self.device_name
    }

    /// The commands that the device takes.
    pub fn device_messages(&self) -> (r: &ClientDeviceMessageAttributesV1)
        ensures
            *r == self.device_messages,
    {
        &self.device_messages
    }

    /// Whether `self` says of a device what `other` says, as far as version 1
    /// can say it.
    pub open spec fn downgraded_from(self, other: DeviceMessageInfoV2) -> bool {
        &&& self.device_index == other.device_index
        &&& self.device_name == other.device_name
        &&& self.device_messages == ClientDeviceMessageAttributesV1::downgraded(
            other.device_messages,
        )
    }

    /// Whether `self` says of a device what version 3 says, by way of the
    /// second.
    pub open spec fn downgraded_from_v3(self, other: DeviceMessageInfoV3) -> bool {
        exists|v2: DeviceMessageInfoV2| #[trigger]
            v2.downgraded_from(other) && self.downgraded_from(v2)
    }

    /// Whether `self` says of a device what version 4 says, by way of the
    /// versions between.
    pub open spec fn downgraded_from_latest(self, other: DeviceMessageInfo) -> bool {
        exists|v3: DeviceMessageInfoV3| #[trigger]
            v3.downgraded_from(other) && self.downgraded_from_v3(v3)
    }

    /// Says of a device, in the terms of version 1, what version 2 says of it.
    pub fn from(device_message_info: DeviceMessageInfoV2) -> (r: DeviceMessageInfoV1)
        ensures
            r.downgraded_from(device_message_info),
    {
        Self::from_ref(&device_message_info)
    }

    /// Says of a device, in the terms of version 1, what version 2 says of it.
    pub fn from_ref(device_message_info: &DeviceMessageInfoV2) -> (r: DeviceMessageInfoV1)
        ensures
            r.downgraded_from(*device_message_info),
    {
        DeviceMessageInfoV1 {
            device_index: device_message_info.device_index,
            device_name: device_message_info.device_name.clone(),
            device_messages: ClientDeviceMessageAttributesV1::from_ref(
                &device_message_info.device_messages,
            ),
        }
    }

    /// What a notice of a new device says of the device, in the terms of
    /// version 1.
    pub fn from_device_added(device_added: DeviceAddedV3) -> (r: DeviceMessageInfoV1)
        ensures
            r.downgraded_from_v3(device_added.info()),
    {
        let dmi = DeviceMessageInfoV2::from_device_added(device_added);
        let ghost v2 = dmi;
        let r = DeviceMessageInfoV1::from(dmi);
        assert(v2.downgraded_from(device_added.info()));
        r
    }
}

/// The commands that version 0 names for a device of which version 1 says
/// `attributes`, in the order of their names. Every device can be stopped.
pub open spec fn named_commands(attributes: ClientDeviceMessageAttributesV1) -> Seq<
    ButtplugDeviceMessageType,
> {
    let stroker: Seq<ButtplugDeviceMessageType> = if attributes.fleshlight_launch_fw12_cmd is Some {
        seq![ButtplugDeviceMessageType::FleshlightLaunchFW12Cmd]
    } else {
        seq![]
    };
    let vibrator: Seq<ButtplugDeviceMessageType> = if attributes.single_motor_vibrate_cmd is Some {
        seq![ButtplugDeviceMessageType::SingleMotorVibrateCmd]
    } else {
        seq![]
    };
    let rotator: Seq<ButtplugDeviceMessageType> = if attributes.vorze_a10_cyclone_cmd is Some {
        seq![ButtplugDeviceMessageType::VorzeA10CycloneCmd]
    } else {
        seq![]
    };
    stroker + vibrator + seq![ButtplugDeviceMessageType::StopDeviceCmd] + rotator
}

/// The named commands stand in the order of their names, none twice.
pub proof fn lemma_named_commands_sorted(attributes: ClientDeviceMessageAttributesV1)
    ensures
        forall|i: int, j: int|
            0 <= i < j < named_commands(attributes).len() ==> named_commands(
                attributes,
            )[i].spec_rank() < named_commands(attributes)[j].spec_rank(),
{
}

/// What is said of a device in version 0 of the schema: the names of the
/// commands that it takes.
#[derive(Debug, Clone, PartialEq, Eq)]
pub struct DeviceMessageInfoV0 {
    pub device_index: u32,
    pub device_name: String,
    pub device_messages: Vec<ButtplugDeviceMessageType>,
}

impl DeviceMessageInfoV0 {
    /// The index of the device.
    pub fn device_index(&self) -> (r: u32)
        ensures
            r == self.device_index,
    {
        self.device_index
    }

    /// The name of the device.
    pub fn device_name(&self) -> (r: &String)
        ensures
            *r == self.device_name,
    {
        &self.device_name
    }

    /// The commands that the device takes, in the order of their names.
    pub fn device_messages(&self) -> (r: &Vec<ButtplugDeviceMessageType>)
        ensures
            *r == self.device_messages,
    {
        &self.device_messages
    }

    /// Whether `self` says of a device what `other` says, as far as version 0
    /// can say it: the commands of that time that the device takes, in the
    /// order of their names.
    pub open spec fn downgraded_from(self, other: DeviceMessageInfoV1) -> bool {
        &&& self.device_index == other.device_index
        &&& self.device_name == other.device_name
        &&& self.device_messages@ == named_commands(other.device_messages)
    }

    /// Whether `self` says of a device what version 3 says, by way of the
    /// versions between.
    pub open spec fn downgraded_from_v3(self, other: DeviceMessageInfoV3) -> bool {
        exists|v1: DeviceMessageInfoV1| #[trigger]
            v1.downgraded_from_v3(other) && self.downgraded_from(v1)
    }

    /// Whether `self` says of a device what version 4 says, by way of the
    /// versions between.
    pub open spec fn downgraded_from_latest(self, other: DeviceMessageInfo) -> bool {
        exists|v3: DeviceMessageInfoV3| #[trigger]
            v3.downgraded_from(other) && self.downgraded_from_v3(v3)
    }

    /// Says of a device, in the terms of version 0, what version 1 says of it.
    pub fn from(device_message_info: DeviceMessageInfoV1) -> (r: DeviceMessageInfoV0)
        ensures
            r.downgraded_from(device_message_info),
    {
        Self::from_ref(&device_message_info)
    }

    /// Says of a device, in the terms of version 0, what version 1 says of it.
    pub fn from_ref(device_message_info: &DeviceMessageInfoV1) -> (r: DeviceMessageInfoV0)
        ensures
            r.downgraded_from(*device_message_info),
    {
        let mut device_messages: Vec<ButtplugDeviceMessageType> = Vec::new();
        if device_message_info.device_messages.fleshlight_launch_fw12_cmd.is_some() {
            device_messages.push(ButtplugDeviceMessageType::FleshlightLaunchFW12Cmd);
        }
        if device_message_info.device_messages.single_motor_vibrate_cmd.is_some() {
            device_messages.push(ButtplugDeviceMessageType::SingleMotorVibrateCmd);
        }
        device_messages.push(ButtplugDeviceMessageType::StopDeviceCmd);
        if device_message_info.device_messages.vorze_a10_cyclone_cmd.is_some() {
            device_messages.push(ButtplugDeviceMessageType::VorzeA10CycloneCmd);
        }
        assert(device_messages@ =~= named_commands(device_message_info.device_messages));
        DeviceMessageInfoV0 {
            device_name: device_message_info.device_name.clone(),
            device_index: device_message_info.device_index,
            device_messages,
        }
    }

    /// What a notice of a new device says of the device, in the terms of
    /// version 0.
    pub fn from_device_added(device_added: DeviceAddedV3) -> (r: DeviceMessageInfoV0)
        ensures
            r.downgraded_from_v3(device_added.info()),
    {
        let dmi_v1 = DeviceMessageInfoV1::from_device_added(device_added);
        let ghost v1 = dmi_v1;
        let r = DeviceMessageInfoV0::from(dmi_v1);
        assert(v1.downgraded_from_v3(device_added.info()));
        r
    }
}

} // verus!
