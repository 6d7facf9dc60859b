//! What a client is told of the capabilities of a device, in the terms of each
//! version of the schema.

use vstd::prelude::*;
use crate::message::{ActuatorType, SensorType, SensorRange, Endpoint};

verus! {

/// The low 32 bits of a position in a list: the index that a list entry gets.
pub open spec fn index_of(position: int) -> u32 {
    (position % 0x1_0000_0000) as u32
}

/// Computes `index_of`.
pub fn index_at(position: usize) -> (r: u32)
    ensures
        r == index_of(position as int),
{
    ((position as u64) % 0x1_0000_0000) as u32
}

/// What a client is told of one actuator: its label, what it does, and how many
/// steps it has. The index is the place of the actuator in its list; it is not
/// sent, but derived when the message is finalized.
#[derive(Debug, Clone, PartialEq, Eq)]
pub struct ClientGenericDeviceMessageAttributes {
    pub feature_descriptor: String,
    pub actuator_type: ActuatorType,
    pub step_count: u32,
    pub index: u32,
}

impl ClientGenericDeviceMessageAttributes {
    /// The label of the actuator.
    pub fn feature_descriptor(&self) -> (r: &String)
        ensures
            *r == self.feature_descriptor,
    {
        &self.feature_descriptor
    }

    /// What the actuator does.
    pub fn actuator_type(&self) -> (r: ActuatorType)
        ensures
            r == self.actuator_type,
    {
        self.actuator_type
    }

    /// How many steps the actuator has.
    pub fn step_count(&self) -> (r: u32)
        ensures
            r == self.step_count,
    {
        self.step_count
    }

    /// The place of the actuator in its list, once the message is finalized.
    pub fn index(&self) -> (r: u32)
        ensures
            r == self.index,
    {
        self.index
    }

    /// Describes an actuator. The index is zero until the message that holds
    /// the description is finalized.
    pub fn new(feature_descriptor: &str, step_count: u32, actuator_type: ActuatorType) -> (r:
        ClientGenericDeviceMessageAttributes)
        ensures
            r.feature_descriptor@ == feature_descriptor@,
            r.actuator_type == actuator_type,
            r.step_count == step_count,
            r.index == 0,
    {
        ClientGenericDeviceMessageAttributes {
            feature_descriptor: feature_descriptor.to_owned(),
            actuator_type,
            step_count,
            index: 0,
        }
    }
}

/// What a client is told of one sensor: its label, what it measures, and the
/// ranges of its values. The index is the place of the sensor in its list; it
/// is not sent, but derived when the message is finalized.
#[derive(Debug, Clone, PartialEq, Eq)]
pub struct SensorDeviceMessageAttributes {
    pub feature_descriptor: String,
    pub sensor_type: SensorType,
    pub sensor_range: Vec<SensorRange>,
    pub index: u32,
}

impl SensorDeviceMessageAttributes {
    /// The label of the sensor.
    pub fn feature_descriptor(&self) -> (r: &String)
        ensures
            *r == self.feature_descriptor,
    {
        &self.feature_descriptor
    }

    /// What the sensor measures.
    pub fn sensor_type(&self) -> (r: SensorType)
        ensures
            r == self.sensor_type,
    {
        self.sensor_type
    }

    /// The ranges of the values that the sensor reports.
    pub fn sensor_range(&self) -> (r: &Vec<SensorRange>)
        ensures
            *r == self.sensor_range,
    {
        &self.sensor_range
    }

    /// The place of the sensor in its list, once the message is finalized.
    pub fn index(&self) -> (r: u32)
        ensures
            r == self.index,
    {
        self.index
    }

    /// Describes a sensor. The index is zero until the message that holds the
    /// description is finalized.
    pub fn new(
        feature_descriptor: &str,
        sensor_type: SensorType,
        sensor_range: Vec<SensorRange>,
    ) -> (r:
        SensorDeviceMessageAttributes)
        ensures
            r.feature_descriptor@ == feature_descriptor@,
            r.sensor_type == sensor_type,
            r.sensor_range == sensor_range,
            r.index == 0,
    {
        SensorDeviceMessageAttributes {
            feature_descriptor: feature_descriptor.to_owned(),
            sensor_type,
            sensor_range,
            index: 0,
        }
    }
}

/// The channels of a device that a raw command can name.
#[derive(Debug, Clone, PartialEq, Eq)]
pub struct RawDeviceMessageAttributes {
    pub endpoints: Vec<Endpoint>,
}

impl RawDeviceMessageAttributes {
    /// Builds the value from its parts.
    pub fn new(endpoints: Vec<Endpoint>) -> (r: RawDeviceMessageAttributes)
        ensures
            r.endpoints == endpoints,
    {
        RawDeviceMessageAttributes { endpoints }
    }

    /// The channels.
    pub fn endpoints(&self) -> (r: &Vec<Endpoint>)
        ensures
            *r == self.endpoints,
    {
        &self.endpoints
    }
}

/// Marks a command that a device takes and that needs no description.
#[derive(Debug, Clone, Copy, PartialEq, Eq, Structural)]
pub struct NullDeviceMessageAttributes {

}

/// Gives every actuator of a list its place in the list as its index.
pub fn finalize_actuators(list: &mut Vec<ClientGenericDeviceMessageAttributes>)
    ensures
        final(list)@.len() == old(list)@.len(),
        forall|i: int|
            0 <= i < old(list)@.len() ==> (#[trigger] final(list)@[i]) == (
            ClientGenericDeviceMessageAttributes { index: index_of(i), ..old(list)@[i] }),
{
    let mut i: usize = 0;
    while i < list.len()
        invariant
            i <= list.len(),
            list@.len() == old(list)@.len(),
            forall|j: int|
                0 <= j < i ==> (#[trigger] list@[j]) == (ClientGenericDeviceMessageAttributes {
                    index: index_of(j),
                    ..old(list)@[j]
                }),
            forall|j: int| i <= j < list@.len() ==> (#[trigger] list@[j]) == old(list)@[j],
        decreases list.len() - i,
    {
        list[i].index = index_at(i);
        i = i + 1;
    }
}

/// Gives every sensor of a list its place in the list as its index.
pub fn finalize_sensors(list: &mut Vec<SensorDeviceMessageAttributes>)
    ensures
        final(list)@.len() == old(list)@.len(),
        forall|i: int|
            0 <= i < old(list)@.len() ==> (#[trigger] final(list)@[i]) == (
            SensorDeviceMessageAttributes { index: index_of(i), ..old(list)@[i] }),
{
    let mut i: usize = 0;
    while i < list.len()
        invariant
            i <= list.len(),
            list@.len() == old(list)@.len(),
            forall|j: int|
                0 <= j < i ==> (#[trigger] list@[j]) == (SensorDeviceMessageAttributes {
                    index: index_of(j),
                    ..old(list)@[j]
                }),
            forall|j: int| i <= j < list@.len() ==> (#[trigger] list@[j]) == old(list)@[j],
        decreases list.len() - i,
    {
        list[i].index = index_at(i);
        i = i + 1;
    }
}

/// Whether `after` is `before` with every entry's index set to its place.
pub open spec fn actuators_indexed(
    before: Option<Vec<ClientGenericDeviceMessageAttributes>>,
    after: Option<Vec<ClientGenericDeviceMessageAttributes>>,
) -> bool {
    match before {
        None => after is None,
        Some(list) => after matches Some(numbered) && numbered@.len() == list@.len() && forall|
            i: int,
        |
            0 <= i < list@.len() ==> (#[trigger] numbered@[i]) == (
            ClientGenericDeviceMessageAttributes { index: index_of(i), ..list@[i] }),
    }
}

/// Whether `after` is `before` with every entry's index set to its place.
pub open spec fn sensors_indexed(
    before: Option<Vec<SensorDeviceMessageAttributes>>,
    after: Option<Vec<SensorDeviceMessageAttributes>>,
) -> bool {
    match before {
        None => after is None,
        Some(list) => after matches Some(numbered) && numbered@.len() == list@.len() && forall|
            i: int,
        |
            0 <= i < list@.len() ==> (#[trigger] numbered@[i]) == (SensorDeviceMessageAttributes {
                index: index_of(i),
                ..list@[i]
            }),
    }
}

/// What a client of version 3 is told of a device: for each command that the
/// device takes, what the command can address.
#[derive(Debug, Clone, PartialEq, Eq)]
pub struct ClientDeviceMessageAttributes {
    pub scalar_cmd: Option<Vec<ClientGenericDeviceMessageAttributes>>,
    pub rotate_cmd: Option<Vec<ClientGenericDeviceMessageAttributes>>,
    pub linear_cmd: Option<Vec<ClientGenericDeviceMessageAttributes>>,
    pub sensor_read_cmd: Option<Vec<SensorDeviceMessageAttributes>>,
    pub sensor_subscribe_cmd: Option<Vec<SensorDeviceMessageAttributes>>,
    pub stop_device_cmd: NullDeviceMessageAttributes,
    pub raw_read_cmd: Option<RawDeviceMessageAttributes>,
    pub raw_write_cmd: Option<RawDeviceMessageAttributes>,
    pub raw_subscribe_cmd: Option<RawDeviceMessageAttributes>,
    pub fleshlight_launch_fw12_cmd: Option<NullDeviceMessageAttributes>,
    pub vorze_a10_cyclone_cmd: Option<NullDeviceMessageAttributes>,
}

impl ClientDeviceMessageAttributes {
    /// The actuators that take scalar commands.
    pub fn scalar_cmd(&self) -> (r: &Option<Vec<ClientGenericDeviceMessageAttributes>>)
        ensures
            *r == self.scalar_cmd,
    {
        &self.scalar_cmd
    }

    /// The rotators that take a speed and a direction.
    pub fn rotate_cmd(&self) -> (r: &Option<Vec<ClientGenericDeviceMessageAttributes>>)
        ensures
            *r == self.rotate_cmd,
    {
        &self.rotate_cmd
    }

    /// The actuators that take a position and a time.
    pub fn linear_cmd(&self) -> (r: &Option<Vec<ClientGenericDeviceMessageAttributes>>)
        ensures
            *r == self.linear_cmd,
    {
        &self.linear_cmd
    }

    /// The sensors that can be read.
    pub fn sensor_read_cmd(&self) -> (r: &Option<Vec<SensorDeviceMessageAttributes>>)
        ensures
            *r == self.sensor_read_cmd,
    {
        &self.sensor_read_cmd
    }

    /// The sensors that can be subscribed to.
    pub fn sensor_subscribe_cmd(&self) -> (r: &Option<Vec<SensorDeviceMessageAttributes>>)
        ensures
            *r == self.sensor_subscribe_cmd,
    {
        &self.sensor_subscribe_cmd
    }

    /// Every device can be stopped.
    pub fn stop_device_cmd(&self) -> (r: NullDeviceMessageAttributes)
        ensures
            r == self.stop_device_cmd,
    {
        self.stop_device_cmd
    }

    /// The channels that can be read.
    pub fn raw_read_cmd(&self) -> (r: &Option<RawDeviceMessageAttributes>)
        ensures
            *r == self.raw_read_cmd,
    {
        &self.raw_read_cmd
    }

    /// The channels that can be written to.
    pub fn raw_write_cmd(&self) -> (r: &Option<RawDeviceMessageAttributes>)
        ensures
            *r == self.raw_write_cmd,
    {
        &self.raw_write_cmd
    }

    /// The channels that can be subscribed to.
    pub fn raw_subscribe_cmd(&self) -> (r: &Option<RawDeviceMessageAttributes>)
        ensures
            *r == self.raw_subscribe_cmd,
    {
        &self.raw_subscribe_cmd
    }

    /// Whether the device takes the stroker command of versions 0 and 1.
    pub fn fleshlight_launch_fw12_cmd(&self) -> (r: &Option<NullDeviceMessageAttributes>)
        ensures
            *r == self.fleshlight_launch_fw12_cmd,
    {
        &self.fleshlight_launch_fw12_cmd
    }

    /// Whether the device takes the rotator command of versions 0 and 1.
    pub fn vorze_a10_cyclone_cmd(&self) -> (r: &Option<NullDeviceMessageAttributes>)
        ensures
            *r == self.vorze_a10_cyclone_cmd,
    {
        &self.vorze_a10_cyclone_cmd
    }

    /// The attributes of a device that takes no command but the one to stop.
    pub fn empty() -> (r: ClientDeviceMessageAttributes)
        ensures
            r.scalar_cmd is None,
            r.rotate_cmd is None,
            r.linear_cmd is None,
            r.sensor_read_cmd is None,
            r.sensor_subscribe_cmd is None,
            r.raw_read_cmd is None,
            r.raw_write_cmd is None,
            r.raw_subscribe_cmd is None,
            r.fleshlight_launch_fw12_cmd is None,
            r.vorze_a10_cyclone_cmd is None,
    {
        ClientDeviceMessageAttributes {
            scalar_cmd: None,
            rotate_cmd: None,
            linear_cmd: None,
            sensor_read_cmd: None,
            sensor_subscribe_cmd: None,
            stop_device_cmd: NullDeviceMessageAttributes {  },
            raw_read_cmd: None,
            raw_write_cmd: None,
            raw_subscribe_cmd: None,
            fleshlight_launch_fw12_cmd: None,
            vorze_a10_cyclone_cmd: None,
        }
    }

    /// Whether `self` is `before` after it has been finalized: every entry
    /// of every list carries its place in the list as its index, and nothing
    /// else has changed.
    pub open spec fn finalized_from(self, before: ClientDeviceMessageAttributes) -> bool {
        &&& actuators_indexed(before.scalar_cmd, self.scalar_cmd)
        &&& actuators_indexed(before.rotate_cmd, self.rotate_cmd)
        &&& actuators_indexed(before.linear_cmd, self.linear_cmd)
        &&& sensors_indexed(before.sensor_read_cmd, self.sensor_read_cmd)
        &&& sensors_indexed(before.sensor_subscribe_cmd, self.sensor_subscribe_cmd)
        &&& self.stop_device_cmd == before.stop_device_cmd
        &&& self.raw_read_cmd == before.raw_read_cmd
        &&& self.raw_write_cmd == before.raw_write_cmd
        &&& self.raw_subscribe_cmd == before.raw_subscribe_cmd
        &&& self.fleshlight_launch_fw12_cmd == before.fleshlight_launch_fw12_cmd
        &&& self.vorze_a10_cyclone_cmd == before.vorze_a10_cyclone_cmd
    }

    /// Derives the indices: every entry of every list gets its place in the
    /// list as its index.
    pub fn finalize(&mut self)
        ensures
            final(self).finalized_from(*old(self)),
    {
        match &mut self.scalar_cmd {
            Some(list) => finalize_actuators(list),
            None => {},
        }
        match &mut self.rotate_cmd {
            Some(list) => finalize_actuators(list),
            None => {},
        }
        match &mut self.linear_cmd {
            Some(list) => finalize_actuators(list),
            None => {},
        }
        match &mut self.sensor_read_cmd {
            Some(list) => finalize_sensors(list),
            None => {},
        }
        match &mut self.sensor_subscribe_cmd {
            Some(list) => finalize_sensors(list),
            None => {},
        }
    }
}

/// What a client of version 2 is told of the actuators that take one command:
/// how many there are, and how many steps each has.
#[derive(Debug, Clone, PartialEq, Eq)]
pub struct GenericDeviceMessageAttributesV2 {
    pub feature_count: u32,
    pub step_count: Vec<u32>,
}

impl GenericDeviceMessageAttributesV2 {
    /// Builds the value from its parts.
    pub fn new(feature_count: u32, step_count: Vec<u32>) -> (r: GenericDeviceMessageAttributesV2)
        ensures
            r.feature_count == feature_count,
            r.step_count == step_count,
    {
        GenericDeviceMessageAttributesV2 { feature_count, step_count }
    }

    /// How many actuators take the command.
    pub fn feature_count(&self) -> (r: u32)
        ensures
            r == self.feature_count,
    {
        self.feature_count
    }

    /// The number of steps of each of them.
    pub fn step_count(&self) -> (r: &Vec<u32>)
        ensures
            *r == self.step_count,
    {
        &self.step_count
    }
}

/// The step counts of the actuators of a list, in their order; with
/// `only_vibrators`, of those among them that vibrate.
pub open spec fn step_counts(
    list: Seq<ClientGenericDeviceMessageAttributes>,
    only_vibrators: bool,
) -> Seq<u32>
    decreases list.len(),
{
    if list.len() == 0 {
        Seq::empty()
    } else {
        let rest = step_counts(list.drop_last(), only_vibrators);
        if !only_vibrators || list.last().actuator_type == ActuatorType::Vibrate {
            rest.push(list.last().step_count)
        } else {
            rest
        }
    }
}

/// What version 2 says of the actuators of a list. A list that is missing says
/// nothing, and so does a list without a vibrator where only vibrators count.
pub open spec fn summarized(
    list: Option<Vec<ClientGenericDeviceMessageAttributes>>,
    only_vibrators: bool,
    summary: Option<GenericDeviceMessageAttributesV2>,
) -> bool {
    match list {
        None => summary is None,
        Some(list) => {
            let steps = step_counts(list@, only_vibrators);
            if only_vibrators && steps.len() == 0 {
                summary is None
            } else {
                summary matches Some(s) && s.step_count@ == steps && s.feature_count == index_of(
                    steps.len() as int,
                )
            }
        },
    }
}

/// Summarizes the actuators of a list for version 2.
pub fn summarize(
    list: &Option<Vec<ClientGenericDeviceMessageAttributes>>,
    only_vibrators: bool,
) -> (r:
    Option<GenericDeviceMessageAttributesV2>)
    ensures
        summarized(*list, only_vibrators, r),
{
    match list {
        None => None,
        Some(list) => {
            let mut steps: Vec<u32> = Vec::new();
            let mut i: usize = 0;
            while i < list.len()
                invariant
                    i <= list.len(),
                    steps@ == step_counts(list@.take(i as int), only_vibrators),
                decreases list.len() - i,
            {
                proof {
                    assert(list@.take(i + 1).drop_last() =~= list@.take(i as int));
                    assert(list@.take(i + 1).last() == list@[i as int]);
                }
                if !only_vibrators || list[i].actuator_type == ActuatorType::Vibrate {
                    steps.push(list[i].step_count);
                }
                i = i + 1;
            }
            proof {
                assert(list@.take(list@.len() as int) =~= list@);
            }
            if only_vibrators && steps.len() == 0 {
                None
            } else {
                Some(GenericDeviceMessageAttributesV2 { feature_count: index_at(steps.len()), step_count: steps })
            }
        },
    }
}

/// Whether two descriptions name the same channels, or both name none.
pub open spec fn same_channels(
    a: Option<RawDeviceMessageAttributes>,
    b: Option<RawDeviceMessageAttributes>,
) -> bool {
    match b {
        None => a is None,
        Some(raw) => a matches Some(copy) && copy.endpoints@ == raw.endpoints@,
    }
}

/// Copies a description of channels.
pub fn copy_channels(
    raw: &Option<RawDeviceMessageAttributes>,
) -> (r: Option<RawDeviceMessageAttributes>)
    ensures
        same_channels(r, *raw),
{
    match raw {
        None => None,
        Some(raw) => {
            let endpoints = raw.endpoints.clone();
            assert(endpoints@ =~= raw.endpoints@);
            Some(RawDeviceMessageAttributes { endpoints })
        },
    }
}

/// Whether a list of sensors holds one of the given type.
pub open spec fn has_sensor(
    list: Option<Vec<SensorDeviceMessageAttributes>>,
    sensor_type: SensorType,
) -> bool {
    list matches Some(sensors) && exists|i: int|
        0 <= i < sensors@.len() && (#[trigger] sensors@[i]).sensor_type == sensor_type
}

/// Looks for a sensor of the given type.
#[verifier::loop_isolation(false)]
pub fn find_sensor(
    list: &Option<Vec<SensorDeviceMessageAttributes>>,
    sensor_type: SensorType,
) -> (r: bool)
    ensures
        r == has_sensor(*list, sensor_type),
{
    match list {
        None => false,
        Some(sensors) => {
            let mut i: usize = 0;
            while i < sensors.len()
                invariant
                    i <= sensors.len(),
                    forall|j: int| 0 <= j < i
                        ==> (#[trigger] sensors@[j]).sensor_type != sensor_type,
                decreases sensors.len() - i,
            {
                if sensors[i].sensor_type == sensor_type {
                    assert(sensors@[i as int].sensor_type == sensor_type);
                    return true;
                }
                i = i + 1;
            }
            false
        },
    }
}

/// What a client of version 2 is told of a device.
#[derive(Debug, Clone, PartialEq, Eq)]
pub struct ClientDeviceMessageAttributesV2 {
    pub vibrate_cmd: Option<GenericDeviceMessageAttributesV2>,
    pub rotate_cmd: Option<GenericDeviceMessageAttributesV2>,
    pub linear_cmd: Option<GenericDeviceMessageAttributesV2>,
    pub battery_level_cmd: Option<NullDeviceMessageAttributes>,
    pub rssi_level_cmd: Option<NullDeviceMessageAttributes>,
    pub stop_device_cmd: NullDeviceMessageAttributes,
    pub raw_read_cmd: Option<RawDeviceMessageAttributes>,
    pub raw_write_cmd: Option<RawDeviceMessageAttributes>,
    pub raw_subscribe_cmd: Option<RawDeviceMessageAttributes>,
    pub raw_unsubscribe_cmd: Option<RawDeviceMessageAttributes>,
    pub fleshlight_launch_fw12_cmd: Option<NullDeviceMessageAttributes>,
    pub vorze_a10_cyclone_cmd: Option<NullDeviceMessageAttributes>,
}

impl ClientDeviceMessageAttributesV2 {
    /// The vibrators.
    pub fn vibrate_cmd(&self) -> (r: &Option<GenericDeviceMessageAttributesV2>)
        ensures
            *r == self.vibrate_cmd,
    {
        &self.vibrate_cmd
    }

    /// The rotators.
    pub fn rotate_cmd(&self) -> (r: &Option<GenericDeviceMessageAttributesV2>)
        ensures
            *r == self.rotate_cmd,
    {
        &self.rotate_cmd
    }

    /// The actuators that take a position and a time.
    pub fn linear_cmd(&self) -> (r: &Option<GenericDeviceMessageAttributesV2>)
        ensures
            *r == self.linear_cmd,
    {
        &self.linear_cmd
    }

    /// Whether the charge of the battery can be read.
    pub fn battery_level_cmd(&self) -> (r: &Option<NullDeviceMessageAttributes>)
        ensures
            *r == self.battery_level_cmd,
    {
        &self.battery_level_cmd
    }

    /// Whether the strength of the radio signal can be read.
    pub fn rssi_level_cmd(&self) -> (r: &Option<NullDeviceMessageAttributes>)
        ensures
            *r == self.rssi_level_cmd,
    {
        &self.rssi_level_cmd
    }

    /// Every device can be stopped.
    pub fn stop_device_cmd(&self) -> (r: NullDeviceMessageAttributes)
        ensures
            r == self.stop_device_cmd,
    {
        self.stop_device_cmd
    }

    /// The channels that can be read.
    pub fn raw_read_cmd(&self) -> (r: &Option<RawDeviceMessageAttributes>)
        ensures
            *r == self.raw_read_cmd,
    {
        &self.raw_read_cmd
    }

    /// The channels that can be written to.
    pub fn raw_write_cmd(&self) -> (r: &Option<RawDeviceMessageAttributes>)
        ensures
            *r == self.raw_write_cmd,
    {
        &self.raw_write_cmd
    }

    /// The channels that can be subscribed to.
    pub fn raw_subscribe_cmd(&self) -> (r: &Option<RawDeviceMessageAttributes>)
        ensures
            *r == self.raw_subscribe_cmd,
    {
        &self.raw_subscribe_cmd
    }

    /// The channels whose subscription can be ended: those that can be
    /// subscribed to.
    pub fn raw_unsubscribe_cmd(&self) -> (r: &Option<RawDeviceMessageAttributes>)
        ensures
            *r == self.raw_unsubscribe_cmd,
    {
        &self.raw_unsubscribe_cmd
    }

    /// Whether the device takes the stroker command of versions 0 and 1.
    pub fn fleshlight_launch_fw12_cmd(&self) -> (r: &Option<NullDeviceMessageAttributes>)
        ensures
            *r == self.fleshlight_launch_fw12_cmd,
    {
        &self.fleshlight_launch_fw12_cmd
    }

    /// Whether the device takes the rotator command of versions 0 and 1.
    pub fn vorze_a10_cyclone_cmd(&self) -> (r: &Option<NullDeviceMessageAttributes>)
        ensures
            *r == self.vorze_a10_cyclone_cmd,
    {
        &self.vorze_a10_cyclone_cmd
    }

    /// Whether `self` says of a device what `other` says, as far as version 2
    /// can say it. The vibrators are the scalar actuators that vibrate. The
    /// battery and the radio signal can be read if a sensor of that type can
    /// be. A subscription can be ended on the channels that it can be made on.
    pub open spec fn downgraded_from(self, other: ClientDeviceMessageAttributes) -> bool {
        &&& summarized(other.scalar_cmd, true, self.vibrate_cmd)
        &&& summarized(other.rotate_cmd, false, self.rotate_cmd)
        &&& summarized(other.linear_cmd, false, self.linear_cmd)
        &&& self.battery_level_cmd is Some <==> has_sensor(other.sensor_read_cmd, SensorType::Battery)
        &&& self.rssi_level_cmd is Some <==> has_sensor(other.sensor_read_cmd, SensorType::RSSI)
        &&& self.stop_device_cmd == other.stop_device_cmd
        &&& same_channels(self.raw_read_cmd, other.raw_read_cmd)
        &&& same_channels(self.raw_write_cmd, other.raw_write_cmd)
        &&& same_channels(self.raw_subscribe_cmd, other.raw_subscribe_cmd)
        &&& same_channels(self.raw_unsubscribe_cmd, other.raw_subscribe_cmd)
        &&& self.fleshlight_launch_fw12_cmd == other.fleshlight_launch_fw12_cmd
        &&& self.vorze_a10_cyclone_cmd == other.vorze_a10_cyclone_cmd
    }

    /// Says of a device, in the terms of version 2, what the attributes of
    /// version 3 say.
    pub fn from_ref(other: &ClientDeviceMessageAttributes) -> (r: ClientDeviceMessageAttributesV2)
        ensures
            r.downgraded_from(*other),
    {
        ClientDeviceMessageAttributesV2 {
            vibrate_cmd: summarize(&other.scalar_cmd, true),
            rotate_cmd: summarize(&other.rotate_cmd, false),
            linear_cmd: summarize(&other.linear_cmd, false),
            battery_level_cmd: if find_sensor(&other.sensor_read_cmd, SensorType::Battery) {
                Some(NullDeviceMessageAttributes {  })
            } else {
                None
            },
            rssi_level_cmd: if find_sensor(&other.sensor_read_cmd, SensorType::RSSI) {
                Some(NullDeviceMessageAttributes {  })
            } else {
                None
            },
            stop_device_cmd: other.stop_device_cmd,
            raw_read_cmd: copy_channels(&other.raw_read_cmd),
            raw_write_cmd: copy_channels(&other.raw_write_cmd),
            raw_subscribe_cmd: copy_channels(&other.raw_subscribe_cmd),
            raw_unsubscribe_cmd: copy_channels(&other.raw_subscribe_cmd),
            fleshlight_launch_fw12_cmd: other.fleshlight_launch_fw12_cmd,
            vorze_a10_cyclone_cmd: other.vorze_a10_cyclone_cmd,
        }
    }

    /// Says of a device, in the terms of version 2, what the attributes of
    /// version 3 say.
    pub fn from(other: ClientDeviceMessageAttributes) -> (r: ClientDeviceMessageAttributesV2)
        ensures
            r.downgraded_from(other),
    {
        Self::from_ref(&other)
    }
}

/// What a client of version 1 is told of the actuators that take one command:
/// how many there are.
#[derive(Debug, Clone, Copy, PartialEq, Eq, Structural)]
pub struct GenericDeviceMessageAttributesV1 {
    pub feature_count: u32,
}

impl GenericDeviceMessageAttributesV1 {
    /// Builds the value from its parts.
    pub fn new(feature_count: u32) -> (r: GenericDeviceMessageAttributesV1)
        ensures
            r.feature_count == feature_count,
    {
        GenericDeviceMessageAttributesV1 { feature_count }
    }

    /// How many actuators take the command.
    pub fn feature_count(&self) -> (r: u32)
        ensures
            r == self.feature_count,
    {
        self.feature_count
    }
}

/// What version 1 keeps of a summary of the second: the count.
pub open spec fn counted(summary: Option<GenericDeviceMessageAttributesV2>) -> Option<
    GenericDeviceMessageAttributesV1,
> {
    match summary {
        None => None,
        Some(s) => Some(GenericDeviceMessageAttributesV1 { feature_count: s.feature_count }),
    }
}

/// Computes `counted`.
pub fn count(summary: &Option<GenericDeviceMessageAttributesV2>) -> (r: Option<
    GenericDeviceMessageAttributesV1,
>)
    ensures
        r == counted(*summary),
{
    match summary {
        None => None,
        Some(s) => Some(GenericDeviceMessageAttributesV1 { feature_count: s.feature_count }),
    }
}

/// What a client of version 1 is told of a device.
#[derive(Debug, Clone, Copy, PartialEq, Eq, Structural)]
pub struct ClientDeviceMessageAttributesV1 {
    pub vibrate_cmd: Option<GenericDeviceMessageAttributesV1>,
    pub linear_cmd: Option<GenericDeviceMessageAttributesV1>,
    pub rotate_cmd: Option<GenericDeviceMessageAttributesV1>,
    pub stop_device_cmd: NullDeviceMessageAttributes,
    pub single_motor_vibrate_cmd: Option<NullDeviceMessageAttributes>,
    pub fleshlight_launch_fw12_cmd: Option<NullDeviceMessageAttributes>,
    pub vorze_a10_cyclone_cmd: Option<NullDeviceMessageAttributes>,
}

impl ClientDeviceMessageAttributesV1 {
    /// The vibrators.
    pub fn vibrate_cmd(&self) -> (r: &Option<GenericDeviceMessageAttributesV1>)
        ensures
            *r == self.vibrate_cmd,
    {
        &self.vibrate_cmd
    }

    /// The actuators that take a position and a time.
    pub fn linear_cmd(&self) -> (r: &Option<GenericDeviceMessageAttributesV1>)
        ensures
            *r == self.linear_cmd,
    {
        &self.linear_cmd
    }

    /// The rotators.
    pub fn rotate_cmd(&self) -> (r: &Option<GenericDeviceMessageAttributesV1>)
        ensures
            *r == self.rotate_cmd,
    {
        &self.rotate_cmd
    }

    /// Every device can be stopped.
    pub fn stop_device_cmd(&self) -> (r: NullDeviceMessageAttributes)
        ensures
            r == self.stop_device_cmd,
    {
        self.stop_device_cmd
    }

    /// Whether all vibrators can be set to one speed by the command of versions
    /// 0 and 1.
    pub fn single_motor_vibrate_cmd(&self) -> (r: &Option<NullDeviceMessageAttributes>)
        ensures
            *r == self.single_motor_vibrate_cmd,
    {
        &self.single_motor_vibrate_cmd
    }

    /// Whether the device takes the stroker command of versions 0 and 1.
    pub fn fleshlight_launch_fw12_cmd(&self) -> (r: &Option<NullDeviceMessageAttributes>)
        ensures
            *r == self.fleshlight_launch_fw12_cmd,
    {
        &self.fleshlight_launch_fw12_cmd
    }

    /// Whether the device takes the rotator command of versions 0 and 1.
    pub fn vorze_a10_cyclone_cmd(&self) -> (r: &Option<NullDeviceMessageAttributes>)
        ensures
            *r == self.vorze_a10_cyclone_cmd,
    {
        &self.vorze_a10_cyclone_cmd
    }

    /// What version 1 says of a device of which the second says `other`. A
    /// device with vibrators takes the command that sets them all to one speed.
    pub open spec fn downgraded(
        other: ClientDeviceMessageAttributesV2,
    ) -> ClientDeviceMessageAttributesV1 {
        ClientDeviceMessageAttributesV1 {
            vibrate_cmd: counted(other.vibrate_cmd),
            linear_cmd: counted(other.linear_cmd),
            rotate_cmd: counted(other.rotate_cmd),
            stop_device_cmd: other.stop_device_cmd,
            single_motor_vibrate_cmd: if other.vibrate_cmd is Some {
                Some(NullDeviceMessageAttributes {  })
            } else {
                None
            },
            fleshlight_launch_fw12_cmd: other.fleshlight_launch_fw12_cmd,
            vorze_a10_cyclone_cmd: other.vorze_a10_cyclone_cmd,
        }
    }

    /// Says of a device, in the terms of version 1, what the attributes of
    /// version 2 say.
    pub fn from(other: ClientDeviceMessageAttributesV2) -> (r: ClientDeviceMessageAttributesV1)
        ensures
            r == Self::downgraded(other),
    {
        Self::from_ref(&other)
    }

    /// Says of a device, in the terms of version 1, what the attributes of
    /// version 2 say.
    pub fn from_ref(other: &ClientDeviceMessageAttributesV2) -> (r: ClientDeviceMessageAttributesV1)
        ensures
            r == Self::downgraded(*other),
    {
        ClientDeviceMessageAttributesV1 {
            vibrate_cmd: count(&other.vibrate_cmd),
            linear_cmd: count(&other.linear_cmd),
            rotate_cmd: count(&other.rotate_cmd),
            stop_device_cmd: other.stop_device_cmd,
            single_motor_vibrate_cmd: if other.vibrate_cmd.is_some() {
                Some(NullDeviceMessageAttributes {  })
            } else {
                None
            },
            fleshlight_launch_fw12_cmd: other.fleshlight_launch_fw12_cmd,
            vorze_a10_cyclone_cmd: other.vorze_a10_cyclone_cmd,
        }
    }
}

} // verus!
