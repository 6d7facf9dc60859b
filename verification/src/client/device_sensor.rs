//! Handles for the sensors of a device.

use vstd::prelude::*;
use vstd::string::StringExecFns;
use crate::double::Double;
use crate::division::{hundredths, is_hundredths};
use crate::errors::{ButtplugError, ButtplugMessageError};
use crate::message::{
    ButtplugCurrentSpecClientMessage, ButtplugCurrentSpecServerMessage,
    ButtplugSpecV3ClientMessage, ButtplugSpecV3ServerMessage, ClientDeviceMessageAttributes,
    SensorDeviceMessageAttributes, SensorRange, SensorReadCmd, SensorReading, SensorSubscribeCmd,
    SensorType, SensorUnsubscribeCmd,
};

verus! {

/// Whether two descriptions say the same of a sensor.
pub open spec fn same_sensor(
    a: SensorDeviceMessageAttributes,
    b: SensorDeviceMessageAttributes,
) -> bool {
    &&& a.feature_descriptor == b.feature_descriptor
    &&& a.sensor_type == b.sensor_type
    &&& a.sensor_range@ == b.sensor_range@
    &&& a.index == b.index
}

/// A copy of the description of a sensor.
pub fn copy_attributes(
    attributes: &SensorDeviceMessageAttributes,
) -> (r: SensorDeviceMessageAttributes)
    ensures
        same_sensor(r, *attributes),
{
    let sensor_range = attributes.sensor_range.clone();
    assert(sensor_range@ =~= attributes.sensor_range@);
    SensorDeviceMessageAttributes {
        feature_descriptor: attributes.feature_descriptor.clone(),
        sensor_type: attributes.sensor_type,
        sensor_range,
        index: attributes.index,
    }
}

/// Text of the error for a reply to a read that is no reading.
pub open spec fn no_reading_text() -> Seq<char> {
    "SensorReading"@
}

/// Reads the reply to a request for the value of a sensor: the values of a
/// reading, and a failure for any other message.
pub fn read_reply(reply: ButtplugCurrentSpecServerMessage) -> (r: Result<Vec<i32>, ButtplugError>)
    ensures
        match reply {
            ButtplugSpecV3ServerMessage::SensorReading(reading) => r == Ok::<
                Vec<i32>,
                ButtplugError,
            >(reading.data),
            _ => r matches Err(
                ButtplugError::ButtplugMessageError(ButtplugMessageError::UnexpectedMessageType(text)),
            ) && text@ == no_reading_text(),
        },
{
    match reply {
        ButtplugSpecV3ServerMessage::SensorReading(reading) => Ok(reading.data),
        _ => Err(
            ButtplugError::ButtplugMessageError(
                ButtplugMessageError::UnexpectedMessageType(String::from_str("SensorReading")),
            ),
        ),
    }
}

/// What every sensor says of itself.
pub trait SensorAttributes {
    /// What the device says of the sensor.
    spec fn attributes_of(&self) -> SensorDeviceMessageAttributes;

    /// What the sensor measures.
    fn sensor_type(&self) -> (r: SensorType)
        ensures
            r == self.attributes_of().sensor_type,
    ;

    /// The label of the sensor.
    fn descriptor(&self) -> (r: &String)
        ensures
            *r == self.attributes_of().feature_descriptor,
    ;

    /// The ranges of the values that the sensor reports.
    fn sensor_range(&self) -> (r: &Vec<SensorRange>)
        ensures
            *r == self.attributes_of().sensor_range,
    ;
}

/// A sensor whose value can be asked for.
pub trait ReadableSensor {
    /// The index of the device that the sensor belongs to.
    spec fn reader_owner(&self) -> u32;

    /// What the device says of the sensor.
    spec fn reader_described(&self) -> SensorDeviceMessageAttributes;

    /// Builds the request for the value of the sensor.
    fn read(&self) -> (r: ButtplugCurrentSpecClientMessage)
        ensures
            r == ButtplugSpecV3ClientMessage::SensorReadCmd(
                SensorReadCmd {
                    id: 1,
                    device_index: self.reader_owner(),
                    sensor_index: self.reader_described().index,
                    sensor_type: self.reader_described().sensor_type,
                },
            ),
    ;
}

/// A sensor that reports on its own account once it is subscribed to.
pub trait SubscribableSensor {
    /// The index of the device that the sensor belongs to.
    spec fn subscriber_owner(&self) -> u32;

    /// What the device says of the sensor.
    spec fn subscriber_described(&self) -> SensorDeviceMessageAttributes;

    /// Builds the request to be sent the reports of the sensor.
    fn subscribe(&self) -> (r: ButtplugCurrentSpecClientMessage)
        ensures
            r == ButtplugSpecV3ClientMessage::SensorSubscribeCmd(
                SensorSubscribeCmd {
                    id: 1,
                    device_index: self.subscriber_owner(),
                    sensor_index: self.subscriber_described().index,
                    sensor_type: self.subscriber_described().sensor_type,
                },
            ),
    ;

    /// Builds the request to be sent the reports of the sensor no longer.
    fn unsubscribe(&self) -> (r: ButtplugCurrentSpecClientMessage)
        ensures
            r == ButtplugSpecV3ClientMessage::SensorUnsubscribeCmd(
                SensorUnsubscribeCmd {
                    id: 1,
                    device_index: self.subscriber_owner(),
                    sensor_index: self.subscriber_described().index,
                    sensor_type: self.subscriber_described().sensor_type,
                },
            ),
    ;
}

/// The handle of a battery gauge.
#[derive(Debug, Clone, PartialEq, Eq)]
pub struct BatterySensor {
    pub device_index: u32,
    pub attributes: SensorDeviceMessageAttributes,
}

impl SensorAttributes for BatterySensor {
    open spec fn attributes_of(&self) -> SensorDeviceMessageAttributes {
        self.attributes
    }

    fn sensor_type(&self) -> (r: SensorType) {
        self.attributes.sensor_type
    }

    fn descriptor(&self) -> (r: &String) {
        &self.attributes.feature_descriptor
    }

    fn sensor_range(&self) -> (r: &Vec<SensorRange>) {
        &self.attributes.sensor_range
    }
}

impl ReadableSensor for BatterySensor {
    open spec fn reader_owner(&self) -> u32 {
        self.device_index
    }

    open spec fn reader_described(&self) -> SensorDeviceMessageAttributes {
        self.attributes
    }

    fn read(&self) -> (r: ButtplugCurrentSpecClientMessage) {
        ButtplugSpecV3ClientMessage::SensorReadCmd(
            SensorReadCmd::new(
                self.device_index,
                self.attributes.index,
                self.attributes.sensor_type,
            ),
        )
    }
}

impl BatterySensor {
    /// The handle for a sensor of the device with the given index.
    pub fn new(device_index: u32, attributes: &SensorDeviceMessageAttributes) -> (r: BatterySensor)
        ensures
            r.device_index == device_index,
            same_sensor(r.attributes, *attributes),
    {
        BatterySensor { device_index, attributes: copy_attributes(attributes) }
    }

    /// The charge that a reading reports, as a part of one: the first value
    /// of the reading, which counts hundredths, divided by one hundred in
    /// binary64 arithmetic.
    pub fn battery_level(&self, data: &Vec<i32>) -> (r: Double)
        requires
            data@.len() > 0,
        ensures
            is_hundredths(r, data@[0]),
            r == hundredths(data@[0]),
    {
        Double::from_hundredths(data[0])
    }
}

/// The handle of a gauge of the strength of the radio signal.
#[derive(Debug, Clone, PartialEq, Eq)]
pub struct RssiSensor {
    pub device_index: u32,
    pub attributes: SensorDeviceMessageAttributes,
}

impl SensorAttributes for RssiSensor {
    open spec fn attributes_of(&self) -> SensorDeviceMessageAttributes {
        self.attributes
    }

    fn sensor_type(&self) -> (r: SensorType) {
        self.attributes.sensor_type
    }

    fn descriptor(&self) -> (r: &String) {
        &self.attributes.feature_descriptor
    }

    fn sensor_range(&self) -> (r: &Vec<SensorRange>) {
        &self.attributes.sensor_range
    }
}

impl ReadableSensor for RssiSensor {
    open spec fn reader_owner(&self) -> u32 {
        self.device_index
    }

    open spec fn reader_described(&self) -> SensorDeviceMessageAttributes {
        self.attributes
    }

    fn read(&self) -> (r: ButtplugCurrentSpecClientMessage) {
        ButtplugSpecV3ClientMessage::SensorReadCmd(
            SensorReadCmd::new(
                self.device_index,
                self.attributes.index,
                self.attributes.sensor_type,
            ),
        )
    }
}

impl RssiSensor {
    /// The handle for a sensor of the device with the given index.
    pub fn new(device_index: u32, attributes: &SensorDeviceMessageAttributes) -> (r: RssiSensor)
        ensures
            r.device_index == device_index,
            same_sensor(r.attributes, *attributes),
    {
        RssiSensor { device_index, attributes: copy_attributes(attributes) }
    }

    /// The strength that a reading reports: its first value.
    pub fn rssi_level(&self, data: &Vec<i32>) -> (r: i32)
        requires
            data@.len() > 0,
        ensures
            r == data@[0],
    {
        data[0]
    }
}

/// The handle of a pressure sensor.
#[derive(Debug, Clone, PartialEq, Eq)]
pub struct PressureSensor {
    pub device_index: u32,
    pub attributes: SensorDeviceMessageAttributes,
}

impl SensorAttributes for PressureSensor {
    open spec fn attributes_of(&self) -> SensorDeviceMessageAttributes {
        self.attributes
    }

    fn sensor_type(&self) -> (r: SensorType) {
        self.attributes.sensor_type
    }

    fn descriptor(&self) -> (r: &String) {
        &self.attributes.feature_descriptor
    }

    fn sensor_range(&self) -> (r: &Vec<SensorRange>) {
        &self.attributes.sensor_range
    }
}

impl SubscribableSensor for PressureSensor {
    open spec fn subscriber_owner(&self) -> u32 {
        self.device_index
    }

    open spec fn subscriber_described(&self) -> SensorDeviceMessageAttributes {
        self.attributes
    }

    fn subscribe(&self) -> (r: ButtplugCurrentSpecClientMessage) {
        ButtplugSpecV3ClientMessage::SensorSubscribeCmd(
            SensorSubscribeCmd::new(
                self.device_index,
                self.attributes.index,
                self.attributes.sensor_type,
            ),
        )
    }

    fn unsubscribe(&self) -> (r: ButtplugCurrentSpecClientMessage) {
        ButtplugSpecV3ClientMessage::SensorUnsubscribeCmd(
            SensorUnsubscribeCmd::new(
                self.device_index,
                self.attributes.index,
                self.attributes.sensor_type,
            ),
        )
    }
}

impl PressureSensor {
    /// The handle for a sensor of the device with the given index.
    pub fn new(device_index: u32, attributes: &SensorDeviceMessageAttributes) -> (r: PressureSensor)
        ensures
            r.device_index == device_index,
            same_sensor(r.attributes, *attributes),
    {
        PressureSensor { device_index, attributes: copy_attributes(attributes) }
    }

    /// The value that one report of the sensor carries: the first value of
    /// the report.
    pub fn event_value(&self, report: &SensorReading) -> (r: i32)
        requires
            report.data@.len() > 0,
        ensures
            r == report.data@[0],
    {
        report.data[0]
    }
}

/// The handle of a button.
#[derive(Debug, Clone, PartialEq, Eq)]
pub struct ButtonSensor {
    pub device_index: u32,
    pub attributes: SensorDeviceMessageAttributes,
}

impl SensorAttributes for ButtonSensor {
    open spec fn attributes_of(&self) -> SensorDeviceMessageAttributes {
        self.attributes
    }

    fn sensor_type(&self) -> (r: SensorType) {
        self.attributes.sensor_type
    }

    fn descriptor(&self) -> (r: &String) {
        &self.attributes.feature_descriptor
    }

    fn sensor_range(&self) -> (r: &Vec<SensorRange>) {
        &self.attributes.sensor_range
    }
}

impl SubscribableSensor for ButtonSensor {
    open spec fn subscriber_owner(&self) -> u32 {
        self.device_index
    }

    open spec fn subscriber_described(&self) -> SensorDeviceMessageAttributes {
        self.attributes
    }

    fn subscribe(&self) -> (r: ButtplugCurrentSpecClientMessage) {
        ButtplugSpecV3ClientMessage::SensorSubscribeCmd(
            SensorSubscribeCmd::new(
                self.device_index,
                self.attributes.index,
                self.attributes.sensor_type,
            ),
        )
    }

    fn unsubscribe(&self) -> (r: ButtplugCurrentSpecClientMessage) {
        ButtplugSpecV3ClientMessage::SensorUnsubscribeCmd(
            SensorUnsubscribeCmd::new(
                self.device_index,
                self.attributes.index,
                self.attributes.sensor_type,
            ),
        )
    }
}

impl ButtonSensor {
    /// The handle for a sensor of the device with the given index.
    pub fn new(device_index: u32, attributes: &SensorDeviceMessageAttributes) -> (r: ButtonSensor)
        ensures
            r.device_index == device_index,
            same_sensor(r.attributes, *attributes),
    {
        ButtonSensor { device_index, attributes: copy_attributes(attributes) }
    }

    /// The value that one report of the sensor carries: the first value of
    /// the report.
    pub fn event_value(&self, report: &SensorReading) -> (r: i32)
        requires
            report.data@.len() > 0,
        ensures
            r == report.data@[0],
    {
        report.data[0]
    }
}

/// The handle of a sensor of a kind that the library has no name for.
#[derive(Debug, Clone, PartialEq, Eq)]
pub struct UnknownSensor {
    pub device_index: u32,
    pub attributes: SensorDeviceMessageAttributes,
}

impl SensorAttributes for UnknownSensor {
    open spec fn attributes_of(&self) -> SensorDeviceMessageAttributes {
        self.attributes
    }

    fn sensor_type(&self) -> (r: SensorType) {
        self.attributes.sensor_type
    }

    fn descriptor(&self) -> (r: &String) {
        &self.attributes.feature_descriptor
    }

    fn sensor_range(&self) -> (r: &Vec<SensorRange>) {
        &self.attributes.sensor_range
    }
}

impl UnknownSensor {
    /// The handle for a sensor of the device with the given index.
    pub fn new(device_index: u32, attributes: &SensorDeviceMessageAttributes) -> (r: UnknownSensor)
        ensures
            r.device_index == device_index,
            same_sensor(r.attributes, *attributes),
    {
        UnknownSensor { device_index, attributes: copy_attributes(attributes) }
    }
}

/// The handle of one sensor of a device, by what the sensor measures.
#[derive(Debug, Clone, PartialEq, Eq)]
pub enum Sensor {
    Battery(BatterySensor),
    Rssi(RssiSensor),
    Pressure(PressureSensor),
    Button(ButtonSensor),
    Unknown(UnknownSensor),
}

impl Sensor {
    /// The index of the device that the sensor belongs to.
    pub open spec fn spec_device_index(self) -> u32 {
        match self {
            Sensor::Battery(s) => s.device_index,
            Sensor::Rssi(s) => s.device_index,
            Sensor::Pressure(s) => s.device_index,
            Sensor::Button(s) => s.device_index,
            Sensor::Unknown(s) => s.device_index,
        }
    }

    /// What the device says of the sensor.
    pub open spec fn spec_attributes(self) -> SensorDeviceMessageAttributes {
        match self {
            Sensor::Battery(s) => s.attributes,
            Sensor::Rssi(s) => s.attributes,
            Sensor::Pressure(s) => s.attributes,
            Sensor::Button(s) => s.attributes,
            Sensor::Unknown(s) => s.attributes,
        }
    }

    /// Whether `self` is the handle of the readable sensor that `attributes`
    /// describe: a battery gauge or a gauge of the radio signal by its type,
    /// and a sensor without a name for every other type.
    pub open spec fn reads(
        self,
        device_index: u32,
        attributes: SensorDeviceMessageAttributes,
    ) -> bool {
        &&& self.spec_device_index() == device_index
        &&& same_sensor(self.spec_attributes(), attributes)
        &&& match attributes.sensor_type {
            SensorType::Battery => self is Battery,
            SensorType::RSSI => self is Rssi,
            _ => self is Unknown,
        }
    }

    /// Makes the handles of the sensors of a device that can be read, in the
    /// order of the device's description. Sensors that can only be
    /// subscribed to get no handle.
    pub fn from_sensor_attributes(
        device_index: u32,
        attributes: &ClientDeviceMessageAttributes,
    ) -> (r: Vec<
        Sensor,
    >)
        ensures
            match attributes.sensor_read_cmd {
                None => r@.len() == 0,
                Some(list) => r@.len() == list@.len() && forall|i: int|
                    0 <= i < list@.len() ==> (#[trigger] r@[i]).reads(device_index, list@[i]),
            },
    {
        let mut sensors: Vec<Sensor> = Vec::new();
        match &attributes.sensor_read_cmd {
            Some(read_sensors) => {
                let mut i: usize = 0;
                while i < read_sensors.len()
                    invariant
                        i <= read_sensors.len(),
                        sensors@.len() == i,
                        forall|j: int|
                            0 <= j < i ==> (#[trigger] sensors@[j]).reads(
                                device_index,
                                read_sensors@[j],
                            ),
                    decreases read_sensors.len() - i,
                {
                    let read_sensor = &read_sensors[i];
                    match read_sensor.sensor_type {
                        SensorType::Battery => {
                            sensors.push(
                                Sensor::Battery(BatterySensor::new(device_index, read_sensor)),
                            );
                        },
                        SensorType::RSSI => {
                            sensors.push(Sensor::Rssi(RssiSensor::new(device_index, read_sensor)));
                        },
                        _ => {
                            sensors.push(
                                Sensor::Unknown(UnknownSensor::new(device_index, read_sensor)),
                            );
                        },
                    }
                    i = i + 1;
                }
            },
            None => {},
        }
        sensors
    }
}

} // verus!
