use buttplug::client::device_actuator::{
    Actuator, ActuatorAttributes, ConstrictActuator, InflateActuator, OscillateActuator,
    PositionActuator, PositionWithDurationActuator, RotateActuator, RotateWithDirectionActuator,
    ScalarActuator, UnknownActuator, VibrateActuator,
};
use buttplug::client::device_raw::ButtplugDeviceRawEndpoint;
use buttplug::client::device_sensor::{
    read_reply, BatterySensor, ButtonSensor, PressureSensor, ReadableSensor, RssiSensor, Sensor,
    SensorAttributes, SubscribableSensor, UnknownSensor,
};
use buttplug::double::Double;
use buttplug::errors::{ButtplugDeviceError, ButtplugError, ButtplugMessageError};
use buttplug::message::{
    ActuatorType, ButtplugMessageValidator, ButtplugSpecV3ClientMessage, ButtplugSpecV3ServerMessage,
    ClientDeviceMessageAttributes, ClientGenericDeviceMessageAttributes, Endpoint, Error, ErrorCode,
    LinearCmd, OkV0, RawDeviceMessageAttributes, RawReadCmd, RawReading, RawSubscribeCmd,
    RawUnsubscribeCmd, RawWriteCmd, RotateCmd, RotationSubcommand, ScalarCmd, ScalarSubcommand,
    SensorDeviceMessageAttributes, SensorRange, SensorReadCmd, SensorReading, SensorSubscribeCmd,
    SensorType, SensorUnsubscribeCmd, VectorSubcommand,
};

fn level(value: f64) -> Double {
    Double::from_bits(value.to_bits())
}

fn described(
    name: &str,
    steps: u32,
    kind: ActuatorType,
    index: u32,
) -> ClientGenericDeviceMessageAttributes {
    let mut attributes = ClientGenericDeviceMessageAttributes::new(name, steps, kind);
    attributes.index = index;
    attributes
}

fn sensor(name: &str, kind: SensorType, index: u32) -> SensorDeviceMessageAttributes {
    let mut attributes = SensorDeviceMessageAttributes::new(name, kind, vec![SensorRange::new(0, 100)]);
    attributes.index = index;
    attributes
}

fn refused<T: std::fmt::Debug>(result: Result<T, ButtplugError>) {
    match result {
        Err(ButtplugError::ButtplugDeviceError(ButtplugDeviceError::UnhandledCommand(text))) => {
            assert_eq!(text, "Value must be 0 <= x <= 1")
        }
        other => panic!("expected a refusal, got {:?}", other),
    }
}

#[test]
fn position_with_duration_checks_the_position_first() {
    let actuator =
        PositionWithDurationActuator::new(3, &described("Slide", 100, ActuatorType::Position, 1));
    refused(actuator.position_with_duration(level(-0.1), 500));
    refused(actuator.position_with_duration(level(1.5), 500));
    let message = actuator.position_with_duration(level(0.5), 500).unwrap();
    assert_eq!(
        message,
        ButtplugSpecV3ClientMessage::LinearCmd(LinearCmd::new(
            3,
            vec![VectorSubcommand::new(1, 500, level(0.5))]
        ))
    );
    assert_eq!(message.is_valid(), Ok(()));
    assert!(actuator.position_with_duration(level(1.0), u32::MAX).is_ok());
    assert!(actuator.position_with_duration(level(0.0), 0).is_ok());
    refused(actuator.position_with_duration(level(-0.0), 500));
    refused(actuator.position_with_duration(level(f64::INFINITY), 500));
}

#[test]
fn rotate_with_direction_checks_the_speed_first() {
    let actuator = RotateWithDirectionActuator::new(2, &described("Head", 8, ActuatorType::Rotate, 0));
    refused(actuator.rotate_with_direction(level(-0.5), true));
    refused(actuator.rotate_with_direction(level(1.0000001), false));
    assert_eq!(
        actuator.rotate_with_direction(level(0.25), true).unwrap(),
        ButtplugSpecV3ClientMessage::RotateCmd(RotateCmd::new(
            2,
            vec![RotationSubcommand::new(0, level(0.25), true)]
        ))
    );
}

#[test]
fn scalar_actuators_build_a_scalar_command_for_their_feature() {
    let attributes = described("Motor", 20, ActuatorType::Vibrate, 4);
    let vibrator = VibrateActuator::new(7, &attributes);
    let expected = ButtplugSpecV3ClientMessage::ScalarCmd(ScalarCmd::new(
        7,
        vec![ScalarSubcommand::new(4, level(0.75), ActuatorType::Vibrate)],
    ));
    assert_eq!(vibrator.vibrate(level(0.75)).unwrap(), expected);
    assert_eq!(vibrator.scalar(level(0.75)).unwrap(), expected);
    refused(vibrator.vibrate(level(2.0)));
    refused(vibrator.scalar(level(-1.0)));
    assert_eq!(vibrator.descriptor(), "Motor");
    assert_eq!(vibrator.step_count(), 20);
    let kinds: Vec<(ActuatorType, Result<ButtplugSpecV3ClientMessage, ButtplugError>)> = vec![
        (ActuatorType::Rotate, RotateActuator::new(1, &described("a", 1, ActuatorType::Rotate, 0)).rotate(level(1.0))),
        (ActuatorType::Oscillate, OscillateActuator::new(1, &described("a", 1, ActuatorType::Oscillate, 0)).oscillate(level(1.0))),
        (ActuatorType::Position, PositionActuator::new(1, &described("a", 1, ActuatorType::Position, 0)).position(level(1.0))),
        (ActuatorType::Inflate, InflateActuator::new(1, &described("a", 1, ActuatorType::Inflate, 0)).inflate(level(1.0))),
        (ActuatorType::Constrict, ConstrictActuator::new(1, &described("a", 1, ActuatorType::Constrict, 0)).constrict(level(1.0))),
        (ActuatorType::Unknown, UnknownActuator::new(1, &described("a", 1, ActuatorType::Unknown, 0)).scalar(level(1.0))),
    ];
    for (kind, message) in kinds {
        assert_eq!(
            message.unwrap(),
            ButtplugSpecV3ClientMessage::ScalarCmd(ScalarCmd::new(1, vec![ScalarSubcommand::new(0, level(1.0), kind)]))
        );
    }
}

#[test]
fn a_value_that_is_no_number_is_not_refused_by_the_handle() {
    let vibrator = VibrateActuator::new(7, &described("Motor", 20, ActuatorType::Vibrate, 4));
    let message = vibrator.vibrate(level(f64::NAN)).unwrap();
    assert!(message.is_valid().is_err());
}

#[test]
fn actuators_of_a_device_come_in_three_groups() {
    let mut attributes = ClientDeviceMessageAttributes::empty();
    attributes.scalar_cmd = Some(vec![
        described("Motor", 20, ActuatorType::Vibrate, 0),
        described("Pump", 5, ActuatorType::Inflate, 1),
        described("Odd", 3, ActuatorType::Unknown, 2),
    ]);
    attributes.rotate_cmd = Some(vec![described("Head", 8, ActuatorType::Rotate, 0)]);
    attributes.linear_cmd = Some(vec![described("Slide", 100, ActuatorType::Position, 0)]);
    let actuators = Actuator::from_client_device_message_attributes(6, &attributes);
    assert_eq!(
        actuators,
        vec![
            Actuator::Vibrate(VibrateActuator::new(6, &described("Motor", 20, ActuatorType::Vibrate, 0))),
            Actuator::Inflate(InflateActuator::new(6, &described("Pump", 5, ActuatorType::Inflate, 1))),
            Actuator::Unknown(UnknownActuator::new(6, &described("Odd", 3, ActuatorType::Unknown, 2))),
            Actuator::RotateWithDirection(RotateWithDirectionActuator::new(6, &described("Head", 8, ActuatorType::Rotate, 0))),
            Actuator::PositionWithDuration(PositionWithDurationActuator::new(6, &described("Slide", 100, ActuatorType::Position, 0))),
        ]
    );
    assert_eq!(Actuator::from_client_device_message_attributes(6, &ClientDeviceMessageAttributes::empty()), vec![]);
    for (kind, is) in [
        (ActuatorType::Vibrate, "Vibrate"),
        (ActuatorType::Rotate, "Rotate"),
        (ActuatorType::Oscillate, "Oscillate"),
        (ActuatorType::Position, "Position"),
        (ActuatorType::Inflate, "Inflate"),
        (ActuatorType::Constrict, "Constrict"),
        (ActuatorType::Unknown, "Unknown"),
    ] {
        let handle = Actuator::from_scalarcmd_attributes(1, &described("a", 1, kind, 0));
        assert!(format!("{:?}", handle).starts_with(is), "{:?}", handle);
    }
    assert!(matches!(
        Actuator::from_rotatecmd_attributes(1, &described("a", 1, ActuatorType::Vibrate, 0)),
        Actuator::RotateWithDirection(_)
    ));
    assert!(matches!(
        Actuator::from_linearcmd_attributes(1, &described("a", 1, ActuatorType::Vibrate, 0)),
        Actuator::PositionWithDuration(_)
    ));
}

#[test]
fn readable_sensors_of_a_device_get_handles_by_their_type() {
    let mut attributes = ClientDeviceMessageAttributes::empty();
    attributes.sensor_read_cmd = Some(vec![
        sensor("Cell", SensorType::Battery, 0),
        sensor("Radio", SensorType::RSSI, 1),
        sensor("Grip", SensorType::Pressure, 2),
        sensor("Key", SensorType::Button, 3),
        sensor("Odd", SensorType::Unknown, 4),
    ]);
    attributes.sensor_subscribe_cmd = Some(vec![sensor("Grip", SensorType::Pressure, 0)]);
    let sensors = Sensor::from_sensor_attributes(8, &attributes);
    assert_eq!(
        sensors,
        vec![
            Sensor::Battery(BatterySensor::new(8, &sensor("Cell", SensorType::Battery, 0))),
            Sensor::Rssi(RssiSensor::new(8, &sensor("Radio", SensorType::RSSI, 1))),
            Sensor::Unknown(UnknownSensor::new(8, &sensor("Grip", SensorType::Pressure, 2))),
            Sensor::Unknown(UnknownSensor::new(8, &sensor("Key", SensorType::Button, 3))),
            Sensor::Unknown(UnknownSensor::new(8, &sensor("Odd", SensorType::Unknown, 4))),
        ]
    );
    assert_eq!(Sensor::from_sensor_attributes(8, &ClientDeviceMessageAttributes::empty()), vec![]);
}

#[test]
fn battery_sensor_reads_a_part_of_one() {
    let battery = BatterySensor::new(8, &sensor("Cell", SensorType::Battery, 2));
    assert_eq!(battery.sensor_type(), SensorType::Battery);
    assert_eq!(battery.descriptor(), "Cell");
    assert_eq!(battery.sensor_range(), &vec![SensorRange::new(0, 100)]);
    assert_eq!(
        battery.read(),
        ButtplugSpecV3ClientMessage::SensorReadCmd(SensorReadCmd::new(8, 2, SensorType::Battery))
    );
    assert_eq!(battery.battery_level(&vec![80]).to_bits(), 0.8f64.to_bits());
    assert_eq!(battery.battery_level(&vec![100, 3]).to_bits(), 1.0f64.to_bits());
    assert_eq!(battery.battery_level(&vec![0]).to_bits(), 0.0f64.to_bits());
    for n in 0..=100 {
        assert_eq!(battery.battery_level(&vec![n]).to_bits(), (n as f64 / 100.0f64).to_bits());
    }
    let radio = RssiSensor::new(8, &sensor("Radio", SensorType::RSSI, 1));
    assert_eq!(radio.rssi_level(&vec![-40]), -40);
    assert_eq!(
        radio.read(),
        ButtplugSpecV3ClientMessage::SensorReadCmd(SensorReadCmd::new(8, 1, SensorType::RSSI))
    );
}

#[test]
fn reply_to_a_sensor_read_must_be_a_reading() {
    assert_eq!(
        read_reply(ButtplugSpecV3ServerMessage::SensorReading(SensorReading::new(8, 2, SensorType::Battery, vec![80, 1]))),
        Ok(vec![80, 1])
    );
    assert_eq!(
        read_reply(ButtplugSpecV3ServerMessage::OkV0(OkV0::new(1))),
        Err(ButtplugError::ButtplugMessageError(ButtplugMessageError::UnexpectedMessageType("SensorReading".to_string())))
    );
    assert_eq!(
        read_reply(ButtplugSpecV3ServerMessage::Error(Error::new(ErrorCode::ErrorDevice, "gone"))),
        Err(ButtplugError::ButtplugMessageError(ButtplugMessageError::UnexpectedMessageType("SensorReading".to_string())))
    );
}

#[test]
fn subscribable_sensors_subscribe_and_unsubscribe() {
    let grip = PressureSensor::new(8, &sensor("Grip", SensorType::Pressure, 2));
    assert_eq!(
        grip.subscribe(),
        ButtplugSpecV3ClientMessage::SensorSubscribeCmd(SensorSubscribeCmd::new(8, 2, SensorType::Pressure))
    );
    assert_eq!(
        grip.unsubscribe(),
        ButtplugSpecV3ClientMessage::SensorUnsubscribeCmd(SensorUnsubscribeCmd::new(8, 2, SensorType::Pressure))
    );
    assert_eq!(grip.event_value(&SensorReading::new(8, 2, SensorType::Pressure, vec![7, 8])), 7);
    let key = ButtonSensor::new(8, &sensor("Key", SensorType::Button, 3));
    assert_eq!(
        key.subscribe(),
        ButtplugSpecV3ClientMessage::SensorSubscribeCmd(SensorSubscribeCmd::new(8, 3, SensorType::Button))
    );
    assert_eq!(key.event_value(&SensorReading::new(8, 3, SensorType::Button, vec![1])), 1);
    assert_eq!(key.sensor_type(), SensorType::Button);
}

#[test]
fn raw_endpoints_come_from_the_channels_that_can_be_read() {
    let mut attributes = ClientDeviceMessageAttributes::empty();
    attributes.raw_read_cmd = Some(RawDeviceMessageAttributes::new(vec![Endpoint::Rx, Endpoint::Tx]));
    attributes.raw_write_cmd = Some(RawDeviceMessageAttributes::new(vec![Endpoint::Firmware]));
    let endpoints = ButtplugDeviceRawEndpoint::from_message_attributes(4, &attributes);
    assert_eq!(
        endpoints,
        vec![
            ButtplugDeviceRawEndpoint { endpoint: Endpoint::Rx, device_index: 4 },
            ButtplugDeviceRawEndpoint { endpoint: Endpoint::Tx, device_index: 4 },
        ]
    );
    assert_eq!(ButtplugDeviceRawEndpoint::from_message_attributes(4, &ClientDeviceMessageAttributes::empty()), vec![]);
    let tx = &endpoints[1];
    assert_eq!(
        tx.write(&[1, 2, 3], true),
        ButtplugSpecV3ClientMessage::RawWriteCmd(RawWriteCmd::new(4, Endpoint::Tx, &[1, 2, 3], true))
    );
    assert_eq!(
        tx.read(16, 100),
        ButtplugSpecV3ClientMessage::RawReadCmd(RawReadCmd::new(4, Endpoint::Tx, 16, 100))
    );
    assert_eq!(
        tx.subscribe(),
        ButtplugSpecV3ClientMessage::RawSubscribeCmd(RawSubscribeCmd::new(4, Endpoint::Tx))
    );
    assert_eq!(
        tx.unsubscribe(),
        ButtplugSpecV3ClientMessage::RawUnsubscribeCmd(RawUnsubscribeCmd::new(4, Endpoint::Tx))
    );
}

#[test]
fn reply_to_a_raw_read_is_a_reading_or_an_error() {
    assert_eq!(
        ButtplugDeviceRawEndpoint::read_reply(ButtplugSpecV3ServerMessage::RawReading(RawReading::new(4, Endpoint::Rx, vec![5, 6]))),
        Ok(vec![5, 6])
    );
    assert_eq!(
        ButtplugDeviceRawEndpoint::read_reply(ButtplugSpecV3ServerMessage::Error(Error::new(ErrorCode::ErrorDevice, "gone"))),
        Err(ButtplugError::ButtplugDeviceError(ButtplugDeviceError::UntypedDeserializedError("gone".to_string())))
    );
    let other = ButtplugSpecV3ServerMessage::OkV0(OkV0::new(3));
    assert_eq!(
        ButtplugDeviceRawEndpoint::read_reply(other.clone()),
        Err(ButtplugError::ButtplugMessageError(ButtplugMessageError::UnexpectedMessageType(format!("{:?}", other))))
    );
}
