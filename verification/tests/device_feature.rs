use buttplug::message::{
    ButtplugDeviceMessageType, DeviceFeature, DeviceFeatureActuator, DeviceFeatureSensor,
    FeatureType, SensorRange, StepRange,
};

fn motor() -> DeviceFeature {
    DeviceFeature::new(
        "Motor",
        FeatureType::Vibrate,
        Some(DeviceFeatureActuator::new(
            &StepRange::new(0, 20),
            vec![ButtplugDeviceMessageType::ScalarCmd, ButtplugDeviceMessageType::RotateCmd],
        )),
        None,
    )
}

fn gauge() -> DeviceFeature {
    DeviceFeature::new(
        "Cell",
        FeatureType::Battery,
        None,
        Some(DeviceFeatureSensor::new(vec![SensorRange::new(0, 100)], true, false)),
    )
}

#[test]
fn feature_keeps_its_description() {
    let feature = motor();
    assert_eq!(feature.description(), "Motor");
    assert_eq!(feature.feature_type(), FeatureType::Vibrate);
    let actuator = feature.actuator().as_ref().unwrap();
    assert_eq!(actuator.step_range(), &StepRange::new(0, 20));
    assert_eq!((actuator.step_range().start(), actuator.step_range().end()), (0, 20));
    assert!(!actuator.step_range().is_empty());
    assert!(StepRange::new(3, 2).is_empty());
    assert_eq!(
        actuator.messages(),
        &vec![ButtplugDeviceMessageType::ScalarCmd, ButtplugDeviceMessageType::RotateCmd]
    );
    assert_eq!(feature.sensor(), &None);
    let feature = gauge();
    let sensor = feature.sensor().as_ref().unwrap();
    assert_eq!(sensor.value_range(), &vec![SensorRange::new(0, 100)]);
    assert_eq!((sensor.value_range()[0].start(), sensor.value_range()[0].end()), (0, 100));
    assert!(sensor.readable());
    assert!(!sensor.subscribable());
}

#[test]
fn feature_supports_the_commands_of_its_actuator() {
    let feature = motor();
    assert!(feature.supports(ButtplugDeviceMessageType::ScalarCmd));
    assert!(feature.supports(ButtplugDeviceMessageType::RotateCmd));
    assert!(!feature.supports(ButtplugDeviceMessageType::LinearCmd));
    assert!(!gauge().supports(ButtplugDeviceMessageType::ScalarCmd));
    assert!(feature.actuator().as_ref().unwrap().supports(ButtplugDeviceMessageType::RotateCmd));
    let bare = DeviceFeatureActuator::new(&StepRange::new(0, 1), vec![]);
    assert!(!bare.supports(ButtplugDeviceMessageType::ScalarCmd));
}

#[test]
fn duplicates_are_equal_to_what_they_copy() {
    assert_eq!(motor().duplicate(), motor());
    assert_eq!(gauge().duplicate(), gauge());
    assert_ne!(motor().duplicate(), gauge());
    let both = DeviceFeature::new(
        "Both",
        FeatureType::Unknown,
        motor().actuator().clone(),
        gauge().sensor().clone(),
    );
    assert_eq!(both.duplicate(), both);
    assert!(both.is_well_formed());
}
