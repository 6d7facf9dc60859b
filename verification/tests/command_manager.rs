use buttplug::double::Double;
use buttplug::errors::{ButtplugDeviceError, ButtplugError};
use buttplug::message::unions::ButtplugDeviceCommandMessageUnion;
use buttplug::message::{
    ActuatorType, ButtplugDeviceMessageType, DeviceFeature, DeviceFeatureActuator,
    DeviceFeatureSensor, FeatureType, LinearCmd, RotateCmd, RotationSubcommand, ScalarCmd,
    ScalarSubcommand, SensorRange, StepRange, VectorSubcommand,
};
use buttplug::server::generic_command_manager::GenericCommandManager;

fn level(value: f64) -> Double {
    Double::from_bits(value.to_bits())
}

fn scalar_feature(kind: FeatureType, start: u32, end: u32) -> DeviceFeature {
    DeviceFeature::new(
        "Test",
        kind,
        Some(DeviceFeatureActuator::new(
            &StepRange::new(start, end),
            vec![ButtplugDeviceMessageType::ScalarCmd],
        )),
        None,
    )
}

fn rotate_feature(start: u32, end: u32) -> DeviceFeature {
    DeviceFeature::new(
        "Test",
        FeatureType::Rotate,
        Some(DeviceFeatureActuator::new(
            &StepRange::new(start, end),
            vec![ButtplugDeviceMessageType::RotateCmd],
        )),
        None,
    )
}

fn battery_feature() -> DeviceFeature {
    DeviceFeature::new(
        "Battery",
        FeatureType::Battery,
        None,
        Some(DeviceFeatureSensor::new(vec![SensorRange::new(0, 100)], true, false)),
    )
}

fn manager(features: &Vec<DeviceFeature>) -> GenericCommandManager {
    assert!(features.iter().all(|f| f.is_well_formed()));
    GenericCommandManager::new(features)
}

fn scalar_cmd(subcommands: &[(u32, f64)]) -> ScalarCmd {
    ScalarCmd::new(
        0,
        subcommands
            .iter()
            .map(|(i, v)| ScalarSubcommand::new(*i, level(*v), ActuatorType::Vibrate))
            .collect(),
    )
}

fn rotate_cmd(subcommands: &[(u32, f64, bool)]) -> RotateCmd {
    RotateCmd::new(
        0,
        subcommands
            .iter()
            .map(|(i, v, c)| RotationSubcommand::new(*i, level(*v), *c))
            .collect(),
    )
}

fn requirement_text(result: Result<impl std::fmt::Debug, ButtplugError>) -> String {
    match result {
        Err(ButtplugError::ButtplugDeviceError(ButtplugDeviceError::ProtocolRequirementError(
            text,
        ))) => text,
        other => panic!("expected a protocol requirement error, got {:?}", other),
    }
}

#[test]
fn test_command_generator_vibration() {
    let features =
        vec![scalar_feature(FeatureType::Vibrate, 0, 20), scalar_feature(FeatureType::Vibrate, 0, 20)];
    let mut mgr = manager(&features);
    let vibrate_msg = scalar_cmd(&[(0, 0.5), (1, 0.5)]);
    assert_eq!(
        mgr.update_scalar(&vibrate_msg, false).expect("Test, assuming infallible"),
        vec![Some((ActuatorType::Vibrate, 10)), Some((ActuatorType::Vibrate, 10))]
    );
    assert_eq!(mgr.update_scalar(&vibrate_msg, false).expect("Test, assuming infallible"), vec![]);
    let vibrate_msg_2 = scalar_cmd(&[(0, 0.5), (1, 0.75)]);
    assert_eq!(
        mgr.update_scalar(&vibrate_msg_2, false).expect("Test, assuming infallible"),
        vec![None, Some((ActuatorType::Vibrate, 15))]
    );
    let vibrate_msg_invalid = scalar_cmd(&[(2, 0.5)]);
    assert!(mgr.update_scalar(&vibrate_msg_invalid, false).is_err());
    assert_eq!(
        mgr.scalars(),
        vec![Some((ActuatorType::Vibrate, 10)), Some((ActuatorType::Vibrate, 15))]
    );
}

#[test]
fn test_command_generator_vibration_match_all() {
    let features =
        vec![scalar_feature(FeatureType::Vibrate, 0, 20), scalar_feature(FeatureType::Vibrate, 0, 20)];
    let mut mgr = manager(&features);
    let vibrate_msg = scalar_cmd(&[(0, 0.5), (1, 0.5)]);
    assert_eq!(
        mgr.update_scalar(&vibrate_msg, true).expect("Test, assuming infallible"),
        vec![Some((ActuatorType::Vibrate, 10)), Some((ActuatorType::Vibrate, 10))]
    );
    assert_eq!(mgr.update_scalar(&vibrate_msg, true).expect("Test, assuming infallible"), vec![]);
    let vibrate_msg_2 = scalar_cmd(&[(0, 0.5), (1, 0.75)]);
    assert_eq!(
        mgr.update_scalar(&vibrate_msg_2, true).expect("Test, assuming infallible"),
        vec![Some((ActuatorType::Vibrate, 10)), Some((ActuatorType::Vibrate, 15))]
    );
    let vibrate_msg_invalid = scalar_cmd(&[(2, 0.5)]);
    assert!(mgr.update_scalar(&vibrate_msg_invalid, false).is_err());
    assert_eq!(
        mgr.scalars(),
        vec![Some((ActuatorType::Vibrate, 10)), Some((ActuatorType::Vibrate, 15))]
    );
}

#[test]
fn test_command_generator_vibration_step_range() {
    let features =
        vec![scalar_feature(FeatureType::Vibrate, 10, 15), scalar_feature(FeatureType::Vibrate, 10, 20)];
    let mut mgr = manager(&features);
    let vibrate_msg = scalar_cmd(&[(0, 0.5), (1, 0.5)]);
    assert_eq!(
        mgr.update_scalar(&vibrate_msg, false).expect("Test, assuming infallible"),
        vec![Some((ActuatorType::Vibrate, 13)), Some((ActuatorType::Vibrate, 15))]
    );
    assert_eq!(mgr.update_scalar(&vibrate_msg, false).expect("Test, assuming infallible"), vec![]);
    let vibrate_msg_2 = scalar_cmd(&[(0, 0.5), (1, 0.75)]);
    assert_eq!(
        mgr.update_scalar(&vibrate_msg_2, false).expect("Test, assuming infallible"),
        vec![None, Some((ActuatorType::Vibrate, 18))]
    );
    let vibrate_msg_invalid = scalar_cmd(&[(2, 0.5)]);
    assert!(mgr.update_scalar(&vibrate_msg_invalid, false).is_err());
    assert_eq!(
        mgr.scalars(),
        vec![Some((ActuatorType::Vibrate, 13)), Some((ActuatorType::Vibrate, 18))]
    );
}

#[test]
fn test_command_generator_rotation() {
    let features = vec![rotate_feature(0, 20), rotate_feature(0, 20)];
    let mut mgr = manager(&features);
    let rotate_msg = rotate_cmd(&[(0, 0.5, true), (1, 0.5, true)]);
    assert_eq!(
        mgr.update_rotation(&rotate_msg, false).expect("Test, assuming infallible"),
        vec![Some((10, true)), Some((10, true))]
    );
    // A command that changes nothing has nothing to write.
    assert_eq!(mgr.update_rotation(&rotate_msg, false).expect("Test, assuming infallible"), vec![]);
    let rotate_msg_2 = rotate_cmd(&[(0, 0.5, true), (1, 0.75, false)]);
    assert_eq!(
        mgr.update_rotation(&rotate_msg_2, false).expect("Test, assuming infallible"),
        vec![None, Some((15, false))]
    );
    let rotate_msg_3 = rotate_cmd(&[(0, 0.75, false), (1, 0.75, false)]);
    assert_eq!(
        mgr.update_rotation(&rotate_msg_3, true).expect("Test, assuming infallible"),
        vec![Some((15, false)), Some((15, false))]
    );
    let rotate_msg_invalid = rotate_cmd(&[(2, 0.5, true)]);
    assert!(mgr.update_rotation(&rotate_msg_invalid, false).is_err());
}

#[test]
fn rotation_index_two_on_two_rotators_is_a_requirement_error() {
    let features = vec![rotate_feature(0, 20), rotate_feature(0, 20)];
    let mut mgr = manager(&features);
    let text = requirement_text(mgr.update_rotation(&rotate_cmd(&[(2, 0.5, true)]), false));
    assert_eq!(text, "RotateCmd has 1 commands, device has 2 rotators.");
}

#[test]
fn empty_commands_are_requirement_errors() {
    let features = vec![scalar_feature(FeatureType::Vibrate, 0, 20), rotate_feature(0, 20)];
    let mut mgr = manager(&features);
    assert_eq!(
        requirement_text(mgr.update_scalar(&scalar_cmd(&[]), false)),
        "ScalarCmd has 0 commands, will not do anything."
    );
    assert_eq!(
        requirement_text(mgr.update_rotation(&rotate_cmd(&[]), true)),
        "RotateCmd has 0 commands, will not do anything."
    );
}

#[test]
fn out_of_range_index_names_both_counts() {
    let features = vec![
        scalar_feature(FeatureType::Vibrate, 0, 20),
        battery_feature(),
        scalar_feature(FeatureType::Oscillate, 0, 20),
    ];
    let mut mgr = manager(&features);
    let mut many = Vec::new();
    for i in 0..12 {
        many.push((i % 2, 0.5));
    }
    many.push((2, 0.5));
    assert_eq!(
        requirement_text(mgr.update_scalar(&scalar_cmd(&many), false)),
        "ScalarCmd has 13 commands, device has 2 features."
    );
    assert_eq!(
        requirement_text(mgr.update_scalar(&scalar_cmd(&[(u32::MAX, 0.5)]), true)),
        "ScalarCmd has 1 commands, device has 2 features."
    );
}

#[test]
fn failed_command_leaves_the_cache_untouched() {
    let features =
        vec![scalar_feature(FeatureType::Vibrate, 0, 20), scalar_feature(FeatureType::Vibrate, 0, 20)];
    let mut mgr = manager(&features);
    // The first subcommand is fine, the second names a slot that is not there.
    assert!(mgr.update_scalar(&scalar_cmd(&[(0, 0.5), (7, 0.5)]), false).is_err());
    assert_eq!(
        mgr.scalars(),
        vec![Some((ActuatorType::Vibrate, 0)), Some((ActuatorType::Vibrate, 0))]
    );
    // The manager still counts as unused: a first command is handed out in full.
    assert_eq!(
        mgr.update_scalar(&scalar_cmd(&[(0, 0.0), (1, 0.0)]), false).unwrap(),
        vec![Some((ActuatorType::Vibrate, 0)), Some((ActuatorType::Vibrate, 0))]
    );
    assert_eq!(mgr.update_scalar(&scalar_cmd(&[(0, 0.0), (1, 0.0)]), false).unwrap(), vec![]);
}

#[test]
fn slots_count_only_the_features_of_the_command_family() {
    let features = vec![
        battery_feature(),
        rotate_feature(0, 10),
        scalar_feature(FeatureType::Constrict, 0, 5),
        scalar_feature(FeatureType::Inflate, 2, 4),
    ];
    let mut mgr = manager(&features);
    assert_eq!(
        mgr.update_scalar(&scalar_cmd(&[(1, 1.0)]), false).unwrap(),
        vec![None, Some((ActuatorType::Inflate, 4))]
    );
    assert_eq!(
        mgr.update_scalar(&scalar_cmd(&[(0, 1.0)]), true).unwrap(),
        vec![Some((ActuatorType::Constrict, 5)), Some((ActuatorType::Inflate, 4))]
    );
    assert_eq!(mgr.update_rotation(&rotate_cmd(&[(0, 0.25, false)]), false).unwrap(), vec![Some((3, false))]);
    assert!(mgr.update_rotation(&rotate_cmd(&[(1, 0.25, false)]), false).is_err());
}

#[test]
fn rotation_direction_alone_counts_as_a_change() {
    let features = vec![rotate_feature(0, 20), rotate_feature(0, 20)];
    let mut mgr = manager(&features);
    assert_eq!(
        mgr.update_rotation(&rotate_cmd(&[(0, 0.5, true), (1, 0.5, true)]), false).unwrap(),
        vec![Some((10, true)), Some((10, true))]
    );
    assert_eq!(
        mgr.update_rotation(&rotate_cmd(&[(0, 0.5, false)]), false).unwrap(),
        vec![Some((10, false)), None]
    );
    assert_eq!(
        mgr.update_rotation(&rotate_cmd(&[(1, 0.5, false)]), true).unwrap(),
        vec![Some((10, false)), Some((10, false))]
    );
    // Below the threshold the speed is zero and the direction is kept.
    assert_eq!(
        mgr.update_rotation(&rotate_cmd(&[(0, 0.000001, true)]), false).unwrap(),
        vec![Some((0, true)), None]
    );
}

#[test]
fn stop_commands_cover_every_slot_of_each_family() {
    let features = vec![
        scalar_feature(FeatureType::Vibrate, 0, 20),
        rotate_feature(0, 20),
        battery_feature(),
        scalar_feature(FeatureType::Oscillate, 0, 20),
        rotate_feature(0, 20),
        rotate_feature(0, 20),
    ];
    let mgr = manager(&features);
    let zero = level(0.0);
    assert_eq!(
        mgr.stop_commands(),
        vec![
            ButtplugDeviceCommandMessageUnion::ScalarCmd(ScalarCmd::new(
                0,
                vec![
                    ScalarSubcommand::new(0, zero, ActuatorType::Vibrate),
                    ScalarSubcommand::new(1, zero, ActuatorType::Oscillate),
                ]
            )),
            ButtplugDeviceCommandMessageUnion::RotateCmd(RotateCmd::new(
                0,
                vec![
                    RotationSubcommand::new(0, zero, false),
                    RotationSubcommand::new(1, zero, false),
                    RotationSubcommand::new(2, zero, false),
                ]
            )),
        ]
    );
    // Asking for them is no command: the first update is still handed out in full.
    let mut mgr = mgr;
    assert_eq!(
        mgr.update_scalar(&scalar_cmd(&[(0, 0.0)]), false).unwrap(),
        vec![Some((ActuatorType::Vibrate, 0)), None]
    );
}

#[test]
fn stop_commands_leave_out_a_family_without_features() {
    let only_scalar = manager(&vec![scalar_feature(FeatureType::Vibrate, 0, 20)]);
    assert_eq!(
        only_scalar.stop_commands(),
        vec![ButtplugDeviceCommandMessageUnion::ScalarCmd(ScalarCmd::new(
            0,
            vec![ScalarSubcommand::new(0, level(0.0), ActuatorType::Vibrate)]
        ))]
    );
    let only_rotate = manager(&vec![rotate_feature(0, 20)]);
    assert_eq!(
        only_rotate.stop_commands(),
        vec![ButtplugDeviceCommandMessageUnion::RotateCmd(RotateCmd::new(
            0,
            vec![RotationSubcommand::new(0, level(0.0), false)]
        ))]
    );
    let neither = manager(&vec![battery_feature()]);
    assert_eq!(neither.stop_commands(), vec![]);
    let empty = manager(&vec![]);
    assert_eq!(empty.stop_commands(), vec![]);
}

#[test]
fn linear_update_hands_out_nothing() {
    let mgr = manager(&vec![scalar_feature(FeatureType::Position, 0, 20)]);
    let cmd = LinearCmd::new(0, vec![VectorSubcommand::new(0, 500, level(0.5))]);
    assert_eq!(mgr._update_linear(&cmd), Ok(None));
}

#[test]
fn well_formedness_of_features() {
    assert!(scalar_feature(FeatureType::Vibrate, 0, 0).is_well_formed());
    assert!(!scalar_feature(FeatureType::Vibrate, 1, 0).is_well_formed());
    assert!(!scalar_feature(FeatureType::Battery, 0, 20).is_well_formed());
    assert!(battery_feature().is_well_formed());
    assert!(rotate_feature(0, 0).is_well_formed());
    assert!(!rotate_feature(5, 4).is_well_formed());
    // A rotator needs no feature type that names an actuator, and an actuator
    // that takes neither kind of command needs no step range.
    let oddly_typed = DeviceFeature::new(
        "Odd",
        FeatureType::Raw,
        Some(DeviceFeatureActuator::new(
            &StepRange::new(0, 4),
            vec![ButtplugDeviceMessageType::RotateCmd],
        )),
        None,
    );
    assert!(oddly_typed.is_well_formed());
    let mut mgr = manager(&vec![oddly_typed]);
    assert_eq!(mgr.update_rotation(&rotate_cmd(&[(0, 1.0, true)]), true).unwrap(), vec![Some((4, true))]);
    let idle = DeviceFeature::new(
        "Idle",
        FeatureType::Battery,
        Some(DeviceFeatureActuator::new(&StepRange::new(9, 1), vec![ButtplugDeviceMessageType::LinearCmd])),
        None,
    );
    assert!(idle.is_well_formed());
    assert_eq!(manager(&vec![idle]).stop_commands(), vec![]);
}

#[test]
fn first_command_fills_every_slot_it_names_even_with_zero() {
    let features =
        vec![scalar_feature(FeatureType::Vibrate, 0, 20), scalar_feature(FeatureType::Vibrate, 0, 20)];
    let mut mgr = manager(&features);
    assert_eq!(
        mgr.update_scalar(&scalar_cmd(&[(0, 0.5), (1, 0.0)]), false).unwrap(),
        vec![Some((ActuatorType::Vibrate, 10)), Some((ActuatorType::Vibrate, 0))]
    );
    let mut mgr = manager(&vec![rotate_feature(0, 20), rotate_feature(0, 20)]);
    assert_eq!(
        mgr.update_rotation(&rotate_cmd(&[(1, 0.0, false)]), false).unwrap(),
        vec![None, Some((0, false))]
    );
    assert_eq!(mgr.update_rotation(&rotate_cmd(&[(0, 0.0, false)]), false).unwrap(), vec![]);
}

#[test]
fn repeated_command_is_empty_when_subcommands_for_one_slot_agree() {
    let features =
        vec![scalar_feature(FeatureType::Vibrate, 0, 20), scalar_feature(FeatureType::Vibrate, 0, 20)];
    let mut mgr = manager(&features);
    // Both subcommands for the first slot stand for ten steps.
    let agreeing = scalar_cmd(&[(0, 0.5), (1, 0.25), (0, 0.5)]);
    assert_eq!(
        mgr.update_scalar(&agreeing, true).unwrap(),
        vec![Some((ActuatorType::Vibrate, 10)), Some((ActuatorType::Vibrate, 5))]
    );
    assert_eq!(mgr.update_scalar(&agreeing, true).unwrap(), vec![]);
    assert_eq!(mgr.update_scalar(&agreeing, false).unwrap(), vec![]);
}

#[test]
fn repeated_command_is_not_empty_when_subcommands_for_one_slot_differ() {
    let features = vec![scalar_feature(FeatureType::Vibrate, 0, 20)];
    let mut mgr = manager(&features);
    let differing = scalar_cmd(&[(0, 0.5), (0, 0.75)]);
    assert_eq!(mgr.update_scalar(&differing, false).unwrap(), vec![Some((ActuatorType::Vibrate, 15))]);
    assert_eq!(mgr.update_scalar(&differing, false).unwrap(), vec![Some((ActuatorType::Vibrate, 15))]);
    assert_eq!(mgr.scalars(), vec![Some((ActuatorType::Vibrate, 15))]);
}

#[test]
fn match_all_fills_the_slots_that_a_plain_update_leaves_empty() {
    let features = vec![
        scalar_feature(FeatureType::Vibrate, 0, 20),
        scalar_feature(FeatureType::Oscillate, 0, 10),
        scalar_feature(FeatureType::Inflate, 5, 9),
    ];
    let mut plain = manager(&features);
    let mut matched = manager(&features);
    let first = scalar_cmd(&[(0, 0.5), (1, 0.5), (2, 0.5)]);
    assert_eq!(plain.update_scalar(&first, false).unwrap(), matched.update_scalar(&first, true).unwrap());
    let second = scalar_cmd(&[(1, 1.0)]);
    assert_eq!(
        plain.update_scalar(&second, false).unwrap(),
        vec![None, Some((ActuatorType::Oscillate, 10)), None]
    );
    assert_eq!(
        matched.update_scalar(&second, true).unwrap(),
        vec![
            Some((ActuatorType::Vibrate, 10)),
            Some((ActuatorType::Oscillate, 10)),
            Some((ActuatorType::Inflate, 7))
        ]
    );
    assert_eq!(plain.scalars(), matched.scalars());
    assert_eq!(plain.update_scalar(&second, false).unwrap(), vec![]);
    assert_eq!(matched.update_scalar(&second, true).unwrap(), vec![]);
}

#[test]
fn scalar_and_rotation_share_the_cached_step_value_of_a_feature() {
    let both = DeviceFeature::new(
        "Both",
        FeatureType::Rotate,
        Some(DeviceFeatureActuator::new(
            &StepRange::new(0, 20),
            vec![ButtplugDeviceMessageType::ScalarCmd, ButtplugDeviceMessageType::RotateCmd],
        )),
        None,
    );
    let mut mgr = manager(&vec![both]);
    assert_eq!(mgr.update_scalar(&scalar_cmd(&[(0, 0.5)]), false).unwrap(), vec![Some((ActuatorType::Rotate, 10))]);
    // The first rotation is handed out in full, though step value and direction are cached already.
    assert_eq!(mgr.update_rotation(&rotate_cmd(&[(0, 0.5, false)]), false).unwrap(), vec![Some((10, false))]);
    assert_eq!(mgr.update_rotation(&rotate_cmd(&[(0, 0.25, false)]), false).unwrap(), vec![Some((5, false))]);
    assert_eq!(mgr.scalars(), vec![Some((ActuatorType::Rotate, 5))]);
    assert_eq!(mgr.update_scalar(&scalar_cmd(&[(0, 0.25)]), false).unwrap(), vec![]);
}
