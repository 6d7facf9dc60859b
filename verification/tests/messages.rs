use buttplug::double::Double;
use buttplug::errors::{ButtplugDeviceError, ButtplugError, ButtplugMessageError};
use buttplug::message::{
    ActuatorType, BatteryLevelCmdV2, ButtplugActuatorFeatureMessageType, ButtplugClientMessage,
    ButtplugDeviceCommandMessageUnion, ButtplugDeviceMessage, ButtplugDeviceMessageType,
    ButtplugMessage, ButtplugMessageFinalizer, ButtplugMessageSpecVersion,
    ButtplugMessageValidator, ButtplugRawFeatureMessageType, ButtplugSensorFeatureMessageType,
    DeviceRemoved, Endpoint, Error, ErrorCode, ErrorV0, FeatureType, LinearCmd, Log, LogLevel,
    OkV0, Ping, RawReadCmd, RawReading, RawWriteCmd, RequestServerInfo, RotateCmd,
    RotationSubcommand, ScalarCmd, ScalarSubcommand, ScanningFinished, SensorReading, SensorType,
    ServerInfo, ServerInfoV0, SingleMotorVibrateCmd, StopDeviceCmd, VectorSubcommand, VibrateCmd,
    VibrateSubcommand, BUTTPLUG_CURRENT_MESSAGE_SPEC_VERSION, BUTTPLUG_SERVER_EVENT_ID,
};

fn level(value: f64) -> Double {
    Double::from_bits(value.to_bits())
}

fn contents(result: Result<(), ButtplugMessageError>) -> String {
    match result {
        Err(ButtplugMessageError::InvalidMessageContents(text)) => text,
        other => panic!("expected invalid message contents, got {:?}", other),
    }
}

const SYSTEM: &str = "Message should have id of 0, as it is a system message.";
const NOT_SYSTEM: &str =
    "Message should not have 0 for an Id. Id of 0 is reserved for system messages.";

#[test]
fn spec_versions_are_numbered_and_ordered() {
    assert_eq!(ButtplugMessageSpecVersion::Version0.number(), 0);
    assert_eq!(ButtplugMessageSpecVersion::Version3.number(), 3);
    assert_eq!(
        ButtplugMessageSpecVersion::from_number(2),
        Some(ButtplugMessageSpecVersion::Version2)
    );
    assert_eq!(ButtplugMessageSpecVersion::from_number(4), None);
    assert!(ButtplugMessageSpecVersion::Version1 < ButtplugMessageSpecVersion::Version2);
    assert_eq!(BUTTPLUG_CURRENT_MESSAGE_SPEC_VERSION, ButtplugMessageSpecVersion::Version3);
    assert_eq!(BUTTPLUG_SERVER_EVENT_ID, 0);
}

#[test]
fn client_requests_start_with_a_client_id() {
    let ping = Ping::new();
    assert_eq!(ping.id(), 1);
    assert!(!ping.is_server_event());
    assert_eq!(ping.is_valid(), Ok(()));
    let battery = BatteryLevelCmdV2::new(3);
    assert_eq!(battery.id(), 1);
    assert_eq!(battery.device_index(), 3);
    assert_eq!(battery.is_valid(), Ok(()));
}

#[test]
fn client_request_with_the_event_id_is_rejected() {
    let mut ping = Ping::new();
    ping.set_id(0);
    assert!(ping.is_server_event());
    assert_eq!(contents(ping.is_valid()), NOT_SYSTEM);
    let mut battery = BatteryLevelCmdV2::new(3);
    battery.set_id(0);
    assert_eq!(contents(battery.is_valid()), NOT_SYSTEM);
    battery.set_id(9);
    assert_eq!(battery.is_valid(), Ok(()));
    assert_eq!(battery, {
        let mut other = BatteryLevelCmdV2::new(3);
        other.set_id(9);
        other
    });
}

#[test]
fn server_events_carry_the_event_id() {
    let removed = DeviceRemoved::new(4);
    assert_eq!(removed.id(), 0);
    assert_eq!(removed.device_index(), 4);
    assert_eq!(removed.is_valid(), Ok(()));
    let mut finished = ScanningFinished::new();
    assert_eq!(finished.is_valid(), Ok(()));
    finished.set_id(5);
    assert_eq!(contents(finished.is_valid()), SYSTEM);
    let log = Log::new(LogLevel::Warn, "careful");
    assert_eq!(log.log_message(), "careful");
    assert_eq!(log.is_valid(), Ok(()));
}

#[test]
fn replies_take_the_id_of_their_request() {
    let ok = OkV0::new(7);
    assert_eq!(ok.id(), 7);
    assert_eq!(ok.is_valid(), Ok(()));
    assert_eq!(contents(OkV0::new(0).is_valid()), NOT_SYSTEM);
    let mut info = ServerInfo::new(ButtplugMessageSpecVersion::Version3, 500, "server");
    assert_eq!(contents(info.is_valid()), NOT_SYSTEM);
    info.set_id(1);
    assert_eq!(info.is_valid(), Ok(()));
    assert_eq!(info.server_name(), "server");
    assert_eq!(info.max_ping_time(), 500);
}

#[test]
fn errors_and_readings_are_valid_with_any_id() {
    let mut error = Error::new(ErrorCode::ErrorDevice, "broken");
    assert_eq!(error.is_valid(), Ok(()));
    error.set_id(12);
    assert_eq!(error.is_valid(), Ok(()));
    let mut reading = RawReading::new(0, Endpoint::Rx, vec![1, 2, 3]);
    assert_eq!(reading.is_valid(), Ok(()));
    reading.set_id(12);
    assert_eq!(reading.is_valid(), Ok(()));
    let reading = SensorReading::new(1, 2, SensorType::Pressure, vec![-5]);
    assert_eq!(reading.is_valid(), Ok(()));
    assert_eq!(reading.data(), &vec![-5]);
}

#[test]
fn id_checks_of_the_validator() {
    let ping = Ping::new();
    assert_eq!(ping.is_system_id(0), Ok(()));
    assert_eq!(contents(ping.is_system_id(1)), SYSTEM);
    assert_eq!(ping.is_not_system_id(u32::MAX), Ok(()));
    assert_eq!(contents(ping.is_not_system_id(0)), NOT_SYSTEM);
}

#[test]
fn command_range_check_of_the_validator() {
    let ping = Ping::new();
    assert_eq!(ping.is_in_command_range(level(0.0), "bad".to_string()), Ok(()));
    assert_eq!(ping.is_in_command_range(level(1.0), "bad".to_string()), Ok(()));
    assert_eq!(ping.is_in_command_range(level(-0.0), "bad".to_string()), Ok(()));
    assert_eq!(contents(ping.is_in_command_range(level(1.1), "too much".to_string())), "too much");
    assert_eq!(contents(ping.is_in_command_range(level(-0.1), "too little".to_string())), "too little");
    assert_eq!(contents(ping.is_in_command_range(level(f64::NAN), "no number".to_string())), "no number");
}

#[test]
fn scalar_command_names_the_first_value_out_of_range() {
    let msg = ScalarCmd::new(
        0,
        vec![
            ScalarSubcommand::new(0, level(0.5), ActuatorType::Vibrate),
            ScalarSubcommand::new(4, level(1.5), ActuatorType::Vibrate),
            ScalarSubcommand::new(9, level(-1.0), ActuatorType::Vibrate),
        ],
    );
    assert_eq!(
        contents(msg.is_valid()),
        "ScalarCmd value for index 4 is invalid. The value should be between 0.0 and 1.0."
    );
    let mut msg = ScalarCmd::new(0, vec![ScalarSubcommand::new(4, level(1.5), ActuatorType::Vibrate)]);
    msg.set_id(0);
    assert_eq!(contents(msg.is_valid()), NOT_SYSTEM);
    let msg = ScalarCmd::new(0, vec![ScalarSubcommand::new(4, level(1.0), ActuatorType::Vibrate)]);
    assert_eq!(msg.is_valid(), Ok(()));
    assert_eq!(ScalarCmd::new(0, vec![]).is_valid(), Ok(()));
}

#[test]
fn other_commands_check_their_values_too() {
    let msg = VibrateCmd::new(0, vec![VibrateSubcommand::new(12, level(2.0))]);
    assert_eq!(
        contents(msg.is_valid()),
        "VibrateCmd value for index 12 is invalid. The value should be between 0.0 and 1.0."
    );
    let msg = RotateCmd::new(0, vec![RotationSubcommand::new(0, level(f64::NAN), true)]);
    assert_eq!(
        contents(msg.is_valid()),
        "RotateCmd value for index 0 is invalid. The value should be between 0.0 and 1.0."
    );
    let msg = LinearCmd::new(0, vec![VectorSubcommand::new(3, 100, level(-0.5))]);
    assert_eq!(
        contents(msg.is_valid()),
        "LinearCmd value for index 3 is invalid. The value should be between 0.0 and 1.0."
    );
    assert_eq!(LinearCmd::new(0, vec![VectorSubcommand::new(3, 100, level(0.5))]).is_valid(), Ok(()));
    let msg = SingleMotorVibrateCmd::new(0, level(1.25));
    assert_eq!(
        contents(msg.is_valid()),
        "SingleMotorVibrateCmd value for index 0 is invalid. The value should be between 0.0 and 1.0."
    );
    assert_eq!(SingleMotorVibrateCmd::new(0, level(0.25)).is_valid(), Ok(()));
}

#[test]
fn constructors_keep_what_they_are_given() {
    let write = RawWriteCmd::new(2, Endpoint::Tx, &[1, 2, 3], true);
    assert_eq!(write.device_index(), 2);
    assert_eq!(write.endpoint(), Endpoint::Tx);
    assert_eq!(write.data(), &vec![1, 2, 3]);
    assert!(write.write_with_response());
    let read = RawReadCmd::new(2, Endpoint::Rx, 16, 250);
    assert_eq!((read.expected_length(), read.timeout()), (16, 250));
    let hello = RequestServerInfo::new("client", ButtplugMessageSpecVersion::Version2);
    assert_eq!(hello.client_name(), "client");
    assert_eq!(hello.message_version(), ButtplugMessageSpecVersion::Version2);
    let sub = ScalarSubcommand::new(1, level(0.5), ActuatorType::Inflate);
    assert_eq!((sub.index(), sub.scalar(), sub.actuator_type()), (1, level(0.5), ActuatorType::Inflate));
    let vector = VectorSubcommand::new(1, 500, level(0.5));
    assert_eq!((vector.index(), vector.duration(), vector.position()), (1, 500, level(0.5)));
}

#[test]
fn finalize_leaves_plain_messages_alone() {
    let mut stop = StopDeviceCmd::new(6);
    let before = stop.clone();
    stop.finalize();
    assert_eq!(stop, before);
    let mut msg = ButtplugClientMessage::StopDeviceCmd(stop);
    msg.finalize();
    assert_eq!(msg, ButtplugClientMessage::StopDeviceCmd(before));
}

#[test]
fn message_sets_pass_ids_and_validity_through() {
    let mut msg = ButtplugClientMessage::Ping(Ping::new());
    assert_eq!(msg.id(), 1);
    msg.set_id(44);
    assert_eq!(msg, {
        let mut ping = Ping::new();
        ping.set_id(44);
        ButtplugClientMessage::Ping(ping)
    });
    msg.set_id(0);
    assert_eq!(contents(msg.is_valid()), NOT_SYSTEM);
    let mut cmd = ButtplugDeviceCommandMessageUnion::StopDeviceCmd(StopDeviceCmd::new(6));
    assert_eq!(cmd.device_index(), 6);
    cmd.set_device_index(8);
    assert_eq!(cmd.device_index(), 8);
    assert_eq!(cmd.id(), 1);
    let bad = ButtplugDeviceCommandMessageUnion::ScalarCmd(ScalarCmd::new(
        0,
        vec![ScalarSubcommand::new(0, level(7.0), ActuatorType::Vibrate)],
    ));
    assert!(bad.is_valid().is_err());
}

#[test]
fn error_of_versions_0_and_1_keeps_everything() {
    let mut error = Error::new(ErrorCode::ErrorPing, "late");
    error.set_id(3);
    let old = ErrorV0::from(error);
    assert_eq!(old.id(), 3);
    assert_eq!(old.error_code(), ErrorCode::ErrorPing);
    assert_eq!(old.error_message(), "late");
    let mut info = ServerInfo::new(ButtplugMessageSpecVersion::Version1, 100, "server");
    info.set_id(2);
    let old = ServerInfoV0::from(info);
    assert_eq!(
        (old.id(), old.major_version(), old.minor_version(), old.build_version()),
        (2, 0, 0, 0)
    );
    assert_eq!(old.message_version(), ButtplugMessageSpecVersion::Version1);
    assert_eq!(old.max_ping_time(), 100);
    assert_eq!(old.server_name(), "server");
}

#[test]
fn error_messages_become_errors_of_their_class() {
    assert_eq!(
        ButtplugError::from(Error::new(ErrorCode::ErrorDevice, "a")),
        ButtplugError::ButtplugDeviceError(ButtplugDeviceError::UntypedDeserializedError("a".into()))
    );
    assert_eq!(
        ButtplugError::from(Error::new(ErrorCode::ErrorMessage, "b")),
        ButtplugError::ButtplugMessageError(ButtplugMessageError::UntypedDeserializedError("b".into()))
    );
    assert_eq!(
        ButtplugError::from(Error::new(ErrorCode::ErrorHandshake, "c")),
        ButtplugError::ButtplugHandshakeError("c".into())
    );
    assert_eq!(
        ButtplugError::from(Error::new(ErrorCode::ErrorPing, "d")),
        ButtplugError::ButtplugPingError("d".into())
    );
    let unknown = ButtplugError::from(Error::new(ErrorCode::ErrorUnknown, "e"));
    assert_eq!(unknown, ButtplugError::ButtplugUnknownError("e".into()));
    assert_eq!(unknown.description(), "e");
    assert_eq!(
        ButtplugMessageError::VersionError("a".into(), "b".into(), "c".into()).description(),
        "b"
    );
    assert_eq!(ButtplugDeviceError::UnhandledCommand("x".into()).description(), "x");
}

#[test]
fn device_message_types_of_the_feature_commands() {
    assert_eq!(
        ButtplugDeviceMessageType::from(ButtplugActuatorFeatureMessageType::ScalarCmd),
        ButtplugDeviceMessageType::ScalarCmd
    );
    assert_eq!(
        ButtplugDeviceMessageType::from(ButtplugActuatorFeatureMessageType::LinearCmd),
        ButtplugDeviceMessageType::LinearCmd
    );
    assert_eq!(
        ButtplugActuatorFeatureMessageType::try_from(ButtplugDeviceMessageType::RotateCmd),
        Ok(ButtplugActuatorFeatureMessageType::RotateCmd)
    );
    assert_eq!(
        ButtplugActuatorFeatureMessageType::try_from(ButtplugDeviceMessageType::RawReadCmd),
        Err(())
    );
    assert_eq!(
        ButtplugActuatorFeatureMessageType::try_from(ButtplugDeviceMessageType::SensorSubscribeCmd),
        Err(())
    );
    assert_eq!(
        ButtplugSensorFeatureMessageType::try_from(ButtplugDeviceMessageType::SensorSubscribeCmd),
        Ok(ButtplugSensorFeatureMessageType::SensorSubscribeCmd)
    );
    assert_eq!(
        ButtplugSensorFeatureMessageType::try_from(ButtplugDeviceMessageType::SensorUnsubscribeCmd),
        Err(())
    );
    assert_eq!(
        ButtplugDeviceMessageType::from_sensor_message_type(
            ButtplugSensorFeatureMessageType::SensorReadCmd
        ),
        ButtplugDeviceMessageType::SensorReadCmd
    );
    assert_eq!(
        ButtplugRawFeatureMessageType::try_from(ButtplugDeviceMessageType::RawWriteCmd),
        Ok(ButtplugRawFeatureMessageType::RawWriteCmd)
    );
    assert_eq!(
        ButtplugRawFeatureMessageType::try_from(ButtplugDeviceMessageType::RawUnsubscribeCmd),
        Err(())
    );
    assert_eq!(
        ButtplugDeviceMessageType::from_raw_message_type(
            ButtplugRawFeatureMessageType::RawSubscribeCmd
        ),
        ButtplugDeviceMessageType::RawSubscribeCmd
    );
}

fn all_device_message_types() -> Vec<ButtplugDeviceMessageType> {
    vec![
        ButtplugDeviceMessageType::VibrateCmd,
        ButtplugDeviceMessageType::LinearCmd,
        ButtplugDeviceMessageType::RotateCmd,
        ButtplugDeviceMessageType::StopDeviceCmd,
        ButtplugDeviceMessageType::RawWriteCmd,
        ButtplugDeviceMessageType::RawReadCmd,
        ButtplugDeviceMessageType::RawSubscribeCmd,
        ButtplugDeviceMessageType::RawUnsubscribeCmd,
        ButtplugDeviceMessageType::BatteryLevelCmd,
        ButtplugDeviceMessageType::RSSILevelCmd,
        ButtplugDeviceMessageType::ScalarCmd,
        ButtplugDeviceMessageType::SensorReadCmd,
        ButtplugDeviceMessageType::SensorSubscribeCmd,
        ButtplugDeviceMessageType::SensorUnsubscribeCmd,
        ButtplugDeviceMessageType::SingleMotorVibrateCmd,
        ButtplugDeviceMessageType::FleshlightLaunchFW12Cmd,
        ButtplugDeviceMessageType::LovenseCmd,
        ButtplugDeviceMessageType::KiirooCmd,
        ButtplugDeviceMessageType::VorzeA10CycloneCmd,
    ]
}

#[test]
fn device_message_types_are_ordered_by_their_names() {
    let all = all_device_message_types();
    for a in &all {
        assert_eq!(a.name(), format!("{:?}", a));
        for b in &all {
            assert_eq!(a.precedes(b), a.name() < b.name(), "{:?} {:?}", a, b);
            assert_eq!(a.rank() == b.rank(), a == b);
        }
    }
    let mut by_rank = all.clone();
    by_rank.sort_by_key(|t| t.rank());
    let mut by_name = all.clone();
    by_name.sort_by_key(|t| t.name());
    assert_eq!(by_rank, by_name);
    assert_eq!(by_rank[0], ButtplugDeviceMessageType::BatteryLevelCmd);
    assert_eq!(by_rank[18], ButtplugDeviceMessageType::VorzeA10CycloneCmd);
}

#[test]
fn feature_types_and_the_kinds_of_actuators_and_sensors() {
    for kind in [
        ActuatorType::Unknown,
        ActuatorType::Vibrate,
        ActuatorType::Rotate,
        ActuatorType::Oscillate,
        ActuatorType::Constrict,
        ActuatorType::Inflate,
        ActuatorType::Position,
    ] {
        assert_eq!(ActuatorType::try_from(FeatureType::from_actuator_type(kind)), Ok(kind));
    }
    for kind in [
        SensorType::Unknown,
        SensorType::Battery,
        SensorType::RSSI,
        SensorType::Button,
        SensorType::Pressure,
    ] {
        assert_eq!(SensorType::try_from(FeatureType::from_sensor_type(kind)), Ok(kind));
    }
    assert_eq!(ActuatorType::try_from(FeatureType::Battery), Err(()));
    assert_eq!(ActuatorType::try_from(FeatureType::Raw), Err(()));
    assert_eq!(SensorType::try_from(FeatureType::Vibrate), Err(()));
    assert_eq!(SensorType::try_from(FeatureType::Raw), Err(()));
}
