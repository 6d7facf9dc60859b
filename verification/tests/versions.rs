use buttplug::errors::ButtplugMessageError;
use buttplug::message::{
    ActuatorType, BatteryLevelCmdV2, BatteryLevelReading, ButtplugClientMessage,
    ButtplugDeviceCommandMessageUnion, ButtplugDeviceManagerMessageUnion, ButtplugDeviceMessageType,
    ButtplugMessage, ButtplugMessageFinalizer, ButtplugMessageSpecVersion, ButtplugServerDeviceMessage,
    ButtplugServerMessage, ButtplugSpecV0ClientMessage, ButtplugSpecV0ServerMessage,
    ButtplugSpecV1ClientMessage, ButtplugSpecV1ServerMessage, ButtplugSpecV2ClientMessage,
    ButtplugSpecV2ServerMessage, ButtplugSpecV3ClientMessage, ButtplugSpecV3ServerMessage,
    ButtplugSpecV4ClientMessage, ButtplugSpecV4ServerMessage, ClientActuatorInfo,
    ClientDeviceMessageAttributes, ClientDeviceMessageAttributesV1, ClientDeviceMessageAttributesV2,
    ClientGenericDeviceMessageAttributes, DeviceAdded, DeviceAddedV0, DeviceAddedV1, DeviceAddedV2,
    DeviceAddedV3, DeviceList, DeviceListV0, DeviceListV1, DeviceListV2, DeviceListV3,
    DeviceMessageInfo, DeviceMessageInfoV0, DeviceMessageInfoV1, DeviceMessageInfoV2,
    DeviceMessageInfoV3, DeviceRemoved, Endpoint, Error, ErrorCode, ErrorV0,
    GenericDeviceMessageAttributesV1, GenericDeviceMessageAttributesV2, Log, LogLevel,
    NullDeviceMessageAttributes, OkV0, Ping, RawDeviceMessageAttributes, RawReading, RequestLog,
    RSSILevelReading, ScanningFinished, SensorDeviceMessageAttributes, SensorInfo, SensorRange,
    SensorReading, SensorType, ServerActuatorInfo, ServerInfo, ServerInfoV0, StartScanning,
    StepRange, StopDeviceCmd, Test,
};
use buttplug::double::Double;

fn version_error<T: std::fmt::Debug>(
    result: Result<T, ButtplugMessageError>,
) -> (String, String, String) {
    match result {
        Err(ButtplugMessageError::VersionError(source, message, target)) => (source, message, target),
        other => panic!("expected a version error, got {:?}", other),
    }
}

fn attributes() -> ClientDeviceMessageAttributes {
    let mut attributes = ClientDeviceMessageAttributes::empty();
    attributes.scalar_cmd = Some(vec![
        ClientGenericDeviceMessageAttributes::new("Motor", 20, ActuatorType::Vibrate),
        ClientGenericDeviceMessageAttributes::new("Pump", 5, ActuatorType::Inflate),
        ClientGenericDeviceMessageAttributes::new("Tip", 10, ActuatorType::Vibrate),
    ]);
    attributes.rotate_cmd =
        Some(vec![ClientGenericDeviceMessageAttributes::new("Head", 8, ActuatorType::Rotate)]);
    attributes.sensor_read_cmd = Some(vec![
        SensorDeviceMessageAttributes::new("Cell", SensorType::Battery, vec![SensorRange::new(0, 100)]),
        SensorDeviceMessageAttributes::new("Grip", SensorType::Pressure, vec![SensorRange::new(0, 9)]),
    ]);
    attributes.raw_subscribe_cmd =
        Some(RawDeviceMessageAttributes::new(vec![Endpoint::Rx, Endpoint::RxPressure]));
    attributes.fleshlight_launch_fw12_cmd = Some(NullDeviceMessageAttributes {});
    attributes
}

fn added_v3() -> DeviceAddedV3 {
    DeviceAddedV3::new(5, "Device", &Some("Mine".to_string()), &Some(25), attributes())
}

#[test]
fn finalizing_numbers_the_entries_of_every_list() {
    let added = added_v3();
    let scalar = added.device_messages().scalar_cmd().as_ref().unwrap();
    assert_eq!(scalar.iter().map(|a| a.index()).collect::<Vec<_>>(), vec![0, 1, 2]);
    assert_eq!(scalar[1].feature_descriptor(), "Pump");
    assert_eq!(scalar[1].step_count(), 5);
    assert_eq!(scalar[1].actuator_type(), ActuatorType::Inflate);
    let sensors = added.device_messages().sensor_read_cmd().as_ref().unwrap();
    assert_eq!(sensors.iter().map(|a| a.index()).collect::<Vec<_>>(), vec![0, 1]);
    assert_eq!(sensors[1].sensor_range(), &vec![SensorRange::new(0, 9)]);
    assert_eq!(added.device_messages().linear_cmd(), &None);
    assert_eq!(added.id(), 0);
    assert_eq!(added.device_index(), 5);
    assert_eq!(added.device_name(), "Device");
    assert_eq!(added.device_display_name(), &Some("Mine".to_string()));
    assert_eq!(added.device_message_timing_gap(), &Some(25));
    let mut again = added.clone();
    again.finalize();
    assert_eq!(again, added);
}

#[test]
fn finalizing_a_message_set_reaches_the_devices_inside() {
    let mut unnumbered = attributes();
    unnumbered.scalar_cmd.as_mut().unwrap()[2].index = 77;
    let mut list = ButtplugSpecV3ServerMessage::DeviceList(DeviceListV3::new(vec![
        DeviceMessageInfoV3::new(1, "A", &None, &None, unnumbered),
    ]));
    list.finalize();
    match &list {
        ButtplugSpecV3ServerMessage::DeviceList(list) => {
            assert_eq!(list.devices()[0].device_messages().scalar_cmd().as_ref().unwrap()[2].index(), 2);
        }
        other => panic!("{:?}", other),
    }
    let mut ok = ButtplugServerMessage::OkV0(OkV0::new(3));
    ok.finalize();
    assert_eq!(ok, ButtplugServerMessage::OkV0(OkV0::new(3)));
}

#[test]
fn version_2_counts_vibrators_and_reads_the_battery() {
    let v2 = ClientDeviceMessageAttributesV2::from(attributes());
    assert_eq!(v2.vibrate_cmd(), &Some(GenericDeviceMessageAttributesV2::new(2, vec![20, 10])));
    assert_eq!(v2.rotate_cmd(), &Some(GenericDeviceMessageAttributesV2::new(1, vec![8])));
    assert_eq!(v2.linear_cmd(), &None);
    assert_eq!(v2.battery_level_cmd(), &Some(NullDeviceMessageAttributes {}));
    assert_eq!(v2.rssi_level_cmd(), &None);
    assert_eq!(v2.raw_read_cmd(), &None);
    assert_eq!(v2.raw_write_cmd(), &None);
    let channels = Some(RawDeviceMessageAttributes::new(vec![Endpoint::Rx, Endpoint::RxPressure]));
    assert_eq!(v2.raw_subscribe_cmd(), &channels);
    assert_eq!(v2.raw_unsubscribe_cmd(), &channels);
    assert_eq!(v2.fleshlight_launch_fw12_cmd(), &Some(NullDeviceMessageAttributes {}));
    assert_eq!(v2.vorze_a10_cyclone_cmd(), &None);
}

#[test]
fn version_2_without_vibrators_has_no_vibrate_command() {
    let mut attributes = ClientDeviceMessageAttributes::empty();
    attributes.scalar_cmd =
        Some(vec![ClientGenericDeviceMessageAttributes::new("Pump", 5, ActuatorType::Inflate)]);
    attributes.linear_cmd = Some(vec![]);
    attributes.sensor_read_cmd =
        Some(vec![SensorDeviceMessageAttributes::new("Radio", SensorType::RSSI, vec![])]);
    let v2 = ClientDeviceMessageAttributesV2::from(attributes);
    assert_eq!(v2.vibrate_cmd(), &None);
    assert_eq!(v2.linear_cmd(), &Some(GenericDeviceMessageAttributesV2::new(0, vec![])));
    assert_eq!(v2.battery_level_cmd(), &None);
    assert_eq!(v2.rssi_level_cmd(), &Some(NullDeviceMessageAttributes {}));
    let v1 = ClientDeviceMessageAttributesV1::from(v2);
    assert_eq!(v1.vibrate_cmd(), &None);
    assert_eq!(v1.single_motor_vibrate_cmd(), &None);
    assert_eq!(v1.linear_cmd(), &Some(GenericDeviceMessageAttributesV1::new(0)));
}

#[test]
fn version_1_keeps_the_counts() {
    let v1 = ClientDeviceMessageAttributesV1::from(ClientDeviceMessageAttributesV2::from(attributes()));
    assert_eq!(v1.vibrate_cmd(), &Some(GenericDeviceMessageAttributesV1::new(2)));
    assert_eq!(v1.rotate_cmd(), &Some(GenericDeviceMessageAttributesV1::new(1)));
    assert_eq!(v1.linear_cmd(), &None);
    assert_eq!(v1.single_motor_vibrate_cmd(), &Some(NullDeviceMessageAttributes {}));
    assert_eq!(v1.fleshlight_launch_fw12_cmd(), &Some(NullDeviceMessageAttributes {}));
    assert_eq!(v1.vorze_a10_cyclone_cmd(), &None);
}

#[test]
fn version_0_names_commands_in_the_order_of_their_names() {
    let v0 = DeviceMessageInfoV0::from_device_added(added_v3());
    assert_eq!(v0.device_index(), 5);
    assert_eq!(v0.device_name(), "Device");
    assert_eq!(
        v0.device_messages(),
        &vec![
            ButtplugDeviceMessageType::FleshlightLaunchFW12Cmd,
            ButtplugDeviceMessageType::SingleMotorVibrateCmd,
            ButtplugDeviceMessageType::StopDeviceCmd,
        ]
    );
    let mut everything = ClientDeviceMessageAttributesV1::from(ClientDeviceMessageAttributesV2::from(
        attributes(),
    ));
    everything.vorze_a10_cyclone_cmd = Some(NullDeviceMessageAttributes {});
    let v0 = DeviceMessageInfoV0::from(DeviceMessageInfoV1 {
        device_index: 1,
        device_name: "All".to_string(),
        device_messages: everything,
    });
    let mut sorted = v0.device_messages().clone();
    sorted.sort_by_key(|t| format!("{:?}", t));
    assert_eq!(v0.device_messages(), &sorted);
    assert_eq!(v0.device_messages().len(), 4);
    let nothing = DeviceMessageInfoV0::from(DeviceMessageInfoV1 {
        device_index: 1,
        device_name: "None".to_string(),
        device_messages: ClientDeviceMessageAttributesV1::from(ClientDeviceMessageAttributesV2::from(
            ClientDeviceMessageAttributes::empty(),
        )),
    });
    assert_eq!(nothing.device_messages(), &vec![ButtplugDeviceMessageType::StopDeviceCmd]);
}

#[test]
fn device_added_goes_down_version_by_version() {
    let mut added = added_v3();
    added.set_id(0);
    let v2 = DeviceAddedV2::from_v3(added.clone());
    assert_eq!((v2.id(), v2.device_index()), (0, 5));
    assert_eq!(v2.device_name(), "Device");
    assert_eq!(v2.device_messages(), &ClientDeviceMessageAttributesV2::from(attributes()));
    let v1 = DeviceAddedV1::from_v3(added.clone());
    assert_eq!(
        v1.device_messages(),
        &ClientDeviceMessageAttributesV1::from(ClientDeviceMessageAttributesV2::from(attributes()))
    );
    assert_eq!(v1.device_name(), "Device");
    let v0 = DeviceAddedV0::from_v3(added.clone());
    assert_eq!(v0.device_messages().len(), 3);
    assert_eq!(v0.device_index(), 5);
    assert_eq!(DeviceMessageInfoV2::from_device_added_v2(v2.clone()).device_messages(), v2.device_messages());
    assert_eq!(DeviceMessageInfoV3::from_device_added(added.clone()).device_messages(), added.device_messages());
    assert_eq!(DeviceMessageInfoV1::from_device_added(added).device_messages(), v1.device_messages());
}

fn latest_added() -> DeviceAdded {
    DeviceAdded::new(
        9,
        "Latest",
        &None,
        &Some(50),
        Some(vec![
            ServerActuatorInfo::new("Motor", ActuatorType::Vibrate, &StepRange::new(0, 20)),
            ServerActuatorInfo::new("Pump", ActuatorType::Inflate, &StepRange::new(10, 15)),
        ]),
        Some(vec![
            SensorInfo::new(0, "Cell", SensorType::Battery, vec![SensorRange::new(0, 100)], true, false),
            SensorInfo::new(1, "Grip", SensorType::Pressure, vec![SensorRange::new(0, 9)], false, true),
            SensorInfo::new(2, "Both", SensorType::Button, vec![SensorRange::new(0, 1)], true, true),
        ]),
        Some(vec![Endpoint::Tx, Endpoint::Rx]),
    )
}

#[test]
fn version_4_goes_down_to_version_3() {
    let latest = latest_added();
    assert_eq!(latest.id(), 0);
    assert_eq!(latest.is_server_event(), true);
    assert_eq!(latest.actuators().as_ref().unwrap()[1].step_range(), &StepRange::new(10, 15));
    assert_eq!(latest.actuators().as_ref().unwrap()[1].step_count(), 5);
    let info = DeviceMessageInfo::from(latest.clone());
    assert_eq!((info.index(), info.name().as_str()), (9, "Latest"));
    assert_eq!(info.sensors(), latest.sensors());
    let v3 = DeviceAddedV3::from(latest.clone());
    assert_eq!((v3.id(), v3.device_index()), (0, 9));
    assert_eq!(v3.device_name(), "Latest");
    assert_eq!(v3.device_display_name(), &None);
    assert_eq!(v3.device_message_timing_gap(), &Some(50));
    let messages = v3.device_messages();
    let mut motor = ClientGenericDeviceMessageAttributes::new("Motor", 20, ActuatorType::Vibrate);
    motor.index = 0;
    let mut pump = ClientGenericDeviceMessageAttributes::new("Pump", 5, ActuatorType::Inflate);
    pump.index = 1;
    assert_eq!(messages.scalar_cmd(), &Some(vec![motor, pump]));
    assert_eq!(messages.rotate_cmd(), &None);
    assert_eq!(messages.linear_cmd(), &None);
    let read = messages.sensor_read_cmd().as_ref().unwrap();
    assert_eq!(read.iter().map(|s| s.feature_descriptor().as_str()).collect::<Vec<_>>(), vec!["Cell", "Both"]);
    assert_eq!(read.iter().map(|s| s.index()).collect::<Vec<_>>(), vec![0, 1]);
    let subscribe = messages.sensor_subscribe_cmd().as_ref().unwrap();
    assert_eq!(
        subscribe.iter().map(|s| (s.feature_descriptor().as_str(), s.sensor_type())).collect::<Vec<_>>(),
        vec![("Grip", SensorType::Pressure), ("Both", SensorType::Button)]
    );
    let channels = Some(RawDeviceMessageAttributes::new(vec![Endpoint::Tx, Endpoint::Rx]));
    assert_eq!(messages.raw_read_cmd(), &channels);
    assert_eq!(messages.raw_write_cmd(), &channels);
    assert_eq!(messages.raw_subscribe_cmd(), &channels);
    let v2 = DeviceAddedV2::from(latest.clone());
    assert_eq!(v2.device_messages().vibrate_cmd(), &Some(GenericDeviceMessageAttributesV2::new(1, vec![20])));
    assert_eq!(v2.device_messages().battery_level_cmd(), &Some(NullDeviceMessageAttributes {}));
    let v1 = DeviceAddedV1::from(latest.clone());
    assert_eq!(v1.device_messages().vibrate_cmd(), &Some(GenericDeviceMessageAttributesV1::new(1)));
    let v0 = DeviceAddedV0::from(latest);
    assert_eq!(
        v0.device_messages(),
        &vec![ButtplugDeviceMessageType::SingleMotorVibrateCmd, ButtplugDeviceMessageType::StopDeviceCmd]
    );
}

#[test]
fn device_without_lists_has_nothing_to_say_in_version_3() {
    let bare = DeviceAdded::new(1, "Bare", &None, &None, None, None, None);
    let v3 = DeviceAddedV3::from(bare);
    assert_eq!(v3.device_messages(), &ClientDeviceMessageAttributes::empty());
    let reversed = ServerActuatorInfo::new("Odd", ActuatorType::Vibrate, &StepRange::new(5, 1));
    assert_eq!(reversed.step_count(), 0);
    let info = ClientActuatorInfo::new(3, "Motor", ActuatorType::Vibrate, &vec![ButtplugDeviceMessageType::ScalarCmd], 20);
    assert_eq!((info.index(), info.descriptor().as_str(), info.actuator_type(), info.step_count()), (3, "Motor", ActuatorType::Vibrate, 20));
}

#[test]
fn device_lists_go_down_device_by_device() {
    let first = DeviceMessageInfoV3::from_device_added(added_v3());
    let second = DeviceMessageInfoV3::new(6, "Other", &None, &None, ClientDeviceMessageAttributes::empty());
    let mut list = DeviceListV3::new(vec![first.clone(), second.clone()]);
    list.set_id(4);
    let v2 = DeviceListV2::from_v3(list.clone());
    assert_eq!(v2.id(), 4);
    assert_eq!(v2.devices(), &vec![DeviceMessageInfoV2::from(first.clone()), DeviceMessageInfoV2::from(second.clone())]);
    let v1 = DeviceListV1::from_v3(list.clone());
    assert_eq!(v1.devices()[1], DeviceMessageInfoV1::from(DeviceMessageInfoV2::from(second.clone())));
    assert_eq!(v1.devices().len(), 2);
    let v0 = DeviceListV0::from_v3(list.clone());
    assert_eq!(v0.devices()[1].device_messages(), &vec![ButtplugDeviceMessageType::StopDeviceCmd]);
    assert_eq!(v0.devices()[0].device_messages().len(), 3);
    assert_eq!(v0.id(), 4);
    let latest = DeviceList::new(vec![DeviceMessageInfo::from(latest_added())]);
    assert_eq!(latest.id(), 1);
    let v3 = DeviceListV3::from(latest.clone());
    assert_eq!(v3.devices()[0], DeviceMessageInfoV3::from(DeviceMessageInfo::from(latest_added())));
    assert_eq!(DeviceListV2::from(latest.clone()).devices().len(), 1);
    assert_eq!(DeviceListV1::from(latest.clone()).devices()[0].device_name(), "Latest");
    assert_eq!(DeviceListV0::from(latest).devices()[0].device_index(), 9);
    assert_eq!(DeviceListV3::new(vec![]).devices().len(), 0);
}

fn every_server_message() -> Vec<ButtplugServerMessage> {
    let level = Double::from_bits(0.5f64.to_bits());
    vec![
        ButtplugServerMessage::OkV0(OkV0::new(1)),
        ButtplugServerMessage::Error(Error::new(ErrorCode::ErrorDevice, "broken")),
        ButtplugServerMessage::Test(Test::new("test")),
        ButtplugServerMessage::Log(Log::new(LogLevel::Info, "log")),
        ButtplugServerMessage::ServerInfo(ServerInfo::new(ButtplugMessageSpecVersion::Version2, 0, "server")),
        ButtplugServerMessage::DeviceList(DeviceListV3::new(vec![DeviceMessageInfoV3::from_device_added(added_v3())])),
        ButtplugServerMessage::DeviceAdded(added_v3()),
        ButtplugServerMessage::DeviceRemoved(DeviceRemoved::new(5)),
        ButtplugServerMessage::ScanningFinished(ScanningFinished::new()),
        ButtplugServerMessage::RawReading(RawReading::new(5, Endpoint::Rx, vec![1])),
        ButtplugServerMessage::SensorReading(SensorReading::new(5, 0, SensorType::Battery, vec![80])),
        ButtplugServerMessage::BatteryLevelReading(BatteryLevelReading::new(5, level)),
        ButtplugServerMessage::RSSILevelReading(RSSILevelReading::new(5, -40)),
    ]
}

#[test]
fn version_3_takes_what_it_has_unchanged() {
    let expected: Vec<Option<ButtplugSpecV3ServerMessage>> = vec![
        Some(ButtplugSpecV3ServerMessage::OkV0(OkV0::new(1))),
        Some(ButtplugSpecV3ServerMessage::Error(Error::new(ErrorCode::ErrorDevice, "broken"))),
        None,
        None,
        Some(ButtplugSpecV3ServerMessage::ServerInfo(ServerInfo::new(ButtplugMessageSpecVersion::Version2, 0, "server"))),
        Some(ButtplugSpecV3ServerMessage::DeviceList(DeviceListV3::new(vec![DeviceMessageInfoV3::from_device_added(added_v3())]))),
        Some(ButtplugSpecV3ServerMessage::DeviceAdded(added_v3())),
        Some(ButtplugSpecV3ServerMessage::DeviceRemoved(DeviceRemoved::new(5))),
        Some(ButtplugSpecV3ServerMessage::ScanningFinished(ScanningFinished::new())),
        Some(ButtplugSpecV3ServerMessage::RawReading(RawReading::new(5, Endpoint::Rx, vec![1]))),
        Some(ButtplugSpecV3ServerMessage::SensorReading(SensorReading::new(5, 0, SensorType::Battery, vec![80]))),
        None,
        None,
    ];
    for (msg, expected) in every_server_message().into_iter().zip(expected) {
        let text = format!("{:?}", msg);
        match (ButtplugSpecV3ServerMessage::try_from(msg), expected) {
            (Ok(got), Some(expected)) => assert_eq!(got, expected),
            (result, None) => assert_eq!(
                version_error(result),
                ("ButtplugServerMessage".to_string(), text, "ButtplugSpecV3ServerMessage".to_string())
            ),
            (result, expected) => panic!("{:?} {:?}", result, expected),
        }
    }
}

#[test]
fn version_2_takes_the_readings_of_its_time() {
    let level = Double::from_bits(0.5f64.to_bits());
    let expected: Vec<Option<ButtplugSpecV2ServerMessage>> = vec![
        Some(ButtplugSpecV2ServerMessage::OkV0(OkV0::new(1))),
        Some(ButtplugSpecV2ServerMessage::Error(Error::new(ErrorCode::ErrorDevice, "broken"))),
        None,
        None,
        Some(ButtplugSpecV2ServerMessage::ServerInfo(ServerInfo::new(ButtplugMessageSpecVersion::Version2, 0, "server"))),
        Some(ButtplugSpecV2ServerMessage::DeviceList(DeviceListV2::from_v3(DeviceListV3::new(vec![DeviceMessageInfoV3::from_device_added(added_v3())])))),
        Some(ButtplugSpecV2ServerMessage::DeviceAdded(DeviceAddedV2::from_v3(added_v3()))),
        Some(ButtplugSpecV2ServerMessage::DeviceRemoved(DeviceRemoved::new(5))),
        Some(ButtplugSpecV2ServerMessage::ScanningFinished(ScanningFinished::new())),
        Some(ButtplugSpecV2ServerMessage::RawReading(RawReading::new(5, Endpoint::Rx, vec![1]))),
        None,
        Some(ButtplugSpecV2ServerMessage::BatteryLevelReading(BatteryLevelReading::new(5, level))),
        Some(ButtplugSpecV2ServerMessage::RSSILevelReading(RSSILevelReading::new(5, -40))),
    ];
    for (msg, expected) in every_server_message().into_iter().zip(expected) {
        let text = format!("{:?}", msg);
        match (ButtplugSpecV2ServerMessage::try_from(msg), expected) {
            (Ok(got), Some(expected)) => assert_eq!(got, expected),
            (result, None) => assert_eq!(
                version_error(result),
                ("ButtplugServerMessage".to_string(), text, "ButtplugSpecV2ServerMessage".to_string())
            ),
            (result, expected) => panic!("{:?} {:?}", result, expected),
        }
    }
}

#[test]
fn version_1_takes_errors_and_server_info_in_their_early_form() {
    let expected: Vec<Option<ButtplugSpecV1ServerMessage>> = vec![
        Some(ButtplugSpecV1ServerMessage::OkV0(OkV0::new(1))),
        Some(ButtplugSpecV1ServerMessage::Error(ErrorV0::new(ErrorCode::ErrorDevice, "broken"))),
        None,
        Some(ButtplugSpecV1ServerMessage::Log(Log::new(LogLevel::Info, "log"))),
        Some(ButtplugSpecV1ServerMessage::ServerInfo(ServerInfoV0::new(0, 0, 0, ButtplugMessageSpecVersion::Version2, 0, "server"))),
        Some(ButtplugSpecV1ServerMessage::DeviceList(DeviceListV1::from_v3(DeviceListV3::new(vec![DeviceMessageInfoV3::from_device_added(added_v3())])))),
        Some(ButtplugSpecV1ServerMessage::DeviceAdded(DeviceAddedV1::from_v3(added_v3()))),
        Some(ButtplugSpecV1ServerMessage::DeviceRemoved(DeviceRemoved::new(5))),
        Some(ButtplugSpecV1ServerMessage::ScanningFinished(ScanningFinished::new())),
        None,
        None,
        None,
        None,
    ];
    for (msg, expected) in every_server_message().into_iter().zip(expected) {
        let text = format!("{:?}", msg);
        match (ButtplugSpecV1ServerMessage::try_from(msg), expected) {
            (Ok(got), Some(expected)) => assert_eq!(got, expected),
            (result, None) => assert_eq!(
                version_error(result),
                ("ButtplugServerMessage".to_string(), text, "ButtplugSpecV1ServerMessage".to_string())
            ),
            (result, expected) => panic!("{:?} {:?}", result, expected),
        }
    }
}

#[test]
fn version_0_takes_what_version_1_takes() {
    let expected: Vec<Option<ButtplugSpecV0ServerMessage>> = vec![
        Some(ButtplugSpecV0ServerMessage::OkV0(OkV0::new(1))),
        Some(ButtplugSpecV0ServerMessage::Error(ErrorV0::new(ErrorCode::ErrorDevice, "broken"))),
        None,
        Some(ButtplugSpecV0ServerMessage::Log(Log::new(LogLevel::Info, "log"))),
        Some(ButtplugSpecV0ServerMessage::ServerInfo(ServerInfoV0::new(0, 0, 0, ButtplugMessageSpecVersion::Version2, 0, "server"))),
        Some(ButtplugSpecV0ServerMessage::DeviceList(DeviceListV0::from_v3(DeviceListV3::new(vec![DeviceMessageInfoV3::from_device_added(added_v3())])))),
        Some(ButtplugSpecV0ServerMessage::DeviceAdded(DeviceAddedV0::from_v3(added_v3()))),
        Some(ButtplugSpecV0ServerMessage::DeviceRemoved(DeviceRemoved::new(5))),
        Some(ButtplugSpecV0ServerMessage::ScanningFinished(ScanningFinished::new())),
        None,
        None,
        None,
        None,
    ];
    for (msg, expected) in every_server_message().into_iter().zip(expected) {
        let text = format!("{:?}", msg);
        match (ButtplugSpecV0ServerMessage::try_from(msg), expected) {
            (Ok(got), Some(expected)) => assert_eq!(got, expected),
            (result, None) => assert_eq!(
                version_error(result),
                ("ButtplugServerMessage".to_string(), text, "ButtplugSpecV0ServerMessage".to_string())
            ),
            (result, expected) => panic!("{:?} {:?}", result, expected),
        }
    }
}

#[test]
fn version_4_goes_down_to_the_uniform_set() {
    assert_eq!(
        ButtplugSpecV4ServerMessage::OkV0(OkV0::new(2)).downgrade(),
        ButtplugServerMessage::OkV0(OkV0::new(2))
    );
    assert_eq!(
        ButtplugSpecV4ServerMessage::DeviceAdded(latest_added()).downgrade(),
        ButtplugServerMessage::DeviceAdded(DeviceAddedV3::from(latest_added()))
    );
    let list = DeviceList::new(vec![DeviceMessageInfo::from(latest_added())]);
    assert_eq!(
        ButtplugSpecV4ServerMessage::DeviceList(list.clone()).downgrade(),
        ButtplugServerMessage::DeviceList(DeviceListV3::from(list))
    );
    assert_eq!(
        ButtplugSpecV4ServerMessage::SensorReading(SensorReading::new(1, 2, SensorType::Button, vec![1])).downgrade(),
        ButtplugServerMessage::SensorReading(SensorReading::new(1, 2, SensorType::Button, vec![1]))
    );
}

#[test]
fn device_reports_widen_to_server_messages() {
    assert_eq!(
        ButtplugServerMessage::from(ButtplugServerDeviceMessage::RawReading(RawReading::new(1, Endpoint::Rx, vec![9]))),
        ButtplugServerMessage::RawReading(RawReading::new(1, Endpoint::Rx, vec![9]))
    );
    assert_eq!(
        ButtplugServerMessage::from(ButtplugServerDeviceMessage::SensorReading(SensorReading::new(1, 0, SensorType::Pressure, vec![3]))),
        ButtplugServerMessage::SensorReading(SensorReading::new(1, 0, SensorType::Pressure, vec![3]))
    );
}

#[test]
fn client_messages_narrow_into_the_sets_that_have_them() {
    let stop = ButtplugClientMessage::StopDeviceCmd(StopDeviceCmd::new(1));
    assert_eq!(ButtplugSpecV0ClientMessage::try_from(stop.clone()), Ok(ButtplugSpecV0ClientMessage::StopDeviceCmd(StopDeviceCmd::new(1))));
    assert_eq!(ButtplugSpecV1ClientMessage::try_from(stop.clone()), Ok(ButtplugSpecV1ClientMessage::StopDeviceCmd(StopDeviceCmd::new(1))));
    assert_eq!(ButtplugSpecV2ClientMessage::try_from(stop.clone()), Ok(ButtplugSpecV2ClientMessage::StopDeviceCmd(StopDeviceCmd::new(1))));
    assert_eq!(ButtplugSpecV3ClientMessage::try_from(stop.clone()), Ok(ButtplugSpecV3ClientMessage::StopDeviceCmd(StopDeviceCmd::new(1))));
    assert_eq!(ButtplugSpecV4ClientMessage::try_from(stop.clone()), Ok(ButtplugSpecV4ClientMessage::StopDeviceCmd(StopDeviceCmd::new(1))));
    assert_eq!(ButtplugDeviceCommandMessageUnion::try_from(stop.clone()), Ok(ButtplugDeviceCommandMessageUnion::StopDeviceCmd(StopDeviceCmd::new(1))));
    assert_eq!(
        version_error(ButtplugDeviceManagerMessageUnion::try_from(stop.clone())),
        ("ButtplugClientMessage".to_string(), format!("{:?}", stop), "ButtplugDeviceManagerMessageUnion".to_string())
    );
    let scan = ButtplugClientMessage::StartScanning(StartScanning::new());
    assert_eq!(ButtplugDeviceManagerMessageUnion::try_from(scan.clone()), Ok(ButtplugDeviceManagerMessageUnion::StartScanning(StartScanning::new())));
    assert!(ButtplugDeviceCommandMessageUnion::try_from(scan).is_err());
    let log = ButtplugClientMessage::RequestLog(RequestLog::new(LogLevel::Debug));
    assert_eq!(ButtplugSpecV0ClientMessage::try_from(log.clone()), Ok(ButtplugSpecV0ClientMessage::RequestLog(RequestLog::new(LogLevel::Debug))));
    assert_eq!(
        version_error(ButtplugSpecV1ClientMessage::try_from(log.clone())),
        ("ButtplugClientMessage".to_string(), format!("{:?}", log), "ButtplugSpecV1ClientMessage".to_string())
    );
    let battery = ButtplugClientMessage::BatteryLevelCmd(BatteryLevelCmdV2::new(2));
    assert!(ButtplugSpecV2ClientMessage::try_from(battery.clone()).is_ok());
    assert_eq!(version_error(ButtplugSpecV3ClientMessage::try_from(battery.clone())).2, "ButtplugSpecV3ClientMessage");
    assert_eq!(version_error(ButtplugSpecV4ClientMessage::try_from(battery)).2, "ButtplugSpecV4ClientMessage");
}

#[test]
fn widening_and_narrowing_give_the_message_back() {
    let ping = ButtplugSpecV2ClientMessage::Ping(Ping::new());
    let wide = ping.clone().widen();
    assert_eq!(wide, ButtplugClientMessage::Ping(Ping::new()));
    assert_eq!(ButtplugSpecV2ClientMessage::try_from(wide), Ok(ping));
    let stop = ButtplugDeviceCommandMessageUnion::StopDeviceCmd(StopDeviceCmd::new(3));
    assert_eq!(ButtplugDeviceCommandMessageUnion::try_from(stop.clone().widen()), Ok(stop));
    let log = ButtplugSpecV0ClientMessage::RequestLog(RequestLog::new(LogLevel::Trace));
    assert_eq!(ButtplugSpecV0ClientMessage::try_from(log.clone().widen()), Ok(log));
}
