use buttplug::message::{ActuatorType, Endpoint};
use buttplug::server::hardware::{clamp_battery, HardwareCommand, HardwareReadCmd, HardwareWriteCmd};
use buttplug::server::libo_shark::LiboShark;

fn byte(first: Option<u32>, second: Option<u32>) -> u8 {
    let handler = LiboShark::default();
    let cmds = [first.map(|s| (ActuatorType::Vibrate, s)), second.map(|s| (ActuatorType::Vibrate, s))];
    let commands = handler.handle_scalar_cmd(&cmds).unwrap();
    assert_eq!(commands.len(), 1);
    match &commands[0] {
        HardwareCommand::Write(write) => {
            assert_eq!(write.endpoint, Endpoint::Tx);
            assert!(!write.write_with_response);
            assert_eq!(write.data.len(), 1);
            write.data[0]
        }
        other => panic!("{:?}", other),
    }
}

#[test]
fn test_libo_shark_protocol() {
    assert_eq!(byte(Some(2), Some(2)), 0x22);
    assert_eq!(byte(None, Some(3)), 0x03);
    assert_eq!(byte(Some(2), None), 0x20);
    assert_eq!(byte(Some(0), Some(0)), 0x00);
    assert_eq!(byte(None, None), 0x00);
}

#[test]
fn libo_shark_keeps_the_low_bits_as_a_cast_and_a_shift_do() {
    for first in [0u32, 1, 3, 15, 16, 17, 255, 256, 4095, u32::MAX] {
        for second in [0u32, 1, 3, 15, 16, 200, 255, 256, 257, u32::MAX] {
            let mut data = 0u8;
            data |= (first as u8) << 4;
            data |= second as u8;
            assert_eq!(byte(Some(first), Some(second)), data, "{first} {second}");
        }
    }
}

#[test]
fn libo_shark_writes_what_a_write_command_says() {
    let handler = LiboShark::default();
    let cmds = [Some((ActuatorType::Vibrate, 3)), Some((ActuatorType::Vibrate, 1)), None];
    assert_eq!(
        handler.handle_scalar_cmd(&cmds),
        Ok(vec![HardwareCommand::Write(HardwareWriteCmd::new(Endpoint::Tx, vec![0x31], false))])
    );
    let read = HardwareReadCmd::new(Endpoint::Rx, 1, 0);
    assert_eq!((read.endpoint, read.length, read.timeout_ms), (Endpoint::Rx, 1, 0));
}

#[test]
fn battery_level_is_kept_between_nothing_and_a_hundred() {
    assert_eq!(clamp_battery(-5), 0);
    assert_eq!(clamp_battery(0), 0);
    assert_eq!(clamp_battery(57), 57);
    assert_eq!(clamp_battery(100), 100);
    assert_eq!(clamp_battery(101), 100);
    assert_eq!(clamp_battery(i32::MAX), 100);
    assert_eq!(clamp_battery(i32::MIN), 0);
    for level in -300..300 {
        assert_eq!(clamp_battery(level), level.clamp(0, 100) as u8);
    }
}
