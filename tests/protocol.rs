use liru_core::bluetooth::{
    cmd, decode_command, encode_command, encode_message, msg, payload_len, Command, Message,
};

#[test]
fn decode_motor_command() {
    assert_eq!(
        decode_command(&[0x01, 0x9c, 0x32]),
        Some(Command::Motor { left: -100, right: 50 })
    );
}

#[test]
fn decode_tags_without_payload() {
    assert_eq!(decode_command(&[0x02]), Some(Command::Stop));
    assert_eq!(decode_command(&[0x03]), Some(Command::GetSensors));
    assert_eq!(decode_command(&[0x04]), Some(Command::Ping));
    assert_eq!(decode_command(&[0x05]), Some(Command::GetRawSensors));
    assert_eq!(decode_command(&[0x07]), Some(Command::Start));
}

#[test]
fn decode_set_mode() {
    assert_eq!(decode_command(&[0x06, 0x01]), Some(Command::SetMode(1)));
    assert_eq!(decode_command(&[0x06, 0x00]), Some(Command::SetMode(0)));
}

#[test]
fn decode_unknown_tag() {
    assert_eq!(decode_command(&[0x99]), Some(Command::Unknown(0x99)));
    assert_eq!(decode_command(&[b'w', 0x01]), Some(Command::Unknown(b'w')));
}

#[test]
fn decode_incomplete_frames() {
    assert_eq!(decode_command(&[]), None);
    assert_eq!(decode_command(&[0x01]), None);
    assert_eq!(decode_command(&[0x01, 0x10]), None);
    assert_eq!(decode_command(&[0x06]), None);
}

#[test]
fn payload_lengths() {
    assert_eq!(payload_len(cmd::MOTOR), 2);
    assert_eq!(payload_len(cmd::SET_MODE), 1);
    assert_eq!(payload_len(cmd::STOP), 0);
    assert_eq!(payload_len(0x99), 0);
}

#[test]
fn command_round_trip() {
    let commands = [
        Command::Motor { left: -100, right: 100 },
        Command::Motor { left: -128, right: 127 },
        Command::Stop,
        Command::GetSensors,
        Command::GetRawSensors,
        Command::Ping,
        Command::SetMode(1),
        Command::SetMode(0),
        Command::Start,
        Command::Unknown(0x99),
        Command::Unknown(b' '),
    ];
    for c in commands {
        let bytes = encode_command(c);
        assert_eq!(decode_command(&bytes), Some(c));
    }
}

#[test]
fn encode_motor_command_bytes() {
    assert_eq!(encode_command(Command::Motor { left: -1, right: 20 }), vec![0x01, 0xff, 0x14]);
    assert_eq!(encode_command(Command::SetMode(1)), vec![0x06, 0x01]);
}

#[test]
fn encode_raw_sensors_little_endian() {
    let readings = [0x0102, 0x0fff, 0, 1, 2, 3, 4, 0x0a0b];
    let bytes = encode_message(&Message::RawSensors(readings));
    assert_eq!(
        bytes,
        vec![
            0x13, 0x02, 0x01, 0xff, 0x0f, 0x00, 0x00, 0x01, 0x00, 0x02, 0x00, 0x03, 0x00, 0x04,
            0x00, 0x0b, 0x0a
        ]
    );
}

#[test]
fn encode_debug_analog_big_endian() {
    let bytes = encode_message(&Message::DebugAnalog {
        position: -500,
        intensity: 1000,
        steering: -5,
        left_speed: 50,
        right_speed: 60,
    });
    assert_eq!(bytes, vec![0x17, 0xfe, 0x0c, 0x03, 0xe8, 0xfb, 50, 60]);
}

#[test]
fn encode_short_messages() {
    assert_eq!(encode_message(&Message::Sensors(0b1010_0001)), vec![msg::SENSORS, 0xa1]);
    assert_eq!(encode_message(&Message::Pong), vec![0x11]);
    assert_eq!(encode_message(&Message::Connected), vec![0x12]);
    assert_eq!(encode_message(&Message::CalibrationStart), vec![0x15]);
    assert_eq!(encode_message(&Message::CalibrationEnd), vec![0x16]);
    assert_eq!(
        encode_message(&Message::Debug { mode: 1, position: 2, motor_action: 3 }),
        vec![0x14, 1, 2, 3]
    );
}
