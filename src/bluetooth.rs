//! Byte protocol of the wireless serial link.
//!
//! Every frame starts with a tag byte. Commands come from the controller
//! (tags in [`cmd`]) and messages go to it (tags in [`msg`]). Raw sensor
//! readings travel little-endian while the analog telemetry fields travel
//! big-endian; both orders are part of the wire format.

pub mod cmd;
pub mod msg;

use crate::sensors::{SensorReadings, SENSOR_COUNT};
use vstd::prelude::*;

verus! {

/// Timeout for each payload byte once a tag has arrived; a command whose
/// payload does not arrive in time is dropped whole.
pub const PAYLOAD_TIMEOUT_MS: u64 = 50;

/// Command decoded from the link.
#[derive(Clone, Copy, Debug, PartialEq, Eq, Structural)]
pub enum Command {
    /// Set motor speeds (left, right), each from -100 to 100.
    Motor { left: i8, right: i8 },
    /// Stop all motors.
    Stop,
    /// Request the calibrated sensor mask.
    GetSensors,
    /// Request the raw sensor readings.
    GetRawSensors,
    /// Ping request.
    Ping,
    /// Set the robot mode.
    SetMode(u8),
    /// Start calibration.
    Start,
    /// Any other tag byte: a keyboard shortcut for manual driving.
    Unknown(u8),
}

/// Message to the controller.
#[allow(inconsistent_fields)]
#[derive(Clone, Copy, Debug, PartialEq, Eq)]
pub enum Message {
    /// Calibrated sensor mask.
    Sensors(u8),
    /// Raw readings of the eight sensors.
    RawSensors(SensorReadings),
    /// Reply to a ping.
    Pong,
    /// Link established.
    Connected,
    /// Debug summary: mode, sensor position, motor action
    /// (0 = stop, 1 = forward, 2 = left, 3 = right).
    Debug { mode: u8, position: u8, motor_action: u8 },
    /// Calibration window opened.
    CalibrationStart,
    /// Calibration window closed.
    CalibrationEnd,
    /// Analog telemetry of the line follower.
    DebugAnalog { position: i16, intensity: u16, steering: i8, left_speed: u8, right_speed: u8 },
}

/// Whether `tag` starts one of the known commands.
pub open spec fn is_command_tag(tag: u8) -> bool {
    cmd::MOTOR <= tag <= cmd::START
}

/// Number of payload bytes that follow a tag.
pub open spec fn payload_len_of(tag: u8) -> nat {
    if tag == cmd::MOTOR {
        2
    } else if tag == cmd::SET_MODE {
        1
    } else {
        0
    }
}

/// The command that a complete frame stands for.
pub open spec fn command_of(frame: Seq<u8>) -> Command {
    let tag = frame[0];
    if tag == cmd::MOTOR {
        Command::Motor { left: frame[1] as i8, right: frame[2] as i8 }
    } else if tag == cmd::STOP {
        Command::Stop
    } else if tag == cmd::GET_SENSORS {
        Command::GetSensors
    } else if tag == cmd::GET_RAW_SENSORS {
        Command::GetRawSensors
    } else if tag == cmd::PING {
        Command::Ping
    } else if tag == cmd::SET_MODE {
        Command::SetMode(frame[1])
    } else if tag == cmd::START {
        Command::Start
    } else {
        Command::Unknown(tag)
    }
}

/// The command at the start of `bytes`, or `None` when `bytes` is empty or
/// stops before the tag's payload is complete.
pub open spec fn decoded(bytes: Seq<u8>) -> Option<Command> {
    if bytes.len() == 0 || bytes.len() < 1 + payload_len_of(bytes[0]) {
        None
    } else {
        Some(command_of(bytes))
    }
}

/// Wire form of a command.
pub open spec fn command_bytes(c: Command) -> Seq<u8> {
    match c {
        Command::Motor { left, right } => seq![cmd::MOTOR, left as u8, right as u8],
        Command::Stop => seq![cmd::STOP],
        Command::GetSensors => seq![cmd::GET_SENSORS],
        Command::GetRawSensors => seq![cmd::GET_RAW_SENSORS],
        Command::Ping => seq![cmd::PING],
        Command::SetMode(m) => seq![cmd::SET_MODE, m],
        Command::Start => seq![cmd::START],
        Command::Unknown(b) => seq![b],
    }
}

/// Low byte of a 16-bit value.
pub open spec fn low_byte(x: u16) -> u8 {
    (x % 256) as u8
}

/// High byte of a 16-bit value.
pub open spec fn high_byte(x: u16) -> u8 {
    (x / 256) as u8
}

/// Each value as two bytes, low byte first.
pub open spec fn le_bytes(values: Seq<u16>) -> Seq<u8> {
    Seq::new(
        2 * values.len(),
        |k: int|
            if k % 2 == 0 {
                low_byte(values[k / 2])
            } else {
                high_byte(values[k / 2])
            },
    )
}

/// Wire form of a message.
pub open spec fn message_bytes(m: Message) -> Seq<u8> {
    match m {
        Message::Sensors(mask) => seq![msg::SENSORS, mask],
        Message::RawSensors(readings) => seq![msg::RAW_SENSORS] + le_bytes(readings@),
        Message::Pong => seq![msg::PONG],
        Message::Connected => seq![msg::CONNECTED],
        Message::Debug { mode, position, motor_action } => seq![
            msg::DEBUG,
            mode,
            position,
            motor_action,
        ],
        Message::CalibrationStart => seq![msg::CALIBRATION_START],
        Message::CalibrationEnd => seq![msg::CALIBRATION_END],
        Message::DebugAnalog { position, intensity, steering, left_speed, right_speed } => seq![
            msg::DEBUG_ANALOG,
            high_byte(position as u16),
            low_byte(position as u16),
            high_byte(intensity),
            low_byte(intensity),
            steering as u8,
            left_speed,
            right_speed,
        ],
    }
}

/// Number of payload bytes that follow `tag`: two for `MOTOR`, one for
/// `SET_MODE`, none otherwise.
pub fn payload_len(tag: u8) -> (r: usize)
    ensures
        r == payload_len_of(tag),
{
    if tag == cmd::MOTOR {
        2
    } else if tag == cmd::SET_MODE {
        1
    } else {
        0
    }
}

/// Decode the command at the start of `bytes`. `None` when `bytes` is
/// empty or its payload is incomplete; a tag that names no command decodes to
/// `Unknown(tag)`.
pub fn decode_command(bytes: &[u8]) -> (r: Option<Command>)
    ensures
        r == decoded(bytes@),
{
    if bytes.len() == 0 {
        return None;
    }
    let tag = bytes[0];
    if bytes.len() < 1 + payload_len(tag) {
        return None;
    }
    let c = if tag == cmd::MOTOR {
        Command::Motor { left: bytes[1] as i8, right: bytes[2] as i8 }
    } else if tag == cmd::STOP {
        Command::Stop
    } else if tag == cmd::GET_SENSORS {
        Command::GetSensors
    } else if tag == cmd::GET_RAW_SENSORS {
        Command::GetRawSensors
    } else if tag == cmd::PING {
        Command::Ping
    } else if tag == cmd::SET_MODE {
        Command::SetMode(bytes[1])
    } else if tag == cmd::START {
        Command::Start
    } else {
        Command::Unknown(tag)
    };
    Some(c)
}

/// Wire form of a command, as the controller sends it.
pub fn encode_command(c: Command) -> (r: Vec<u8>)
    ensures
        r@ == command_bytes(c),
{
    let r = match c {
        Command::Motor { left, right } => vec![cmd::MOTOR, left as u8, right as u8],
        Command::Stop => vec![cmd::STOP],
        Command::GetSensors => vec![cmd::GET_SENSORS],
        Command::GetRawSensors => vec![cmd::GET_RAW_SENSORS],
        Command::Ping => vec![cmd::PING],
        Command::SetMode(m) => vec![cmd::SET_MODE, m],
        Command::Start => vec![cmd::START],
        Command::Unknown(b) => vec![b],
    };
    assert(r@ =~= command_bytes(c));
    r
}

fn push_u16_le(out: &mut Vec<u8>, x: u16)
    ensures
        final(out)@ == old(out)@ + seq![low_byte(x), high_byte(x)],
{
    out.push((x % 256) as u8);
    out.push((x / 256) as u8);
    assert(final(out)@ =~= old(out)@ + seq![low_byte(x), high_byte(x)]);
}

/// Wire form of a message.
pub fn encode_message(m: &Message) -> (r: Vec<u8>)
    ensures
        r@ == message_bytes(*m),
{
    match m {
        Message::Sensors(mask) => {
            let r = vec![msg::SENSORS, *mask];
            assert(r@ =~= message_bytes(*m));
            r
        },
        Message::RawSensors(readings) => {
            let mut r: Vec<u8> = Vec::new();
            r.push(msg::RAW_SENSORS);
            let mut i: usize = 0;
            while i < SENSOR_COUNT
                invariant
                    i <= SENSOR_COUNT,
                    r@ == seq![msg::RAW_SENSORS] + le_bytes(readings@.take(i as int)),
                decreases SENSOR_COUNT - i,
            {
                push_u16_le(&mut r, readings[i]);
                assert(le_bytes(readings@.take(i + 1)) =~= le_bytes(readings@.take(i as int))
                    + seq![low_byte(readings@[i as int]), high_byte(readings@[i as int])]);
                i = i + 1;
            }
            assert(readings@.take(SENSOR_COUNT as int) =~= readings@);
            r
        },
        Message::Pong => {
            let r = vec![msg::PONG];
            assert(r@ =~= message_bytes(*m));
            r
        },
        Message::Connected => {
            let r = vec![msg::CONNECTED];
            assert(r@ =~= message_bytes(*m));
            r
        },
        Message::Debug { mode, position, motor_action } => {
            let r = vec![msg::DEBUG, *mode, *position, *motor_action];
            assert(r@ =~= message_bytes(*m));
            r
        },
        Message::CalibrationStart => {
            let r = vec![msg::CALIBRATION_START];
            assert(r@ =~= message_bytes(*m));
            r
        },
        Message::CalibrationEnd => {
            let r = vec![msg::CALIBRATION_END];
            assert(r@ =~= message_bytes(*m));
            r
        },
        Message::DebugAnalog { position, intensity, steering, left_speed, right_speed } => {
            let pos = *position as u16;
            let r = vec![
                msg::DEBUG_ANALOG,
                (pos / 256) as u8,
                (pos % 256) as u8,
                (*intensity / 256) as u8,
                (*intensity % 256) as u8,
                *steering as u8,
                *left_speed,
                *right_speed,
            ];
            assert(r@ =~= message_bytes(*m));
            r
        },
    }
}

proof fn lemma_i8_u8_round_trip(x: i8)
    ensures
        (x as u8) as i8 == x,
{
    assert((x as u8) as i8 == x) by (bit_vector);
}

/// Encoding a command and decoding the bytes gives the command back, for
/// every command but an `Unknown` whose byte is itself a command tag.
pub proof fn lemma_command_round_trip(c: Command)
    requires
        !(c matches Command::Unknown(b) && is_command_tag(b)),
    ensures
        decoded(command_bytes(c)) == Some(c),
{
    if let Command::Motor { left, right } = c {
        lemma_i8_u8_round_trip(left);
        lemma_i8_u8_round_trip(right);
    }
}

/// A decoded command is exactly the bytes it was read from: encoding it
/// gives the prefix of the input that decoding consumed.
pub proof fn lemma_decode_then_encode(bytes: Seq<u8>)
    requires
        decoded(bytes) is Some,
    ensures
        command_bytes(decoded(bytes)->0) == bytes.take(1 + payload_len_of(bytes[0]) as int),
{
    let c = decoded(bytes)->0;
    let tag = bytes[0];
    if tag == cmd::MOTOR {
        let (l, r) = (bytes[1], bytes[2]);
        assert((l as i8) as u8 == l) by (bit_vector);
        assert((r as i8) as u8 == r) by (bit_vector);
    }
    assert(command_bytes(c) =~= bytes.take(1 + payload_len_of(tag) as int));
}

/// A tag byte that names no command decodes to `Unknown` of that byte,
/// whatever follows it.
pub proof fn lemma_unknown_tag(tag: u8, rest: Seq<u8>)
    requires
        !is_command_tag(tag),
    ensures
        decoded(seq![tag] + rest) == Some(Command::Unknown(tag)),
{
    assert((seq![tag] + rest)[0] == tag);
}

} // verus!
