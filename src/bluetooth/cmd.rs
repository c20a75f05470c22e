//! Command tags sent by the controller.

use vstd::prelude::*;

verus! {

/// Set motor speeds: `[MOTOR, left_speed_i8, right_speed_i8]`.
pub const MOTOR: u8 = 0x01;

/// Stop all motors.
pub const STOP: u8 = 0x02;

/// Request the calibrated sensor mask.
pub const GET_SENSORS: u8 = 0x03;

/// Connection check.
pub const PING: u8 = 0x04;

/// Request the raw 16-bit readings.
pub const GET_RAW_SENSORS: u8 = 0x05;

/// Set robot mode: `[SET_MODE, mode_byte]` (0 = car, 1 = line follower).
pub const SET_MODE: u8 = 0x06;

/// Start line-follower calibration.
pub const START: u8 = 0x07;

} // verus!
