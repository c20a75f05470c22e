//! Message tags sent to the controller.

use vstd::prelude::*;

verus! {

/// Sensor mask: `[SENSORS, mask]`.
pub const SENSORS: u8 = 0x10;

/// Reply to a ping.
pub const PONG: u8 = 0x11;

/// Link established.
pub const CONNECTED: u8 = 0x12;

/// Raw readings: `[RAW_SENSORS, 16 bytes]`, each reading little-endian.
pub const RAW_SENSORS: u8 = 0x13;

/// Debug summary: `[DEBUG, mode, position, motor_action]`.
pub const DEBUG: u8 = 0x14;

/// Calibration window opened.
pub const CALIBRATION_START: u8 = 0x15;

/// Calibration window closed.
pub const CALIBRATION_END: u8 = 0x16;

/// Analog telemetry:
/// `[DEBUG_ANALOG, pos_hi, pos_lo, int_hi, int_lo, steer, left, right]`.
pub const DEBUG_ANALOG: u8 = 0x17;

/// Error (reserved).
pub const ERROR: u8 = 0xFF;

} // verus!
