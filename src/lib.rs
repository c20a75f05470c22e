//! Control core of a two-wheeled line-following robot: the wire protocol
//! codec, sensor calibration and line-position estimation, differential
//! motor duty generation, and the mode state machine that ties them together.

pub mod motors;
pub mod sensors;
pub mod bluetooth;
pub mod robot;
