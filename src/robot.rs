//! Mode state machine of the robot.
//!
//! The platform layer runs the control loop: it polls the link for a command
//! (with [`Robot::poll_timeout_ms`]), samples the sensor array, calls
//! [`Robot::handle_command`] and then [`Robot::tick`] once per iteration,
//! sends the returned messages and copies the motor duties to the timer.

use crate::bluetooth::{Command, Message};
use crate::motors::{Direction, MotorController, MotorState};
use crate::sensors::{Calibration, CalibratedSensors, SensorReadings};
use vstd::prelude::*;

verus! {

/// Length of the calibration window, in milliseconds.
pub const CALIBRATION_WINDOW_MS: u64 = 10_000;

/// Command poll timeout while calibrating or following the line.
pub const ACTIVE_POLL_TIMEOUT_MS: u64 = 20;

/// Command poll timeout in the other modes.
pub const IDLE_POLL_TIMEOUT_MS: u64 = 100;

/// Speed of keyboard driving in car mode, in percent.
pub const KEYBOARD_SPEED: u8 = 70;

/// Pivot speed while searching for a lost line on the side it was last seen.
pub const SEARCH_SPEED: u8 = 55;

/// Forward speed while searching for a lost line with no side bias.
pub const CRAWL_SPEED: u8 = 50;

/// Upper bound of either side's speed while following the line.
pub const MAX_FOLLOW_SPEED: i32 = 75;

/// Divisor from line position to steering correction.
pub const STEERING_DIVISOR: i32 = 100;

/// Steering beyond which the line counts as being on one side.
pub const BIAS_STEERING: i32 = 5;

/// Analog telemetry goes out on every loop iteration whose count is a
/// multiple of this, while the line follower runs.
pub const TELEMETRY_PERIOD: u32 = 20;

/// ASCII case bit: a letter with this bit set is lower case.
pub const ASCII_CASE_BIT: u8 = 0x20;

/// Car-mode shortcut `w`: drive forward. Each shortcut is given as
/// lower-case ASCII; the upper-case letter acts the same.
pub const KEY_FORWARD: u8 = 0x77;

/// Car-mode shortcut `s`: drive backward.
pub const KEY_BACKWARD: u8 = 0x73;

/// Car-mode shortcut `a`: pivot left.
pub const KEY_LEFT: u8 = 0x61;

/// Car-mode shortcut `d`: pivot right.
pub const KEY_RIGHT: u8 = 0x64;

/// Car-mode shortcut `q`: stop.
pub const KEY_STOP: u8 = 0x71;

/// Space also stops the motors.
pub const KEY_SPACE: u8 = 0x20;

/// Car-mode shortcut `r`: send the raw readings.
pub const KEY_RAW_SENSORS: u8 = 0x72;

/// Operating mode.
#[derive(Clone, Copy, Debug, PartialEq, Eq, Structural)]
pub enum RobotMode {
    /// Manual driving from the controller.
    Car,
    /// Line follower waiting for `Start`.
    LineFollowerIdle,
    /// Recording sensor bounds since the given time (milliseconds).
    LineFollowerCalibrating(u64),
    /// Following the line.
    LineFollowerRunning,
}

/// Last values computed by the line follower, sent as analog telemetry.
#[derive(Clone, Copy, Debug, PartialEq, Eq, Structural)]
pub struct Telemetry {
    pub position: i16,
    pub intensity: u16,
    pub steering: i8,
    pub left_speed: u8,
    pub right_speed: u8,
}

/// Abstract state of a [`Robot`].
pub struct RobotState {
    pub mode: RobotMode,
    pub sensors: Calibration,
    pub motors: MotorState,
    /// Side on which the line was last seen: -1 left, 1 right, 0 neither.
    pub last_direction: i8,
    pub telemetry: Telemetry,
    pub loop_counter: u32,
}

/// Whether `mode` is one of the two active line-follower modes.
pub open spec fn is_active(mode: RobotMode) -> bool {
    mode is LineFollowerCalibrating || mode is LineFollowerRunning
}

/// Milliseconds from `start` to `now`, zero if `now` is earlier.
pub open spec fn elapsed_ms(now: u64, start: u64) -> int {
    if now >= start {
        now - start
    } else {
        0
    }
}

/// `p / d` rounded toward zero.
pub open spec fn div_toward_zero(p: int, d: int) -> int {
    if p >= 0 {
        p / d
    } else {
        -((-p) / d)
    }
}

/// A follower speed limited to `0..=MAX_FOLLOW_SPEED`.
pub open spec fn clamp_speed(v: int) -> int {
    if v < 0 {
        0
    } else if v > MAX_FOLLOW_SPEED {
        MAX_FOLLOW_SPEED as int
    } else {
        v
    }
}

/// Base speed of the line follower: faster the closer the line is to the
/// centre.
pub open spec fn base_speed(position: int) -> int {
    let abs_pos = if position < 0 { -position } else { position };
    if abs_pos < 500 {
        65
    } else if abs_pos < 1500 {
        55
    } else {
        50
    }
}

/// Side bias remembered from a steering value.
pub open spec fn bias_of(steering: int) -> i8 {
    if steering > BIAS_STEERING {
        1
    } else if steering < -BIAS_STEERING {
        (-1int) as i8
    } else {
        0
    }
}

/// Whether `key` is the letter `lower` in either case.
pub open spec fn is_key(key: u8, lower: u8) -> bool {
    key == lower || key == lower - ASCII_CASE_BIT
}

/// Motor state after a keyboard shortcut in car mode: W/S/A/D drive
/// forward, backward, left and right at [`KEYBOARD_SPEED`]; Q and space stop;
/// any other key leaves the motors alone.
pub open spec fn key_motion(m: MotorState, key: u8) -> MotorState {
    let v = KEYBOARD_SPEED as int;
    if is_key(key, KEY_FORWARD) {
        m.with_sides(Direction::Forward, Direction::Forward, v)
    } else if is_key(key, KEY_BACKWARD) {
        m.with_sides(Direction::Reverse, Direction::Reverse, v)
    } else if is_key(key, KEY_LEFT) {
        m.with_sides(Direction::Reverse, Direction::Forward, v)
    } else if is_key(key, KEY_RIGHT) {
        m.with_sides(Direction::Forward, Direction::Reverse, v)
    } else if is_key(key, KEY_STOP) || key == KEY_SPACE {
        m.stopped()
    } else {
        m
    }
}

/// Whether `key` asks for the raw readings (R).
pub open spec fn is_raw_key(key: u8) -> bool {
    is_key(key, KEY_RAW_SENSORS)
}

impl RobotState {
    /// Poll timeout for the next command.
    pub open spec fn poll_timeout(self) -> u64 {
        if is_active(self.mode) {
            ACTIVE_POLL_TIMEOUT_MS
        } else {
            IDLE_POLL_TIMEOUT_MS
        }
    }

    /// New state and reply after a command received at `now`, with `frame`
    /// the current sensor readings.
    pub open spec fn on_command(self, c: Command, now: u64, frame: SensorReadings) -> (
        RobotState,
        Option<Message>,
    ) {
        match c {
            Command::Motor { left, right } => (
                RobotState { motors: self.motors.with_both(left, right), ..self },
                None,
            ),
            Command::Stop => (
                RobotState {
                    motors: self.motors.stopped(),
                    mode: if is_active(self.mode) {
                        RobotMode::LineFollowerIdle
                    } else {
                        self.mode
                    },
                    ..self
                },
                None,
            ),
            Command::SetMode(m) => (
                RobotState {
                    motors: self.motors.stopped(),
                    mode: if m == 1 {
                        RobotMode::LineFollowerIdle
                    } else {
                        RobotMode::Car
                    },
                    ..self
                },
                None,
            ),
            Command::Start => if self.mode is LineFollowerIdle {
                (
                    RobotState {
                        sensors: self.sensors.reset(),
                        mode: RobotMode::LineFollowerCalibrating(now),
                        ..self
                    },
                    Some(Message::CalibrationStart),
                )
            } else {
                (self, None)
            },
            Command::GetSensors => (self, Some(Message::Sensors(self.sensors.mask(frame@)))),
            Command::GetRawSensors => (self, Some(Message::RawSensors(frame))),
            Command::Ping => (self, Some(Message::Pong)),
            Command::Unknown(key) => if self.mode is Car {
                if is_raw_key(key) {
                    (self, Some(Message::RawSensors(frame)))
                } else {
                    (RobotState { motors: key_motion(self.motors, key), ..self }, None)
                }
            } else {
                (self, None)
            },
        }
    }

    /// One line-follower step on `frame`.
    pub open spec fn follow_line(self, frame: SensorReadings) -> RobotState {
        let (position, intensity) = self.sensors.line_position(frame@);
        if intensity == 0 {
            let motors = if self.last_direction < 0 {
                self.motors.with_sides(Direction::Reverse, Direction::Forward, SEARCH_SPEED as int)
            } else if self.last_direction > 0 {
                self.motors.with_sides(Direction::Forward, Direction::Reverse, SEARCH_SPEED as int)
            } else {
                self.motors.with_sides(Direction::Forward, Direction::Forward, CRAWL_SPEED as int)
            };
            RobotState {
                motors,
                telemetry: Telemetry {
                    position: position as i16,
                    intensity: intensity as u16,
                    ..self.telemetry
                },
                ..self
            }
        } else {
            let steering = div_toward_zero(position as int, STEERING_DIVISOR as int);
            let base = base_speed(position as int);
            let left = clamp_speed(base + steering);
            let right = clamp_speed(base - steering);
            RobotState {
                motors: self.motors.with_both(left as i8, right as i8),
                telemetry: Telemetry {
                    position: position as i16,
                    intensity: intensity as u16,
                    steering: steering as i8,
                    left_speed: left as u8,
                    right_speed: right as u8,
                },
                last_direction: bias_of(steering),
                ..self
            }
        }
    }

    /// The mode's own work for one loop iteration.
    pub open spec fn step_mode(self, now: u64, frame: SensorReadings) -> (RobotState, Seq<Message>) {
        match self.mode {
            RobotMode::LineFollowerCalibrating(start) => if elapsed_ms(now, start)
                < CALIBRATION_WINDOW_MS {
                (RobotState { sensors: self.sensors.updated(frame@), ..self }, seq![])
            } else {
                (
                    RobotState {
                        sensors: self.sensors.finalized(),
                        mode: RobotMode::LineFollowerRunning,
                        ..self
                    },
                    seq![Message::CalibrationEnd],
                )
            },
            RobotMode::LineFollowerRunning => (self.follow_line(frame), seq![]),
            _ => (self, seq![]),
        }
    }

    /// New state and outgoing messages of one loop iteration at `now`:
    /// the mode's work, then the loop counter advances (wrapping), then the
    /// analog telemetry goes out when the line follower runs and the counter
    /// is a multiple of [`TELEMETRY_PERIOD`].
    pub open spec fn tick(self, now: u64, frame: SensorReadings) -> (RobotState, Seq<Message>) {
        let (s, out) = self.step_mode(now, frame);
        let counter: u32 = if s.loop_counter == u32::MAX {
            0
        } else {
            (s.loop_counter + 1) as u32
        };
        let s2 = RobotState { loop_counter: counter, ..s };
        if s2.mode is LineFollowerRunning && counter % TELEMETRY_PERIOD == 0 {
            (s2, out.push(telemetry_message(s2.telemetry)))
        } else {
            (s2, out)
        }
    }
}

/// Analog telemetry message of a telemetry record.
pub open spec fn telemetry_message(t: Telemetry) -> Message {
    Message::DebugAnalog {
        position: t.position,
        intensity: t.intensity,
        steering: t.steering,
        left_speed: t.left_speed,
        right_speed: t.right_speed,
    }
}

/// The robot: mode, calibration, motor duties and line-follower memory.
pub struct Robot {
    mode: RobotMode,
    sensors: CalibratedSensors,
    motors: MotorController,
    last_direction: i8,
    telemetry: Telemetry,
    loop_counter: u32,
}

impl View for Robot {
    type V = RobotState;

    closed spec fn view(&self) -> RobotState {
        RobotState {
            mode: self.mode,
            sensors: self.sensors@,
            motors: self.motors@,
            last_direction: self.last_direction,
            telemetry: self.telemetry,
            loop_counter: self.loop_counter,
        }
    }
}

fn clamp_follow_speed(v: i32) -> (r: i32)
    ensures
        r == clamp_speed(v as int),
{
    if v < 0 {
        0
    } else if v > MAX_FOLLOW_SPEED {
        MAX_FOLLOW_SPEED
    } else {
        v
    }
}

impl Robot {
    /// A robot in car mode with every motor channel at zero, fresh
    /// calibration state and zeroed line-follower memory.
    pub fn new(max_duty: u32) -> (r: Robot)
        ensures
            r@.mode == RobotMode::Car,
            r@.motors.max_duty == max_duty,
            r@.motors == r@.motors.stopped(),
            r@.sensors == Calibration::initial(),
            r@.last_direction == 0,
            r@.telemetry == (Telemetry {
                position: 0,
                intensity: 0,
                steering: 0,
                left_speed: 0,
                right_speed: 0,
            }),
            r@.loop_counter == 0,
    {
        Robot {
            mode: RobotMode::Car,
            sensors: CalibratedSensors::new(),
            motors: MotorController::new(max_duty),
            last_direction: 0,
            telemetry: Telemetry { position: 0, intensity: 0, steering: 0, left_speed: 0, right_speed: 0 },
            loop_counter: 0,
        }
    }

    /// Current mode.
    pub fn mode(&self) -> (r: RobotMode)
        ensures
            r == self@.mode,
    {
        self.mode
    }

    /// Motor duties.
    pub fn motors(&self) -> (r: &MotorController)
        ensures
            r@ == self@.motors,
    {
        &self.motors
    }

    /// Calibration state.
    pub fn sensors(&self) -> (r: &CalibratedSensors)
        ensures
            r@ == self@.sensors,
    {
        &self.sensors
    }

    /// Last line-follower telemetry.
    pub fn telemetry(&self) -> (r: Telemetry)
        ensures
            r == self@.telemetry,
    {
        self.telemetry
    }

    /// Side on which the line was last seen: -1 left, 1 right, 0 neither.
    pub fn last_direction(&self) -> (r: i8)
        ensures
            r == self@.last_direction,
    {
        self.last_direction
    }

    /// Number of loop iterations so far, wrapping.
    pub fn loop_counter(&self) -> (r: u32)
        ensures
            r == self@.loop_counter,
    {
        self.loop_counter
    }

    /// How long to wait for the next command: short while calibrating or
    /// following the line, longer otherwise.
    pub fn poll_timeout_ms(&self) -> (r: u64)
        ensures
            r == self@.poll_timeout(),
    {
        match self.mode {
            RobotMode::LineFollowerCalibrating(_) | RobotMode::LineFollowerRunning => {
                ACTIVE_POLL_TIMEOUT_MS
            },
            _ => IDLE_POLL_TIMEOUT_MS,
        }
    }

    /// Apply a command received at `now_ms`; `readings` is the current
    /// sensor frame. Returns the reply to send, if any.
    pub fn handle_command(&mut self, command: Command, now_ms: u64, readings: &SensorReadings) -> (r:
        Option<Message>)
        ensures
            (final(self)@, r) == old(self)@.on_command(command, now_ms, *readings),
    {
        match command {
            Command::Motor { left, right } => {
                self.motors.set_both(left, right);
                None
            },
            Command::Stop => {
                self.motors.stop_all();
                match self.mode {
                    RobotMode::LineFollowerCalibrating(_) | RobotMode::LineFollowerRunning => {
                        self.mode = RobotMode::LineFollowerIdle;
                    },
                    _ => {},
                }
                None
            },
            Command::SetMode(m) => {
                if m == 1 {
                    self.mode = RobotMode::LineFollowerIdle;
                } else {
                    self.mode = RobotMode::Car;
                }
                self.motors.stop_all();
                None
            },
            Command::Start => {
                match self.mode {
                    RobotMode::LineFollowerIdle => {
                        self.sensors.reset_calibration();
                        self.mode = RobotMode::LineFollowerCalibrating(now_ms);
                        Some(Message::CalibrationStart)
                    },
                    _ => None,
                }
            },
            Command::GetSensors => Some(Message::Sensors(self.sensors.read_binary(readings))),
            Command::GetRawSensors => Some(Message::RawSensors(*readings)),
            Command::Ping => Some(Message::Pong),
            Command::Unknown(key) => {
                match self.mode {
                    RobotMode::Car => self.handle_key(key, readings),
                    _ => None,
                }
            },
        }
    }

    fn handle_key(&mut self, key: u8, readings: &SensorReadings) -> (r: Option<Message>)
        ensures
            is_raw_key(key) ==> final(self)@ == old(self)@ && r == Some(Message::RawSensors(*readings)),
            !is_raw_key(key) ==> final(self)@ == (RobotState {
                motors: key_motion(old(self)@.motors, key),
                ..old(self)@
            }) && r is None,
    {
        if key == KEY_FORWARD || key == KEY_FORWARD - ASCII_CASE_BIT {
            self.motors.forward(KEYBOARD_SPEED);
        } else if key == KEY_BACKWARD || key == KEY_BACKWARD - ASCII_CASE_BIT {
            self.motors.backward(KEYBOARD_SPEED);
        } else if key == KEY_LEFT || key == KEY_LEFT - ASCII_CASE_BIT {
            self.motors.turn_left(KEYBOARD_SPEED);
        } else if key == KEY_RIGHT || key == KEY_RIGHT - ASCII_CASE_BIT {
            self.motors.turn_right(KEYBOARD_SPEED);
        } else if key == KEY_STOP || key == KEY_STOP - ASCII_CASE_BIT || key == KEY_SPACE {
            self.motors.stop_all();
        } else if key == KEY_RAW_SENSORS || key == KEY_RAW_SENSORS - ASCII_CASE_BIT {
            return Some(Message::RawSensors(*readings));
        }
        None
    }

    fn follow_line(&mut self, readings: &SensorReadings)
        ensures
            final(self)@ == old(self)@.follow_line(*readings),
    {
        let (position, intensity) = self.sensors.read_line_position(readings);
        self.telemetry.position = position as i16;
        self.telemetry.intensity = intensity as u16;
        if intensity == 0 {
            if self.last_direction < 0 {
                self.motors.turn_left(SEARCH_SPEED);
            } else if self.last_direction > 0 {
                self.motors.turn_right(SEARCH_SPEED);
            } else {
                self.motors.forward(CRAWL_SPEED);
            }
        } else {
            let abs_pos: i32 = if position < 0 { -position } else { position };
            let quotient: i32 = (abs_pos as u32 / STEERING_DIVISOR as u32) as i32;
            let steering: i32 = if position < 0 { -quotient } else { quotient };
            let base: i32 = if abs_pos < 500 {
                65
            } else if abs_pos < 1500 {
                55
            } else {
                50
            };
            let left = clamp_follow_speed(base + steering);
            let right = clamp_follow_speed(base - steering);
            self.motors.set_both(left as i8, right as i8);
            self.telemetry.steering = steering as i8;
            self.telemetry.left_speed = left as u8;
            self.telemetry.right_speed = right as u8;
            self.last_direction = if steering > BIAS_STEERING {
                1
            } else if steering < -BIAS_STEERING {
                -1
            } else {
                0
            };
        }
    }

    /// Run one control-loop iteration at `now_ms` on the sensor frame
    /// `readings`, after the command (if any) has been handled. Returns the
    /// messages to send, in order.
    pub fn tick(&mut self, now_ms: u64, readings: &SensorReadings) -> (r: Vec<Message>)
        ensures
            (final(self)@, r@) == old(self)@.tick(now_ms, *readings),
    {
        let mut out: Vec<Message> = Vec::new();
        match self.mode {
            RobotMode::LineFollowerCalibrating(start) => {
                if now_ms.saturating_sub(start) < CALIBRATION_WINDOW_MS {
                    self.sensors.update_calibration(readings);
                } else {
                    self.sensors.finalize_calibration();
                    out.push(Message::CalibrationEnd);
                    self.mode = RobotMode::LineFollowerRunning;
                }
            },
            RobotMode::LineFollowerRunning => self.follow_line(readings),
            _ => {},
        }
        self.loop_counter = if self.loop_counter == u32::MAX {
            0
        } else {
            self.loop_counter + 1
        };
        match self.mode {
            RobotMode::LineFollowerRunning => {
                if self.loop_counter % TELEMETRY_PERIOD == 0 {
                    out.push(
                        Message::DebugAnalog {
                            position: self.telemetry.position,
                            intensity: self.telemetry.intensity,
                            steering: self.telemetry.steering,
                            left_speed: self.telemetry.left_speed,
                            right_speed: self.telemetry.right_speed,
                        },
                    );
                }
            },
            _ => {},
        }
        assert(out@ =~= old(self)@.tick(now_ms, *readings).1);
        out
    }
}

/// Switching to the line follower and then starting: `SetMode(1)` leaves the
/// robot idle with no reply; `Start` then opens the calibration window at the
/// time it arrives with fresh bounds, and it is the only one of the two that
/// replies, with `CalibrationStart`. A second `Start` during calibration
/// changes nothing and replies nothing.
pub proof fn lemma_start_calibration(
    s: RobotState,
    t0: u64,
    t1: u64,
    t2: u64,
    frame: SensorReadings,
)
    ensures
        ({
            let (s1, r1) = s.on_command(Command::SetMode(1), t0, frame);
            let (s2, r2) = s1.on_command(Command::Start, t1, frame);
            let (s3, r3) = s2.on_command(Command::Start, t2, frame);
            &&& s1.mode == RobotMode::LineFollowerIdle
            &&& r1 is None
            &&& s2.mode == RobotMode::LineFollowerCalibrating(t1)
            &&& s2.sensors == s.sensors.reset()
            &&& r2 == Some(Message::CalibrationStart)
            &&& s3 == s2
            &&& r3 is None
        }),
{
}

/// `Stop` during calibration returns to idle with the motors coasting and
/// sends nothing, in particular no `CalibrationEnd`.
pub proof fn lemma_stop_cancels_calibration(s: RobotState, now: u64, frame: SensorReadings)
    requires
        s.mode is LineFollowerCalibrating,
    ensures
        s.on_command(Command::Stop, now, frame).0.mode == RobotMode::LineFollowerIdle,
        s.on_command(Command::Stop, now, frame).0.motors == s.motors.stopped(),
        s.on_command(Command::Stop, now, frame).1 is None,
{
}

/// Within the calibration window a tick only widens the bounds: the mode
/// stays and nothing is sent.
pub proof fn lemma_calibration_window_open(s: RobotState, start: u64, now: u64, frame: SensorReadings)
    requires
        s.mode == RobotMode::LineFollowerCalibrating(start),
        elapsed_ms(now, start) < CALIBRATION_WINDOW_MS,
    ensures
        s.tick(now, frame).0.mode == s.mode,
        s.tick(now, frame).0.sensors == s.sensors.updated(frame@),
        s.tick(now, frame).1.len() == 0,
{
}

/// Once the window has elapsed, a tick finalizes the calibration, starts
/// the line follower and sends `CalibrationEnd` first and only once.
pub proof fn lemma_calibration_window_closes(
    s: RobotState,
    start: u64,
    now: u64,
    frame: SensorReadings,
)
    requires
        s.mode == RobotMode::LineFollowerCalibrating(start),
        elapsed_ms(now, start) >= CALIBRATION_WINDOW_MS,
    ensures
        s.tick(now, frame).0.mode == RobotMode::LineFollowerRunning,
        s.tick(now, frame).0.sensors == s.sensors.finalized(),
        s.tick(now, frame).1.len() >= 1,
        s.tick(now, frame).1[0] == Message::CalibrationEnd,
        forall|i: int|
            1 <= i < s.tick(now, frame).1.len() ==> s.tick(now, frame).1[i]
                != Message::CalibrationEnd,
{
}

/// A running line follower never sends `CalibrationEnd` again.
pub proof fn lemma_running_sends_no_calibration_end(s: RobotState, now: u64, frame: SensorReadings)
    requires
        s.mode is LineFollowerRunning,
    ensures
        s.tick(now, frame).0.mode is LineFollowerRunning,
        forall|i: int|
            0 <= i < s.tick(now, frame).1.len() ==> s.tick(now, frame).1[i]
                != Message::CalibrationEnd,
{
}

/// Keyboard shortcuts drive only in car mode: `w` (or `W`) in car mode
/// drives both sides forward at [`KEYBOARD_SPEED`]; in any other mode every
/// unknown byte leaves the robot as it was and sends nothing.
pub proof fn lemma_keys_only_in_car(s: RobotState, key: u8, now: u64, frame: SensorReadings)
    ensures
        s.mode == RobotMode::Car && is_key(key, KEY_FORWARD) ==> s.on_command(
            Command::Unknown(key),
            now,
            frame,
        ) == (
        RobotState {
            motors: s.motors.with_sides(
                Direction::Forward,
                Direction::Forward,
                KEYBOARD_SPEED as int,
            ),
            ..s
        },
        None::<Message>,
        ),
        s.mode != RobotMode::Car ==> s.on_command(Command::Unknown(key), now, frame) == (
        s,
        None::<Message>,
        ),
{
}

} // verus!
