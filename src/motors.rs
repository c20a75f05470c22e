//! Differential drive through two complementary PWM channels per side.
//!
//! The controller keeps the duty value of each of the four channels
//! (left forward, left reverse, right forward, right reverse); the platform
//! layer copies them to the timer after every call.

use vstd::prelude::*;

verus! {

/// Duty (in percent of the maximum) applied to a side's forward channel when
/// that side is told to stop: a small load that keeps a power bank awake but
/// is too weak to move the wheel.
pub const KEEP_ALIVE_PERCENT: u32 = 10;

/// Motor identifier.
#[derive(Clone, Copy, Debug, PartialEq, Eq, Structural)]
pub enum Motor {
    /// Left motor (motor A, channels 1 and 2).
    Left,
    /// Right motor (motor B, channels 3 and 4).
    Right,
}

/// Motor direction.
#[derive(Clone, Copy, Debug, PartialEq, Eq, Structural)]
pub enum Direction {
    Forward,
    Reverse,
    Stop,
}

/// Duty values of the two channels that drive one side.
#[derive(Clone, Copy, Debug, PartialEq, Eq, Structural)]
pub struct SideDuty {
    pub forward: u32,
    pub reverse: u32,
}

/// Abstract state of a [`MotorController`].
pub struct MotorState {
    pub max_duty: u32,
    pub left: SideDuty,
    pub right: SideDuty,
}

/// `max_duty * min(percent, 100) / 100`.
pub open spec fn duty_for(max_duty: u32, percent: int) -> u32 {
    let p = if percent > 100 { 100 } else { percent };
    (max_duty * p / 100) as u32
}

/// Channel duties of one side driven in `direction` at `percent`.
pub open spec fn side_duty(max_duty: u32, direction: Direction, percent: int) -> SideDuty {
    match direction {
        Direction::Forward => SideDuty { forward: duty_for(max_duty, percent), reverse: 0 },
        Direction::Reverse => SideDuty { forward: 0, reverse: duty_for(max_duty, percent) },
        Direction::Stop => SideDuty {
            forward: duty_for(max_duty, KEEP_ALIVE_PERCENT as int),
            reverse: 0,
        },
    }
}

/// Direction and percentage of a signed speed: the sign picks the
/// direction, the magnitude (at most 100) the percentage, and 0 is `Stop`.
pub open spec fn speed_direction(speed: i8) -> (Direction, u8) {
    if speed > 0 {
        (Direction::Forward, if speed > 100 { 100u8 } else { speed as u8 })
    } else if speed < 0 {
        (Direction::Reverse, if speed < -100 { 100u8 } else { (-speed) as u8 })
    } else {
        (Direction::Stop, 0u8)
    }
}

impl MotorState {
    /// One side driven in `direction` at `percent`; the other side kept.
    pub open spec fn with_motor(self, motor: Motor, direction: Direction, percent: int) -> MotorState {
        let d = side_duty(self.max_duty, direction, percent);
        match motor {
            Motor::Left => MotorState { left: d, ..self },
            Motor::Right => MotorState { right: d, ..self },
        }
    }

    /// Both sides driven from signed speeds (see [`speed_direction`]).
    pub open spec fn with_both(self, left_speed: i8, right_speed: i8) -> MotorState {
        let (ld, lp) = speed_direction(left_speed);
        let (rd, rp) = speed_direction(right_speed);
        self.with_motor(Motor::Left, ld, lp as int).with_motor(Motor::Right, rd, rp as int)
    }

    /// Every channel at zero duty (the wheels coast).
    pub open spec fn stopped(self) -> MotorState {
        MotorState {
            left: SideDuty { forward: 0, reverse: 0 },
            right: SideDuty { forward: 0, reverse: 0 },
            ..self
        }
    }

    /// Left and right driven in the given directions at one percentage.
    pub open spec fn with_sides(self, left: Direction, right: Direction, percent: int) -> MotorState {
        self.with_motor(Motor::Left, left, percent).with_motor(Motor::Right, right, percent)
    }
}

proof fn lemma_duty_fits(max_duty: u32, percent: int)
    requires
        0 <= percent <= 100,
    ensures
        0 <= max_duty * percent / 100 <= max_duty,
{
    assert(0 <= max_duty * percent <= max_duty * 100) by (nonlinear_arith)
        requires
            0 <= percent <= 100,
            0 <= max_duty,
    ;
}

/// Motor controller for two DC motors behind an H-bridge driver.
pub struct MotorController {
    max_duty: u32,
    left: SideDuty,
    right: SideDuty,
}

impl View for MotorController {
    type V = MotorState;

    closed spec fn view(&self) -> MotorState {
        MotorState { max_duty: self.max_duty, left: self.left, right: self.right }
    }
}

impl MotorController {
    /// A controller for a timer whose full-scale duty is `max_duty`, with
    /// every channel at zero.
    pub fn new(max_duty: u32) -> (r: MotorController)
        ensures
            r@.max_duty == max_duty,
            r@ == r@.stopped(),
    {
        MotorController {
            max_duty,
            left: SideDuty { forward: 0, reverse: 0 },
            right: SideDuty { forward: 0, reverse: 0 },
        }
    }

    /// Full-scale duty of the timer.
    pub fn max_duty(&self) -> (r: u32)
        ensures
            r == self@.max_duty,
    {
        self.max_duty
    }

    /// Duties of the four channels, in the order left forward, left reverse,
    /// right forward, right reverse.
    pub fn duties(&self) -> (r: [u32; 4])
        ensures
            r@ == seq![self@.left.forward, self@.left.reverse, self@.right.forward, self@.right.reverse],
    {
        let r = [self.left.forward, self.left.reverse, self.right.forward, self.right.reverse];
        assert(r@ =~= seq![self@.left.forward, self@.left.reverse, self@.right.forward, self@.right.reverse]);
        r
    }

    fn duty(&self, percent: u32) -> (r: u32)
        requires
            percent <= 100,
        ensures
            r == duty_for(self.max_duty, percent as int),
    {
        proof {
            lemma_duty_fits(self.max_duty, percent as int);
        }
        ((self.max_duty as u64) * (percent as u64) / 100) as u32
    }

    /// Set motor speed and direction; `speed_percent` is capped at 100.
    /// `Stop` does not coast: it holds the forward channel at
    /// [`KEEP_ALIVE_PERCENT`] and the reverse channel at zero.
    pub fn set_motor(&mut self, motor: Motor, direction: Direction, speed_percent: u8)
        ensures
            final(self)@ == old(self)@.with_motor(motor, direction, speed_percent as int),
    {
        let speed: u32 = if speed_percent > 100 { 100 } else { speed_percent as u32 };
        let duty = self.duty(speed);
        let d = match direction {
            Direction::Forward => SideDuty { forward: duty, reverse: 0 },
            Direction::Reverse => SideDuty { forward: 0, reverse: duty },
            Direction::Stop => SideDuty { forward: self.duty(KEEP_ALIVE_PERCENT), reverse: 0 },
        };
        match motor {
            Motor::Left => self.left = d,
            Motor::Right => self.right = d,
        }
    }

    /// Set both motors from signed speeds: positive is forward, negative is
    /// reverse (magnitude capped at 100), zero is `Stop`.
    pub fn set_both(&mut self, left_speed: i8, right_speed: i8)
        ensures
            final(self)@ == old(self)@.with_both(left_speed, right_speed),
    {
        let (left_dir, left_pct) = Self::speed_to_dir(left_speed);
        let (right_dir, right_pct) = Self::speed_to_dir(right_speed);
        self.set_motor(Motor::Left, left_dir, left_pct);
        self.set_motor(Motor::Right, right_dir, right_pct);
    }

    /// Force all four channels to zero duty.
    pub fn stop_all(&mut self)
        ensures
            final(self)@ == old(self)@.stopped(),
    {
        self.left = SideDuty { forward: 0, reverse: 0 };
        self.right = SideDuty { forward: 0, reverse: 0 };
    }

    /// Drive forward at the given speed percentage.
    pub fn forward(&mut self, speed_percent: u8)
        ensures
            final(self)@ == old(self)@.with_sides(Direction::Forward, Direction::Forward, speed_percent as int),
    {
        self.set_motor(Motor::Left, Direction::Forward, speed_percent);
        self.set_motor(Motor::Right, Direction::Forward, speed_percent);
    }

    /// Drive backward at the given speed percentage.
    pub fn backward(&mut self, speed_percent: u8)
        ensures
            final(self)@ == old(self)@.with_sides(Direction::Reverse, Direction::Reverse, speed_percent as int),
    {
        self.set_motor(Motor::Left, Direction::Reverse, speed_percent);
        self.set_motor(Motor::Right, Direction::Reverse, speed_percent);
    }

    /// Pivot left on the spot.
    pub fn turn_left(&mut self, speed_percent: u8)
        ensures
            final(self)@ == old(self)@.with_sides(Direction::Reverse, Direction::Forward, speed_percent as int),
    {
        self.set_motor(Motor::Left, Direction::Reverse, speed_percent);
        self.set_motor(Motor::Right, Direction::Forward, speed_percent);
    }

    /// Pivot right on the spot.
    pub fn turn_right(&mut self, speed_percent: u8)
        ensures
            final(self)@ == old(self)@.with_sides(Direction::Forward, Direction::Reverse, speed_percent as int),
    {
        self.set_motor(Motor::Left, Direction::Forward, speed_percent);
        self.set_motor(Motor::Right, Direction::Reverse, speed_percent);
    }

    /// Convert a signed speed to a direction and an absolute percentage.
    pub fn speed_to_dir(speed: i8) -> (r: (Direction, u8))
        ensures
            r == speed_direction(speed),
    {
        if speed > 0 {
            (Direction::Forward, if speed > 100 { 100 } else { speed as u8 })
        } else if speed < 0 {
            (Direction::Reverse, if speed < -100 { 100 } else { (-speed) as u8 })
        } else {
            (Direction::Stop, 0)
        }
    }
}

/// `speed` limited to -100..=100.
pub open spec fn clamp_signed(speed: i8) -> i8 {
    if speed > 100 {
        100
    } else if speed < -100 {
        (-100int) as i8
    } else {
        speed
    }
}

/// Zero speed on both sides is the keep-alive policy, not coasting: each
/// side's forward channel at [`KEEP_ALIVE_PERCENT`] of the maximum duty and
/// its reverse channel at zero (a positive duty once the maximum is at
/// least 10). Stopping all motors puts all four channels at zero.
pub proof fn lemma_zero_speed_keeps_alive(m: MotorState)
    ensures
        m.with_both(0, 0).left == (SideDuty {
            forward: duty_for(m.max_duty, KEEP_ALIVE_PERCENT as int),
            reverse: 0,
        }),
        m.with_both(0, 0).right == (SideDuty {
            forward: duty_for(m.max_duty, KEEP_ALIVE_PERCENT as int),
            reverse: 0,
        }),
        m.max_duty >= 10 ==> duty_for(m.max_duty, KEEP_ALIVE_PERCENT as int) > 0,
        m.stopped().left == (SideDuty { forward: 0, reverse: 0 }),
        m.stopped().right == (SideDuty { forward: 0, reverse: 0 }),
{
    lemma_duty_fits(m.max_duty, KEEP_ALIVE_PERCENT as int);
}

/// Signed speeds beyond -100..=100 act as their bound: setting both sides
/// gives the same duties as with the speeds clamped to that range.
pub proof fn lemma_set_both_clamps(m: MotorState, left_speed: i8, right_speed: i8)
    ensures
        m.with_both(left_speed, right_speed) == m.with_both(
            clamp_signed(left_speed),
            clamp_signed(right_speed),
        ),
{
}

} // verus!
