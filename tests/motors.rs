use liru_core::motors::{Direction, Motor, MotorController, KEEP_ALIVE_PERCENT};

#[test]
fn new_controller_is_stopped() {
    let m = MotorController::new(1000);
    assert_eq!(m.duties(), [0, 0, 0, 0]);
    assert_eq!(m.max_duty(), 1000);
}

#[test]
fn set_both_zero_keeps_alive() {
    let mut m = MotorController::new(1000);
    m.set_both(0, 0);
    assert_eq!(KEEP_ALIVE_PERCENT, 10);
    assert_eq!(m.duties(), [100, 0, 100, 0]);
}

#[test]
fn stop_all_coasts() {
    let mut m = MotorController::new(1000);
    m.set_both(40, -40);
    m.stop_all();
    assert_eq!(m.duties(), [0, 0, 0, 0]);
}

#[test]
fn set_both_clamps_speed() {
    let mut a = MotorController::new(1000);
    let mut b = MotorController::new(1000);
    a.set_both(127, -128);
    b.set_both(100, -100);
    assert_eq!(a.duties(), b.duties());
    assert_eq!(a.duties(), [1000, 0, 0, 1000]);
}

#[test]
fn set_both_signed_speeds() {
    let mut m = MotorController::new(2000);
    m.set_both(25, -70);
    assert_eq!(m.duties(), [500, 0, 0, 1400]);
}

#[test]
fn set_motor_caps_percentage() {
    let mut m = MotorController::new(1000);
    m.set_motor(Motor::Right, Direction::Forward, 200);
    assert_eq!(m.duties(), [0, 0, 1000, 0]);
    m.set_motor(Motor::Left, Direction::Reverse, 33);
    assert_eq!(m.duties(), [0, 330, 1000, 0]);
    m.set_motor(Motor::Right, Direction::Stop, 90);
    assert_eq!(m.duties(), [0, 330, 100, 0]);
}

#[test]
fn duty_rounds_down() {
    let mut m = MotorController::new(999);
    m.forward(70);
    assert_eq!(m.duties(), [699, 0, 699, 0]);
}

#[test]
fn named_maneuvers() {
    let mut m = MotorController::new(100);
    m.forward(50);
    assert_eq!(m.duties(), [50, 0, 50, 0]);
    m.backward(50);
    assert_eq!(m.duties(), [0, 50, 0, 50]);
    m.turn_left(60);
    assert_eq!(m.duties(), [0, 60, 60, 0]);
    m.turn_right(60);
    assert_eq!(m.duties(), [60, 0, 0, 60]);
}

#[test]
fn speed_to_direction() {
    assert_eq!(MotorController::speed_to_dir(0), (Direction::Stop, 0));
    assert_eq!(MotorController::speed_to_dir(55), (Direction::Forward, 55));
    assert_eq!(MotorController::speed_to_dir(-55), (Direction::Reverse, 55));
    assert_eq!(MotorController::speed_to_dir(120), (Direction::Forward, 100));
    assert_eq!(MotorController::speed_to_dir(-128), (Direction::Reverse, 100));
}
