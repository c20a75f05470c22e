use liru_core::sensors::{average, threshold_mask, CalibratedSensors, SensorReadings};

fn calibrated(low: SensorReadings, high: SensorReadings) -> CalibratedSensors {
    let mut s = CalibratedSensors::new();
    s.reset_calibration();
    s.update_calibration(&low);
    s.update_calibration(&high);
    s.finalize_calibration();
    s
}

fn standard() -> CalibratedSensors {
    calibrated([0; 8], [1000; 8])
}

#[test]
fn new_sensors_defaults() {
    let s = CalibratedSensors::new();
    assert!(!s.is_calibrated());
    assert_eq!(s.thresholds(), [2000; 8]);
    assert_eq!(s.min_readings(), [4095; 8]);
    assert_eq!(s.max_readings(), [0; 8]);
}

#[test]
fn update_tracks_bounds() {
    let mut s = CalibratedSensors::new();
    s.update_calibration(&[10, 20, 30, 40, 50, 60, 70, 80]);
    s.update_calibration(&[5, 25, 30, 35, 4000, 60, 0, 90]);
    assert_eq!(s.min_readings(), [5, 20, 30, 35, 50, 60, 0, 80]);
    assert_eq!(s.max_readings(), [10, 25, 30, 40, 4000, 60, 70, 90]);
}

#[test]
fn finalize_threshold_formula() {
    let s = calibrated([1000, 0, 0, 0, 0, 0, 0, 500], [3000, 4095, 0, 1, 1000, 100, 99, 500]);
    assert!(s.is_calibrated());
    assert_eq!(s.thresholds(), [1800, 1638, 0, 0, 400, 40, 39, 500]);
}

#[test]
fn finalize_without_samples_saturates() {
    let mut s = CalibratedSensors::new();
    s.reset_calibration();
    s.finalize_calibration();
    assert_eq!(s.thresholds(), [4095; 8]);
}

#[test]
fn finalize_is_idempotent() {
    let mut s = calibrated([100, 200, 300, 400, 500, 600, 700, 800], [900; 8]);
    let first = s.thresholds();
    s.finalize_calibration();
    assert_eq!(s.thresholds(), first);
    assert!(s.is_calibrated());
}

#[test]
fn reset_restores_extremes() {
    let mut s = standard();
    s.reset_calibration();
    assert!(!s.is_calibrated());
    assert_eq!(s.min_readings(), [4095; 8]);
    assert_eq!(s.max_readings(), [0; 8]);
}

#[test]
fn line_position_single_channel() {
    let s = standard();
    assert_eq!(s.read_line_position(&[0, 0, 0, 1000, 0, 0, 0, 0]), (-500, 1000));
}

#[test]
fn line_position_extremes_and_centre() {
    let s = standard();
    assert_eq!(s.read_line_position(&[1000, 0, 0, 0, 0, 0, 0, 0]), (-3500, 1000));
    assert_eq!(s.read_line_position(&[0, 0, 0, 0, 0, 0, 0, 1000]), (3500, 1000));
    assert_eq!(s.read_line_position(&[0, 0, 0, 500, 500, 0, 0, 0]), (0, 1000));
}

#[test]
fn line_position_rounds_down() {
    let s = standard();
    assert_eq!(s.read_line_position(&[0, 0, 0, 0, 0, 0, 300, 1000]), (3269, 1300));
}

#[test]
fn line_position_clamps_readings() {
    let s = calibrated([100; 8], [1100; 8]);
    assert_eq!(s.read_line_position(&[0, 0, 4095, 0, 0, 0, 0, 0]), (-1500, 1000));
    assert_eq!(s.read_line_position(&[0, 0, 600, 0, 0, 0, 0, 0]), (-1500, 500));
}

#[test]
fn line_lost_below_half_sensor() {
    let s = standard();
    assert_eq!(s.read_line_position(&[100, 100, 100, 100, 99, 0, 0, 0]), (0, 0));
    assert_eq!(s.read_line_position(&[0, 0, 0, 0, 0, 0, 0, 499]), (0, 0));
    assert_eq!(s.read_line_position(&[0; 8]), (0, 0));
}

#[test]
fn line_found_at_exactly_half_sensor() {
    let s = standard();
    assert_eq!(s.read_line_position(&[500, 0, 0, 0, 0, 0, 0, 0]), (-3500, 500));
}

#[test]
fn equal_bounds_normalize_to_zero() {
    let s = calibrated([500, 0, 0, 0, 0, 0, 0, 0], [500, 1000, 1000, 1000, 1000, 1000, 1000, 1000]);
    assert_eq!(s.read_line_position(&[600, 1000, 0, 0, 0, 0, 0, 0]), (-2500, 1000));
}

#[test]
fn uncalibrated_position_is_lost() {
    let s = CalibratedSensors::new();
    assert_eq!(s.read_line_position(&[4095; 8]), (0, 0));
}

#[test]
fn calibrated_mask() {
    let s = standard();
    assert_eq!(s.read_binary(&[401, 400, 0, 1000, 0, 0, 0, 0]), 0b0000_1001);
    assert_eq!(s.read_binary(&[4095; 8]), 0xff);
}

#[test]
fn uncalibrated_mask() {
    assert_eq!(threshold_mask(&[0, 2001, 2000, 4095, 0, 0, 0, 3000], 2000), 0x8a);
    assert_eq!(threshold_mask(&[0; 8], 0), 0);
}

#[test]
fn average_rounds_down() {
    assert_eq!(average(&[1, 2, 3, 4, 5, 6, 7, 8]), 4);
    assert_eq!(average(&[4095; 8]), 4095);
    assert_eq!(average(&[65535; 8]), 65535);
}
