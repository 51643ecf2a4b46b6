use imu_fusion::update_path::{update_path, UpdatePath};

#[test]
fn out_of_range_interval_skips_whatever_the_readings() {
    for a in [false, true] {
        for m in [false, true] {
            assert_eq!(update_path(false, a, m), UpdatePath::Skip);
        }
    }
}

#[test]
fn zero_accel_or_mag_integrates_gyro_only() {
    assert_eq!(update_path(true, false, true), UpdatePath::GyroOnly);
    assert_eq!(update_path(true, true, false), UpdatePath::GyroOnly);
    assert_eq!(update_path(true, false, false), UpdatePath::GyroOnly);
}

#[test]
fn valid_readings_are_corrected() {
    assert_eq!(update_path(true, true, true), UpdatePath::Corrected);
}
