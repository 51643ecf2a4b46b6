use imu_fusion::timing::{SampleClock, MAX_INTERVAL_NS};

#[test]
fn first_sample_has_no_interval() {
    let mut c = SampleClock::new();
    assert_eq!(c.last_update(), None);
    assert_eq!(c.next_interval(5_000), None);
    assert_eq!(c.last_update(), Some(5_000));
}

#[test]
fn following_samples_use_the_elapsed_time() {
    let mut c = SampleClock::new();
    c.next_interval(1_000_000);
    assert_eq!(c.next_interval(21_000_000), Some(20_000_000));
    assert_eq!(c.next_interval(31_000_000), Some(10_000_000));
}

#[test]
fn zero_and_backward_intervals_are_rejected() {
    let mut c = SampleClock::new();
    c.next_interval(100);
    assert_eq!(c.next_interval(100), None);
    assert_eq!(c.next_interval(50), None);
    assert_eq!(c.last_update(), Some(50));
}

#[test]
fn intervals_of_a_second_or_more_are_rejected() {
    let mut c = SampleClock::new();
    c.next_interval(0);
    assert_eq!(c.next_interval(MAX_INTERVAL_NS), None);
    assert_eq!(c.next_interval(MAX_INTERVAL_NS + MAX_INTERVAL_NS - 1), Some(MAX_INTERVAL_NS - 1));
    assert_eq!(c.next_interval(u64::MAX), None);
}

#[test]
fn reset_forgets_the_last_sample() {
    let mut c = SampleClock::new();
    c.next_interval(10);
    c.next_interval(20);
    c.reset();
    assert_eq!(c.last_update(), None);
    assert_eq!(c.next_interval(30), None);
    assert_eq!(c.next_interval(45), Some(15));
}
