use dirlist::stamp::{epoch_time, DAY_SECS, FIRST_SECS, LAST_SECS, SECOND_NANOS};
use std::time::{Duration, UNIX_EPOCH};

#[test]
fn stamp_constants() {
    assert_eq!(FIRST_SECS, -8_334_601_228_800);
    assert_eq!(LAST_SECS, 8_210_266_876_799);
    assert_eq!(SECOND_NANOS, 1_000_000_000);
    assert_eq!(DAY_SECS, 86_400);
}

#[test]
fn epoch_time_after_the_start() {
    assert_eq!(epoch_time(false, 0, 0), Some((0, 0)));
    assert_eq!(epoch_time(false, 5, 7), Some((5, 7)));
    assert_eq!(epoch_time(false, 1431691200, 999_999_999), Some((1431691200, 999_999_999)));
}

#[test]
fn epoch_time_before_the_start_rounds_down() {
    assert_eq!(epoch_time(true, 0, 0), Some((0, 0)));
    assert_eq!(epoch_time(true, 5, 0), Some((-5, 0)));
    assert_eq!(epoch_time(true, 5, 250_000_000), Some((-6, 750_000_000)));
    assert_eq!(epoch_time(true, 0, 1), Some((-1, 999_999_999)));
    assert_eq!(epoch_time(true, 0, 999_999_999), Some((-1, 1)));
}

#[test]
fn epoch_time_at_the_ends_of_the_seconds() {
    let most = i64::MAX as u64;
    assert_eq!(epoch_time(false, most, 999_999_999), Some((i64::MAX, 999_999_999)));
    assert_eq!(epoch_time(false, most + 1, 0), None);
    assert_eq!(epoch_time(false, u64::MAX, 0), None);
    assert_eq!(epoch_time(true, most, 0), Some((-i64::MAX, 0)));
    assert_eq!(epoch_time(true, most, 1), Some((i64::MIN, 999_999_999)));
    assert_eq!(epoch_time(true, most + 1, 0), Some((i64::MIN, 0)));
    assert_eq!(epoch_time(true, most + 1, 1), None);
    assert_eq!(epoch_time(true, most + 2, 0), None);
    assert_eq!(epoch_time(true, u64::MAX, 5), None);
}

#[test]
fn epoch_time_refuses_a_second_of_nanoseconds() {
    assert_eq!(epoch_time(false, 5, 1_000_000_000), None);
    assert_eq!(epoch_time(true, 5, 1_000_000_000), None);
    assert_eq!(epoch_time(false, 5, u32::MAX), None);
}

#[test]
fn epoch_time_agrees_with_the_clock_conversion() {
    for (secs, nanos) in [(0u64, 0u32), (1, 0), (1, 1), (86_399, 999_999_999), (1431691200, 5)] {
        let distance = Duration::new(secs, nanos);
        let later: chrono::DateTime<chrono::Utc> = chrono::DateTime::from(UNIX_EPOCH + distance);
        assert_eq!(
            epoch_time(false, secs, nanos),
            Some((later.timestamp(), later.timestamp_subsec_nanos()))
        );
        let earlier: chrono::DateTime<chrono::Utc> = chrono::DateTime::from(UNIX_EPOCH - distance);
        assert_eq!(
            epoch_time(true, secs, nanos),
            Some((earlier.timestamp(), earlier.timestamp_subsec_nanos()))
        );
    }
}
