use confusing_clock::time::{subsecond_millis, WallClockSample};

#[test]
fn new_accepts_times_in_range() {
    let t = WallClockSample::new(3, 30, 0, 0).unwrap();
    assert_eq!((t.hour(), t.minute(), t.second(), t.millisecond()), (3, 30, 0, 0));
    let t = WallClockSample::new(23, 59, 59, 999).unwrap();
    assert_eq!((t.hour(), t.minute(), t.second(), t.millisecond()), (23, 59, 59, 999));
    let t = WallClockSample::new(0, 0, 0, 0).unwrap();
    assert_eq!((t.hour(), t.minute(), t.second(), t.millisecond()), (0, 0, 0, 0));
}

#[test]
fn new_rejects_each_part_out_of_range() {
    assert_eq!(WallClockSample::new(24, 0, 0, 0), None);
    assert_eq!(WallClockSample::new(0, 60, 0, 0), None);
    assert_eq!(WallClockSample::new(0, 0, 60, 0), None);
    assert_eq!(WallClockSample::new(0, 0, 0, 1000), None);
    assert_eq!(WallClockSample::new(256, 0, 0, 0), None);
    assert_eq!(WallClockSample::new(0, 0, 0, 65_536), None);
    assert_eq!(WallClockSample::new(u32::MAX, u32::MAX, u32::MAX, u32::MAX), None);
}

#[test]
fn subsecond_millis_after_the_epoch() {
    assert_eq!(subsecond_millis(0), 0);
    assert_eq!(subsecond_millis(999), 999);
    assert_eq!(subsecond_millis(1000), 0);
    assert_eq!(subsecond_millis(1_444), 444);
    assert_eq!(subsecond_millis(1_000_000_000_555), 555);
    assert_eq!(subsecond_millis(i64::MAX), 807);
}

#[test]
fn subsecond_millis_before_the_epoch() {
    assert_eq!(subsecond_millis(-1), 999);
    assert_eq!(subsecond_millis(-999), 1);
    assert_eq!(subsecond_millis(-1000), 0);
    assert_eq!(subsecond_millis(-1001), 999);
    assert_eq!(subsecond_millis(i64::MIN), 192);
}

#[test]
fn subsecond_millis_agrees_with_the_euclidean_remainder() {
    for t in -5000i64..5000 {
        assert_eq!(subsecond_millis(t) as i64, t.rem_euclid(1000));
    }
}

#[test]
fn now_is_a_time_of_day() {
    let t = WallClockSample::now();
    assert!(t.hour() < 24);
    assert!(t.minute() < 60);
    assert!(t.second() < 60);
    assert!(t.millisecond() < 1000);
    let again = WallClockSample::new(
        t.hour() as u32,
        t.minute() as u32,
        t.second() as u32,
        t.millisecond() as u32,
    );
    assert_eq!(again, Some(t));
}

#[test]
fn now_moves_with_the_clock() {
    let first = WallClockSample::now();
    let mut moved = false;
    for _ in 0..2_000_000 {
        if WallClockSample::now() != first {
            moved = true;
            break;
        }
    }
    assert!(moved);
}

#[test]
fn from_reading_takes_the_millisecond_from_the_count() {
    let t = WallClockSample::from_reading(3, 30, 0, 1_000_000_000_555).unwrap();
    assert_eq!((t.hour(), t.minute(), t.second(), t.millisecond()), (3, 30, 0, 555));
    let t = WallClockSample::from_reading(23, 59, 59, 999).unwrap();
    assert_eq!((t.hour(), t.minute(), t.second(), t.millisecond()), (23, 59, 59, 999));
    let t = WallClockSample::from_reading(0, 0, 0, 0).unwrap();
    assert_eq!((t.hour(), t.minute(), t.second(), t.millisecond()), (0, 0, 0, 0));
    assert_eq!(
        WallClockSample::from_reading(7, 8, 9, 86_400_123),
        WallClockSample::new(7, 8, 9, 123)
    );
}

#[test]
fn from_reading_counts_forwards_before_the_epoch() {
    let t = WallClockSample::from_reading(12, 0, 1, -1).unwrap();
    assert_eq!((t.hour(), t.minute(), t.second(), t.millisecond()), (12, 0, 1, 999));
    let t = WallClockSample::from_reading(12, 0, 1, -1000).unwrap();
    assert_eq!(t.millisecond(), 0);
    let t = WallClockSample::from_reading(12, 0, 1, i64::MIN).unwrap();
    assert_eq!(t.millisecond(), 192);
    let t = WallClockSample::from_reading(12, 0, 1, i64::MAX).unwrap();
    assert_eq!(t.millisecond(), 807);
}

#[test]
fn from_reading_rejects_an_hour_minute_or_second_out_of_range() {
    assert_eq!(WallClockSample::from_reading(24, 0, 0, 5), None);
    assert_eq!(WallClockSample::from_reading(0, 60, 0, 5), None);
    assert_eq!(WallClockSample::from_reading(0, 0, 60, 5), None);
    assert_eq!(WallClockSample::from_reading(u32::MAX, 0, 0, 5), None);
    assert_eq!(WallClockSample::from_reading(256, 256, 256, 5), None);
}
