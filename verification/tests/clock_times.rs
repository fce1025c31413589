use chrono::TimeZone;
use chrono::Timelike;
use timetable::clock::DepartureTime;
use timetable::clock::MAX_TIMESTAMP;
use timetable::clock::MIN_TIMESTAMP;

#[test]
fn range_of_departure_times_is_that_of_the_calendar() {
    assert!(DepartureTime::from_timestamp(MIN_TIMESTAMP).is_some());
    assert!(DepartureTime::from_timestamp(MAX_TIMESTAMP).is_some());
    assert!(DepartureTime::from_timestamp(MIN_TIMESTAMP - 1).is_none());
    assert!(DepartureTime::from_timestamp(MAX_TIMESTAMP + 1).is_none());
    assert!(DepartureTime::from_timestamp(i64::MIN).is_none());
    assert!(DepartureTime::from_timestamp(i64::MAX).is_none());
    assert!(chrono::Utc.timestamp_opt(MIN_TIMESTAMP, 0).single().is_some());
    assert!(chrono::Utc.timestamp_opt(MAX_TIMESTAMP, 0).single().is_some());
    assert!(chrono::Utc.timestamp_opt(MIN_TIMESTAMP - 1, 0).single().is_none());
    assert!(chrono::Utc.timestamp_opt(MAX_TIMESTAMP + 1, 0).single().is_none());
}

#[test]
fn timestamp_is_kept() {
    for secs in [0, 1, -1, 1_000_000_000, MIN_TIMESTAMP, MAX_TIMESTAMP] {
        assert_eq!(DepartureTime::from_timestamp(secs).unwrap().timestamp(), secs);
    }
}

#[test]
fn hour_and_minute_of_known_moments() {
    let cases: [(i64, u32, u32); 9] = [
        (0, 0, 0),
        (59, 0, 0),
        (60, 0, 1),
        (3_599, 0, 59),
        (3_600, 1, 0),
        (86_399, 23, 59),
        (1_000_000_000, 1, 46),
        (-1, 23, 59),
        (-86_400 - 3_600, 23, 0),
    ];
    for (secs, hour, minute) in cases {
        let time = DepartureTime::from_timestamp(secs).unwrap();
        assert_eq!(time.hour(), hour);
        assert_eq!(time.minute(), minute);
    }
}

#[test]
fn hour_and_minute_at_the_ends_of_the_range() {
    let first = DepartureTime::from_timestamp(MIN_TIMESTAMP).unwrap();
    assert_eq!((first.hour(), first.minute()), (0, 0));
    let last = DepartureTime::from_timestamp(MAX_TIMESTAMP).unwrap();
    assert_eq!((last.hour(), last.minute()), (23, 59));
}

#[test]
fn hour_and_minute_agree_with_the_calendar() {
    let mut secs: i64 = -5_000_000_000;
    while secs < 5_000_000_000 {
        let time = DepartureTime::from_timestamp(secs).unwrap();
        let date_time = chrono::Utc.timestamp(secs, 0);
        assert_eq!(time.hour(), date_time.hour());
        assert_eq!(time.minute(), date_time.minute());
        assert_eq!(i64::from(time.hour()), secs.rem_euclid(86_400) / 3_600);
        assert_eq!(i64::from(time.minute()), secs.rem_euclid(3_600) / 60);
        secs += 7_654_321;
    }
}

#[test]
fn minutes_are_added_as_sixty_seconds_each() {
    let time = DepartureTime::from_timestamp(1_000_000_000).unwrap();
    assert_eq!(time.plus_minutes(13).timestamp(), 1_000_000_780);
    assert_eq!(time.plus_minutes(89).timestamp(), 1_000_005_340);
    assert_eq!(time.plus_minutes(0).timestamp(), 1_000_000_000);
    assert_eq!(time.plus_minutes(-1).timestamp(), 999_999_940);
    assert_eq!(time.plus_minutes(14).hour(), 2);
    assert_eq!(time.plus_minutes(14).minute(), 0);
    // Across midnight, and up to the very last minute that can be held.
    let evening = DepartureTime::from_timestamp(86_399).unwrap();
    assert_eq!(evening.plus_minutes(1).timestamp(), 86_459);
    assert_eq!((evening.plus_minutes(1).hour(), evening.plus_minutes(1).minute()), (0, 0));
    let late = DepartureTime::from_timestamp(MAX_TIMESTAMP - 60).unwrap();
    assert_eq!(late.plus_minutes(1).timestamp(), MAX_TIMESTAMP);
    let early = DepartureTime::from_timestamp(MIN_TIMESTAMP + 120).unwrap();
    assert_eq!(early.plus_minutes(-2).timestamp(), MIN_TIMESTAMP);
}

#[test]
fn room_for_minutes_is_told_exactly() {
    let late = DepartureTime::from_timestamp(MAX_TIMESTAMP - 60).unwrap();
    assert!(late.can_add_minutes(0));
    assert!(late.can_add_minutes(1));
    assert!(!late.can_add_minutes(2));
    assert!(!late.can_add_minutes(i64::MAX));
    let later = DepartureTime::from_timestamp(MAX_TIMESTAMP - 59).unwrap();
    assert!(!later.can_add_minutes(1));
    let early = DepartureTime::from_timestamp(MIN_TIMESTAMP + 60).unwrap();
    assert!(early.can_add_minutes(-1));
    assert!(!early.can_add_minutes(-2));
    assert!(!early.can_add_minutes(i64::MIN));
    assert!(early.can_add_minutes(89));
    let earlier = DepartureTime::from_timestamp(MIN_TIMESTAMP + 59).unwrap();
    assert!(!earlier.can_add_minutes(-1));
}

#[test]
fn clock_reading_makes_a_departure_time() {
    let secs = chrono::Utc::now().timestamp();
    let now = DepartureTime::from_timestamp(secs).unwrap();
    assert_eq!(now.timestamp(), secs);
    let date_time = chrono::Utc.timestamp(secs, 0);
    assert_eq!((now.hour(), now.minute()), (date_time.hour(), date_time.minute()));
}

#[test]
fn moments_before_1970_are_departure_times() {
    let time = DepartureTime::from_timestamp(-1).unwrap();
    assert_eq!((time.hour(), time.minute()), (23, 59));
    assert_eq!(time.plus_minutes(1).timestamp(), 59);
}
