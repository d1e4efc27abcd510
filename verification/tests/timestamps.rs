use user_auth::model::{Timestamp, MAX_TIMESTAMP, MIN_TIMESTAMP};

#[test]
fn timestamps_within_the_calendar_are_accepted() {
    let t = Timestamp::new(1_704_164_645, 0).unwrap();
    assert_eq!(t.seconds(), 1_704_164_645);
    assert_eq!(t.subsec_nanos(), 0);
    assert!(Timestamp::new(MAX_TIMESTAMP, 999_999_999).is_some());
    assert!(Timestamp::new(MIN_TIMESTAMP, 0).is_some());
}

#[test]
fn timestamps_outside_the_calendar_are_refused() {
    assert!(Timestamp::new(MAX_TIMESTAMP + 1, 0).is_none());
    assert!(Timestamp::new(MIN_TIMESTAMP - 1, 0).is_none());
    assert!(Timestamp::new(0, 1_000_000_000).is_none());
    assert!(Timestamp::new(i64::MAX, 0).is_none());
}

#[test]
fn timestamps_render_as_naive_datetimes() {
    assert_eq!(Timestamp::new(1_704_164_645, 0).unwrap().to_text(), "2024-01-02 03:04:05");
    assert_eq!(Timestamp::new(0, 0).unwrap().to_text(), "1970-01-01 00:00:00");
    assert_eq!(Timestamp::new(1_704_164_645, 500_000_000).unwrap().to_text(), "2024-01-02 03:04:05.500");
    assert_eq!(Timestamp::new(-1, 0).unwrap().to_text(), "1969-12-31 23:59:59");
}

#[test]
fn the_calendar_ends_are_rendered() {
    assert_eq!(Timestamp::new(MAX_TIMESTAMP, 0).unwrap().to_text(), "+262142-12-31 23:59:59");
    assert_eq!(Timestamp::new(MIN_TIMESTAMP, 0).unwrap().to_text(), "-262143-01-01 00:00:00");
}
