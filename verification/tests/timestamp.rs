use uprs::timestamp::Timestamp;

#[test]
fn the_epoch_in_utc() {
    let epoch = Timestamp::new(0, 0, 0).unwrap();
    assert_eq!(epoch.to_rfc3339(), "1970-01-01T00:00:00+00:00");
    assert_eq!(epoch.secs(), 0);
    assert_eq!(epoch.nanos(), 0);
    assert_eq!(epoch.offset(), 0);
}

#[test]
fn an_instant_east_of_utc() {
    // 2022-07-05T07:52:25Z, written ten hours east of UTC.
    let instant = Timestamp::new(1_657_007_545, 0, 36_000).unwrap();
    assert_eq!(instant.to_rfc3339(), "2022-07-05T17:52:25+10:00");
    assert_eq!(instant.secs(), 1_657_007_545);
    assert_eq!(instant.offset(), 36_000);
}

#[test]
fn an_instant_west_of_utc_with_a_fraction() {
    // 1996-12-20T00:39:57.5Z, written eight hours west of UTC.
    let instant = Timestamp::new(851_042_397, 500_000_000, -28_800).unwrap();
    assert_eq!(instant.to_rfc3339(), "1996-12-19T16:39:57.500-08:00");
    assert_eq!(instant.nanos(), 500_000_000);
}

#[test]
fn the_text_agrees_with_what_was_parsed() {
    for text in [
        "2022-07-05T17:52:25+10:00",
        "2022-07-07T05:20:36+10:00",
        "1999-12-31T23:59:59-05:00",
        "2000-02-29T12:00:00.123456+05:30",
    ] {
        let parsed = chrono::DateTime::parse_from_rfc3339(text).unwrap();
        let instant = Timestamp::new(
            parsed.timestamp(),
            parsed.timestamp_subsec_nanos(),
            parsed.offset().local_minus_utc(),
        )
        .unwrap();
        assert_eq!(instant.to_rfc3339(), text);
    }
}

#[test]
fn numbers_that_denote_no_date_and_time_are_refused() {
    assert_eq!(Timestamp::new(0, 0, 86_400), None);
    assert_eq!(Timestamp::new(0, 0, -86_400), None);
    assert_eq!(Timestamp::new(0, 2_000_000_000, 0), None);
    assert_eq!(Timestamp::new(0, 1_000_000_000, 0), None);
    assert_eq!(Timestamp::new(i64::MAX, 0, 0), None);
    assert_eq!(Timestamp::new(i64::MIN, 0, 0), None);
}

#[test]
fn the_widest_offsets_are_accepted() {
    assert!(Timestamp::new(0, 0, 86_399).is_some());
    assert!(Timestamp::new(0, 0, -86_399).is_some());
    assert_eq!(Timestamp::new(0, 0, 86_340).unwrap().to_rfc3339(), "1970-01-01T23:59:00+23:59");
    assert_eq!(Timestamp::new(0, 0, -86_340).unwrap().to_rfc3339(), "1969-12-31T00:01:00-23:59");
}

#[test]
fn the_same_instant_in_two_zones_is_equal() {
    let east = Timestamp::new(1_657_007_545, 0, 36_000).unwrap();
    let utc = Timestamp::new(1_657_007_545, 0, 0).unwrap();
    let later = Timestamp::new(1_657_007_546, 0, 36_000).unwrap();
    assert_eq!(east, utc);
    assert_ne!(east, later);
    assert_eq!(utc.to_rfc3339(), "2022-07-05T07:52:25+00:00");
}
