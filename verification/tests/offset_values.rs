use easy_init_newrelic_opentelemetry::offset::{TimestampOffset, MAX_OFFSET_SECONDS};

#[test]
fn utc_is_zero_seconds() {
    assert_eq!(TimestampOffset::utc().whole_seconds, 0);
    assert_eq!(TimestampOffset::default(), TimestampOffset::utc());
}

#[test]
fn whole_seconds_within_range_are_accepted() {
    assert_eq!(TimestampOffset::from_whole_seconds(3600).unwrap().whole_seconds, 3600);
    assert_eq!(
        TimestampOffset::from_whole_seconds(MAX_OFFSET_SECONDS).unwrap().whole_seconds,
        93599
    );
    assert_eq!(
        TimestampOffset::from_whole_seconds(-MAX_OFFSET_SECONDS).unwrap().whole_seconds,
        -93599
    );
}

#[test]
fn whole_seconds_outside_range_are_rejected() {
    assert!(TimestampOffset::from_whole_seconds(MAX_OFFSET_SECONDS + 1).is_none());
    assert!(TimestampOffset::from_whole_seconds(-MAX_OFFSET_SECONDS - 1).is_none());
}

#[test]
fn hours_minutes_seconds_combine_into_whole_seconds() {
    assert_eq!(TimestampOffset::from_hms(1, 2, 3).unwrap().whole_seconds, 3723);
    assert_eq!(TimestampOffset::from_hms(-5, -30, 0).unwrap().whole_seconds, -19800);
    assert_eq!(TimestampOffset::from_hms(0, 0, 0).unwrap(), TimestampOffset::utc());
}

#[test]
fn out_of_range_components_are_rejected() {
    assert!(TimestampOffset::from_hms(26, 0, 0).is_none());
    assert!(TimestampOffset::from_hms(0, 60, 0).is_none());
    assert!(TimestampOffset::from_hms(0, 0, -60).is_none());
}
