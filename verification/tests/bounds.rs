use chrono::format::ParseErrorKind;
use chrono::{DateTime, Utc};
use location_filter::instant::Instant;
use location_filter::rfc3339::{bound_from_parts, parse_bound, BoundError};

#[test]
fn a_utc_timestamp_is_read() {
    assert_eq!(parse_bound("2017-07-14T02:40:00Z"), Ok(Instant { secs: 1_500_000_000, nanos: 0 }));
    assert_eq!(parse_bound("1970-01-01T00:00:00Z"), Ok(Instant { secs: 0, nanos: 0 }));
}

#[test]
fn an_offset_is_taken_into_account() {
    let utc = parse_bound("2017-07-14T02:40:00Z").unwrap();
    assert_eq!(parse_bound("2017-07-14T04:40:00+02:00"), Ok(utc));
    assert_eq!(parse_bound("2017-07-13T18:40:00-08:00"), Ok(utc));
    assert_eq!(
        parse_bound("1996-12-19T16:39:57-08:00"),
        Ok(Instant { secs: 851_042_397, nanos: 0 })
    );
}

#[test]
fn a_fraction_of_a_second_becomes_nanoseconds() {
    assert_eq!(
        parse_bound("2017-07-14T02:40:00.5Z"),
        Ok(Instant { secs: 1_500_000_000, nanos: 500_000_000 })
    );
    assert_eq!(
        parse_bound("2017-07-14T02:40:00.000000001Z"),
        Ok(Instant { secs: 1_500_000_000, nanos: 1 })
    );
}

#[test]
fn a_time_before_the_epoch_has_negative_seconds() {
    assert_eq!(parse_bound("1969-12-31T23:59:59Z"), Ok(Instant { secs: -1, nanos: 0 }));
    assert_eq!(
        parse_bound("1969-12-31T23:59:59.25Z"),
        Ok(Instant { secs: -1, nanos: 250_000_000 })
    );
}

#[test]
fn a_leap_second_stays_in_the_second_before_it() {
    assert_eq!(
        parse_bound("2016-12-31T23:59:60Z"),
        Ok(Instant { secs: 1_483_228_799, nanos: 1_000_000_000 })
    );
}

#[test]
fn a_blank_between_date_and_time_is_accepted() {
    assert_eq!(parse_bound("2017-07-14 02:40:00Z"), Ok(Instant { secs: 1_500_000_000, nanos: 0 }));
}

#[test]
fn text_that_is_no_timestamp_is_refused() {
    assert!(parse_bound("yesterday").is_err());
    assert!(parse_bound("").is_err());
    assert!(parse_bound("1500000000000").is_err());
    assert!(parse_bound("2017-07-14").is_err());
    assert!(parse_bound("2017-07-14T02:40:00").is_err());
    assert!(parse_bound("2017-07-14T02:40:00Z and more").is_err());
}

#[test]
fn a_date_that_does_not_exist_is_refused() {
    assert!(parse_bound("2017-02-30T00:00:00Z").is_err());
    assert!(parse_bound("2017-13-01T00:00:00Z").is_err());
    assert!(parse_bound("2017-07-14T25:00:00Z").is_err());
}

#[test]
fn a_refusal_carries_the_reason() {
    let e = parse_bound("").unwrap_err();
    assert_eq!(e.source.kind(), ParseErrorKind::TooShort);
    let e = parse_bound("2017-07-14T02:40:00Z and more").unwrap_err();
    assert_eq!(e.source.kind(), ParseErrorKind::TooLong);
    let e = parse_bound("yesterday").unwrap_err();
    assert_eq!(e.source.kind(), ParseErrorKind::Invalid);
}

#[test]
fn parts_that_were_read_make_the_bound() {
    assert_eq!(bound_from_parts(Ok((5, 7))), Ok(Instant { secs: 5, nanos: 7 }));
    assert_eq!(
        bound_from_parts(Ok((-12, 1_999_999_999))),
        Ok(Instant { secs: -12, nanos: 1_999_999_999 })
    );
}

#[test]
fn a_refusal_is_handed_on() {
    let refusal = "x".parse::<DateTime<Utc>>().unwrap_err();
    assert_eq!(bound_from_parts(Err(refusal)), Err(BoundError { source: refusal }));
}

#[test]
fn a_bound_agrees_with_the_timestamp_of_the_same_moment() {
    let bound = parse_bound("2017-07-14T02:40:00.123Z").unwrap();
    assert_eq!(bound, Instant::from_millis(1_500_000_000_123));
}
