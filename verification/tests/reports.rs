use location_filter::instant::Instant;
use location_filter::location::{LoadError, Locations, RawLocation};
use location_filter::period::Period;
use location_filter::report::{decimal_string, run, summarize, Report};
use location_filter::rfc3339::parse_bound;
use location_filter::timestamp::{parse_millis, TimestampError};

fn record(timestamp_ms: &str, latitude_e7: i32, longitude_e7: i32, accuracy: u32) -> RawLocation {
    RawLocation { timestamp_ms: timestamp_ms.to_string(), latitude_e7, longitude_e7, accuracy }
}

fn two_records() -> Vec<RawLocation> {
    vec![
        record("1000000000000", 407128000, -740060000, 10),
        record("2000000000000", 517128000, -60060000, 5),
    ]
}

#[test]
fn two_records_without_a_window() {
    let report = run(&two_records(), &None).unwrap();
    assert_eq!(report, Report { loaded: 2, filtered: 2 });
    assert_eq!(report.loaded_line(), "Loaded 2 locations");
    assert_eq!(report.filtered_line(), "Filtered 2 locations");
}

#[test]
fn two_records_with_a_lower_bound_between_them() {
    let from = Instant::from_millis(1_500_000_000_000);
    let report = run(&two_records(), &Some(Period::From { from })).unwrap();
    assert_eq!(report, Report { loaded: 2, filtered: 1 });
    assert_eq!(report.loaded_line(), "Loaded 2 locations");
    assert_eq!(report.filtered_line(), "Filtered 1 locations");
}

#[test]
fn two_records_with_a_lower_bound_given_in_local_time() {
    let from = parse_bound("2017-07-14T04:40:00+02:00").unwrap();
    assert_eq!(from, Instant::from_millis(1_500_000_000_000));
    let report = run(&two_records(), &Some(Period::From { from })).unwrap();
    assert_eq!(report.filtered_line(), "Filtered 1 locations");
    let loaded = Locations::load(&two_records()).unwrap();
    let kept = loaded.filter(&Some(Period::From { from }));
    assert_eq!(kept.locations, vec![loaded.locations[1]]);
}

#[test]
fn two_records_with_an_upper_bound_between_them() {
    let to = parse_bound("2017-07-14T02:40:00Z").unwrap();
    let report = run(&two_records(), &Some(Period::To { to })).unwrap();
    assert_eq!(report, Report { loaded: 2, filtered: 1 });
}

#[test]
fn two_records_inside_and_outside_both_bounds() {
    let from = parse_bound("2001-09-09T01:46:40Z").unwrap();
    let to = parse_bound("2033-05-18T03:33:20Z").unwrap();
    assert_eq!(from, Instant::from_millis(1_000_000_000_000));
    assert_eq!(to, Instant::from_millis(2_000_000_000_000));
    let report = run(&two_records(), &Some(Period::FromTo { from, to })).unwrap();
    assert_eq!(report, Report { loaded: 2, filtered: 0 });
    let from = parse_bound("2001-09-09T01:46:39Z").unwrap();
    let report = run(&two_records(), &Some(Period::FromTo { from, to })).unwrap();
    assert_eq!(report, Report { loaded: 2, filtered: 1 });
}

#[test]
fn a_malformed_timestamp_gives_no_report() {
    let raw = vec![record("1000000000000", 1, 2, 3), record("abc", 4, 5, 6)];
    assert_eq!(run(&raw, &None), Err(LoadError { index: 1, cause: TimestampError::NotDecimal }));
    let window = Some(Period::From { from: Instant::from_millis(0) });
    assert_eq!(run(&raw, &window), Err(LoadError { index: 1, cause: TimestampError::NotDecimal }));
}

#[test]
fn an_empty_history_reports_zero_twice() {
    let report = run(&[], &None).unwrap();
    assert_eq!(report, Report { loaded: 0, filtered: 0 });
    assert_eq!(report.loaded_line(), "Loaded 0 locations");
    assert_eq!(report.filtered_line(), "Filtered 0 locations");
}

#[test]
fn summary_counts_all_and_passing_records() {
    let loaded = Locations::load(&two_records()).unwrap();
    assert_eq!(summarize(&loaded, &None), Report { loaded: 2, filtered: 2 });
    let window = Some(Period::To { to: Instant::from_millis(1) });
    assert_eq!(summarize(&loaded, &window), Report { loaded: 2, filtered: 0 });
}

#[test]
fn filtered_count_never_exceeds_loaded_count() {
    let loaded = Locations::load(&two_records()).unwrap();
    let bounds = [0u64, 1_000_000_000_000, 1_500_000_000_000, 2_000_000_000_000, u64::MAX];
    for ms in bounds.iter() {
        let t = Instant::from_millis(*ms);
        for window in [Period::From { from: t }, Period::To { to: t }].iter() {
            let report = summarize(&loaded, &Some(*window));
            assert!(report.filtered <= report.loaded);
        }
    }
}

#[test]
fn counts_are_written_in_base_ten() {
    assert_eq!(decimal_string(0), "0");
    assert_eq!(decimal_string(9), "9");
    assert_eq!(decimal_string(10), "10");
    assert_eq!(decimal_string(109), "109");
    assert_eq!(decimal_string(1234567890), "1234567890");
    assert_eq!(decimal_string(usize::MAX), format!("{}", usize::MAX));
}

#[test]
fn a_written_count_reads_back() {
    for n in [0usize, 1, 9, 10, 11, 99, 100, 101, 65535, 4294967295] {
        assert_eq!(parse_millis(&decimal_string(n)), Ok(n as u64));
    }
}

#[test]
fn lines_carry_large_counts() {
    let report = Report { loaded: 1234567, filtered: 89 };
    assert_eq!(report.loaded_line(), "Loaded 1234567 locations");
    assert_eq!(report.filtered_line(), "Filtered 89 locations");
}
