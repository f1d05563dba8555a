use sysmon_subgraph_generator::timestamp::{epoch_from_parsed, has_utc_layout, UTC_TIME_FORMAT};
use sysmon_subgraph_generator::{utc_to_epoch, TimestampError};

#[test]
fn parse_time() {
    let utc_time = "2017-04-28 22:08:22.025";
    let ts = utc_to_epoch(utc_time).expect("parsing utc_time failed");
    println!("{}", ts);
}

#[test]
fn normalizes_to_epoch_milliseconds() {
    assert_eq!(utc_to_epoch("2017-04-28 22:08:22.025"), Ok(1493417302025));
    assert_eq!(utc_to_epoch("2017-05-13 19:44:55.313"), Ok(1494704695313));
    assert_eq!(utc_to_epoch("2017-04-28 22:12:22.557"), Ok(1493417542557));
}

#[test]
fn epoch_itself_is_zero() {
    assert_eq!(utc_to_epoch("1970-01-01 00:00:00.000"), Ok(0));
    assert_eq!(utc_to_epoch("1970-01-01 00:00:00.001"), Ok(1));
}

#[test]
fn other_layouts_are_format_errors() {
    assert_eq!(utc_to_epoch(""), Err(TimestampError::Format));
    assert_eq!(utc_to_epoch("garbage"), Err(TimestampError::Format));
    assert_eq!(utc_to_epoch("2017-04-28T22:08:22.025"), Err(TimestampError::Format));
    assert_eq!(utc_to_epoch("2017-04-28T22:08:22.025Z"), Err(TimestampError::Format));
    assert_eq!(utc_to_epoch("28/04/2017 22:08:22.025"), Err(TimestampError::Format));
    assert_eq!(utc_to_epoch("2017-04-28"), Err(TimestampError::Format));
    assert_eq!(utc_to_epoch("2017-04-28 22:08:22.025 trailing"), Err(TimestampError::Format));
}

#[test]
fn impossible_instants_are_format_errors() {
    assert_eq!(utc_to_epoch("2017-13-01 00:00:00.000"), Err(TimestampError::Format));
    assert_eq!(utc_to_epoch("2017-02-30 00:00:00.000"), Err(TimestampError::Format));
    assert_eq!(utc_to_epoch("2017-04-28 24:00:00.000"), Err(TimestampError::Format));
}

#[test]
fn instants_before_the_epoch_are_range_errors() {
    assert_eq!(utc_to_epoch("1969-12-31 23:59:59.999"), Err(TimestampError::Range));
    assert_eq!(utc_to_epoch("1900-01-01 00:00:00.000"), Err(TimestampError::Range));
}

#[test]
fn parse_outcomes_become_epoch_values() {
    assert_eq!(epoch_from_parsed(None), Err(TimestampError::Format));
    assert_eq!(epoch_from_parsed(Some(-1)), Err(TimestampError::Range));
    assert_eq!(epoch_from_parsed(Some(i64::MIN)), Err(TimestampError::Range));
    assert_eq!(epoch_from_parsed(Some(0)), Ok(0));
    assert_eq!(epoch_from_parsed(Some(1493417302025)), Ok(1493417302025));
    assert_eq!(epoch_from_parsed(Some(i64::MAX)), Ok(9223372036854775807));
}

#[test]
fn layout_is_the_telemetry_layout() {
    assert_eq!(UTC_TIME_FORMAT, "%Y-%m-%d %H:%M:%S%.3f");
}

#[test]
fn near_misses_of_the_layout_are_format_errors() {
    assert_eq!(utc_to_epoch("2017-04-28 22:08:22"), Err(TimestampError::Format));
    assert_eq!(utc_to_epoch("2017-04-28 22:08:22.02"), Err(TimestampError::Format));
    assert_eq!(utc_to_epoch("2017-04-28 22:08:22.0251"), Err(TimestampError::Format));
    assert_eq!(utc_to_epoch("2017-4-28 22:08:22.025"), Err(TimestampError::Format));
    assert_eq!(utc_to_epoch(" 2017-04-28 22:08:22.025"), Err(TimestampError::Format));
    assert_eq!(utc_to_epoch("2017-04-28  22:08:22.025"), Err(TimestampError::Format));
    assert_eq!(utc_to_epoch("+2017-04-28 22:08:22.025"), Err(TimestampError::Format));
    assert_eq!(utc_to_epoch("2017/04/28 22:08:22.025"), Err(TimestampError::Format));
    assert_eq!(utc_to_epoch("2017-04-28 22:08:22,025"), Err(TimestampError::Format));
    assert_eq!(utc_to_epoch("2017-04-28 22.08.22.025"), Err(TimestampError::Format));
    assert_eq!(utc_to_epoch("2017-04-28\t22:08:22.025"), Err(TimestampError::Format));
    assert_eq!(utc_to_epoch("2017-04-2\u{663} 22:08:22.025"), Err(TimestampError::Format));
}

#[test]
fn layout_is_digits_and_separators_in_place() {
    assert!(has_utc_layout(b"2017-04-28 22:08:22.025"));
    assert!(has_utc_layout(b"0000-00-00 00:00:00.000"));
    assert!(has_utc_layout(b"9999-99-99 99:99:99.999"));
    assert!(!has_utc_layout(b""));
    assert!(!has_utc_layout(b"2017-04-28 22:08:22.02"));
    assert!(!has_utc_layout(b"2017-04-28 22:08:22.0250"));
    assert!(!has_utc_layout(b"2017-04-28T22:08:22.025"));
    assert!(!has_utc_layout(b"2017-04-28 22:08:22.02x"));
    assert!(!has_utc_layout(b"x017-04-28 22:08:22.025"));
    assert!(!has_utc_layout(b"2017:04:28 22:08:22.025"));
    assert!(!has_utc_layout(b"2017-04-28 22:08:22/025"));
    assert!(!has_utc_layout(b"2017-04-28 22:08:22.0:5"));
}

#[test]
fn leap_second_is_read_as_the_second_after() {
    assert_eq!(utc_to_epoch("2016-12-31 23:59:60.000"), Ok(1483228800000));
}
