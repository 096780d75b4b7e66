use metrics_controller::clock::{
    format_timestamp, get_time_string, now_seconds, seconds_of, UtcTime,
};

#[test]
fn timestamp_has_the_documented_shape() {
    let t = UtcTime { tm_sec: 57, tm_min: 36, tm_hour: 22, tm_mday: 25, tm_mon: 4, tm_year: 116 };
    assert_eq!(format_timestamp(&t), "2016-05-25 22:36:57");
}

#[test]
fn timestamp_fills_short_fields() {
    let t = UtcTime { tm_sec: 0, tm_min: 5, tm_hour: 7, tm_mday: 1, tm_mon: 0, tm_year: 100 };
    assert_eq!(format_timestamp(&t), "2000-01-01 07:05:00");
    let early = UtcTime { tm_sec: 60, tm_min: 59, tm_hour: 23, tm_mday: 31, tm_mon: 11, tm_year: -1000 };
    assert_eq!(format_timestamp(&early), " 900-12-31 23:59:60");
}

#[test]
fn timestamp_of_now_is_well_formed() {
    let text = get_time_string();
    let bytes = text.as_bytes();
    assert_eq!(bytes.len(), 19);
    assert_eq!(bytes[4], b'-');
    assert_eq!(bytes[7], b'-');
    assert_eq!(bytes[10], b' ');
    assert_eq!(bytes[13], b':');
    assert_eq!(bytes[16], b':');
    assert!(text.as_str() > "2020-01-01 00:00:00");
}

#[test]
fn clock_before_the_epoch_reads_as_zero() {
    assert_eq!(seconds_of(-1), 0);
    assert_eq!(seconds_of(i64::MIN), 0);
    assert_eq!(seconds_of(0), 0);
    assert_eq!(seconds_of(1464215817), 1464215817);
    assert_eq!(seconds_of(i64::MAX), 9223372036854775807);
}

#[test]
fn clock_reads_the_present() {
    // 2020-01-01T00:00:00Z
    assert!(now_seconds() > 1577836800);
}
