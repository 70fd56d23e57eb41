use transr::errhuman::ErrorKind;
use transr::func::timeru::add_days;
use transr::func::timeru::add_hours;
use transr::func::timeru::add_minutes;
use transr::func::timeru::diff_seconds;
use transr::func::timeru::format_datetime;
use transr::func::timeru::from_timestamp;
use transr::func::timeru::get_time_info;
use transr::func::timeru::now_local;
use transr::func::timeru::now_utc;
use transr::func::timeru::parse_datetime;
use transr::func::timeru::timestamp;
use transr::func::timeru::timestamp_from;
use transr::func::timeru::timestamp_ms;
use transr::func::timeru::Benchmark;
use transr::func::timeru::Moment;
use transr::func::timeru::TimerU;

#[test]
fn a_timer_must_be_started() {
    let mut timer = TimerU::new();
    let error = timer.elapsed().unwrap_err();
    assert_eq!(error.kind(), ErrorKind::Validation);
    assert_eq!(error.detail(), "Timer not started");
    assert_eq!(timer.elapsed_ms().unwrap_err().detail(), "Timer not started");
    timer.start();
    assert!(timer.elapsed().is_ok());
    assert!(timer.elapsed_ms().unwrap() < 60_000);
    timer.reset();
    assert!(timer.elapsed_ms().is_ok());
    let mut other = TimerU::new();
    other.reset();
    assert!(other.elapsed().is_ok());
}

#[test]
fn timestamps_are_recent() {
    let secs = timestamp();
    let millis = timestamp_ms();
    assert!(secs > 1_700_000_000);
    assert!(millis / 1000 >= secs);
    assert!(millis / 1000 - secs < 5);
}

#[test]
fn timestamps_from_readings() {
    assert_eq!(timestamp_from(Some(0)), 0);
    assert_eq!(timestamp_from(Some(1_700_000_000)), 1_700_000_000);
    assert_eq!(timestamp_from(Some(i64::MAX as u128)), i64::MAX);
    assert_eq!(timestamp_from(Some(i64::MAX as u128 + 1)), i64::MAX);
    assert_eq!(timestamp_from(Some(u128::MAX)), i64::MAX);
    assert_eq!(timestamp_from(None), 0);
}

#[test]
fn moments_from_timestamps() {
    assert_eq!(from_timestamp(0).unwrap(), Moment { seconds: 0, nanoseconds: 0 });
    assert_eq!(from_timestamp(-86400).unwrap(), Moment { seconds: -86400, nanoseconds: 0 });
    assert_eq!(
        from_timestamp(1431648000).unwrap(),
        Moment { seconds: 1431648000, nanoseconds: 0 }
    );
    let error = from_timestamp(i64::MAX).unwrap_err();
    assert_eq!(error.kind(), ErrorKind::Parse);
    assert_eq!(error.detail(), "Invalid timestamp: 9223372036854775807");
    assert_eq!(
        from_timestamp(i64::MIN).unwrap_err().detail(),
        "Invalid timestamp: -9223372036854775808"
    );
}

#[test]
fn now_is_one_moment() {
    let local = now_local();
    let utc = now_utc();
    assert!((utc.seconds - local.seconds).abs() < 5);
    assert!(local.seconds > 1_700_000_000);
    assert!(local.nanoseconds < 2_000_000_000);
}

#[test]
fn formatting_dates() {
    // Noon UTC on 2015-05-15 falls on that date in every time zone but the two farthest east.
    let noon = Moment { seconds: 1431691200, nanoseconds: 0 };
    assert_eq!(format_datetime(&noon, "%Y"), Some("2015".to_string()));
    assert_eq!(format_datetime(&noon, "%M:%S"), Some("00:00".to_string()));
    assert_eq!(format_datetime(&noon, "at %s"), Some("at 1431691200".to_string()));
    assert_eq!(format_datetime(&noon, "%Q"), None);
    assert_eq!(format_datetime(&Moment { seconds: i64::MAX, nanoseconds: 0 }, "%Y"), None);
}

#[test]
fn parsing_dates() {
    assert!(parse_datetime("2015-05-15 12:00:00", "%Y-%m-%d %H:%M:%S").is_ok());
    let parsed = parse_datetime("2015-05-15 12:00:00", "%Y-%m-%d %H:%M:%S").unwrap();
    assert_eq!(parsed.and_utc().timestamp(), 1431691200);
    let error = parse_datetime("yesterday", "%Y-%m-%d %H:%M:%S").unwrap_err();
    assert_eq!(error.kind(), ErrorKind::Parse);
    assert!(error.detail().starts_with("Failed to parse datetime: "));
    assert!(error.detail().len() > "Failed to parse datetime: ".len());
    assert!(parse_datetime("2015-02-30 12:00:00", "%Y-%m-%d %H:%M:%S").is_err());
}

#[test]
fn moving_dates() {
    let start = Moment { seconds: 1431691200, nanoseconds: 5 };
    assert_eq!(add_days(start, 1), Some(Moment { seconds: 1431691200 + 86400, nanoseconds: 5 }));
    assert_eq!(add_days(start, -2), Some(Moment { seconds: 1431691200 - 172800, nanoseconds: 5 }));
    assert_eq!(add_hours(start, 3), Some(Moment { seconds: 1431691200 + 10800, nanoseconds: 5 }));
    assert_eq!(add_minutes(start, -1), Some(Moment { seconds: 1431691200 - 60, nanoseconds: 5 }));
    assert_eq!(add_days(start, 0), Some(start));
    assert_eq!(add_days(start, i64::MAX), None);
    assert_eq!(add_hours(start, i64::MIN), None);
    assert_eq!(add_minutes(Moment { seconds: i64::MAX, nanoseconds: 0 }, 1), None);
}

#[test]
fn seconds_between_dates() {
    let a = Moment { seconds: 100, nanoseconds: 0 };
    let b = Moment { seconds: 160, nanoseconds: 0 };
    assert_eq!(diff_seconds(a, b), Some(60));
    assert_eq!(diff_seconds(b, a), Some(-60));
    assert_eq!(diff_seconds(a, a), Some(0));
    let late = Moment { seconds: 100, nanoseconds: 999_999_999 };
    assert_eq!(diff_seconds(late, b), Some(59));
    assert_eq!(diff_seconds(a, Moment { seconds: i64::MAX, nanoseconds: 0 }), None);
}

#[test]
fn time_info_is_filled() {
    let info = get_time_info();
    assert!(info.timestamp > 1_700_000_000);
    assert!(info.local.contains('T'));
    assert!(info.utc.ends_with("+00:00"));
    assert!(info.timezone.starts_with('+') || info.timezone.starts_with('-'));
}

#[test]
fn a_benchmark_reports_its_name() {
    let bench = Benchmark::new("sort");
    let (duration, line) = bench.finish();
    assert!(duration.as_secs() < 60);
    assert!(line.starts_with("⏱️  [BENCHMARK] sort took "));
    assert!(line.len() > "⏱️  [BENCHMARK] sort took ".len());
}
