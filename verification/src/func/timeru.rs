//! Timers, timestamps and a few operations on dates. Dates are values of
//! chrono's own types, carried through as they are.
use vstd::prelude::*;
use vstd::string::*;
use std::fmt::Write;
use chrono::DateTime;
use chrono::Local;
use chrono::NaiveDateTime;
use chrono::TimeDelta;
use chrono::TimeZone;
use chrono::Utc;
use crate::errhuman::ErrorKind;
use crate::errhuman::Fault;
use crate::errhuman::TransRError;
use crate::errhuman::TransRResult;
use crate::outside::duration_millis;
use crate::outside::duration_seconds;
use crate::outside::duration_text;
use crate::outside::elapsed_since;
use crate::outside::instant_now;
use crate::outside::since_epoch;
use crate::outside::system_now;
use crate::text::join;
use crate::text::render_signed;
use crate::text::signed_digits;

verus! {

/// A moment in time: the whole seconds since the start of 1970 in UTC, and
/// the nanoseconds since that second began. A moment has no time zone of
/// its own; where one matters, it is the machine's.
#[derive(Debug, Clone, Copy, PartialEq, Eq, Structural)]
pub struct Moment {
    pub seconds: i64,
    pub nanoseconds: u32,
}

/// `chrono::NaiveDateTime`: a date and time without a time zone.
#[verifier::external_type_specification]
#[verifier::external_body]
pub struct ExNaiveDateTime(NaiveDateTime);

/// `chrono::ParseError`: why a text is no date.
#[verifier::external_type_specification]
#[verifier::external_body]
pub struct ExParseError(chrono::ParseError);

/// The time in several renderings: local and UTC as RFC 3339, the seconds
/// since 1970, and the local offset from UTC.
#[derive(Debug, Clone)]
pub struct TimeInfo {
    pub local: String,
    pub utc: String,
    pub timestamp: i64,
    pub timezone: String,
}

/// Whether chrono can represent the moment `ts` seconds after the start of
/// 1970 as a date.
pub uninterp spec fn timestamp_representable(ts: i64) -> bool;

/// Whether `s` reads as a date and time under the format `format`.
pub uninterp spec fn datetime_parses(s: Seq<char>, format: Seq<char>) -> bool;

/// Reads `chrono::Local::now` and takes the moment by `timestamp` and
/// `timestamp_subsec_nanos`. Nothing is known of the reading.
#[verifier::external_body]
pub fn now_local() -> Moment {
    let dt = Local::now();
    Moment { seconds: dt.timestamp(), nanoseconds: dt.timestamp_subsec_nanos() }
}

/// Reads `chrono::Utc::now` and takes the moment by `timestamp` and
/// `timestamp_subsec_nanos`. Nothing is known of the reading.
#[verifier::external_body]
pub fn now_utc() -> Moment {
    let dt = Utc::now();
    Moment { seconds: dt.timestamp(), nanoseconds: dt.timestamp_subsec_nanos() }
}

/// The timestamp for a reading of the clock: the reading itself, the
/// largest `i64` if it is larger than that, and 0 if the clock is set before
/// 1970.
pub open spec fn stamp_of(reading: Option<u128>) -> i64 {
    match reading {
        Some(n) => if n <= i64::MAX as u128 {
            n as i64
        } else {
            i64::MAX
        },
        None => 0,
    }
}

/// The timestamp for a reading of the clock.
pub fn timestamp_from(reading: Option<u128>) -> (r: i64)
    ensures
        r == stamp_of(reading),
{
    match reading {
        Some(n) => if n <= 0x7FFF_FFFF_FFFF_FFFFu128 {
            n as i64
        } else {
            i64::MAX
        },
        None => 0,
    }
}

/// The whole seconds since the start of 1970, by the system clock.
pub fn timestamp() -> (r: i64)
    ensures
        r >= 0,
{
    match since_epoch(&system_now()) {
        Some(duration) => timestamp_from(Some(duration_seconds(&duration) as u128)),
        None => timestamp_from(None),
    }
}

/// The whole milliseconds since the start of 1970, by the system clock.
pub fn timestamp_ms() -> (r: i64)
    ensures
        r >= 0,
{
    match since_epoch(&system_now()) {
        Some(duration) => timestamp_from(Some(duration_millis(&duration))),
        None => timestamp_from(None),
    }
}

/// Calls `Utc.timestamp_opt(ts, 0)` and takes `single()` of it, then reads
/// the date back by `timestamp` and `timestamp_subsec_nanos`: the moment `ts`
/// seconds after the start of 1970, `None` if chrono cannot represent it as
/// a date. Whether it can depends on `ts` alone.
#[verifier::external_body]
fn utc_from_seconds(ts: i64) -> (r: Option<Moment>)
    ensures
        r is Some <==> timestamp_representable(ts),
        r is Some ==> r->Some_0 == (Moment { seconds: ts, nanoseconds: 0 }),
{
    Utc.timestamp_opt(ts, 0).single().map(
        |dt| Moment { seconds: dt.timestamp(), nanoseconds: dt.timestamp_subsec_nanos() },
    )
}

/// The moment `ts` seconds after the start of 1970; a parse error that names
/// `ts` if chrono cannot represent the moment as a date.
pub fn from_timestamp(ts: i64) -> (r: TransRResult<Moment>)
    ensures
        r is Ok <==> timestamp_representable(ts),
        r is Ok ==> r->Ok_0 == (Moment { seconds: ts, nanoseconds: 0 }),
        r is Err ==> r->Err_0@ == (Fault {
            kind: ErrorKind::Parse,
            detail: "Invalid timestamp: "@ + signed_digits(ts as int),
        }),
{
    match utc_from_seconds(ts) {
        Some(dt) => Ok(dt),
        None => Err(
            TransRError::ParseError(join("Invalid timestamp: ", render_signed(ts).as_str())),
        ),
    }
}

/// Whether chrono reads `format` as a format string: whether every
/// specifier in it is one that chrono knows.
pub uninterp spec fn strftime_accepted(format: Seq<char>) -> bool;

/// Calls `chrono::format::StrftimeItems::new(format).parse()` and tells
/// whether it succeeded: it fails on a format string with an invalid or
/// unrecognized specifier. The result depends on `format` alone.
#[verifier::external_body]
pub(crate) fn format_accepted(format: &str) -> (r: bool)
    ensures
        r == strftime_accepted(format@),
{
    chrono::format::StrftimeItems::new(format).parse().is_ok()
}

/// Makes the local date of `dt` by `DateTime::from_timestamp` and
/// `with_timezone(&Local)`, and renders it with `DateTime::format` and the
/// format string `format`; `None` if chrono cannot represent the moment or
/// rejects the format string. Nothing is known of the text.
#[verifier::external_body]
pub fn format_datetime(dt: &Moment, format: &str) -> Option<String> {
    let local = DateTime::from_timestamp(dt.seconds, dt.nanoseconds)?.with_timezone(&Local);
    let mut out = String::new();
    match write!(out, "{}", local.format(format)) {
        Ok(()) => Some(out),
        Err(_) => None,
    }
}

/// Calls `NaiveDateTime::parse_from_str`. Whether it succeeds depends on
/// the two strings alone.
#[verifier::external_body]
fn parse_naive(s: &str, format: &str) -> (r: Result<NaiveDateTime, chrono::ParseError>)
    ensures
        r is Ok <==> datetime_parses(s@, format@),
{
    NaiveDateTime::parse_from_str(s, format)
}

/// Renders a `chrono::ParseError` with `{}`. Nothing is known of the text.
#[verifier::external_body]
fn parse_error_text(error: &chrono::ParseError) -> String {
    format!("{}", error)
}

/// Reads `s` as a date and time under `format`; a parse error with chrono's
/// reason if it is none.
pub fn parse_datetime(s: &str, format: &str) -> (r: TransRResult<NaiveDateTime>)
    ensures
        r is Ok <==> datetime_parses(s@, format@),
        r is Err ==> r->Err_0@.kind == ErrorKind::Parse && exists|reason: Seq<char>|
            r->Err_0@.detail == #[trigger] ("Failed to parse datetime: "@ + reason),
{
    match parse_naive(s, format) {
        Ok(dt) => Ok(dt),
        Err(e) => {
            let reason = parse_error_text(&e);
            let error = TransRError::ParseError(
                join("Failed to parse datetime: ", reason.as_str()),
            );
            assert(error@.detail == "Failed to parse datetime: "@ + reason@);
            Err(error)
        },
    }
}

/// `dt` moved by `days` days: the local date of `dt`, made by
/// `DateTime::from_timestamp` and `with_timezone(&Local)`, moved by
/// `TimeDelta::try_days` and `checked_add_signed`, and read back; `None` if
/// any of these is out of chrono's range.
#[verifier::external_body]
pub fn add_days(dt: Moment, days: i64) -> Option<Moment> {
    let local = DateTime::from_timestamp(dt.seconds, dt.nanoseconds)?.with_timezone(&Local);
    let moved = TimeDelta::try_days(days).and_then(|delta| local.checked_add_signed(delta))?;
    Some(Moment { seconds: moved.timestamp(), nanoseconds: moved.timestamp_subsec_nanos() })
}

/// As `add_days`, with `TimeDelta::try_hours`.
#[verifier::external_body]
pub fn add_hours(dt: Moment, hours: i64) -> Option<Moment> {
    let local = DateTime::from_timestamp(dt.seconds, dt.nanoseconds)?.with_timezone(&Local);
    let moved = TimeDelta::try_hours(hours).and_then(|delta| local.checked_add_signed(delta))?;
    Some(Moment { seconds: moved.timestamp(), nanoseconds: moved.timestamp_subsec_nanos() })
}

/// As `add_days`, with `TimeDelta::try_minutes`.
#[verifier::external_body]
pub fn add_minutes(dt: Moment, minutes: i64) -> Option<Moment> {
    let local = DateTime::from_timestamp(dt.seconds, dt.nanoseconds)?.with_timezone(&Local);
    let moved = TimeDelta::try_minutes(minutes).and_then(|delta| local.checked_add_signed(delta))?;
    Some(Moment { seconds: moved.timestamp(), nanoseconds: moved.timestamp_subsec_nanos() })
}

/// The whole seconds from `dt1` to `dt2`, by `signed_duration_since` and
/// `TimeDelta::num_seconds` on the dates made by `DateTime::from_timestamp`;
/// `None` if chrono cannot represent one of the moments.
#[verifier::external_body]
pub fn diff_seconds(dt1: Moment, dt2: Moment) -> Option<i64> {
    let first = DateTime::from_timestamp(dt1.seconds, dt1.nanoseconds)?;
    let second = DateTime::from_timestamp(dt2.seconds, dt2.nanoseconds)?;
    Some(second.signed_duration_since(first).num_seconds())
}

/// Reads `chrono::Local::now` once and renders it with `to_rfc3339`, and its
/// offset with `{}`. Nothing is known of the two texts.
#[verifier::external_body]
fn local_reading() -> (String, String) {
    let local = Local::now();
    (local.to_rfc3339(), local.offset().to_string())
}

/// Reads `chrono::Utc::now` and renders it with `to_rfc3339`. Nothing is
/// known of the text.
#[verifier::external_body]
fn utc_reading() -> String {
    Utc::now().to_rfc3339()
}

/// The time now, in its several renderings.
pub fn get_time_info() -> (r: TimeInfo)
    ensures
        r.timestamp >= 0,
{
    let (local, timezone) = local_reading();
    let utc = utc_reading();
    TimeInfo { local, utc, timestamp: timestamp(), timezone }
}

/// A stopwatch: not started, or started at some instant.
pub struct TimerU {
    start_time: Option<std::time::Instant>,
}

/// The error of reading a stopwatch that was never started.
pub open spec fn not_started() -> Fault {
    Fault { kind: ErrorKind::Validation, detail: "Timer not started"@ }
}

impl TimerU {
    /// Whether the stopwatch was started.
    pub closed spec fn started(&self) -> bool {
        self.start_time is Some
    }

    /// A stopwatch that is not started.
    pub fn new() -> (r: TimerU)
        ensures
            !r.started(),
    {
        TimerU { start_time: None }
    }

    /// Starts the stopwatch now.
    pub fn start(&mut self)
        ensures
            final(self).started(),
    {
        self.start_time = Some(instant_now());
    }

    /// The time since the start; a validation error if the stopwatch was
    /// never started.
    pub fn elapsed(&self) -> (r: TransRResult<std::time::Duration>)
        ensures
            r is Ok <==> self.started(),
            r is Err ==> r->Err_0@ == not_started(),
    {
        match &self.start_time {
            Some(start) => Ok(elapsed_since(start)),
            None => Err(TransRError::ValidationError(String::from_str("Timer not started"))),
        }
    }

    /// The whole milliseconds since the start; a validation error if the
    /// stopwatch was never started.
    pub fn elapsed_ms(&self) -> (r: TransRResult<u128>)
        ensures
            r is Ok <==> self.started(),
            r is Err ==> r->Err_0@ == not_started(),
    {
        match self.elapsed() {
            Ok(duration) => Ok(duration_millis(&duration)),
            Err(error) => Err(error),
        }
    }

    /// Starts the stopwatch anew, now.
    pub fn reset(&mut self)
        ensures
            final(self).started(),
    {
        self.start_time = Some(instant_now());
    }
}

/// A named measurement that runs from its creation.
pub struct Benchmark {
    name: String,
    start: std::time::Instant,
}

impl Benchmark {
    /// The name of the measurement.
    pub closed spec fn name(&self) -> Seq<char> {
        self.name@
    }

    /// Starts a measurement under `name`.
    pub fn new(name: &str) -> (r: Benchmark)
        ensures
            r.name() == name@,
    {
        Benchmark { name: String::from_str(name), start: instant_now() }
    }

    /// The time since the start, and the line that reports it.
    pub fn finish(&self) -> (r: (std::time::Duration, String))
        ensures
            exists|took: Seq<char>|
                r.1@ == #[trigger] crate::debug::benchmark_line(self.name(), took),
    {
        let duration = elapsed_since(&self.start);
        let took = duration_text(&duration);
        let mut line = String::from_str("⏱️  [BENCHMARK] ");
        line.append(self.name.as_str());
        line.append(" took ");
        line.append(took.as_str());
        assert(line@ == crate::debug::benchmark_line(self.name(), took@));
        (duration, line)
    }
}

} // verus!
