//! A reading of the calendar and the clock, and what part of the day it is.
use vstd::prelude::*;
use vstd::string::*;
use chrono::Datelike;
use chrono::Local;
use chrono::Timelike;
use chrono::Utc;
use crate::func::timeru::format_accepted;
use crate::func::timeru::format_datetime;
use crate::func::timeru::now_local;
use crate::func::timeru::strftime_accepted;
use crate::text::digit_char;
use crate::text::render_decimal;
use crate::text::render_signed;
use crate::text::same_text;
use crate::text::signed_digits;
use crate::text::decimal_digits;

verus! {

/// One reading of date and time, field by field, with the weekday's short
/// English name and the reading as one line of text.
#[derive(Debug, Clone)]
pub struct NowTime {
    pub year: i32,
    pub month: u32,
    pub day: u32,
    pub hour: u32,
    pub minute: u32,
    pub second: u32,
    pub weekday: String,
    pub iso_week: u32,
    pub formatted: String,
}

/// `n` below 100 in two digits, with a leading zero if need be.
pub open spec fn two_digits(n: nat) -> Seq<char> {
    seq![digit_char(n / 10), digit_char(n % 10)]
}

/// `n` below 10000 in four digits, with leading zeros if need be.
pub open spec fn four_digits(n: nat) -> Seq<char> {
    seq![
        digit_char(n / 1000),
        digit_char((n / 100) % 10),
        digit_char((n / 10) % 10),
        digit_char(n % 10),
    ]
}

/// Date and time as `YYYY-MM-DD HH:MM:SS`.
pub open spec fn stamp(year: nat, month: nat, day: nat, hour: nat, minute: nat, second: nat) -> Seq<
    char,
> {
    four_digits(year) + "-"@ + two_digits(month) + "-"@ + two_digits(day) + " "@ + two_digits(hour)
        + ":"@ + two_digits(minute) + ":"@ + two_digits(second)
}

/// The short English name of a month, `"Unknown"` outside `1..=12`.
pub open spec fn month_name_of(month: u32) -> Seq<char> {
    if month == 1 {
        "Jan"@
    } else if month == 2 {
        "Feb"@
    } else if month == 3 {
        "Mar"@
    } else if month == 4 {
        "Apr"@
    } else if month == 5 {
        "May"@
    } else if month == 6 {
        "Jun"@
    } else if month == 7 {
        "Jul"@
    } else if month == 8 {
        "Aug"@
    } else if month == 9 {
        "Sep"@
    } else if month == 10 {
        "Oct"@
    } else if month == 11 {
        "Nov"@
    } else if month == 12 {
        "Dec"@
    } else {
        "Unknown"@
    }
}

/// The part of the day that an hour falls in: morning from 5, afternoon from
/// 12, evening from 17, night from 21 and before 5.
pub open spec fn period_of(hour: u32) -> Seq<char> {
    if 5 <= hour < 12 {
        "Morning"@
    } else if 12 <= hour < 17 {
        "Afternoon"@
    } else if 17 <= hour < 21 {
        "Evening"@
    } else {
        "Night"@
    }
}

/// The greeting for a part of the day.
pub open spec fn greeting_of(period: Seq<char>) -> Seq<char> {
    if period == "Morning"@ {
        "☀️  Good Morning!"@
    } else if period == "Afternoon"@ {
        "🌤️  Good Afternoon!"@
    } else if period == "Evening"@ {
        "🌆 Good Evening!"@
    } else if period == "Night"@ {
        "🌙 Good Night!"@
    } else {
        "👋 Hello!"@
    }
}

impl NowTime {
    /// Whether the weekday is one of the seven short English names.
    pub open spec fn weekday_named(&self) -> bool {
        self.weekday@ == "Mon"@ || self.weekday@ == "Tue"@ || self.weekday@ == "Wed"@
            || self.weekday@ == "Thu"@ || self.weekday@ == "Fri"@ || self.weekday@ == "Sat"@
            || self.weekday@ == "Sun"@
    }

    /// What holds of every reading of the calendar: each field lies in its
    /// calendar range and the weekday has one of its seven names.
    pub open spec fn in_range(&self) -> bool {
        &&& 1 <= self.month <= 12
        &&& 1 <= self.day <= 31
        &&& self.hour <= 23
        &&& self.minute <= 59
        &&& self.second <= 59
        &&& 1 <= self.iso_week <= 53
        &&& self.weekday_named()
    }

    /// The fields as `YYYY-MM-DD HH:MM:SS`, for a year of four digits.
    pub open spec fn stamp(&self) -> Seq<char> {
        stamp(
            self.year as nat,
            self.month as nat,
            self.day as nat,
            self.hour as nat,
            self.minute as nat,
            self.second as nat,
        )
    }

    /// The line that `to_string` returns.
    pub open spec fn line(&self) -> Seq<char> {
        self.weekday@ + " "@ + month_name_of(self.month) + " "@ + decimal_digits(self.day as nat)
            + ", "@ + signed_digits(self.year as int) + " "@ + decimal_digits(self.hour as nat)
            + ":"@ + decimal_digits(self.minute as nat) + ":"@ + decimal_digits(
            self.second as nat,
        ) + " ("@ + period_of(self.hour) + ")"@
    }

    /// Reads the local date and time with `chrono::Local::now`, takes the
    /// fields through `Datelike` and `Timelike`, the weekday's name through
    /// its `Display`, and the text through the format `%Y-%m-%d %H:%M:%S`.
    /// Trusted: the fields lie in the ranges that chrono documents, and for a
    /// year from 0 to 9999 the text is the zero-padded fields. chrono reads
    /// the system clock, which reports no leap second, and stops the program
    /// if that clock is set before 1970.
    #[verifier::external_body]
    pub fn now() -> (r: NowTime)
        ensures
            r.in_range(),
            0 <= r.year <= 9999 ==> r.formatted@ == r.stamp(),
    {
        let dt = Local::now();
        NowTime {
            year: dt.year(),
            month: dt.month(),
            day: dt.day(),
            hour: dt.hour(),
            minute: dt.minute(),
            second: dt.second(),
            weekday: dt.weekday().to_string(),
            iso_week: dt.iso_week().week(),
            formatted: dt.format("%Y-%m-%d %H:%M:%S").to_string(),
        }
    }

    /// As `now`, for `chrono::Utc::now` and the format
    /// `%Y-%m-%d %H:%M:%S UTC`.
    #[verifier::external_body]
    pub fn utc() -> (r: NowTime)
        ensures
            r.in_range(),
            0 <= r.year <= 9999 ==> r.formatted@ == r.stamp() + " UTC"@,
    {
        let dt = Utc::now();
        NowTime {
            year: dt.year(),
            month: dt.month(),
            day: dt.day(),
            hour: dt.hour(),
            minute: dt.minute(),
            second: dt.second(),
            weekday: dt.weekday().to_string(),
            iso_week: dt.iso_week().week(),
            formatted: dt.format("%Y-%m-%d %H:%M:%S UTC").to_string(),
        }
    }

    /// The local time now under the format string `format`. A format string
    /// that chrono does not accept yields `None`, whatever the time; for one
    /// that it accepts, the clock and the rendering decide.
    pub fn custom_format(&self, format: &str) -> (r: Option<String>)
        ensures
            r is Some ==> strftime_accepted(format@),
    {
        if !format_accepted(format) {
            return None;
        }
        let now = now_local();
        format_datetime(&now, format)
    }

    /// From 5 o'clock to before 12.
    pub fn is_morning(&self) -> (r: bool)
        ensures
            r == (5 <= self.hour < 12),
    {
        self.hour >= 5 && self.hour < 12
    }

    /// From 12 o'clock to before 17.
    pub fn is_afternoon(&self) -> (r: bool)
        ensures
            r == (12 <= self.hour < 17),
    {
        self.hour >= 12 && self.hour < 17
    }

    /// From 17 o'clock to before 21.
    pub fn is_evening(&self) -> (r: bool)
        ensures
            r == (17 <= self.hour < 21),
    {
        self.hour >= 17 && self.hour < 21
    }

    /// From 21 o'clock, and before 5.
    pub fn is_night(&self) -> (r: bool)
        ensures
            r == (self.hour >= 21 || self.hour < 5),
    {
        self.hour >= 21 || self.hour < 5
    }

    /// Whether the weekday is `Sat` or `Sun`.
    pub fn is_weekend(&self) -> (r: bool)
        ensures
            r == (self.weekday@ == "Sat"@ || self.weekday@ == "Sun"@),
    {
        same_text(self.weekday.as_str(), "Sat") || same_text(self.weekday.as_str(), "Sun")
    }

    /// The part of the day: `Morning`, `Afternoon`, `Evening` or `Night`.
    pub fn time_of_day(&self) -> (r: String)
        ensures
            r@ == period_of(self.hour),
    {
        if self.is_morning() {
            String::from_str("Morning")
        } else if self.is_afternoon() {
            String::from_str("Afternoon")
        } else if self.is_evening() {
            String::from_str("Evening")
        } else {
            String::from_str("Night")
        }
    }

    /// The reading as one line: weekday, month name, day, year, the time
    /// without padding, and the part of the day in brackets.
    pub fn to_string(&self) -> (r: String)
        ensures
            r@ == self.line(),
    {
        let mut out = String::from_str(self.weekday.as_str());
        out.append(" ");
        out.append(self.month_name());
        out.append(" ");
        out.append(render_decimal(self.day as u128).as_str());
        out.append(", ");
        out.append(render_signed(self.year as i64).as_str());
        out.append(" ");
        out.append(render_decimal(self.hour as u128).as_str());
        out.append(":");
        out.append(render_decimal(self.minute as u128).as_str());
        out.append(":");
        out.append(render_decimal(self.second as u128).as_str());
        out.append(" (");
        out.append(self.time_of_day().as_str());
        out.append(")");
        assert(out@ =~= self.line());
        out
    }

    /// The short English name of the month, `"Unknown"` outside `1..=12`.
    pub fn month_name(&self) -> (r: &'static str)
        ensures
            r@ == month_name_of(self.month),
    {
        match self.month {
            1 => "Jan",
            2 => "Feb",
            3 => "Mar",
            4 => "Apr",
            5 => "May",
            6 => "Jun",
            7 => "Jul",
            8 => "Aug",
            9 => "Sep",
            10 => "Oct",
            11 => "Nov",
            12 => "Dec",
            _ => "Unknown",
        }
    }
}

/// The greeting for a part of the day; a plain hello for any other word.
pub fn greeting_for(period: &str) -> (r: String)
    ensures
        r@ == greeting_of(period@),
{
    if same_text(period, "Morning") {
        String::from_str("☀️  Good Morning!")
    } else if same_text(period, "Afternoon") {
        String::from_str("🌤️  Good Afternoon!")
    } else if same_text(period, "Evening") {
        String::from_str("🌆 Good Evening!")
    } else if same_text(period, "Night") {
        String::from_str("🌙 Good Night!")
    } else {
        String::from_str("👋 Hello!")
    }
}

/// The greeting for the part of the day that it is now, by the local clock.
pub fn greeting() -> (r: String)
    ensures
        exists|hour: u32| hour <= 23 && r@ == greeting_of(#[trigger] period_of(hour)),
{
    let now = NowTime::now();
    let period = now.time_of_day();
    assert(period@ == period_of(now.hour));
    greeting_for(period.as_str())
}

} // verus!
