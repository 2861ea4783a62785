//! Dates, times, intervals and identifiers as plain numbers, and the texts
//! that stand for them.

use vstd::prelude::*;
use std::fmt::Write;

verus! {

/// A calendar date.
#[derive(Debug, Clone, Copy, PartialEq, Eq, Structural)]
pub struct Date {
    pub year: i32,
    pub month: u32,
    pub day: u32,
}

/// A time of day: whole seconds since midnight, and the nanoseconds of the
/// running second.
#[derive(Debug, Clone, Copy, PartialEq, Eq, Structural)]
pub struct Time {
    pub secs: u32,
    pub nanos: u32,
}

/// A date and a time of day, without a time zone.
#[derive(Debug, Clone, Copy, PartialEq, Eq, Structural)]
pub struct DateTime {
    pub date: Date,
    pub time: Time,
}

/// A moment: date and time in UTC, and the zone's offset in seconds east.
#[derive(Debug, Clone, Copy, PartialEq, Eq, Structural)]
pub struct Timestamp {
    pub utc: DateTime,
    pub offset: i32,
}

/// A span of time in whole days and microseconds.
#[derive(Debug, Clone, Copy, PartialEq, Eq, Structural)]
pub struct Interval {
    pub days: i32,
    pub microseconds: i64,
}

/// The text of a string that may be absent.
pub open spec fn text_view(text: Option<String>) -> Option<Seq<char>> {
    match text {
        Some(text) => Some(text@),
        None => None,
    }
}

/// Whether the day has such a time: fewer than 86,400 seconds, and
/// nanoseconds below a second, or below two seconds in the last second of a
/// minute, where a leap second may stand.
pub open spec fn time_exists(secs: int, nanos: int) -> bool {
    &&& secs < 86_400
    &&& nanos < 2_000_000_000
    &&& (nanos < 1_000_000_000 || secs % 60 == 59)
}

/// Whether a span of whole seconds and nanoseconds lies strictly within the
/// bounds of what `chrono` holds, with the nanoseconds below a second.
pub open spec fn span_within_bounds(secs: int, nanos: int) -> bool {
    &&& -9_223_372_036_854_776 < secs < 9_223_372_036_854_775
    &&& nanos < 1_000_000_000
}

/// Whether the calendar has the day and the day has the time.
pub open spec fn datetime_exists(date: Date, time: Time) -> bool {
    &&& date_text(date.year as int, date.month as int, date.day as int) is Some
    &&& time_exists(time.secs as int, time.nanos as int)
}

/// Whether the date and the time exist and the offset is less than a day,
/// east or west.
pub open spec fn moment_exists(utc: DateTime, offset: i32) -> bool {
    &&& datetime_exists(utc.date, utc.time)
    &&& -86_400 < offset < 86_400
}

/// What `chrono` writes for a calendar date, its ISO 8601 text; `None`
/// where the calendar has no such day.
pub uninterp spec fn date_text(year: int, month: int, day: int) -> Option<Seq<char>>;

/// What `chrono` writes for a time of day; `None` where the day has no
/// such time.
pub uninterp spec fn time_text(secs: int, nanos: int) -> Option<Seq<char>>;

/// What `chrono` writes for a date and time under a format of `strftime`
/// items; `None` where the day or the time does not exist or the format is
/// not valid.
pub uninterp spec fn datetime_text(
    format: Seq<char>,
    year: int,
    month: int,
    day: int,
    secs: int,
    nanos: int,
) -> Option<Seq<char>>;

/// What `chrono` writes for a moment in its zone, its RFC 3339 text; `None`
/// where the day, the time or the offset does not exist.
pub uninterp spec fn timestamp_text(
    year: int,
    month: int,
    day: int,
    secs: int,
    nanos: int,
    offset: int,
) -> Option<Seq<char>>;

/// What `chrono` writes for a span of whole seconds and nanoseconds, its
/// ISO 8601 text; `None` where the span is out of range.
pub uninterp spec fn duration_text(secs: int, nanos: int) -> Option<Seq<char>>;

/// What `uuid` writes for a 128-bit identifier, its hyphenated lower-case
/// text.
pub uninterp spec fn uuid_text(value: u128) -> Seq<char>;

/// `chrono::NaiveDate::from_ymd_opt`, then `to_string` on the date: its
/// text, which depends on year, month and day alone.
#[verifier::external_body]
pub(crate) fn date_string(year: i32, month: u32, day: u32) -> (text: Option<String>)
    ensures
        text_view(text) == date_text(year as int, month as int, day as int),
{
    let date = chrono::NaiveDate::from_ymd_opt(year, month, day)?;
    Some(date.to_string())
}

/// `chrono::NaiveTime::from_num_seconds_from_midnight_opt`, then `to_string`
/// on the time: its text, which depends on the two numbers alone, and which
/// is there exactly where the constructor takes the numbers.
#[verifier::external_body]
pub(crate) fn time_string(secs: u32, nanos: u32) -> (text: Option<String>)
    ensures
        text_view(text) == time_text(secs as int, nanos as int),
        text is Some <==> time_exists(secs as int, nanos as int),
{
    let time = chrono::NaiveTime::from_num_seconds_from_midnight_opt(secs, nanos)?;
    Some(time.to_string())
}

/// `chrono::NaiveDateTime::format` on the date and time that the numbers
/// make: the text that the format gives, or nothing where writing it fails.
/// There is a text only where the date and the time exist.
#[verifier::external_body]
pub(crate) fn datetime_string(format: &str, date: Date, time: Time) -> (text: Option<String>)
    ensures
        text_view(text) == datetime_text(
            format@,
            date.year as int,
            date.month as int,
            date.day as int,
            time.secs as int,
            time.nanos as int,
        ),
        text is Some ==> datetime_exists(date, time),
{
    let day = chrono::NaiveDate::from_ymd_opt(date.year, date.month, date.day)?;
    let clock = chrono::NaiveTime::from_num_seconds_from_midnight_opt(time.secs, time.nanos)?;
    let mut text = String::new();
    write!(text, "{}", day.and_time(clock).format(format)).ok()?;
    Some(text)
}

/// `chrono::DateTime::to_rfc3339` on the moment that the numbers make, in
/// the zone of the given offset. There is a text exactly where the date and
/// the time exist and the offset is less than a day.
#[verifier::external_body]
pub(crate) fn timestamp_string(utc: DateTime, offset: i32) -> (text: Option<String>)
    ensures
        text_view(text) == timestamp_text(
            utc.date.year as int,
            utc.date.month as int,
            utc.date.day as int,
            utc.time.secs as int,
            utc.time.nanos as int,
            offset as int,
        ),
        text is Some <==> moment_exists(utc, offset),
{
    let day = chrono::NaiveDate::from_ymd_opt(utc.date.year, utc.date.month, utc.date.day)?;
    let clock =
        chrono::NaiveTime::from_num_seconds_from_midnight_opt(utc.time.secs, utc.time.nanos)?;
    let zone = chrono::FixedOffset::east_opt(offset)?;
    let moment = chrono::DateTime::<chrono::FixedOffset>::from_naive_utc_and_offset(
        day.and_time(clock),
        zone,
    );
    Some(moment.to_rfc3339())
}

/// `chrono::TimeDelta::new`, then `to_string` on the span: its text, which
/// depends on the two numbers alone, and which is there for every span
/// strictly within the bounds.
#[verifier::external_body]
pub(crate) fn duration_string(secs: i64, nanos: u32) -> (text: Option<String>)
    ensures
        text_view(text) == duration_text(secs as int, nanos as int),
        span_within_bounds(secs as int, nanos as int) ==> text is Some,
{
    let span = chrono::TimeDelta::new(secs, nanos)?;
    Some(span.to_string())
}

/// `uuid::Uuid::from_u128`, then `to_string` on the identifier.
#[verifier::external_body]
pub(crate) fn uuid_string(value: u128) -> (text: String)
    ensures
        text@ == uuid_text(value),
{
    uuid::Uuid::from_u128(value).to_string()
}

impl Interval {
    /// The whole span in microseconds.
    pub open spec fn total_micros(self) -> int {
        self.days * 86_400_000_000 + self.microseconds
    }

    /// The whole seconds of the span, rounded down.
    pub open spec fn whole_secs(self) -> int {
        self.total_micros() / 1_000_000
    }

    /// What the span has beyond its whole seconds, in nanoseconds.
    pub open spec fn sub_nanos(self) -> int {
        (self.total_micros() % 1_000_000) * 1000
    }

    /// The span as whole seconds, rounded down, and the nanoseconds beyond
    /// them. Whatever the days and microseconds, the span lies within the
    /// bounds of what `chrono` holds.
    pub fn seconds_and_nanos(&self) -> (parts: (i64, u32))
        ensures
            parts.0 == self.whole_secs(),
            parts.1 == self.sub_nanos(),
            span_within_bounds(parts.0 as int, parts.1 as int),
    {
        let micros: i64 = self.microseconds;
        let (whole, rest): (i64, i64) = if micros >= 0 {
            (micros / 1_000_000, micros % 1_000_000)
        } else {
            // -(micros + 1) is in range, and one below the magnitude.
            let below: i64 = -(micros + 1);
            let q: i64 = below / 1_000_000;
            let r: i64 = below % 1_000_000;
            (-q - 1, 999_999 - r)
        };
        let days: i64 = self.days as i64;
        let secs: i64 = days * 86_400 + whole;
        let nanos: u32 = (rest * 1000) as u32;
        assert(self.total_micros() == secs * 1_000_000 + rest) by (nonlinear_arith)
            requires
                micros == whole * 1_000_000 + rest,
                secs == days * 86_400 + whole,
                self.total_micros() == days * 86_400_000_000 + micros,
        ;
        assert(secs == self.whole_secs() && rest == self.total_micros() % 1_000_000)
            by (nonlinear_arith)
            requires
                self.total_micros() == secs * 1_000_000 + rest,
                0 <= rest < 1_000_000,
                self.whole_secs() == self.total_micros() / 1_000_000,
        ;
        (secs, nanos)
    }

    /// The ISO 8601 text of the span, which every span has.
    pub fn to_text(&self) -> (text: Option<String>)
        ensures
            text_view(text) == duration_text(self.whole_secs(), self.sub_nanos()),
            text is Some,
    {
        let (secs, nanos) = self.seconds_and_nanos();
        duration_string(secs, nanos)
    }
}

} // verus!
