//! The wall clock, and the timestamp that goes into each event.

use crate::text::{four_wide, four_wide_decimal, two_digit_decimal, two_digits};
use vstd::prelude::*;

verus! {

/// A moment in UTC, broken down into calendar fields. The fields are those of
/// `time::Tm`, with its names and its counting: months from 0, years from
/// 1900.
#[derive(Clone, Copy, Debug, PartialEq, Eq, Structural)]
pub struct UtcTime {
    pub tm_sec: i32,
    pub tm_min: i32,
    pub tm_hour: i32,
    pub tm_mday: i32,
    pub tm_mon: i32,
    pub tm_year: i32,
}

impl UtcTime {
    /// The ranges that the clock keeps its fields in. A second of 60 is a leap
    /// second.
    pub open spec fn in_range(self) -> bool {
        &&& 0 <= self.tm_sec <= 60
        &&& 0 <= self.tm_min <= 59
        &&& 0 <= self.tm_hour <= 23
        &&& 1 <= self.tm_mday <= 31
        &&& 0 <= self.tm_mon <= 11
    }
}

/// `time::get_time`: the seconds since 1970-01-01T00:00:00Z on the system's
/// clock. Nothing is claimed of the number.
#[verifier::external_body]
fn unix_seconds() -> (sec: i64) {
    time::get_time().sec
}

/// `time::now_utc`: the system's clock, broken down in UTC. The fields come
/// back as the clock gave them, inside the ranges that `time::Tm` documents.
#[verifier::external_body]
fn utc_now() -> (now: UtcTime)
    ensures
        now.in_range(),
{
    let tm = time::now_utc();
    UtcTime {
        tm_sec: tm.tm_sec,
        tm_min: tm.tm_min,
        tm_hour: tm.tm_hour,
        tm_mday: tm.tm_mday,
        tm_mon: tm.tm_mon,
        tm_year: tm.tm_year,
    }
}

/// What the scheduler takes a clock reading for: a clock set before 1970
/// reads as 0.
pub open spec fn clock_reading(sec: i64) -> u64 {
    if sec < 0 {
        0
    } else {
        sec as u64
    }
}

/// Turns the clock's signed seconds into the scheduler's unsigned ones.
pub fn seconds_of(sec: i64) -> (now: u64)
    ensures
        now == clock_reading(sec),
{
    if sec < 0 {
        0
    } else {
        sec as u64
    }
}

/// The current time in seconds since 1970, as the scheduler reads it.
pub fn now_seconds() -> (now: u64)
    ensures
        exists|sec: i64| now == clock_reading(sec),
{
    let sec: i64 = unix_seconds();
    seconds_of(sec)
}

/// `YYYY-MM-DD hh:mm:ss`: the year in at least four characters, every other
/// field in at least two.
pub open spec fn timestamp_text(t: UtcTime) -> Seq<char> {
    four_wide(t.tm_year + 1900).push('-') + two_digits(t.tm_mon + 1).push('-') + two_digits(
        t.tm_mday as int,
    ).push(' ') + two_digits(t.tm_hour as int).push(':') + two_digits(t.tm_min as int).push(':')
        + two_digits(t.tm_sec as int)
}

/// Writes a moment as the timestamp of an event.
pub fn format_timestamp(t: &UtcTime) -> (text: String)
    ensures
        text@ == timestamp_text(*t),
{
    let mut text = four_wide_decimal(t.tm_year as i64 + 1900);
    text.push('-');
    let month = two_digit_decimal(t.tm_mon as i64 + 1);
    text.append(month.as_str());
    text.push('-');
    let day = two_digit_decimal(t.tm_mday as i64);
    text.append(day.as_str());
    text.push(' ');
    let hour = two_digit_decimal(t.tm_hour as i64);
    text.append(hour.as_str());
    text.push(':');
    let minute = two_digit_decimal(t.tm_min as i64);
    text.append(minute.as_str());
    text.push(':');
    let second = two_digit_decimal(t.tm_sec as i64);
    text.append(second.as_str());
    assert(text@ =~= timestamp_text(*t));
    text
}

/// The timestamp of the present moment.
pub fn get_time_string() -> (text: String)
    ensures
        exists|t: UtcTime| t.in_range() && text@ == timestamp_text(t),
{
    let now = utc_now();
    format_timestamp(&now)
}

} // verus!
