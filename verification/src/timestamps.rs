//! Timestamp presentation: posting times are shown as a time of day,
//! followed by "today" when the post is from the current calendar date and
//! by the date otherwise.
//!
//! A timestamp is a count of Unix-epoch microseconds. The time of day is
//! plain arithmetic on it and is computed here; the calendar date is
//! chrono's Gregorian reckoning, called through a trusted wrapper and
//! named, not restated.
use chrono::Datelike;
use vstd::prelude::*;

verus! {

use vstd::string::*;
use crate::text::{two_dec_of, u64_to_two_dec};

/// The last Unix-epoch microsecond of the year 9999, the upper bound of
/// the timestamps the formatter takes; chrono's calendar reaches about
/// 262,000 years beyond it.
pub const MAX_FORMAT_MICROS: i64 = 253_402_300_799_999_999;

/// The calendar date (year, month, day) of a Unix-epoch microsecond
/// count, in UTC, by the Gregorian calendar as chrono reckons it.
pub uninterp spec fn civil_from_micros(micros: i64) -> (int, int, int);

/// Relies on chrono's DateTime::from_timestamp_micros and the Datelike
/// accessors: the UTC calendar date of the timestamp. The month is 1 to
/// 12 and the day 1 to 31, as Datelike documents, and the year is at
/// least 1970 for a non-negative timestamp; timestamps through the year
/// 9999 are well inside chrono's range.
#[verifier::external_body]
fn civil_date(micros: i64) -> (r: (i32, u8, u8))
    requires
        0 <= micros <= MAX_FORMAT_MICROS,
    ensures
        r.0 == civil_from_micros(micros).0,
        r.1 == civil_from_micros(micros).1,
        r.2 == civil_from_micros(micros).2,
        1970 <= r.0,
        1 <= r.1 <= 12,
        1 <= r.2 <= 31,
{
    let dt = chrono::DateTime::from_timestamp_micros(micros).unwrap();
    let date = dt.date_naive();
    (date.year(), date.month() as u8, date.day() as u8)
}

/// Relies on chrono's Utc::now: the wall clock, as Unix-epoch
/// microseconds. Nothing is assumed about the value read.
#[verifier::external_body]
fn now_micros() -> (r: i64) {
    chrono::Utc::now().timestamp_micros()
}

/// The time of day a timestamp falls on, as HH:MM:SS.
pub open spec fn time_of_day_spec(micros: i64) -> Seq<char> {
    two_dec_of((micros / 3_600_000_000) % 24) + ":"@ + two_dec_of((micros / 60_000_000) % 60)
        + ":"@ + two_dec_of((micros / 1_000_000) % 60)
}

/// What the formatter shows for a posting time when the clock reads a
/// given moment: the time of day, then "today" when both fall on the same
/// calendar date, else the date as DD/MM/YY.
pub open spec fn timestamp_spec(dt_micros: i64, now_micros: i64) -> Seq<char> {
    let time = time_of_day_spec(dt_micros);
    if civil_from_micros(dt_micros) == civil_from_micros(now_micros) {
        time + " today"@
    } else {
        let (y, m, d) = civil_from_micros(dt_micros);
        time + " "@ + two_dec_of(d) + "/"@ + two_dec_of(m) + "/"@ + two_dec_of(y % 100)
    }
}

/// Format a posting time as seen at a given moment.
pub fn format_timestamp_at(dt_micros: i64, at_micros: i64) -> (r: String)
    requires
        0 <= dt_micros <= MAX_FORMAT_MICROS,
        0 <= at_micros <= MAX_FORMAT_MICROS,
    ensures
        r@ == timestamp_spec(dt_micros, at_micros),
{
    let us = dt_micros as u64;
    let mut s = u64_to_two_dec(us / 3_600_000_000 % 24);
    let minutes = u64_to_two_dec(us / 60_000_000 % 60);
    let seconds = u64_to_two_dec(us / 1_000_000 % 60);
    s.append(":");
    s.append(minutes.as_str());
    s.append(":");
    s.append(seconds.as_str());
    assert(s@ =~= time_of_day_spec(dt_micros));
    let (y1, m1, d1) = civil_date(dt_micros);
    let (y2, m2, d2) = civil_date(at_micros);
    if y1 == y2 && m1 == m2 && d1 == d2 {
        s.append(" today");
        assert(s@ =~= timestamp_spec(dt_micros, at_micros));
        s
    } else {
        let day = u64_to_two_dec(d1 as u64);
        let month = u64_to_two_dec(m1 as u64);
        let year = u64_to_two_dec((y1 % 100) as u64);
        s.append(" ");
        s.append(day.as_str());
        s.append("/");
        s.append(month.as_str());
        s.append("/");
        s.append(year.as_str());
        assert(civil_from_micros(dt_micros) != civil_from_micros(at_micros));
        assert(s@ =~= timestamp_spec(dt_micros, at_micros));
        s
    }
}

/// Format a posting time the way the pages show it, judged against the
/// clock at the moment of the call: for some reading of the clock within
/// the formatter's range, this is the formatting of the posting time at
/// that moment.
pub fn format_timestamp(dt_micros: i64) -> (r: String)
    requires
        0 <= dt_micros <= MAX_FORMAT_MICROS,
    ensures
        exists|at: i64|
            0 <= at <= MAX_FORMAT_MICROS && r@ == timestamp_spec(dt_micros, at),
{
    let now = now_micros();
    let now = if now < 0 {
        0
    } else if now > MAX_FORMAT_MICROS {
        MAX_FORMAT_MICROS
    } else {
        now
    };
    let r = format_timestamp_at(dt_micros, now);
    assert(r@ == timestamp_spec(dt_micros, now));
    r
}

} // verus!
