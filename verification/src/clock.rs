//! Instants and the calendar.
//!
//! An instant is a count of non-leap seconds (or milliseconds) since
//! 1970-01-01T00:00:00Z. The time of day of an instant is arithmetic on the
//! count. Its date, and its reading and writing as text, are computed by
//! `chrono`; the functions at the bottom of this file are the only places
//! where it is called, and their contracts are believed, not proved.

use chrono::{DateTime, Datelike, FixedOffset};
use std::fmt::Write;
use vstd::prelude::*;

verus! {

/// The first second that the calendar can hold: the start of the year -262143.
pub const EARLIEST_SECOND: i64 = -8_334_601_228_800;

/// The last second that the calendar can hold: the end of the year 262142.
pub const LATEST_SECOND: i64 = 8_210_266_876_799;

/// Whether the calendar has a date for the instant `secs`.
pub open spec fn representable(secs: i64) -> bool {
    EARLIEST_SECOND <= secs <= LATEST_SECOND
}

/// The day on which the instant `secs` falls, counted from 1970-01-01.
pub open spec fn day_number(secs: i64) -> int {
    secs / 86_400
}

/// The place of the day `days` in its cycle of 400 years (146097 days), the
/// cycles starting on a first of March.
pub open spec fn day_of_cycle(days: int) -> int {
    (days + 719_468) % 146_097
}

/// The year of its cycle, 0 to 399, in which the day `cycle_day` of a cycle
/// falls, the years starting on the first of March.
pub open spec fn year_of_cycle(cycle_day: int) -> int {
    (cycle_day - cycle_day / 1_460 + cycle_day / 36_524 - cycle_day / 146_096) / 365
}

/// The place of the day `days` in its year, the first of March being day 0.
pub open spec fn day_of_year(days: int) -> int {
    let cycle_day = day_of_cycle(days);
    let year = year_of_cycle(cycle_day);
    cycle_day - (365 * year + year / 4 - year / 100)
}

/// The month of the day `year_day` of a year, March being month 0.
pub open spec fn month_from_march(year_day: int) -> int {
    (5 * year_day + 2) / 153
}

/// The day of the month (1 to 31) on which the instant `secs` falls in UTC,
/// in the proleptic Gregorian calendar.
pub open spec fn utc_day(secs: i64) -> u32 {
    let year_day = day_of_year(day_number(secs));
    (year_day - (153 * month_from_march(year_day) + 2) / 5 + 1) as u32
}

/// The month (1 to 12) in which the instant `secs` falls in UTC, in the
/// proleptic Gregorian calendar.
pub open spec fn utc_month(secs: i64) -> u32 {
    let month = month_from_march(day_of_year(day_number(secs)));
    (if month < 10 {
        month + 3
    } else {
        month - 9
    }) as u32
}

/// The instant, in milliseconds, that `text` denotes as an RFC 3339 date and
/// time, or `None` where it is not one.
pub uninterp spec fn rfc3339_millis(text: Seq<char>) -> Option<i64>;

/// The RFC 3339 text of the instant `millis` in UTC, or `None` where the
/// calendar cannot hold it.
pub uninterp spec fn rfc3339_text(millis: i64) -> Option<Seq<char>>;

/// The instant `secs`, seen `west` seconds west of Greenwich and written
/// after the strftime-like `pattern`; `None` where the offset is not under a
/// day, the calendar cannot hold the instant, or the pattern is malformed.
pub uninterp spec fn formatted_west(secs: i64, west: i32, pattern: Seq<char>) -> Option<Seq<char>>;

/// The wall-clock reading of an instant in UTC, without the year.
#[derive(Clone, Copy, Debug, PartialEq, Eq, Structural)]
pub struct UtcFields {
    pub second: u32,
    pub minute: u32,
    pub hour: u32,
    pub day: u32,
    pub month: u32,
}

/// The reading of the instant `secs`: seconds, minutes and hours by
/// arithmetic on the count, day and month by the calendar.
pub open spec fn utc_fields(secs: i64) -> Option<UtcFields> {
    if representable(secs) {
        Some(
            UtcFields {
                second: (secs % 60) as u32,
                minute: ((secs / 60) % 60) as u32,
                hour: ((secs / 3600) % 24) as u32,
                day: utc_day(secs),
                month: utc_month(secs),
            },
        )
    } else {
        None
    }
}

/// The date of an instant is a day from 1 to 31 of a month from 1 to 12.
pub proof fn lemma_date_in_range(secs: i64)
    ensures
        1 <= utc_day(secs) <= 31,
        1 <= utc_month(secs) <= 12,
{
    let days = day_number(secs);
    let cycle_day = day_of_cycle(days);
    assert(0 <= cycle_day <= 146_096);
    let year = year_of_cycle(cycle_day);
    assert(0 <= year <= 399);
    let year_day = day_of_year(days);
    assert(0 <= year_day <= 365) by {
        assert(365 * year <= cycle_day - cycle_day / 1_460 + cycle_day / 36_524 - cycle_day / 146_096
            < 365 * year + 365);
    }
    let month = month_from_march(year_day);
    assert(0 <= month <= 11);
    assert(153 * month <= 5 * year_day + 2 < 153 * month + 153);
    let before = (153 * month + 2) / 5;
    assert(5 * before <= 153 * month + 2 < 5 * before + 5);
    assert(0 <= year_day - before <= 30);
}

/// The date of the instant `secs` in UTC, as day of the month and month, or
/// `None` where the calendar cannot hold the instant.
pub open spec fn utc_date(secs: i64) -> Option<(u32, u32)> {
    if representable(secs) {
        Some((utc_day(secs), utc_month(secs)))
    } else {
        None
    }
}

/// The time of day of the instant `secs` in UTC: hour, minute and second.
pub fn time_of_day(secs: i64) -> (r: (u32, u32, u32))
    ensures
        r.0 == (secs / 3600) % 24,
        r.1 == (secs / 60) % 60,
        r.2 == secs % 60,
{
    let rest: i64 = secs % 86_400;
    let in_day: i64 = if rest < 0 {
        rest + 86_400
    } else {
        rest
    };
    proof {
        let q = secs / 86_400;
        assert(secs == 86_400 * q + in_day && 0 <= in_day < 86_400);
        assert(secs / 60 == 1_440 * q + in_day / 60);
        assert(secs / 3600 == 24 * q + in_day / 3600);
        assert(secs % 60 == in_day % 60);
    }
    ((in_day / 3600) as u32, ((in_day / 60) % 60) as u32, (in_day % 60) as u32)
}

/// The reading of the instant `secs` in UTC, or `None` where the calendar
/// cannot hold the instant.
pub fn read_utc(secs: i64) -> (r: Option<UtcFields>)
    ensures
        r == utc_fields(secs),
{
    match calendar_date(secs) {
        Some((day, month)) => {
            let (hour, minute, second) = time_of_day(secs);
            Some(UtcFields { second, minute, hour, day, month })
        },
        None => None,
    }
}

/// `chrono::DateTime::from_timestamp`, read back through `Datelike::day` and
/// `Datelike::month`. Believed of chrono: an instant has a date exactly
/// between `EARLIEST_SECOND` and `LATEST_SECOND`, and its day and month are
/// those of the proleptic Gregorian calendar, which `utc_day` and
/// `utc_month` write out.
#[verifier::external_body]
fn calendar_date(secs: i64) -> (r: Option<(u32, u32)>)
    ensures
        r == utc_date(secs),
{
    DateTime::from_timestamp(secs, 0).map(|t| (t.day(), t.month()))
}

/// `chrono::DateTime::parse_from_rfc3339`, read back as milliseconds since
/// the epoch. Believed of chrono: the result depends on the text alone.
#[verifier::external_body]
pub(crate) fn parse_rfc3339(text: &str) -> (r: Option<i64>)
    ensures
        r == rfc3339_millis(text@),
{
    DateTime::parse_from_rfc3339(text).ok().map(|t| t.timestamp_millis())
}

/// `chrono::DateTime::to_rfc3339` on the UTC date of `millis`. Believed of
/// chrono: the result depends on the instant alone.
#[verifier::external_body]
pub(crate) fn write_rfc3339(millis: i64) -> (r: Option<String>)
    ensures
        match r {
            Some(s) => rfc3339_text(millis) == Some(s@),
            None => rfc3339_text(millis) is None,
        },
{
    DateTime::from_timestamp_millis(millis).map(|t| t.to_rfc3339())
}

/// `chrono::DateTime::format` on the instant `secs` in the zone `west`
/// seconds west of Greenwich. Believed of chrono: the result depends on the
/// three arguments alone.
#[verifier::external_body]
pub(crate) fn write_west(secs: i64, west: i32, pattern: &str) -> (r: Option<String>)
    ensures
        match r {
            Some(s) => formatted_west(secs, west, pattern@) == Some(s@),
            None => formatted_west(secs, west, pattern@) is None,
        },
{
    let zone = FixedOffset::west_opt(west)?;
    let local = DateTime::from_timestamp(secs, 0)?.with_timezone(&zone);
    let mut out = String::new();
    write!(out, "{}", local.format(pattern)).ok()?;
    Some(out)
}

} // verus!
