//! Calendar dates, clock times and time zones, computed by `chrono` and
//! `chrono-tz` and carried here as plain values.
use vstd::prelude::*;

use chrono::{Datelike, Offset, TimeZone, Timelike};

verus! {

/// A calendar date.
#[derive(Debug, Clone, Copy, PartialEq, Eq, Structural)]
pub struct LocalDate {
    pub year: i32,
    pub month: u32,
    pub day: u32,
}

/// A time of day: seconds since midnight and the nanosecond part (at least
/// one second only within a leap second).
#[derive(Debug, Clone, Copy, PartialEq, Eq, Structural)]
pub struct LocalTime {
    pub secs: u32,
    pub nanos: u32,
}

pub open spec fn is_leap_year(y: int) -> bool {
    (y % 4 == 0 && y % 100 != 0) || y % 400 == 0
}

pub open spec fn days_in_month(y: int, m: int) -> int {
    if m == 2 {
        if is_leap_year(y) {
            29
        } else {
            28
        }
    } else if m == 4 || m == 6 || m == 9 || m == 11 {
        30
    } else {
        31
    }
}

/// A date that `chrono::NaiveDate` can hold: a valid Gregorian date in the
/// years -262143..=262142.
pub open spec fn date_ok(d: LocalDate) -> bool {
    &&& -262143 <= d.year <= 262142
    &&& 1 <= d.month <= 12
    &&& 1 <= d.day <= days_in_month(d.year as int, d.month as int)
}

/// A time that `chrono::NaiveTime` can hold.
pub open spec fn time_ok(t: LocalTime) -> bool {
    &&& t.secs < 86400
    &&& t.nanos < 2_000_000_000
    &&& (t.nanos >= 1_000_000_000 ==> t.secs % 60 == 59)
}

/// Chronological order of dates.
pub open spec fn date_lt(a: LocalDate, b: LocalDate) -> bool {
    a.year < b.year || (a.year == b.year && (a.month < b.month || (a.month == b.month && a.day
        < b.day)))
}

/// Order of times of day.
pub open spec fn time_lt(a: LocalTime, b: LocalTime) -> bool {
    a.secs < b.secs || (a.secs == b.secs && a.nanos < b.nanos)
}

pub fn date_less(a: LocalDate, b: LocalDate) -> (r: bool)
    ensures
        r == date_lt(a, b),
{
    a.year < b.year || (a.year == b.year && (a.month < b.month || (a.month == b.month && a.day
        < b.day)))
}

pub fn time_less(a: LocalTime, b: LocalTime) -> (r: bool)
    ensures
        r == time_lt(a, b),
{
    a.secs < b.secs || (a.secs == b.secs && a.nanos < b.nanos)
}

/// Whether `chrono_tz` knows the zone name.
pub uninterp spec fn zone_known(name: Seq<char>) -> bool;

/// Whether `chrono` can represent the UTC instant of this Unix time.
pub uninterp spec fn utc_representable(unix_secs: i64) -> bool;

/// Local date and time of a Unix time in a zone; `None` when the local time
/// falls outside chrono's range.
pub uninterp spec fn local_clock(zone: Seq<char>, unix_secs: i64) -> Option<(LocalDate, LocalTime)>;

/// Whether the local date and time exist exactly once in the zone (not in a
/// daylight-saving gap, not repeated in a fold).
pub uninterp spec fn single_local(zone: Seq<char>, date: LocalDate, time: LocalTime) -> bool;

/// A time written `HH:MM`, as `chrono` parses it with that format.
pub uninterp spec fn hh_mm_parse(text: Seq<char>) -> Option<LocalTime>;

/// A date written `YYYY-MM-DD`, as `chrono` parses it with that format.
pub uninterp spec fn ymd_parse(text: Seq<char>) -> Option<LocalDate>;

/// The date a number of days later, if `chrono` can represent it.
pub uninterp spec fn date_plus_days(date: LocalDate, days: u64) -> Option<LocalDate>;

/// `chrono_tz::Tz::from_str`: whether the name parses as a zone.
#[verifier::external_body]
pub(crate) fn zone_name_known(name: &str) -> (r: bool)
    ensures
        r == zone_known(name@),
{
    name.parse::<chrono_tz::Tz>().is_ok()
}

/// `chrono::DateTime::<Utc>::from_timestamp` with no nanoseconds: whether it
/// returns an instant.
#[verifier::external_body]
pub(crate) fn unix_secs_representable(unix_secs: i64) -> (r: bool)
    ensures
        r == utc_representable(unix_secs),
{
    chrono::DateTime::<chrono::Utc>::from_timestamp(unix_secs, 0).is_some()
}

/// The local date and time of a Unix time in a zone: `TimeZone::offset_from_utc_datetime`
/// applied with `NaiveDateTime::checked_add_offset`, which is what
/// `DateTime::with_timezone` followed by `date_naive` and `time` compute,
/// except that an out-of-range local time gives `None` where `date_naive`
/// would panic. A result is a date and a time that chrono can hold.
#[verifier::external_body]
pub(crate) fn local_reading(zone: &str, unix_secs: i64) -> (r: Option<(LocalDate, LocalTime)>)
    requires
        zone_known(zone@),
        utc_representable(unix_secs),
    ensures
        r == local_clock(zone@, unix_secs),
        r matches Some((d, t)) ==> date_ok(d) && time_ok(t),
{
    let tz: chrono_tz::Tz = zone.parse().unwrap();
    let utc = chrono::DateTime::<chrono::Utc>::from_timestamp(unix_secs, 0).unwrap().naive_utc();
    let offset = tz.offset_from_utc_datetime(&utc).fix();
    let local = utc.checked_add_offset(offset)?;
    Some((
        LocalDate { year: local.year(), month: local.month(), day: local.day() },
        LocalTime { secs: local.num_seconds_from_midnight(), nanos: local.nanosecond() },
    ))
}

/// `TimeZone::from_local_datetime`: whether the result is `LocalResult::Single`.
#[verifier::external_body]
pub(crate) fn local_time_is_single(zone: &str, date: LocalDate, time: LocalTime) -> (r: bool)
    requires
        zone_known(zone@),
        date_ok(date),
        time_ok(time),
    ensures
        r == single_local(zone@, date, time),
{
    let tz: chrono_tz::Tz = zone.parse().unwrap();
    let d = chrono::NaiveDate::from_ymd_opt(date.year, date.month, date.day).unwrap();
    let t = chrono::NaiveTime::from_num_seconds_from_midnight_opt(time.secs, time.nanos).unwrap();
    matches!(tz.from_local_datetime(&d.and_time(t)), chrono::LocalResult::Single(_))
}

/// `NaiveTime::parse_from_str` with the format `%H:%M`.
#[verifier::external_body]
pub(crate) fn parse_hh_mm(text: &str) -> (r: Option<LocalTime>)
    ensures
        r == hh_mm_parse(text@),
        r matches Some(t) ==> time_ok(t),
{
    let t = chrono::NaiveTime::parse_from_str(text, "%H:%M").ok()?;
    Some(LocalTime { secs: t.num_seconds_from_midnight(), nanos: t.nanosecond() })
}

/// `NaiveDate::parse_from_str` with the format `%Y-%m-%d`.
#[verifier::external_body]
pub(crate) fn parse_ymd(text: &str) -> (r: Option<LocalDate>)
    ensures
        r == ymd_parse(text@),
        r matches Some(d) ==> date_ok(d),
{
    let d = chrono::NaiveDate::parse_from_str(text, "%Y-%m-%d").ok()?;
    Some(LocalDate { year: d.year(), month: d.month(), day: d.day() })
}

/// `NaiveDate::checked_add_days`; adding no days gives the same date.
#[verifier::external_body]
pub(crate) fn add_days(date: LocalDate, days: u64) -> (r: Option<LocalDate>)
    requires
        date_ok(date),
    ensures
        r == date_plus_days(date, days),
        r matches Some(d) ==> date_ok(d),
        days == 0 ==> r == Some(date),
{
    let d = chrono::NaiveDate::from_ymd_opt(date.year, date.month, date.day).unwrap();
    let later = d.checked_add_days(chrono::Days::new(days))?;
    Some(LocalDate { year: later.year(), month: later.month(), day: later.day() })
}

} // verus!
