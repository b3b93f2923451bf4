//! The calls into chrono, the date and time primitive that this crate rests
//! on.
//!
//! None of the contracts in this file is proved. Each one restates, over the
//! day-number model of `calendar`, what chrono documents of the function that
//! the body calls. The values pass the boundary field by field.

use crate::calendar::{max_day_number, min_day_number, weekday_index};
use crate::instant::Instant;
use crate::naive_date::NaiveDate;
use crate::naive_datetime::NaiveDateTime;
use crate::naive_time::NaiveTime;
use crate::weekday::days_forward;
use chrono::{Datelike, Timelike};
use vstd::prelude::*;

verus! {

/// `chrono::NaiveDate::weekday`, as the number of days from Monday.
///
/// Claimed: the weekday is the one that the day number gives when day 1, the
/// first of January of year 1, is a Monday.
#[verifier::external_body]
pub(crate) fn weekday_index_of(date: &NaiveDate) -> (r: u32)
    requires
        date.wf(),
    ensures
        r == weekday_index(date.day_number()),
        r < 7,
{
    let d = chrono::NaiveDate::from_ymd_opt(date.year, date.month, date.day).unwrap();
    d.weekday().num_days_from_monday()
}

/// `chrono::NaiveDate::checked_add_days`.
///
/// Claimed: the result is the date whose day number is `days` more, and
/// `None` exactly when that day is past the last date.
#[verifier::external_body]
pub(crate) fn checked_add_days(date: &NaiveDate, days: u64) -> (r: Option<NaiveDate>)
    requires
        date.wf(),
    ensures
        r.is_some() <==> date.day_number() + days <= max_day_number(),
        r.is_some() ==> r.unwrap().wf() && r.unwrap().day_number() == date.day_number() + days,
{
    let d = chrono::NaiveDate::from_ymd_opt(date.year, date.month, date.day).unwrap();
    let r = d.checked_add_days(chrono::Days::new(days))?;
    Some(NaiveDate { year: r.year(), month: r.month(), day: r.day() })
}

/// `chrono::NaiveDate::checked_sub_days`.
///
/// Claimed: the result is the date whose day number is `days` less, and
/// `None` exactly when that day is before the first date.
#[verifier::external_body]
pub(crate) fn checked_sub_days(date: &NaiveDate, days: u64) -> (r: Option<NaiveDate>)
    requires
        date.wf(),
    ensures
        r.is_some() <==> min_day_number() <= date.day_number() - days,
        r.is_some() ==> r.unwrap().wf() && r.unwrap().day_number() == date.day_number() - days,
{
    let d = chrono::NaiveDate::from_ymd_opt(date.year, date.month, date.day).unwrap();
    let r = d.checked_sub_days(chrono::Days::new(days))?;
    Some(NaiveDate { year: r.year(), month: r.month(), day: r.day() })
}

/// `chrono::NaiveDate::checked_add_months`.
///
/// Claimed: the result keeps the day of the month, or takes the last day of
/// the month reached where that month is shorter, and is `None` exactly when
/// the year reached is out of range.
#[verifier::external_body]
pub(crate) fn checked_add_months(date: &NaiveDate, months: u32) -> (r: Option<NaiveDate>)
    requires
        date.wf(),
    ensures
        r == date.spec_add_months(months as int),
{
    let d = chrono::NaiveDate::from_ymd_opt(date.year, date.month, date.day).unwrap();
    let r = d.checked_add_months(chrono::Months::new(months))?;
    Some(NaiveDate { year: r.year(), month: r.month(), day: r.day() })
}

/// `chrono::NaiveDate::checked_sub_months`.
///
/// Claimed: as for `checked_add_months`, `months` months back.
#[verifier::external_body]
pub(crate) fn checked_sub_months(date: &NaiveDate, months: u32) -> (r: Option<NaiveDate>)
    requires
        date.wf(),
    ensures
        r == date.spec_add_months(-(months as int)),
{
    let d = chrono::NaiveDate::from_ymd_opt(date.year, date.month, date.day).unwrap();
    let r = d.checked_sub_months(chrono::Months::new(months))?;
    Some(NaiveDate { year: r.year(), month: r.month(), day: r.day() })
}

/// `chrono::NaiveDate::signed_duration_since`, in days
/// (`chrono::TimeDelta::num_days`).
///
/// Claimed: the result is the difference of the two day numbers.
#[verifier::external_body]
pub(crate) fn days_between(date: &NaiveDate, other: &NaiveDate) -> (r: i64)
    requires
        date.wf(),
        other.wf(),
    ensures
        r == date.day_number() - other.day_number(),
{
    let a = chrono::NaiveDate::from_ymd_opt(date.year, date.month, date.day).unwrap();
    let b = chrono::NaiveDate::from_ymd_opt(other.year, other.month, other.day).unwrap();
    a.signed_duration_since(b).num_days()
}

/// `chrono::NaiveWeek::first_day` of `chrono::NaiveDate::week`, for a week
/// that starts on the weekday `start` days from Monday.
///
/// Claimed: the result is the last day, `date` or earlier, that falls on the
/// starting weekday. chrono panics where that day is before the first date:
/// `requires` leaves those dates out.
#[verifier::external_body]
pub(crate) fn week_first_day(date: &NaiveDate, start: u32) -> (r: NaiveDate)
    requires
        date.wf(),
        start < 7,
        min_day_number() <= date.day_number() - days_forward(
            start as int,
            weekday_index(date.day_number()),
        ),
    ensures
        r.wf(),
        r.day_number() == date.day_number() - days_forward(
            start as int,
            weekday_index(date.day_number()),
        ),
{
    let d = chrono::NaiveDate::from_ymd_opt(date.year, date.month, date.day).unwrap();
    let r = d.week(chrono::Weekday::try_from(start as u8).unwrap()).first_day();
    NaiveDate { year: r.year(), month: r.month(), day: r.day() }
}

/// `chrono::NaiveWeek::last_day` of `chrono::NaiveDate::week`, for a week
/// that starts on the weekday `start` days from Monday.
///
/// Claimed: the result is the first day, `date` or later, that falls on the
/// weekday before the starting one. chrono panics where that day is past the
/// last date: `requires` leaves those dates out.
#[verifier::external_body]
pub(crate) fn week_last_day(date: &NaiveDate, start: u32) -> (r: NaiveDate)
    requires
        date.wf(),
        start < 7,
        date.day_number() + days_forward(weekday_index(date.day_number()), start + 6)
            <= max_day_number(),
    ensures
        r.wf(),
        r.day_number() == date.day_number() + days_forward(
            weekday_index(date.day_number()),
            start + 6,
        ),
{
    let d = chrono::NaiveDate::from_ymd_opt(date.year, date.month, date.day).unwrap();
    let r = d.week(chrono::Weekday::try_from(start as u8).unwrap()).last_day();
    NaiveDate { year: r.year(), month: r.month(), day: r.day() }
}

/// `chrono::NaiveDate::years_since`.
///
/// Claimed: the result is the difference of the years, less one where the
/// month and day of `date` come before those of `base`, and `None` exactly
/// when that number is negative.
#[verifier::external_body]
pub(crate) fn years_since(date: &NaiveDate, base: &NaiveDate) -> (r: Option<u32>)
    requires
        date.wf(),
        base.wf(),
    ensures
        r == date.spec_years_since(*base),
{
    let a = chrono::NaiveDate::from_ymd_opt(date.year, date.month, date.day).unwrap();
    let b = chrono::NaiveDate::from_ymd_opt(base.year, base.month, base.day).unwrap();
    a.years_since(b)
}

/// `chrono::Datelike::ordinal` of a `chrono::NaiveDate`.
///
/// Claimed: the result is the day of the year, 1 for the first of January.
#[verifier::external_body]
pub(crate) fn ordinal(date: &NaiveDate) -> (r: u32)
    requires
        date.wf(),
    ensures
        r == date.spec_ordinal(),
{
    chrono::NaiveDate::from_ymd_opt(date.year, date.month, date.day).unwrap().ordinal()
}

/// `chrono::NaiveDateTime::checked_add_signed` of
/// `chrono::TimeDelta::try_milliseconds`.
///
/// Claimed: the result is the date-time `millis` milliseconds later (earlier,
/// for a negative number), and `None` exactly when that falls on no date.
#[verifier::external_body]
pub(crate) fn checked_add_milliseconds(dt: &NaiveDateTime, millis: i64) -> (r: Option<
    NaiveDateTime,
>)
    requires
        dt.wf(),
    ensures
        r.is_some() <==> NaiveDateTime::nanos_in_range(dt.nanos() + millis * 1_000_000),
        r.is_some() ==> r.unwrap().wf() && r.unwrap().nanos() == dt.nanos() + millis * 1_000_000,
{
    let (d, t) = (dt.date, dt.time);
    let a = chrono::NaiveDate::from_ymd_opt(d.year, d.month, d.day).unwrap();
    let a = a.and_hms_nano_opt(t.hour, t.minute, t.second, t.nano).unwrap();
    let r = a.checked_add_signed(chrono::TimeDelta::try_milliseconds(millis)?)?;
    let date = NaiveDate { year: r.year(), month: r.month(), day: r.day() };
    let time =
        NaiveTime { hour: r.hour(), minute: r.minute(), second: r.second(), nano: r.nanosecond() };
    Some(NaiveDateTime { date, time })
}

/// `chrono::NaiveDateTime::signed_duration_since`, as whole seconds
/// (`chrono::TimeDelta::num_seconds`) and the nanoseconds beyond them
/// (`chrono::TimeDelta::subsec_nanos`).
///
/// Claimed: the two parts add up to the difference of the two date-times,
/// and neither has the opposite sign of the other.
#[verifier::external_body]
pub(crate) fn duration_since(dt: &NaiveDateTime, other: &NaiveDateTime) -> (r: (i64, i32))
    requires
        dt.wf(),
        other.wf(),
    ensures
        r.0 * 1_000_000_000 + r.1 == dt.nanos() - other.nanos(),
        -1_000_000_000 < r.1 < 1_000_000_000,
        r.0 > 0 ==> r.1 >= 0,
        r.0 < 0 ==> r.1 <= 0,
{
    let (d, t) = (dt.date, dt.time);
    let a = chrono::NaiveDate::from_ymd_opt(d.year, d.month, d.day).unwrap();
    let a = a.and_hms_nano_opt(t.hour, t.minute, t.second, t.nano).unwrap();
    let (d, t) = (other.date, other.time);
    let b = chrono::NaiveDate::from_ymd_opt(d.year, d.month, d.day).unwrap();
    let b = b.and_hms_nano_opt(t.hour, t.minute, t.second, t.nano).unwrap();
    let delta = a.signed_duration_since(b);
    (delta.num_seconds(), delta.subsec_nanos())
}

/// `chrono::DateTime::timestamp` of `chrono::NaiveDateTime::and_utc`.
///
/// Claimed: the result counts the whole seconds from the midnight that starts
/// 1 January 1970, 86 400 to each day.
#[verifier::external_body]
pub(crate) fn timestamp(dt: &NaiveDateTime) -> (r: i64)
    requires
        dt.wf(),
    ensures
        r == dt.spec_timestamp(),
{
    let (d, t) = (dt.date, dt.time);
    let a = chrono::NaiveDate::from_ymd_opt(d.year, d.month, d.day).unwrap();
    a.and_hms_nano_opt(t.hour, t.minute, t.second, t.nano).unwrap().and_utc().timestamp()
}

/// `chrono::Utc::now`, as a date-time without its zone
/// (`chrono::DateTime::naive_utc`).
///
/// Claimed: the result is a date-time, whatever the clock says. chrono
/// panics where the system clock is set before 1970.
#[verifier::external_body]
pub(crate) fn utc_now() -> (r: NaiveDateTime)
    ensures
        r.wf(),
{
    let r = chrono::Utc::now().naive_utc();
    let date = NaiveDate { year: r.year(), month: r.month(), day: r.day() };
    let time =
        NaiveTime { hour: r.hour(), minute: r.minute(), second: r.second(), nano: r.nanosecond() };
    NaiveDateTime { date, time }
}

} // verus!
