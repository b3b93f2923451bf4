//! The day-number model of the proleptic Gregorian calendar.
//!
//! Every date is numbered by the count of days from 1 January of year 1, which
//! is day 1. Day arithmetic, weekdays and the order of dates are all stated
//! over this number.

use crate::utils::{spec_days_in_month, spec_days_in_year, spec_is_leap_year};
use vstd::prelude::*;

verus! {

/// The earliest year that a date can have.
pub const MIN_YEAR: i32 = -262143;

/// The latest year that a date can have.
pub const MAX_YEAR: i32 = 262142;

/// Whether `year`, `month`, `day` name a day of the calendar, whatever the year.
pub open spec fn is_calendar_day(year: int, month: int, day: int) -> bool {
    1 <= month <= 12 && 1 <= day <= spec_days_in_month(month, year)
}

/// Whether `year`, `month`, `day` name a day of the calendar whose year is
/// between `MIN_YEAR` and `MAX_YEAR`.
pub open spec fn valid_ymd(year: int, month: int, day: int) -> bool {
    MIN_YEAR <= year <= MAX_YEAR && is_calendar_day(year, month, day)
}

/// Days from 1 January of year 1 up to, not including, 1 January of `year`.
pub open spec fn days_before_year(year: int) -> int {
    let p = year - 1;
    365 * p + p / 4 - p / 100 + p / 400
}

/// Days of `year` that lie before the first day of `month`.
pub open spec fn days_before_month(month: int, year: int) -> int {
    let leap: int = if month > 2 && spec_is_leap_year(year) {
        1
    } else {
        0
    };
    leap + if month <= 1 {
        0int
    } else if month == 2 {
        31
    } else if month == 3 {
        59
    } else if month == 4 {
        90
    } else if month == 5 {
        120
    } else if month == 6 {
        151
    } else if month == 7 {
        181
    } else if month == 8 {
        212
    } else if month == 9 {
        243
    } else if month == 10 {
        273
    } else if month == 11 {
        304
    } else {
        334
    }
}

/// The day of the year: 1 for 1 January.
pub open spec fn day_of_year(year: int, month: int, day: int) -> int {
    days_before_month(month, year) + day
}

/// The number of the day: 1 for 1 January of year 1.
#[verifier::opaque]
pub open spec fn day_number(year: int, month: int, day: int) -> int {
    days_before_year(year) + day_of_year(year, month, day)
}

/// The number of the first day that a date can be, 1 January of `MIN_YEAR`.
pub open spec fn min_day_number() -> int {
    -95_746_129
}

/// The number of the last day that a date can be, 31 December of `MAX_YEAR`.
pub open spec fn max_day_number() -> int {
    95_745_399
}

/// The bounds are the day numbers of the first and the last date.
pub proof fn lemma_first_and_last_day()
    ensures
        day_number(MIN_YEAR as int, 1, 1) == min_day_number(),
        day_number(MAX_YEAR as int, 12, 31) == max_day_number(),
{
    reveal(day_number);
}

/// Position in the week of the day with number `n`: 0 for Monday, 6 for Sunday.
pub open spec fn weekday_index(n: int) -> int {
    (n + 6) % 7
}

/// The order of the calendar: year, then month, then day.
pub open spec fn ymd_lt(y1: int, m1: int, d1: int, y2: int, m2: int, d2: int) -> bool {
    y1 < y2 || (y1 == y2 && (m1 < m2 || (m1 == m2 && d1 < d2)))
}

/// From one number to the next the quotient by `d` grows by one where the
/// next number is a multiple of `d`, and stays where it is not.
proof fn lemma_quotient_step(p: int, d: int)
    requires
        d == 4 || d == 100 || d == 400,
    ensures
        (p + 1) / d - p / d == if (p + 1) % d == 0 {
            1int
        } else {
            0int
        },
{
}

/// A year is as long as the leap-year rule says.
pub proof fn lemma_year_length(year: int)
    ensures
        days_before_year(year + 1) == days_before_year(year) + spec_days_in_year(year),
{
    lemma_quotient_step(year - 1, 4);
    lemma_quotient_step(year - 1, 100);
    lemma_quotient_step(year - 1, 400);
}

/// The days before a year grow with the year, by at least 365 a year.
pub proof fn lemma_days_before_year_monotonic(y1: int, y2: int)
    requires
        y1 <= y2,
    ensures
        days_before_year(y2) >= days_before_year(y1) + 365 * (y2 - y1),
    decreases y2 - y1,
{
    if y1 < y2 {
        lemma_days_before_year_monotonic(y1, y2 - 1);
        lemma_year_length(y2 - 1);
    }
}

/// A month is as long as the table says, and the twelve add up to the year.
pub proof fn lemma_month_length(month: int, year: int)
    requires
        1 <= month <= 12,
    ensures
        month < 12 ==> days_before_month(month + 1, year) == days_before_month(month, year)
            + spec_days_in_month(month, year),
        days_before_month(12, year) + 31 == spec_days_in_year(year),
        0 <= days_before_month(month, year),
        days_before_month(month, year) + spec_days_in_month(month, year) <= spec_days_in_year(year),
{
}

/// The days before a month grow with the month.
pub proof fn lemma_days_before_month_monotonic(m1: int, m2: int, year: int)
    requires
        1 <= m1 < m2 <= 12,
    ensures
        days_before_month(m1, year) + spec_days_in_month(m1, year) <= days_before_month(m2, year),
{
}

/// The day of the year of a calendar day lies between 1 and the year's length.
pub proof fn lemma_day_of_year_bounds(year: int, month: int, day: int)
    requires
        is_calendar_day(year, month, day),
    ensures
        1 <= day_of_year(year, month, day) <= spec_days_in_year(year),
{
    lemma_month_length(month, year);
}

/// The day number follows the order of the calendar.
pub proof fn lemma_day_number_increasing(y1: int, m1: int, d1: int, y2: int, m2: int, d2: int)
    requires
        is_calendar_day(y1, m1, d1),
        is_calendar_day(y2, m2, d2),
        ymd_lt(y1, m1, d1, y2, m2, d2),
    ensures
        day_number(y1, m1, d1) < day_number(y2, m2, d2),
{
    reveal(day_number);
    lemma_day_of_year_bounds(y1, m1, d1);
    lemma_day_of_year_bounds(y2, m2, d2);
    if y1 < y2 {
        lemma_year_length(y1);
        lemma_days_before_year_monotonic(y1 + 1, y2);
    } else if m1 < m2 {
        lemma_days_before_month_monotonic(m1, m2, y1);
    }
}

/// Two calendar days with one day number are the same day.
pub proof fn lemma_day_number_injective(y1: int, m1: int, d1: int, y2: int, m2: int, d2: int)
    requires
        is_calendar_day(y1, m1, d1),
        is_calendar_day(y2, m2, d2),
        day_number(y1, m1, d1) == day_number(y2, m2, d2),
    ensures
        y1 == y2 && m1 == m2 && d1 == d2,
{
    if ymd_lt(y1, m1, d1, y2, m2, d2) {
        lemma_day_number_increasing(y1, m1, d1, y2, m2, d2);
    } else if ymd_lt(y2, m2, d2, y1, m1, d1) {
        lemma_day_number_increasing(y2, m2, d2, y1, m1, d1);
    }
}

/// A calendar day whose number is within the bounds has its year within the
/// bounds.
pub proof fn lemma_day_number_in_range(year: int, month: int, day: int)
    requires
        is_calendar_day(year, month, day),
        min_day_number() <= day_number(year, month, day) <= max_day_number(),
    ensures
        valid_ymd(year, month, day),
{
    lemma_first_and_last_day();
    if year < MIN_YEAR {
        lemma_day_number_increasing(year, month, day, MIN_YEAR as int, 1, 1);
    }
    if year > MAX_YEAR {
        lemma_day_number_increasing(MAX_YEAR as int, 12, 31, year, month, day);
    }
}

/// The day number of a valid date lies within the bounds.
pub proof fn lemma_valid_day_number_bounds(year: int, month: int, day: int)
    requires
        valid_ymd(year, month, day),
    ensures
        min_day_number() <= day_number(year, month, day) <= max_day_number(),
{
    lemma_first_and_last_day();
    if ymd_lt(MIN_YEAR as int, 1, 1, year, month, day) {
        lemma_day_number_increasing(MIN_YEAR as int, 1, 1, year, month, day);
    }
    if ymd_lt(year, month, day, MAX_YEAR as int, 12, 31) {
        lemma_day_number_increasing(year, month, day, MAX_YEAR as int, 12, 31);
    }
}

/// Within one month the day number grows with the day of the month.
pub proof fn lemma_day_number_in_month(year: int, month: int, d1: int, d2: int)
    ensures
        day_number(year, month, d2) - day_number(year, month, d1) == d2 - d1,
{
    reveal(day_number);
}

/// The first day of the month after `month` of `year` comes as many days
/// after the first day of that month as the month is long.
pub proof fn lemma_next_month_start(year: int, month: int)
    requires
        1 <= month <= 12,
    ensures
        month < 12 ==> day_number(year, month + 1, 1) == day_number(year, month, 1)
            + spec_days_in_month(month, year),
        month == 12 ==> day_number(year + 1, 1, 1) == day_number(year, month, 1)
            + spec_days_in_month(month, year),
{
    reveal(day_number);
    lemma_month_length(month, year);
    lemma_year_length(year);
}

/// The last day of a year is as many days after the first as the year is
/// long, less one.
pub proof fn lemma_year_span(year: int)
    ensures
        day_number(year, 12, 31) == day_number(year, 1, 1) + spec_days_in_year(year) - 1,
{
    reveal(day_number);
}

/// The day after a calendar day: the next day of the month, else the first of
/// the next month, else 1 January of the next year.
pub open spec fn next_ymd(year: int, month: int, day: int) -> (int, int, int) {
    if day < spec_days_in_month(month, year) {
        (year, month, day + 1)
    } else if month < 12 {
        (year, month + 1, 1)
    } else {
        (year + 1, 1, 1)
    }
}

/// The day after a calendar day is a calendar day, and its number is one more.
pub proof fn lemma_next_ymd(year: int, month: int, day: int)
    requires
        is_calendar_day(year, month, day),
    ensures
        ({
            let (y, m, d) = next_ymd(year, month, day);
            is_calendar_day(y, m, d) && day_number(y, m, d) == day_number(year, month, day) + 1
        }),
{
    reveal(day_number);
    lemma_month_length(month, year);
    lemma_year_length(year);
}

/// Every number within the bounds is the number of a valid date.
pub proof fn lemma_day_number_onto(n: int) -> (ymd: (int, int, int))
    requires
        min_day_number() <= n <= max_day_number(),
    ensures
        valid_ymd(ymd.0, ymd.1, ymd.2),
        day_number(ymd.0, ymd.1, ymd.2) == n,
    decreases n - min_day_number(),
{
    if n == min_day_number() {
        lemma_first_and_last_day();
        (MIN_YEAR as int, 1, 1)
    } else {
        let (y, m, d) = lemma_day_number_onto(n - 1);
        lemma_next_ymd(y, m, d);
        let next = next_ymd(y, m, d);
        lemma_day_number_in_range(next.0, next.1, next.2);
        next
    }
}

} // verus!
