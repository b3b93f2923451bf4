//! Calendar rules and small unit reductions.
//!
//! The Gregorian leap-year rule and the month-length table live here; every
//! other module derives month and year lengths from them.

use vstd::prelude::*;

verus! {

/// The leap-year rule of the proleptic Gregorian calendar.
pub open spec fn spec_is_leap_year(year: int) -> bool {
    year % 4 == 0 && (year % 100 != 0 || year % 400 == 0)
}

/// Number of days of `month` (1 to 12) in `year`.
pub open spec fn spec_days_in_month(month: int, year: int) -> int {
    if month == 2 {
        if spec_is_leap_year(year) {
            29
        } else {
            28
        }
    } else if month == 4 || month == 6 || month == 9 || month == 11 {
        30
    } else {
        31
    }
}

/// Number of days of `year`.
pub open spec fn spec_days_in_year(year: int) -> int {
    if spec_is_leap_year(year) {
        366
    } else {
        365
    }
}

/// February has 29 days exactly in the leap years.
pub proof fn lemma_february_length(year: int)
    ensures
        spec_days_in_month(2, year) == 29 <==> spec_is_leap_year(year),
        spec_days_in_month(2, year) == 28 <==> !spec_is_leap_year(year),
{
}

proof fn lemma_neg_divisible(y: int, m: int)
    requires
        m == 4 || m == 100 || m == 400,
    ensures
        ((-y) % m == 0) == (y % m == 0),
{
}

fn divisible(year: i32, m: i32) -> (r: bool)
    requires
        m == 4 || m == 100 || m == 400,
    ensures
        r == (year as int % m as int == 0),
{
    proof {
        lemma_neg_divisible(year as int, m as int);
    }
    year % m == 0
}

/// Whether `year` is a leap year: a multiple of 400, or a multiple of 4 that
/// is not a multiple of 100.
pub fn is_leap_year(year: i32) -> (r: bool)
    ensures
        r == spec_is_leap_year(year as int),
{
    if divisible(year, 400) {
        true
    } else if divisible(year, 100) {
        false
    } else {
        divisible(year, 4)
    }
}

/// The three kinds of month length. `Other` is February and carries whether
/// the year is a leap year.
#[derive(Clone, Copy, Debug, PartialEq, Eq, Structural)]
pub enum MonthType {
    Day30,
    Day31,
    Other(bool),
}

impl MonthType {
    /// The number of days that a month of this kind has.
    pub open spec fn spec_days(self) -> int {
        match self {
            MonthType::Day30 => 30,
            MonthType::Day31 => 31,
            MonthType::Other(leap) => if leap {
                29
            } else {
                28
            },
        }
    }

    /// The number of days that a month of this kind has.
    pub fn days(&self) -> (r: u32)
        ensures
            r == self.spec_days(),
    {
        match self {
            MonthType::Day30 => 30,
            MonthType::Day31 => 31,
            MonthType::Other(true) => 29,
            MonthType::Other(false) => 28,
        }
    }
}

/// Classifies `month` of `year` by its length. A month outside 4, 6, 9, 11
/// and 1, 3, 5, 7, 8, 10, 12 is treated as February.
pub fn month_type(month: u32, year: i32) -> (r: MonthType)
    ensures
        month == 4 || month == 6 || month == 9 || month == 11 ==> r == MonthType::Day30,
        month == 1 || month == 3 || month == 5 || month == 7 || month == 8 || month == 10 || month
            == 12 ==> r == MonthType::Day31,
        !(1 <= month <= 12) || month == 2 ==> r == MonthType::Other(spec_is_leap_year(year as int)),
        1 <= month <= 12 ==> r.spec_days() == spec_days_in_month(month as int, year as int),
{
    if month == 4 || month == 6 || month == 9 || month == 11 {
        MonthType::Day30
    } else if month == 1 || month == 3 || month == 5 || month == 7 || month == 8 || month == 10
        || month == 12 {
        MonthType::Day31
    } else {
        MonthType::Other(is_leap_year(year))
    }
}

/// Number of days of `month` in `year`: 28, 29, 30 or 31.
pub fn days_in_month(month: u32, year: i32) -> (r: u32)
    requires
        1 <= month <= 12,
    ensures
        r == spec_days_in_month(month as int, year as int),
        28 <= r <= 31,
{
    month_type(month, year).days()
}

/// `a` divided by a positive `b`, rounded toward zero.
pub open spec fn truncated_quotient(a: int, b: int) -> int {
    if a >= 0 {
        a / b
    } else {
        -((-a) / b)
    }
}

/// The distance of `a` from zero.
pub open spec fn magnitude(a: int) -> int {
    if a >= 0 {
        a
    } else {
        -a
    }
}

/// The seconds that remain after the whole minutes of `second`.
pub fn second2minute(second: u32) -> (r: u32)
    ensures
        r == second % 60,
{
    second % 60
}

/// `second` reduced modulo 60 twice.
pub fn second2hour(second: u32) -> (r: u32)
    ensures
        r == second % 60,
{
    second % 60 % 60
}

/// `second` reduced modulo 60 and then modulo 24.
pub fn second2day(second: u32) -> (r: u32)
    ensures
        r == (second % 60) % 24,
{
    second % 60 % 60 % 24
}

/// The minutes that remain after the whole hours of `minute`.
pub fn minute2hour(minute: u32) -> (r: u32)
    ensures
        r == minute % 60,
{
    minute % 60
}

/// `minute` reduced modulo 60 and then modulo 24.
pub fn minute2day(minute: u32) -> (r: u32)
    ensures
        r == (minute % 60) % 24,
{
    minute % 60 % 24
}

/// The hours that remain after the whole days of `hour`.
pub fn hour2day(hour: u32) -> (r: u32)
    ensures
        r == hour % 24,
{
    hour % 24
}

} // verus!
