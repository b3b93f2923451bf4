//! A calendar date.

use crate::calendar::{
    day_number, lemma_day_number_increasing, lemma_day_number_onto,
    lemma_valid_day_number_bounds, max_day_number, min_day_number, valid_ymd, weekday_index,
    ymd_lt, MAX_YEAR, MIN_YEAR,
};
use crate::instant::Instant;
use crate::naive_datetime::NaiveDateTime;
use crate::naive_time::NaiveTime;
use crate::utils::{days_in_month, is_leap_year, spec_days_in_month};
use crate::weekday::Weekday;
use vstd::prelude::*;

verus! {

/// A date of the proleptic Gregorian calendar without a time zone, from
/// 1 January of `MIN_YEAR` to 31 December of `MAX_YEAR`.
#[derive(Clone, Copy, Debug, PartialEq, Eq, Structural, PartialOrd, Ord, Hash)]
pub struct NaiveDate {
    pub year: i32,
    pub month: u32,
    pub day: u32,
}

impl Instant for NaiveDate {
    open spec fn wf(&self) -> bool {
        valid_ymd(self.year as int, self.month as int, self.day as int)
    }

    open spec fn moment(&self) -> NaiveDateTime {
        NaiveDateTime { date: *self, time: NaiveTime::spec_midnight() }
    }

    open spec fn at(date: NaiveDate, time: NaiveTime) -> NaiveDate {
        date
    }
}

impl NaiveDate {
    /// The number of the day: 1 for 1 January of year 1.
    pub open spec fn day_number(&self) -> int {
        day_number(self.year as int, self.month as int, self.day as int)
    }

    /// The date with day number `n`, for `n` from `min_day_number()` to
    /// `max_day_number()`.
    pub open spec fn spec_from_day_number(n: int) -> NaiveDate {
        choose|d: NaiveDate| d.wf() && d.day_number() == n
    }

    /// Whether the day `k` days after this one (before, for negative `k`) is
    /// a date.
    pub open spec fn can_shift(&self, k: int) -> bool {
        min_day_number() <= self.day_number() + k <= max_day_number()
    }

    /// The date `k` days after this one (before, for negative `k`).
    pub open spec fn shift(&self, k: int) -> NaiveDate {
        NaiveDate::spec_from_day_number(self.day_number() + k)
    }

    /// The day of the week.
    pub open spec fn spec_weekday(&self) -> Weekday {
        Weekday::spec_from_index(weekday_index(self.day_number()))
    }

    /// The day of the year: 1 for 1 January.
    pub open spec fn spec_ordinal(&self) -> int {
        crate::calendar::day_of_year(self.year as int, self.month as int, self.day as int)
    }

    /// The order of the calendar: year, then month, then day.
    pub open spec fn spec_lt(&self, other: NaiveDate) -> bool {
        ymd_lt(
            self.year as int,
            self.month as int,
            self.day as int,
            other.year as int,
            other.month as int,
            other.day as int,
        )
    }

    /// `spec_lt`, or equal.
    pub open spec fn spec_le(&self, other: NaiveDate) -> bool {
        self.spec_lt(other) || *self == other
    }

    /// The date `k` months after this one (before, for negative `k`): the
    /// same day of the month, or the last day of that month where it is
    /// shorter. `None` when the year leaves `MIN_YEAR..=MAX_YEAR`.
    pub open spec fn spec_add_months(&self, k: int) -> Option<NaiveDate> {
        let total = self.year * 12 + (self.month - 1) + k;
        let year = total / 12;
        let month = total % 12 + 1;
        let last = spec_days_in_month(month, year);
        let day = if self.day <= last {
            self.day as int
        } else {
            last
        };
        if MIN_YEAR <= year <= MAX_YEAR {
            Some(NaiveDate::spec_ymd(year, month, day))
        } else {
            None
        }
    }

    /// Whole years from `base` up to this date, or `None` when `base` is more
    /// than this date's month and day ahead of it.
    pub open spec fn spec_years_since(&self, base: NaiveDate) -> Option<u32> {
        let early: int = if self.month < base.month || (self.month == base.month && self.day
            < base.day) {
            1
        } else {
            0
        };
        let years = self.year - base.year - early;
        if years >= 0 {
            Some(years as u32)
        } else {
            None
        }
    }

    /// This date at `time`, where there is one.
    pub open spec fn spec_at(&self, time: Option<NaiveTime>) -> Option<NaiveDateTime> {
        match time {
            Some(time) => Some(NaiveDateTime { date: *self, time }),
            None => None,
        }
    }

    /// The date with the given fields.
    pub open spec fn spec_ymd(year: int, month: int, day: int) -> NaiveDate {
        NaiveDate { year: year as i32, month: month as u32, day: day as u32 }
    }

    /// The order of the calendar is the order of the day numbers, and the day
    /// number of a date lies within the bounds.
    pub proof fn lemma_order(a: NaiveDate, b: NaiveDate)
        requires
            a.wf(),
            b.wf(),
        ensures
            a.spec_lt(b) <==> a.day_number() < b.day_number(),
            a.spec_le(b) <==> a.day_number() <= b.day_number(),
            a == b <==> a.day_number() == b.day_number(),
            min_day_number() <= a.day_number() <= max_day_number(),
            min_day_number() <= b.day_number() <= max_day_number(),
    {
        lemma_valid_day_number_bounds(a.year as int, a.month as int, a.day as int);
        lemma_valid_day_number_bounds(b.year as int, b.month as int, b.day as int);
        if a.spec_lt(b) {
            lemma_day_number_increasing(
                a.year as int,
                a.month as int,
                a.day as int,
                b.year as int,
                b.month as int,
                b.day as int,
            );
        } else if b.spec_lt(a) {
            lemma_day_number_increasing(
                b.year as int,
                b.month as int,
                b.day as int,
                a.year as int,
                a.month as int,
                a.day as int,
            );
        }
    }

    /// Every number within the bounds is the day number of one date.
    pub proof fn lemma_from_day_number(n: int)
        requires
            min_day_number() <= n <= max_day_number(),
        ensures
            NaiveDate::spec_from_day_number(n).wf(),
            NaiveDate::spec_from_day_number(n).day_number() == n,
    {
        let (y, m, d) = lemma_day_number_onto(n);
        let witness = NaiveDate::spec_ymd(y, m, d);
        assert(witness.wf() && witness.day_number() == n);
    }

    /// A date is the date of its day number.
    pub proof fn lemma_day_number_names(d: NaiveDate)
        requires
            d.wf(),
        ensures
            NaiveDate::spec_from_day_number(d.day_number()) == d,
            d.can_shift(0),
            d.shift(0) == d,
    {
        let e = NaiveDate::spec_from_day_number(d.day_number());
        assert(e.wf() && e.day_number() == d.day_number());
        NaiveDate::lemma_order(d, e);
    }

    /// A shift that stays within the bounds gives a date whose day number is
    /// the sum.
    pub proof fn lemma_shift(d: NaiveDate, k: int)
        requires
            d.can_shift(k),
        ensures
            d.shift(k).wf(),
            d.shift(k).day_number() == d.day_number() + k,
    {
        NaiveDate::lemma_from_day_number(d.day_number() + k);
    }

    /// A date whose day number is `k` more than that of `d` is `d.shift(k)`.
    pub proof fn lemma_shift_is(d: NaiveDate, k: int, r: NaiveDate)
        requires
            r.wf(),
            r.day_number() == d.day_number() + k,
        ensures
            r == d.shift(k),
            d.can_shift(k),
    {
        NaiveDate::lemma_day_number_names(r);
        NaiveDate::lemma_order(r, r);
    }

    /// The date `year-month-day`, or `None` when there is no such day in the
    /// calendar or the year is outside `MIN_YEAR..=MAX_YEAR`.
    pub fn from_ymd_opt(year: i32, month: u32, day: u32) -> (r: Option<NaiveDate>)
        ensures
            r == if valid_ymd(year as int, month as int, day as int) {
                Some(NaiveDate { year, month, day })
            } else {
                None
            },
            r.is_some() ==> r.unwrap().wf(),
    {
        if year < MIN_YEAR || year > MAX_YEAR || month < 1 || month > 12 || day < 1 {
            return None;
        }
        if day > days_in_month(month, year) {
            return None;
        }
        Some(NaiveDate { year, month, day })
    }

    /// The year.
    pub fn year(&self) -> (r: i32)
        ensures
            r == self.year,
    {
        self.year
    }

    /// The month, 1 to 12.
    pub fn month(&self) -> (r: u32)
        ensures
            r == self.month,
    {
        self.month
    }

    /// The month counted from 0: 0 to 11.
    pub fn month0(&self) -> (r: u32)
        requires
            self.wf(),
        ensures
            r == self.month - 1,
    {
        self.month - 1
    }

    /// The day of the month, 1 to 31.
    pub fn day(&self) -> (r: u32)
        ensures
            r == self.day,
    {
        self.day
    }

    /// Whether the year of this date is a leap year.
    pub fn leap_year(&self) -> (r: bool)
        ensures
            r == crate::utils::spec_is_leap_year(self.year as int),
    {
        is_leap_year(self.year)
    }

    /// This date with its year replaced, or `None` when that is no date.
    pub fn with_year(&self, year: i32) -> (r: Option<NaiveDate>)
        requires
            self.wf(),
        ensures
            r == if valid_ymd(year as int, self.month as int, self.day as int) {
                Some(NaiveDate { year, month: self.month, day: self.day })
            } else {
                None
            },
    {
        NaiveDate::from_ymd_opt(year, self.month, self.day)
    }

    /// This date with its month replaced, or `None` when that is no date.
    pub fn with_month(&self, month: u32) -> (r: Option<NaiveDate>)
        requires
            self.wf(),
        ensures
            r == if valid_ymd(self.year as int, month as int, self.day as int) {
                Some(NaiveDate { year: self.year, month, day: self.day })
            } else {
                None
            },
    {
        NaiveDate::from_ymd_opt(self.year, month, self.day)
    }

    /// This date with its day of the month replaced, or `None` when that is
    /// no date.
    pub fn with_day(&self, day: u32) -> (r: Option<NaiveDate>)
        requires
            self.wf(),
        ensures
            r == if valid_ymd(self.year as int, self.month as int, day as int) {
                Some(NaiveDate { year: self.year, month: self.month, day })
            } else {
                None
            },
    {
        NaiveDate::from_ymd_opt(self.year, self.month, day)
    }

    /// This date at the time of day `time`.
    pub fn and_time(&self, time: NaiveTime) -> (r: NaiveDateTime)
        ensures
            r == (NaiveDateTime { date: *self, time }),
    {
        NaiveDateTime { date: *self, time }
    }

    /// This date at `hour:min:sec`, or `None` when that is no time of day.
    pub fn and_hms_opt(&self, hour: u32, min: u32, sec: u32) -> (r: Option<NaiveDateTime>)
        ensures
            r == self.spec_at(NaiveTime::spec_from_hms_nano_opt(hour, min, sec, 0)),
    {
        match NaiveTime::from_hms_opt(hour, min, sec) {
            Some(time) => Some(NaiveDateTime { date: *self, time }),
            None => None,
        }
    }

    /// This date at `hour:min:sec` and `milli` milliseconds, or `None` when
    /// that is no time of day.
    pub fn and_hms_milli_opt(&self, hour: u32, min: u32, sec: u32, milli: u32) -> (r: Option<
        NaiveDateTime,
    >)
        ensures
            r == self.spec_at(NaiveTime::spec_from_hms_sub_opt(hour, min, sec, milli, 1_000_000)),
    {
        match NaiveTime::from_hms_milli_opt(hour, min, sec, milli) {
            Some(time) => Some(NaiveDateTime { date: *self, time }),
            None => None,
        }
    }

    /// This date at `hour:min:sec` and `micro` microseconds, or `None` when
    /// that is no time of day.
    pub fn and_hms_micro_opt(&self, hour: u32, min: u32, sec: u32, micro: u32) -> (r: Option<
        NaiveDateTime,
    >)
        ensures
            r == self.spec_at(NaiveTime::spec_from_hms_sub_opt(hour, min, sec, micro, 1000)),
    {
        match NaiveTime::from_hms_micro_opt(hour, min, sec, micro) {
            Some(time) => Some(NaiveDateTime { date: *self, time }),
            None => None,
        }
    }

    /// This date at `hour:min:sec` and `nano` nanoseconds, or `None` when
    /// that is no time of day.
    pub fn and_hms_nano_opt(&self, hour: u32, min: u32, sec: u32, nano: u32) -> (r: Option<
        NaiveDateTime,
    >)
        ensures
            r == self.spec_at(NaiveTime::spec_from_hms_nano_opt(hour, min, sec, nano)),
    {
        match NaiveTime::from_hms_nano_opt(hour, min, sec, nano) {
            Some(time) => Some(NaiveDateTime { date: *self, time }),
            None => None,
        }
    }

    /// The day of the week.
    pub fn weekday(&self) -> (r: Weekday)
        requires
            self.wf(),
        ensures
            r == self.spec_weekday(),
    {
        Weekday::from_index(crate::primitive::weekday_index_of(self))
    }

    /// Whether this date is earlier than `other`.
    pub fn precedes(&self, other: &NaiveDate) -> (r: bool)
        ensures
            r == self.spec_lt(*other),
    {
        if self.year != other.year {
            self.year < other.year
        } else if self.month != other.month {
            self.month < other.month
        } else {
            self.day < other.day
        }
    }

    /// The number of the day, counted from 1 January of year 1 as day 1.
    pub fn num_days_from_ce(&self) -> (r: i32)
        requires
            self.wf(),
        ensures
            r == self.day_number(),
    {
        proof {
            reveal(day_number);
        }
        // 400_000 is a multiple of 4, 100 and 400 that makes the dividend
        // positive, so that the divisions round down.
        let p: i64 = self.year as i64 - 1;
        let q: i64 = p + 400_000;
        let before_year: i64 = 365 * p + (q / 4 - 100_000) - (q / 100 - 4_000) + (q / 400 - 1_000);
        let m: u32 = self.month;
        let table: i64 = if m == 1 {
            0
        } else if m == 2 {
            31
        } else if m == 3 {
            59
        } else if m == 4 {
            90
        } else if m == 5 {
            120
        } else if m == 6 {
            151
        } else if m == 7 {
            181
        } else if m == 8 {
            212
        } else if m == 9 {
            243
        } else if m == 10 {
            273
        } else if m == 11 {
            304
        } else {
            334
        };
        let leap: i64 = if m > 2 && is_leap_year(self.year) {
            1
        } else {
            0
        };
        (before_year + table + leap + self.day as i64) as i32
    }
}

} // verus!
