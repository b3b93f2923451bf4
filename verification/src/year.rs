//! Years: the bounds of a year, year arithmetic and differences in years.

use crate::calendar::valid_ymd;
use crate::common::CommonHelper;
use crate::instant::Instant;
use crate::naive_date::NaiveDate;
use crate::naive_datetime::NaiveDateTime;
use crate::naive_time::NaiveTime;
use crate::primitive;
use crate::utils::{is_leap_year, spec_is_leap_year};
use vstd::prelude::*;

verus! {

impl NaiveDate {
    /// The first day of the year of this date.
    pub open spec fn spec_begin_of_year(&self) -> NaiveDate {
        NaiveDate { year: self.year, month: 1, day: 1 }
    }

    /// The last day of the year of this date.
    pub open spec fn spec_end_of_year(&self) -> NaiveDate {
        NaiveDate { year: self.year, month: 12, day: 31 }
    }

    /// This date `k` years later (earlier, for negative `k`), or `None` when
    /// that is no date: 29 February in a year that is no leap year, or a
    /// year out of range.
    pub open spec fn spec_add_years(&self, k: int) -> Option<NaiveDate> {
        if valid_ymd(self.year + k, self.month as int, self.day as int) {
            Some(NaiveDate::spec_ymd(self.year + k, self.month as int, self.day as int))
        } else {
            None
        }
    }

    /// Whole years from `base` up to this date, or `None` when `base` is more
    /// than this date's month and day ahead of it.
    pub fn years_since(&self, base: NaiveDate) -> (r: Option<u32>)
        requires
            self.wf(),
            base.wf(),
        ensures
            r == self.spec_years_since(base),
    {
        primitive::years_since(self, &base)
    }
}

impl NaiveDateTime {
    /// Whether the month, day and time of day of this date-time come before
    /// those of `other`, the years left aside.
    pub open spec fn spec_earlier_in_year(&self, other: NaiveDateTime) -> bool {
        self.date.month < other.date.month || (self.date.month == other.date.month && (
        self.date.day < other.date.day || (self.date.day == other.date.day && self.time.spec_lt(
            other.time,
        ))))
    }

    /// Whole years from `earlier` up to this date-time, which is not before
    /// it: the difference of the years, less one where the month, day and
    /// time of this date-time come before those of `earlier`.
    pub open spec fn spec_elapsed_years(&self, earlier: NaiveDateTime) -> int {
        let years = self.date.year - earlier.date.year;
        if self.spec_earlier_in_year(earlier) {
            years - 1
        } else {
            years
        }
    }

    /// Whole years from `other` to this date-time, rounded toward zero.
    /// Negative when `other` is later.
    pub open spec fn spec_diff_years(&self, other: NaiveDateTime) -> int {
        if other.spec_le(*self) {
            self.spec_elapsed_years(other)
        } else {
            -other.spec_elapsed_years(*self)
        }
    }

    /// Whether the month, day and time of this date-time come before those of
    /// `other`.
    fn earlier_in_year(&self, other: &NaiveDateTime) -> (r: bool)
        ensures
            r == self.spec_earlier_in_year(*other),
    {
        if self.date.month != other.date.month {
            self.date.month < other.date.month
        } else if self.date.day != other.date.day {
            self.date.day < other.date.day
        } else {
            self.time.precedes(&other.time)
        }
    }
}

/// Operations on the year of an instant.
pub trait YearHelper: Instant {
    /// The first moment of the year: midnight of 1 January.
    fn begin_of_year(&self) -> (r: Self)
        requires
            self.wf(),
        ensures
            r.wf(),
            r == Self::at(self.moment().date.spec_begin_of_year(), NaiveTime::spec_midnight()),
            r.moment().spec_le(self.moment()),
    ;

    /// The last moment of the year: the last time of day of 31 December.
    fn end_of_year(&self) -> (r: Self)
        requires
            self.wf(),
        ensures
            r.wf(),
            r == Self::at(self.moment().date.spec_end_of_year(), NaiveTime::spec_last()),
            self.moment().spec_le(r.moment()),
    ;

    /// Whether the two instants fall in one year.
    fn is_same_year(&self, other: &Self) -> (r: bool)
        ensures
            r == (self.moment().date.year == other.moment().date.year),
    ;

    /// Whether the year of the instant is a leap year.
    fn is_leap_year(&self) -> (r: bool)
        ensures
            r == spec_is_leap_year(self.moment().date.year as int),
    ;

    /// The instant `n` years later (earlier, for a negative number), on the
    /// same month and day at the same time of day. That day must be a date.
    fn add_years(&self, n: i32) -> (r: Self)
        requires
            self.wf(),
            self.moment().date.spec_add_years(n as int).is_some(),
        ensures
            r.wf(),
            r == Self::at(self.moment().date.spec_add_years(n as int).unwrap(), self.moment().time),
    ;

    /// As `add_years`, or `None` when the day reached is no date.
    fn add_years_opt(&self, n: i32) -> (r: Option<Self>)
        requires
            self.wf(),
        ensures
            r == match self.moment().date.spec_add_years(n as int) {
                Some(date) => Some(Self::at(date, self.moment().time)),
                None => None,
            },
            r.is_some() ==> r.unwrap().wf(),
    ;

    /// Years from the year of `other` to the year of this instant. Negative
    /// when `other` is in the later year.
    fn diff_calendar_years(&self, other: &Self) -> (r: i64)
        ensures
            r == self.moment().date.year - other.moment().date.year,
    ;

    /// Whole years from `other` to this instant, rounded toward zero: the
    /// difference of the years, one less in size where the later of the two
    /// has not yet reached the month, day and time of the earlier. Negative
    /// when `other` is later.
    fn diff_years(&self, other: &Self) -> (r: i64)
        requires
            self.wf(),
            other.wf(),
        ensures
            r == self.moment().spec_diff_years(other.moment()),
    ;

    /// The last day of the year of this instant; from a date-time, its
    /// midnight.
    fn last_day_of_year(&self) -> (r: Self)
        requires
            self.wf(),
        ensures
            r.wf(),
            r == Self::at(self.moment().date.spec_end_of_year(), NaiveTime::spec_midnight()),
    ;

    /// The instant `n` years earlier (later, for a negative number): see
    /// `add_years`.
    fn sub_years(&self, n: i32) -> (r: Self)
        requires
            self.wf(),
            self.moment().date.spec_add_years(-(n as int)).is_some(),
        ensures
            r.wf(),
            r == Self::at(
                self.moment().date.spec_add_years(-(n as int)).unwrap(),
                self.moment().time,
            ),
    ;

    /// As `sub_years`, or `None` when the day reached is no date.
    fn sub_years_opt(&self, n: i32) -> (r: Option<Self>)
        requires
            self.wf(),
        ensures
            r == match self.moment().date.spec_add_years(-(n as int)) {
                Some(date) => Some(Self::at(date, self.moment().time)),
                None => None,
            },
            r.is_some() ==> r.unwrap().wf(),
    ;
}

impl NaiveDate {
    /// This date with its year moved by `k`.
    fn shift_years(&self, k: i64) -> (r: Option<NaiveDate>)
        requires
            self.wf(),
            -0x8000_0000 <= k <= 0x8000_0000,
        ensures
            r == self.spec_add_years(k as int),
            r.is_some() ==> r.unwrap().wf(),
    {
        let year: i64 = self.year as i64 + k;
        if year < -0x8000_0000 || year > 0x7fff_ffff {
            None
        } else {
            self.with_year(year as i32)
        }
    }
}

impl YearHelper for NaiveDate {
    fn begin_of_year(&self) -> (r: Self) {
        NaiveDate { year: self.year, month: 1, day: 1 }
    }

    fn end_of_year(&self) -> (r: Self) {
        NaiveDate { year: self.year, month: 12, day: 31 }
    }

    fn is_same_year(&self, other: &Self) -> (r: bool) {
        self.year == other.year
    }

    fn is_leap_year(&self) -> (r: bool) {
        is_leap_year(self.year)
    }

    fn add_years(&self, n: i32) -> (r: Self) {
        self.add_years_opt(n).unwrap()
    }

    fn add_years_opt(&self, n: i32) -> (r: Option<Self>) {
        self.shift_years(n as i64)
    }

    fn diff_calendar_years(&self, other: &Self) -> (r: i64) {
        self.year as i64 - other.year as i64
    }

    fn diff_years(&self, other: &Self) -> (r: i64) {
        match primitive::years_since(self, other) {
            Some(n) => n as i64,
            None => match primitive::years_since(other, self) {
                Some(n) => -(n as i64),
                None => 0,
            },
        }
    }

    fn last_day_of_year(&self) -> (r: Self) {
        self.end_of_year()
    }

    fn sub_years(&self, n: i32) -> (r: Self) {
        self.sub_years_opt(n).unwrap()
    }

    fn sub_years_opt(&self, n: i32) -> (r: Option<Self>) {
        self.shift_years(-(n as i64))
    }
}

impl YearHelper for NaiveDateTime {
    fn begin_of_year(&self) -> (r: Self) {
        NaiveDateTime { date: self.date.begin_of_year(), time: NaiveTime::midnight() }
    }

    fn end_of_year(&self) -> (r: Self) {
        NaiveDateTime { date: self.date.end_of_year(), time: NaiveTime::last() }
    }

    fn is_same_year(&self, other: &Self) -> (r: bool) {
        self.date.year == other.date.year
    }

    fn is_leap_year(&self) -> (r: bool) {
        is_leap_year(self.date.year)
    }

    fn add_years(&self, n: i32) -> (r: Self) {
        NaiveDateTime { date: self.date.add_years(n), time: self.time }
    }

    fn add_years_opt(&self, n: i32) -> (r: Option<Self>) {
        match self.date.add_years_opt(n) {
            Some(date) => Some(NaiveDateTime { date, time: self.time }),
            None => None,
        }
    }

    fn diff_calendar_years(&self, other: &Self) -> (r: i64) {
        self.date.year as i64 - other.date.year as i64
    }

    fn diff_years(&self, other: &Self) -> (r: i64) {
        let years: i64 = self.date.year as i64 - other.date.year as i64;
        if self.before(other) {
            if other.earlier_in_year(self) {
                years + 1
            } else {
                years
            }
        } else if self.earlier_in_year(other) {
            years - 1
        } else {
            years
        }
    }

    fn last_day_of_year(&self) -> (r: Self) {
        NaiveDateTime { date: self.date.end_of_year(), time: NaiveTime::midnight() }
    }

    fn sub_years(&self, n: i32) -> (r: Self) {
        NaiveDateTime { date: self.date.sub_years(n), time: self.time }
    }

    fn sub_years_opt(&self, n: i32) -> (r: Option<Self>) {
        match self.date.sub_years_opt(n) {
            Some(date) => Some(NaiveDateTime { date, time: self.time }),
            None => None,
        }
    }
}

} // verus!
