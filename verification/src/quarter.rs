//! Quarters: the quarter of a date, its bounds, quarter arithmetic and
//! differences in quarters.

use crate::instant::Instant;
use crate::month::MonthHelper;
use crate::naive_date::NaiveDate;
use crate::naive_datetime::NaiveDateTime;
use crate::naive_time::NaiveTime;
use crate::utils::{spec_days_in_month, truncated_quotient};
use vstd::prelude::*;

verus! {

/// A quarter of the year: three months each, the first from January.
#[derive(Debug, Clone, Copy, PartialEq, Eq, Structural, Hash)]
pub enum Quarter {
    Q1,
    Q2,
    Q3,
    Q4,
}

impl Quarter {
    /// The quarter that holds `month`, for a month from 1 to 12.
    pub open spec fn spec_of_month(month: int) -> Quarter {
        if month <= 3 {
            Quarter::Q1
        } else if month <= 6 {
            Quarter::Q2
        } else if month <= 9 {
            Quarter::Q3
        } else {
            Quarter::Q4
        }
    }

    /// The first month of the quarter: 1, 4, 7 or 10.
    pub open spec fn spec_first_month(self) -> int {
        match self {
            Quarter::Q1 => 1,
            Quarter::Q2 => 4,
            Quarter::Q3 => 7,
            Quarter::Q4 => 10,
        }
    }
}

impl NaiveDate {
    /// The quarter of this date.
    pub open spec fn spec_quarter(&self) -> Quarter {
        Quarter::spec_of_month(self.month as int)
    }

    /// The first day of the quarter of this date.
    pub open spec fn spec_begin_of_quarter(&self) -> NaiveDate {
        NaiveDate::spec_ymd(self.year as int, self.spec_quarter().spec_first_month(), 1)
    }

    /// The last day of the quarter of this date: the last day of the
    /// quarter's third month.
    pub open spec fn spec_end_of_quarter(&self) -> NaiveDate {
        let month = self.spec_quarter().spec_first_month() + 2;
        NaiveDate::spec_ymd(self.year as int, month, spec_days_in_month(month, self.year as int))
    }

    /// The number of the quarter when quarters are counted through the years.
    pub open spec fn spec_quarter_index(&self) -> int {
        self.year * 4 + (self.month - 1) / 3
    }
}

/// Operations on the quarter of an instant.
pub trait QuarterHelper: Instant {
    /// The first moment of the quarter: midnight of the first day of its
    /// first month.
    fn begin_of_quarter(&self) -> (r: Self)
        requires
            self.wf(),
        ensures
            r.wf(),
            r == Self::at(self.moment().date.spec_begin_of_quarter(), NaiveTime::spec_midnight()),
            r.moment().spec_le(self.moment()),
    ;

    /// The last moment of the quarter: the last time of day of the last day
    /// of its third month.
    fn end_of_quarter(&self) -> (r: Self)
        requires
            self.wf(),
        ensures
            r.wf(),
            r == Self::at(self.moment().date.spec_end_of_quarter(), NaiveTime::spec_last()),
            self.moment().spec_le(r.moment()),
    ;

    /// Whether the two instants fall in the same quarter of the year,
    /// whatever their years.
    fn is_same_quarter(&self, other: &Self) -> (r: bool)
        requires
            self.wf(),
            other.wf(),
        ensures
            r == (self.moment().date.spec_quarter() == other.moment().date.spec_quarter()),
    ;

    /// The quarter of the instant: Q1 for January to March, up to Q4 for
    /// October to December.
    fn quarter(&self) -> (r: Quarter)
        requires
            self.wf(),
        ensures
            r == self.moment().date.spec_quarter(),
    ;

    /// The instant `quarters` quarters later: three months each, as
    /// `MonthHelper::add_months` moves them. The year reached must be in
    /// range.
    fn add_quarters(&self, quarters: i32) -> (r: Self)
        requires
            self.wf(),
            self.moment().date.spec_add_months(3 * quarters).is_some(),
        ensures
            r.wf(),
            r == Self::at(
                self.moment().date.spec_add_months(3 * quarters).unwrap(),
                self.moment().time,
            ),
    ;

    /// As `add_quarters`, or `None` when the year reached is out of range.
    fn add_quarters_opt(&self, quarters: i32) -> (r: Option<Self>)
        requires
            self.wf(),
        ensures
            r == match self.moment().date.spec_add_months(3 * quarters) {
                Some(date) => Some(Self::at(date, self.moment().time)),
                None => None,
            },
            r.is_some() ==> r.unwrap().wf(),
    ;

    /// The instant `quarters` quarters earlier: see `add_quarters`.
    fn sub_quarters(&self, quarters: i32) -> (r: Self)
        requires
            self.wf(),
            self.moment().date.spec_add_months(-3 * quarters).is_some(),
        ensures
            r.wf(),
            r == Self::at(
                self.moment().date.spec_add_months(-3 * quarters).unwrap(),
                self.moment().time,
            ),
    ;

    /// As `sub_quarters`, or `None` when the year reached is out of range.
    fn sub_quarters_opt(&self, quarters: i32) -> (r: Option<Self>)
        requires
            self.wf(),
        ensures
            r == match self.moment().date.spec_add_months(-3 * quarters) {
                Some(date) => Some(Self::at(date, self.moment().time)),
                None => None,
            },
            r.is_some() ==> r.unwrap().wf(),
    ;

    /// Quarters from the quarter of `other` to the quarter of this instant,
    /// four to each year between them. Negative when `other` is in the later
    /// quarter.
    fn diff_calendar_quarters(&self, other: &Self) -> (r: i64)
        requires
            self.wf(),
            other.wf(),
        ensures
            r == self.moment().date.spec_quarter_index() - other.moment().date.spec_quarter_index(),
    ;

    /// Whole quarters from `other` to this instant: the whole months between
    /// them divided by three, rounded toward zero.
    fn diff_quarters(&self, other: &Self) -> (r: i64)
        requires
            self.wf(),
            other.wf(),
        ensures
            r == truncated_quotient(self.moment().spec_diff_months(other.moment()), 3),
    ;
}

impl QuarterHelper for NaiveDate {
    fn begin_of_quarter(&self) -> (r: Self) {
        let month: u32 = match self.quarter() {
            Quarter::Q1 => 1,
            Quarter::Q2 => 4,
            Quarter::Q3 => 7,
            Quarter::Q4 => 10,
        };
        NaiveDate { year: self.year, month, day: 1 }
    }

    fn end_of_quarter(&self) -> (r: Self) {
        let month: u32 = match self.quarter() {
            Quarter::Q1 => 3,
            Quarter::Q2 => 6,
            Quarter::Q3 => 9,
            Quarter::Q4 => 12,
        };
        NaiveDate { year: self.year, month, day: 1 }.end_of_month()
    }

    fn is_same_quarter(&self, other: &Self) -> (r: bool) {
        self.quarter() == other.quarter()
    }

    fn quarter(&self) -> (r: Quarter) {
        let month: u32 = self.month;
        if month <= 3 {
            Quarter::Q1
        } else if month <= 6 {
            Quarter::Q2
        } else if month <= 9 {
            Quarter::Q3
        } else {
            Quarter::Q4
        }
    }

    fn add_quarters(&self, quarters: i32) -> (r: Self) {
        self.add_months(quarters as i64 * 3)
    }

    fn add_quarters_opt(&self, quarters: i32) -> (r: Option<Self>) {
        self.add_months_opt(quarters as i64 * 3)
    }

    fn sub_quarters(&self, quarters: i32) -> (r: Self) {
        self.sub_months(quarters as i64 * 3)
    }

    fn sub_quarters_opt(&self, quarters: i32) -> (r: Option<Self>) {
        self.sub_months_opt(quarters as i64 * 3)
    }

    fn diff_calendar_quarters(&self, other: &Self) -> (r: i64) {
        let start = self.begin_of_quarter();
        let other = other.begin_of_quarter();
        start.diff_calendar_months(&other) / 3
    }

    fn diff_quarters(&self, other: &Self) -> (r: i64) {
        self.diff_months(other) / 3
    }
}

impl QuarterHelper for NaiveDateTime {
    fn begin_of_quarter(&self) -> (r: Self) {
        NaiveDateTime { date: self.date.begin_of_quarter(), time: NaiveTime::midnight() }
    }

    fn end_of_quarter(&self) -> (r: Self) {
        NaiveDateTime { date: self.date.end_of_quarter(), time: NaiveTime::last() }
    }

    fn is_same_quarter(&self, other: &Self) -> (r: bool) {
        self.date.is_same_quarter(&other.date)
    }

    fn quarter(&self) -> (r: Quarter) {
        self.date.quarter()
    }

    fn add_quarters(&self, quarters: i32) -> (r: Self) {
        self.add_months(quarters as i64 * 3)
    }

    fn add_quarters_opt(&self, quarters: i32) -> (r: Option<Self>) {
        self.add_months_opt(quarters as i64 * 3)
    }

    fn sub_quarters(&self, quarters: i32) -> (r: Self) {
        self.sub_months(quarters as i64 * 3)
    }

    fn sub_quarters_opt(&self, quarters: i32) -> (r: Option<Self>) {
        self.sub_months_opt(quarters as i64 * 3)
    }

    fn diff_calendar_quarters(&self, other: &Self) -> (r: i64) {
        self.date.diff_calendar_quarters(&other.date)
    }

    fn diff_quarters(&self, other: &Self) -> (r: i64) {
        self.diff_months(other) / 3
    }
}

} // verus!
