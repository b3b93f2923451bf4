//! Decades: the ten years from a multiple of ten.

use crate::calendar::{MAX_YEAR, MIN_YEAR};
use crate::instant::Instant;
use crate::naive_date::NaiveDate;
use crate::naive_datetime::NaiveDateTime;
use crate::naive_time::NaiveTime;
use vstd::prelude::*;

verus! {

/// The first year of the decade of `year`: `year` rounded down to a multiple
/// of ten.
pub open spec fn spec_decade_start(year: int) -> int {
    (year / 10) * 10
}

/// The first year of the decade of `year`: 2020 for 2023.
pub fn get_decade_start(year: i32) -> (r: i32)
    requires
        -2_147_483_640 <= year,
    ensures
        r == spec_decade_start(year as int),
        r <= year <= r + 9,
        r % 10 == 0,
{
    let tens: i32 = year / 10 * 10;
    if tens > year {
        tens - 10
    } else {
        tens
    }
}

/// The last year of the decade of `year`: 2029 for 2023.
pub fn get_decade_end(year: i32) -> (r: i32)
    requires
        -2_147_483_640 <= year <= 2_147_483_639,
    ensures
        r == spec_decade_start(year as int) + 9,
{
    get_decade_start(year) + 9
}

impl NaiveDate {
    /// The first day of the decade of this date.
    pub open spec fn spec_begin_of_decade(&self) -> NaiveDate {
        NaiveDate::spec_ymd(spec_decade_start(self.year as int), 1, 1)
    }

    /// The last day of the decade of this date.
    pub open spec fn spec_end_of_decade(&self) -> NaiveDate {
        NaiveDate::spec_ymd(spec_decade_start(self.year as int) + 9, 12, 31)
    }
}

/// A decade spans exactly ten calendar years and holds the year it is the
/// decade of.
pub proof fn lemma_decade_is_ten_years(a: NaiveDate)
    requires
        a.wf(),
    ensures
        a.spec_end_of_decade().year - a.spec_begin_of_decade().year == 9,
        spec_decade_start(a.year as int) <= a.year <= spec_decade_start(a.year as int) + 9,
        spec_decade_start(a.year as int) % 10 == 0,
{
}

/// Operations on the decade of an instant.
pub trait DecadeHelper: Instant {
    /// The first moment of the decade: midnight of 1 January of its first
    /// year, which must be a year of the calendar.
    fn begin_of_decade(&self) -> (r: Self)
        requires
            self.wf(),
            MIN_YEAR <= spec_decade_start(self.moment().date.year as int),
        ensures
            r.wf(),
            r == Self::at(self.moment().date.spec_begin_of_decade(), NaiveTime::spec_midnight()),
            r.moment().spec_le(self.moment()),
    ;

    /// The last moment of the decade: the last time of day of 31 December of
    /// its tenth year, which must be a year of the calendar.
    fn end_of_decade(&self) -> (r: Self)
        requires
            self.wf(),
            spec_decade_start(self.moment().date.year as int) + 9 <= MAX_YEAR,
        ensures
            r.wf(),
            r == Self::at(self.moment().date.spec_end_of_decade(), NaiveTime::spec_last()),
            self.moment().spec_le(r.moment()),
    ;

    /// The last day of the decade; from a date-time, its midnight.
    fn last_day_of_decade(&self) -> (r: Self)
        requires
            self.wf(),
            spec_decade_start(self.moment().date.year as int) + 9 <= MAX_YEAR,
        ensures
            r.wf(),
            r == Self::at(self.moment().date.spec_end_of_decade(), NaiveTime::spec_midnight()),
    ;

    /// The label of the decade: its first year.
    fn decade(&self) -> (r: i32)
        requires
            self.wf(),
        ensures
            r == spec_decade_start(self.moment().date.year as int),
    ;
}

impl DecadeHelper for NaiveDate {
    fn begin_of_decade(&self) -> (r: Self) {
        NaiveDate { year: get_decade_start(self.year), month: 1, day: 1 }
    }

    fn end_of_decade(&self) -> (r: Self) {
        NaiveDate { year: get_decade_end(self.year), month: 12, day: 31 }
    }

    fn last_day_of_decade(&self) -> (r: Self) {
        self.end_of_decade()
    }

    fn decade(&self) -> (r: i32) {
        get_decade_start(self.year)
    }
}

impl DecadeHelper for NaiveDateTime {
    fn begin_of_decade(&self) -> (r: Self) {
        NaiveDateTime { date: self.date.begin_of_decade(), time: NaiveTime::midnight() }
    }

    fn end_of_decade(&self) -> (r: Self) {
        NaiveDateTime { date: self.date.end_of_decade(), time: NaiveTime::last() }
    }

    fn last_day_of_decade(&self) -> (r: Self) {
        NaiveDateTime { date: self.date.end_of_decade(), time: NaiveTime::midnight() }
    }

    fn decade(&self) -> (r: i32) {
        get_decade_start(self.date.year)
    }
}

} // verus!
