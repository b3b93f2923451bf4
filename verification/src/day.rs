//! Days: the bounds of a day, day arithmetic and differences in days.

use crate::instant::Instant;
use crate::naive_date::NaiveDate;
use crate::naive_datetime::NaiveDateTime;
use crate::naive_time::{NaiveTime, NANOS_PER_DAY};
use crate::primitive;
use crate::utils::truncated_quotient;
use vstd::prelude::*;

verus! {

/// Operations on the day of an instant.
pub trait DayHelper: Instant {
    /// The instant `n` days later, at the same time of day. The day must be
    /// a date.
    fn add_days(&self, n: u64) -> (r: Self)
        requires
            self.wf(),
            self.moment().date.can_shift(n as int),
        ensures
            r.wf(),
            r == Self::at(self.moment().date.shift(n as int), self.moment().time),
    ;

    /// The instant `n` days later, at the same time of day, or `None` when
    /// that day is past the last date.
    fn add_days_opt(&self, n: u64) -> (r: Option<Self>)
        requires
            self.wf(),
        ensures
            r == if self.moment().date.can_shift(n as int) {
                Some(Self::at(self.moment().date.shift(n as int), self.moment().time))
            } else {
                None
            },
            r.is_some() ==> r.unwrap().wf(),
    ;

    /// The first moment of the day: midnight.
    fn begin_of_day(&self) -> (r: Self)
        requires
            self.wf(),
        ensures
            r.wf(),
            r == Self::at(self.moment().date, NaiveTime::spec_midnight()),
            r.moment().spec_le(self.moment()),
    ;

    /// The day of the year: 1 for 1 January.
    fn day_of_year(&self) -> (r: u32)
        requires
            self.wf(),
        ensures
            r == self.moment().date.spec_ordinal(),
    ;

    /// Days from the date of `other` to the date of this instant, the times
    /// of day left aside. Negative when `other` is the later date.
    fn diff_calendar_days(&self, other: &Self) -> (r: i64)
        requires
            self.wf(),
            other.wf(),
        ensures
            r == self.moment().date.day_number() - other.moment().date.day_number(),
    ;

    /// Whole days of 24 hours from `other` to this instant, rounded toward
    /// zero. Negative when `other` is later.
    fn diff_days(&self, other: &Self) -> (r: i64)
        requires
            self.wf(),
            other.wf(),
        ensures
            r == truncated_quotient(
                self.moment().nanos() - other.moment().nanos(),
                NANOS_PER_DAY as int,
            ),
    ;

    /// The last moment of the day: 23:59:59.999999999 for a date-time, the
    /// date itself for a date.
    fn end_of_day(&self) -> (r: Self)
        requires
            self.wf(),
        ensures
            r.wf(),
            r == Self::at(self.moment().date, NaiveTime::spec_last()),
            self.moment().spec_le(r.moment()),
    ;

    /// Whether the two instants fall on one date.
    fn is_same_day(&self, other: &Self) -> (r: bool)
        ensures
            r == (self.moment().date == other.moment().date),
    ;

    /// The instant `n` days earlier, at the same time of day. The day must
    /// be a date.
    fn sub_days(&self, n: u64) -> (r: Self)
        requires
            self.wf(),
            self.moment().date.can_shift(-(n as int)),
        ensures
            r.wf(),
            r == Self::at(self.moment().date.shift(-(n as int)), self.moment().time),
    ;

    /// The instant `n` days earlier, at the same time of day, or `None` when
    /// that day is before the first date.
    fn sub_days_opt(&self, n: u64) -> (r: Option<Self>)
        requires
            self.wf(),
        ensures
            r == if self.moment().date.can_shift(-(n as int)) {
                Some(Self::at(self.moment().date.shift(-(n as int)), self.moment().time))
            } else {
                None
            },
            r.is_some() ==> r.unwrap().wf(),
    ;
}

impl DayHelper for NaiveDate {
    fn add_days(&self, n: u64) -> (r: Self) {
        self.add_days_opt(n).unwrap()
    }

    fn add_days_opt(&self, n: u64) -> (r: Option<Self>) {
        let r = primitive::checked_add_days(self, n);
        proof {
            NaiveDate::lemma_order(*self, *self);
            if r.is_some() {
                NaiveDate::lemma_shift_is(*self, n as int, r.unwrap());
            }
        }
        r
    }

    fn begin_of_day(&self) -> (r: Self) {
        *self
    }

    fn day_of_year(&self) -> (r: u32) {
        primitive::ordinal(self)
    }

    fn diff_calendar_days(&self, other: &Self) -> (r: i64) {
        primitive::days_between(self, other)
    }

    fn diff_days(&self, other: &Self) -> (r: i64) {
        let r = primitive::days_between(self, other);
        proof {
            let d = self.day_number() - other.day_number();
            assert(self.moment().nanos() - other.moment().nanos() == d * NANOS_PER_DAY);
            assert(truncated_quotient(d * NANOS_PER_DAY, NANOS_PER_DAY as int) == d);
        }
        r
    }

    fn end_of_day(&self) -> (r: Self) {
        *self
    }

    fn is_same_day(&self, other: &Self) -> (r: bool) {
        *self == *other
    }

    fn sub_days(&self, n: u64) -> (r: Self) {
        self.sub_days_opt(n).unwrap()
    }

    fn sub_days_opt(&self, n: u64) -> (r: Option<Self>) {
        let r = primitive::checked_sub_days(self, n);
        proof {
            NaiveDate::lemma_order(*self, *self);
            if r.is_some() {
                NaiveDate::lemma_shift_is(*self, -(n as int), r.unwrap());
            }
        }
        r
    }
}

impl DayHelper for NaiveDateTime {
    fn add_days(&self, n: u64) -> (r: Self) {
        NaiveDateTime { date: self.date.add_days(n), time: self.time }
    }

    fn add_days_opt(&self, n: u64) -> (r: Option<Self>) {
        match self.date.add_days_opt(n) {
            Some(date) => Some(NaiveDateTime { date, time: self.time }),
            None => None,
        }
    }

    fn begin_of_day(&self) -> (r: Self) {
        NaiveDateTime { date: self.date, time: NaiveTime::midnight() }
    }

    fn day_of_year(&self) -> (r: u32) {
        primitive::ordinal(&self.date)
    }

    fn diff_calendar_days(&self, other: &Self) -> (r: i64) {
        self.date.diff_calendar_days(&other.date)
    }

    fn diff_days(&self, other: &Self) -> (r: i64) {
        let d: (i64, i32) = primitive::duration_since(self, other);
        proof {
            NaiveDateTime::lemma_order(*self, *other);
            NaiveDateTime::lemma_order(*other, *self);
        }
        d.0 / 86_400
    }

    fn end_of_day(&self) -> (r: Self) {
        NaiveDateTime { date: self.date, time: NaiveTime::last() }
    }

    fn is_same_day(&self, other: &Self) -> (r: bool) {
        self.date == other.date
    }

    fn sub_days(&self, n: u64) -> (r: Self) {
        NaiveDateTime { date: self.date.sub_days(n), time: self.time }
    }

    fn sub_days_opt(&self, n: u64) -> (r: Option<Self>) {
        match self.date.sub_days_opt(n) {
            Some(date) => Some(NaiveDateTime { date, time: self.time }),
            None => None,
        }
    }
}

} // verus!
