//! Hours: the bounds of an hour, hour arithmetic and differences in hours.

use crate::instant::Instant;
use crate::naive_datetime::NaiveDateTime;
use crate::naive_time::NaiveTime;
use crate::utils::truncated_quotient;
use vstd::prelude::*;

verus! {

impl NaiveTime {
    /// The first time of the hour of this time: its minute 0.
    pub open spec fn spec_begin_of_hour(&self) -> NaiveTime {
        NaiveTime { hour: self.hour, minute: 0, second: 0, nano: 0 }
    }

    /// The last time of the hour of this time: its minute 59, second 59 and last nanosecond.
    pub open spec fn spec_end_of_hour(&self) -> NaiveTime {
        NaiveTime { hour: self.hour, minute: 59, second: 59, nano: 999_999_999 }
    }
}

/// Operations on the hour of an instant.
pub trait HourHelper: Instant {
    /// The instant `hour` hours later.
    /// It must fall on a date.
    fn add_hours(&self, hour: u32) -> (r: Self)
        requires
            self.wf(),
            self.moment().can_shift_nanos(hour * 3_600_000_000_000),
        ensures
            r.wf(),
            r.moment() == self.moment().shift_nanos(hour * 3_600_000_000_000),
    ;

    /// As `add_hours`, or `None` when the instant falls on no date.
    fn add_hours_opt(&self, hour: u32) -> (r: Option<Self>)
        requires
            self.wf(),
        ensures
            r.is_some() <==> self.moment().can_shift_nanos(hour * 3_600_000_000_000),
            r.is_some() ==> r.unwrap().wf() && r.unwrap().moment() == self.moment().shift_nanos(
                hour * 3_600_000_000_000,
            ),
    ;

    /// The instant `hour` hours earlier.
    /// It must fall on a date.
    fn sub_hours(&self, hour: u32) -> (r: Self)
        requires
            self.wf(),
            self.moment().can_shift_nanos(-(hour * 3_600_000_000_000)),
        ensures
            r.wf(),
            r.moment() == self.moment().shift_nanos(-(hour * 3_600_000_000_000)),
    ;

    /// As `sub_hours`, or `None` when the instant falls on no date.
    fn sub_hours_opt(&self, hour: u32) -> (r: Option<Self>)
        requires
            self.wf(),
        ensures
            r.is_some() <==> self.moment().can_shift_nanos(-(hour * 3_600_000_000_000)),
            r.is_some() ==> r.unwrap().wf() && r.unwrap().moment() == self.moment().shift_nanos(
                -(hour * 3_600_000_000_000),
            ),
    ;

    /// The first moment of the hour: every finer field at zero.
    fn begin_of_hour(&self) -> (r: Self)
        requires
            self.wf(),
        ensures
            r.wf(),
            r == Self::at(self.moment().date, self.moment().time.spec_begin_of_hour()),
            r.moment().spec_le(self.moment()),
    ;

    /// The last moment of the hour: every finer field at its greatest, down
    /// to the last nanosecond.
    fn end_of_hour(&self) -> (r: Self)
        requires
            self.wf(),
        ensures
            r.wf(),
            r == Self::at(self.moment().date, self.moment().time.spec_end_of_hour()),
            self.moment().spec_le(r.moment()),
    ;

    /// Whole hours from `other` to this instant, rounded toward zero.
    /// Negative when `other` is later.
    fn diff_hours(&self, other: &Self) -> (r: i64)
        requires
            self.wf(),
            other.wf(),
        ensures
            r == truncated_quotient(
                self.moment().nanos() - other.moment().nanos(),
                3_600_000_000_000,
            ),
    ;

    /// Whether the two instants fall in one hour of one day.
    fn is_same_hour(&self, other: &Self) -> (r: bool)
        ensures
            r == (self.moment().date == other.moment().date
                && self.moment().time.spec_begin_of_hour()
                == other.moment().time.spec_begin_of_hour()),
    ;
}

impl HourHelper for NaiveDateTime {
    fn add_hours(&self, hour: u32) -> (r: Self) {
        self.checked_add_milliseconds(hour as i64 * 3_600_000).unwrap()
    }

    fn add_hours_opt(&self, hour: u32) -> (r: Option<Self>) {
        self.checked_add_milliseconds(hour as i64 * 3_600_000)
    }

    fn sub_hours(&self, hour: u32) -> (r: Self) {
        self.checked_add_milliseconds(-(hour as i64 * 3_600_000)).unwrap()
    }

    fn sub_hours_opt(&self, hour: u32) -> (r: Option<Self>) {
        self.checked_add_milliseconds(-(hour as i64 * 3_600_000))
    }

    fn begin_of_hour(&self) -> (r: Self) {
        let time = self.time;
        let first = NaiveTime { hour: time.hour, minute: 0, second: 0, nano: 0 };
        NaiveDateTime { date: self.date, time: first }
    }

    fn end_of_hour(&self) -> (r: Self) {
        let time = self.time;
        let last = NaiveTime { hour: time.hour, minute: 59, second: 59, nano: 999_999_999 };
        NaiveDateTime { date: self.date, time: last }
    }

    fn diff_hours(&self, other: &Self) -> (r: i64) {
        self.signed_duration_since(other).0 / 3600
    }

    fn is_same_hour(&self, other: &Self) -> (r: bool) {
        self.date == other.date && self.time.hour == other.time.hour
    }
}

} // verus!
