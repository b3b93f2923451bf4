//! Minutes: the bounds of a minute, minute arithmetic and differences in
//! minutes.

use crate::instant::Instant;
use crate::naive_datetime::NaiveDateTime;
use crate::naive_time::NaiveTime;
use crate::utils::truncated_quotient;
use vstd::prelude::*;

verus! {

impl NaiveTime {
    /// The first time of the minute of this time: its second 0.
    pub open spec fn spec_begin_of_minute(&self) -> NaiveTime {
        NaiveTime { hour: self.hour, minute: self.minute, second: 0, nano: 0 }
    }

    /// The last time of the minute of this time: its second 59 and last nanosecond.
    pub open spec fn spec_end_of_minute(&self) -> NaiveTime {
        NaiveTime { hour: self.hour, minute: self.minute, second: 59, nano: 999_999_999 }
    }
}

/// Operations on the minute of an instant.
pub trait MinuteHelper: Instant {
    /// The instant `minute` minutes later.
    /// It must fall on a date.
    fn add_minutes(&self, minute: u32) -> (r: Self)
        requires
            self.wf(),
            self.moment().can_shift_nanos(minute * 60_000_000_000),
        ensures
            r.wf(),
            r.moment() == self.moment().shift_nanos(minute * 60_000_000_000),
    ;

    /// As `add_minutes`, or `None` when the instant falls on no date.
    fn add_minutes_opt(&self, minute: u32) -> (r: Option<Self>)
        requires
            self.wf(),
        ensures
            r.is_some() <==> self.moment().can_shift_nanos(minute * 60_000_000_000),
            r.is_some() ==> r.unwrap().wf() && r.unwrap().moment() == self.moment().shift_nanos(
                minute * 60_000_000_000,
            ),
    ;

    /// The instant `minute` minutes earlier.
    /// It must fall on a date.
    fn sub_minutes(&self, minute: u32) -> (r: Self)
        requires
            self.wf(),
            self.moment().can_shift_nanos(-(minute * 60_000_000_000)),
        ensures
            r.wf(),
            r.moment() == self.moment().shift_nanos(-(minute * 60_000_000_000)),
    ;

    /// As `sub_minutes`, or `None` when the instant falls on no date.
    fn sub_minutes_opt(&self, minute: u32) -> (r: Option<Self>)
        requires
            self.wf(),
        ensures
            r.is_some() <==> self.moment().can_shift_nanos(-(minute * 60_000_000_000)),
            r.is_some() ==> r.unwrap().wf() && r.unwrap().moment() == self.moment().shift_nanos(
                -(minute * 60_000_000_000),
            ),
    ;

    /// The first moment of the minute: every finer field at zero.
    fn begin_of_minute(&self) -> (r: Self)
        requires
            self.wf(),
        ensures
            r.wf(),
            r == Self::at(self.moment().date, self.moment().time.spec_begin_of_minute()),
            r.moment().spec_le(self.moment()),
    ;

    /// The last moment of the minute: every finer field at its greatest, down
    /// to the last nanosecond.
    fn end_of_minute(&self) -> (r: Self)
        requires
            self.wf(),
        ensures
            r.wf(),
            r == Self::at(self.moment().date, self.moment().time.spec_end_of_minute()),
            self.moment().spec_le(r.moment()),
    ;

    /// Whole minutes from `other` to this instant, rounded toward zero.
    /// Negative when `other` is later.
    fn diff_minutes(&self, other: &Self) -> (r: i64)
        requires
            self.wf(),
            other.wf(),
        ensures
            r == truncated_quotient(
                self.moment().nanos() - other.moment().nanos(),
                60_000_000_000,
            ),
    ;

    /// Whether the two instants fall in one minute of one day.
    fn is_same_minute(&self, other: &Self) -> (r: bool)
        ensures
            r == (self.moment().date == other.moment().date
                && self.moment().time.spec_begin_of_minute()
                == other.moment().time.spec_begin_of_minute()),
    ;
}

impl MinuteHelper for NaiveDateTime {
    fn add_minutes(&self, minute: u32) -> (r: Self) {
        self.checked_add_milliseconds(minute as i64 * 60_000).unwrap()
    }

    fn add_minutes_opt(&self, minute: u32) -> (r: Option<Self>) {
        self.checked_add_milliseconds(minute as i64 * 60_000)
    }

    fn sub_minutes(&self, minute: u32) -> (r: Self) {
        self.checked_add_milliseconds(-(minute as i64 * 60_000)).unwrap()
    }

    fn sub_minutes_opt(&self, minute: u32) -> (r: Option<Self>) {
        self.checked_add_milliseconds(-(minute as i64 * 60_000))
    }

    fn begin_of_minute(&self) -> (r: Self) {
        let time = self.time;
        let first = NaiveTime { hour: time.hour, minute: time.minute, second: 0, nano: 0 };
        NaiveDateTime { date: self.date, time: first }
    }

    fn end_of_minute(&self) -> (r: Self) {
        let time = self.time;
        let last = NaiveTime { hour: time.hour, minute: time.minute, second: 59, nano: 999_999_999 };
        NaiveDateTime { date: self.date, time: last }
    }

    fn diff_minutes(&self, other: &Self) -> (r: i64) {
        self.signed_duration_since(other).0 / 60
    }

    fn is_same_minute(&self, other: &Self) -> (r: bool) {
        self.date == other.date && self.time.hour == other.time.hour && self.time.minute
            == other.time.minute
    }
}

} // verus!
