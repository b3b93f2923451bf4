//! Milliseconds: millisecond arithmetic, differences in milliseconds and the
//! millisecond of a second.

use crate::instant::Instant;
use crate::naive_datetime::NaiveDateTime;
use crate::naive_time::NaiveTime;
use crate::utils::truncated_quotient;
use vstd::prelude::*;

verus! {

/// Operations on the millisecond of an instant.
pub trait MillisecondHelper: Instant {
    /// The instant `millisecond` milliseconds later (earlier, for a negative number).
    /// It must fall on a date.
    fn add_millisecond(&self, millisecond: i32) -> (r: Self)
        requires
            self.wf(),
            self.moment().can_shift_nanos(millisecond * 1_000_000),
        ensures
            r.wf(),
            r.moment() == self.moment().shift_nanos(millisecond * 1_000_000),
    ;

    /// As `add_millisecond`, or `None` when the instant falls on no date.
    fn add_millisecond_opt(&self, millisecond: i32) -> (r: Option<Self>)
        requires
            self.wf(),
        ensures
            r.is_some() <==> self.moment().can_shift_nanos(millisecond * 1_000_000),
            r.is_some() ==> r.unwrap().wf() && r.unwrap().moment() == self.moment().shift_nanos(
                millisecond * 1_000_000,
            ),
    ;

    /// The instant `millisecond` milliseconds earlier (later, for a negative number).
    /// It must fall on a date.
    fn sub_millisecond(&self, millisecond: i32) -> (r: Self)
        requires
            self.wf(),
            self.moment().can_shift_nanos(-(millisecond * 1_000_000)),
        ensures
            r.wf(),
            r.moment() == self.moment().shift_nanos(-(millisecond * 1_000_000)),
    ;

    /// As `sub_millisecond`, or `None` when the instant falls on no date.
    fn sub_millisecond_opt(&self, millisecond: i32) -> (r: Option<Self>)
        requires
            self.wf(),
        ensures
            r.is_some() <==> self.moment().can_shift_nanos(-(millisecond * 1_000_000)),
            r.is_some() ==> r.unwrap().wf() && r.unwrap().moment() == self.moment().shift_nanos(
                -(millisecond * 1_000_000),
            ),
    ;

    /// Whole milliseconds from `other` to this instant, rounded toward zero.
    /// Negative when `other` is later.
    fn diff_milliseconds(&self, other: &Self) -> (r: i64)
        requires
            self.wf(),
            other.wf(),
        ensures
            r == truncated_quotient(
                self.moment().nanos() - other.moment().nanos(),
                1_000_000,
            ),
    ;

    /// The whole milliseconds since the last whole second: 0 to 999.
    fn millisecond(&self) -> (r: i64)
        requires
            self.wf(),
        ensures
            r == self.moment().time.nano / 1_000_000,
            0 <= r <= 999,
    ;

    /// The instant with its sub-second part replaced by `millisecond`
    /// milliseconds, which must be 0 to 999.
    fn set_millisecond(&self, millisecond: i64) -> (r: Self)
        requires
            self.wf(),
            0 <= millisecond <= 999,
        ensures
            r.wf(),
            r.moment().date == self.moment().date,
            r.moment().time.spec_begin_of_second() == self.moment().time.spec_begin_of_second(),
            r.moment().time.nano == millisecond * 1_000_000,
    ;
}

impl MillisecondHelper for NaiveDateTime {
    fn add_millisecond(&self, millisecond: i32) -> (r: Self) {
        self.checked_add_milliseconds(millisecond as i64).unwrap()
    }

    fn add_millisecond_opt(&self, millisecond: i32) -> (r: Option<Self>) {
        self.checked_add_milliseconds(millisecond as i64)
    }

    fn sub_millisecond(&self, millisecond: i32) -> (r: Self) {
        self.checked_add_milliseconds(-(millisecond as i64)).unwrap()
    }

    fn sub_millisecond_opt(&self, millisecond: i32) -> (r: Option<Self>) {
        self.checked_add_milliseconds(-(millisecond as i64))
    }

    fn diff_milliseconds(&self, other: &Self) -> (r: i64) {
        let d: (i64, i32) = self.signed_duration_since(other);
        d.0 * 1000 + (d.1 / 1_000_000) as i64
    }

    fn millisecond(&self) -> (r: i64) {
        (self.time.nano / 1_000_000) as i64
    }

    fn set_millisecond(&self, millisecond: i64) -> (r: Self) {
        let time = self.time;
        NaiveDateTime {
            date: self.date,
            time: NaiveTime {
                hour: time.hour,
                minute: time.minute,
                second: time.second,
                nano: (millisecond * 1_000_000) as u32,
            },
        }
    }
}

} // verus!
