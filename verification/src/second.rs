//! Seconds: the bounds of a second, second arithmetic and differences in
//! seconds.

use crate::instant::Instant;
use crate::naive_datetime::NaiveDateTime;
use crate::naive_time::NaiveTime;
use vstd::prelude::*;

verus! {

impl NaiveTime {
    /// The first time of the second of this time: its nanosecond 0.
    pub open spec fn spec_begin_of_second(&self) -> NaiveTime {
        NaiveTime { hour: self.hour, minute: self.minute, second: self.second, nano: 0 }
    }

    /// The last time of the second of this time: its nanosecond 999 999 999,
    /// the last instant that the second holds.
    pub open spec fn spec_end_of_second(&self) -> NaiveTime {
        NaiveTime { hour: self.hour, minute: self.minute, second: self.second, nano: 999_999_999 }
    }
}

/// Operations on the second of an instant.
pub trait SecondHelper: Instant {
    /// The instant `second` seconds later (earlier, for a negative number).
    /// It must fall on a date.
    fn add_seconds(&self, second: i64) -> (r: Self)
        requires
            self.wf(),
            self.moment().can_shift_nanos(second * 1_000_000_000),
        ensures
            r.wf(),
            r.moment() == self.moment().shift_nanos(second * 1_000_000_000),
    ;

    /// As `add_seconds`, or `None` when the instant falls on no date.
    fn add_seconds_opt(&self, second: i64) -> (r: Option<Self>)
        requires
            self.wf(),
        ensures
            r.is_some() <==> self.moment().can_shift_nanos(second * 1_000_000_000),
            r.is_some() ==> r.unwrap().wf() && r.unwrap().moment() == self.moment().shift_nanos(
                second * 1_000_000_000,
            ),
    ;

    /// The instant `second` seconds earlier (later, for a negative number).
    /// It must fall on a date.
    fn sub_seconds(&self, second: i64) -> (r: Self)
        requires
            self.wf(),
            self.moment().can_shift_nanos(-(second * 1_000_000_000)),
        ensures
            r.wf(),
            r.moment() == self.moment().shift_nanos(-(second * 1_000_000_000)),
    ;

    /// As `sub_seconds`, or `None` when the instant falls on no date.
    fn sub_seconds_opt(&self, second: i64) -> (r: Option<Self>)
        requires
            self.wf(),
        ensures
            r.is_some() <==> self.moment().can_shift_nanos(-(second * 1_000_000_000)),
            r.is_some() ==> r.unwrap().wf() && r.unwrap().moment() == self.moment().shift_nanos(
                -(second * 1_000_000_000),
            ),
    ;

    /// Seconds from `other` to this instant, each counted from the start of
    /// its second: the difference of the two timestamps. Negative when
    /// `other` is in the later second.
    fn diff_seconds(&self, other: &Self) -> (r: i64)
        requires
            self.wf(),
            other.wf(),
        ensures
            r == self.moment().spec_timestamp() - other.moment().spec_timestamp(),
    ;

    /// The first moment of the second: every finer field at zero.
    fn begin_of_second(&self) -> (r: Self)
        requires
            self.wf(),
        ensures
            r.wf(),
            r == Self::at(self.moment().date, self.moment().time.spec_begin_of_second()),
            r.moment().spec_le(self.moment()),
    ;

    /// The last moment of the second: every finer field at its greatest, down
    /// to the last nanosecond.
    fn end_of_second(&self) -> (r: Self)
        requires
            self.wf(),
        ensures
            r.wf(),
            r == Self::at(self.moment().date, self.moment().time.spec_end_of_second()),
            self.moment().spec_le(r.moment()),
    ;

    /// Whether the two instants fall in one second of one day.
    fn is_same_second(&self, other: &Self) -> (r: bool)
        ensures
            r == (self.moment().date == other.moment().date
                && self.moment().time.spec_begin_of_second()
                == other.moment().time.spec_begin_of_second()),
    ;
}

impl SecondHelper for NaiveDateTime {
    fn add_seconds(&self, second: i64) -> (r: Self) {
        self.add_seconds_opt(second).unwrap()
    }

    fn add_seconds_opt(&self, second: i64) -> (r: Option<Self>) {
        proof {
            NaiveDateTime::lemma_order(*self, *self);
        }
        // Beyond these bounds the instant is further off than any date.
        if second < -9_000_000_000_000_000 || second > 9_000_000_000_000_000 {
            None
        } else {
            self.checked_add_milliseconds(second * 1000)
        }
    }

    fn sub_seconds(&self, second: i64) -> (r: Self) {
        self.sub_seconds_opt(second).unwrap()
    }

    fn sub_seconds_opt(&self, second: i64) -> (r: Option<Self>) {
        proof {
            NaiveDateTime::lemma_order(*self, *self);
        }
        if second < -9_000_000_000_000_000 || second > 9_000_000_000_000_000 {
            None
        } else {
            self.checked_add_milliseconds(-(second * 1000))
        }
    }

    fn diff_seconds(&self, other: &Self) -> (r: i64) {
        proof {
            NaiveDateTime::lemma_order(*self, *other);
            NaiveTime::lemma_order(self.time, other.time);
        }
        self.timestamp() - other.timestamp()
    }

    fn begin_of_second(&self) -> (r: Self) {
        let time = self.time;
        let first = NaiveTime { hour: time.hour, minute: time.minute, second: time.second, nano: 0 };
        NaiveDateTime { date: self.date, time: first }
    }

    fn end_of_second(&self) -> (r: Self) {
        let time = self.time;
        let last = NaiveTime { hour: time.hour, minute: time.minute, second: time.second, nano: 999_999_999 };
        NaiveDateTime { date: self.date, time: last }
    }

    fn is_same_second(&self, other: &Self) -> (r: bool) {
        self.date == other.date && self.time.hour == other.time.hour && self.time.minute
            == other.time.minute && self.time.second == other.time.second
    }
}

} // verus!
