//! A calendar date with a time of day.

use crate::calendar::{max_day_number, min_day_number};
use crate::instant::Instant;
use crate::naive_date::NaiveDate;
use crate::naive_time::{NaiveTime, NANOS_PER_DAY, SECONDS_PER_DAY};
use vstd::prelude::*;

verus! {

/// The day number of 1 January 1970.
pub const UNIX_EPOCH_DAY: i64 = 719_163;

/// A date and a time of day without a time zone.
#[derive(Clone, Copy, Debug, PartialEq, Eq, Structural, PartialOrd, Ord, Hash)]
pub struct NaiveDateTime {
    pub date: NaiveDate,
    pub time: NaiveTime,
}

impl Instant for NaiveDateTime {
    open spec fn wf(&self) -> bool {
        self.date.wf() && self.time.wf()
    }

    open spec fn moment(&self) -> NaiveDateTime {
        *self
    }

    open spec fn at(date: NaiveDate, time: NaiveTime) -> NaiveDateTime {
        NaiveDateTime { date, time }
    }
}

impl NaiveDateTime {
    /// Whole seconds from the midnight that starts day number 0.
    pub open spec fn whole_seconds(&self) -> int {
        self.date.day_number() * SECONDS_PER_DAY + self.time.second_of_day()
    }

    /// Nanoseconds from the midnight that starts day number 0.
    pub open spec fn nanos(&self) -> int {
        self.date.day_number() * NANOS_PER_DAY + self.time.nanos_of_day()
    }

    /// Whole seconds from the midnight that starts 1 January 1970, negative
    /// before it.
    pub open spec fn spec_timestamp(&self) -> int {
        self.whole_seconds() - UNIX_EPOCH_DAY * SECONDS_PER_DAY
    }

    /// Whether `n` nanoseconds from the midnight of day number 0 fall on a
    /// day that is a date.
    pub open spec fn nanos_in_range(n: int) -> bool {
        min_day_number() <= n / (NANOS_PER_DAY as int) <= max_day_number()
    }

    /// The date-time that is `n` nanoseconds from the midnight of day number
    /// 0.
    pub open spec fn spec_from_nanos(n: int) -> NaiveDateTime {
        NaiveDateTime {
            date: NaiveDate::spec_from_day_number(n / (NANOS_PER_DAY as int)),
            time: NaiveTime::spec_from_nanos_of_day(n % (NANOS_PER_DAY as int)),
        }
    }

    /// Whether the date-time `k` nanoseconds after this one (before, for
    /// negative `k`) exists.
    pub open spec fn can_shift_nanos(&self, k: int) -> bool {
        NaiveDateTime::nanos_in_range(self.nanos() + k)
    }

    /// The date-time `k` nanoseconds after this one (before, for negative
    /// `k`).
    pub open spec fn shift_nanos(&self, k: int) -> NaiveDateTime {
        NaiveDateTime::spec_from_nanos(self.nanos() + k)
    }

    /// The order of time: the date, then the time of day.
    pub open spec fn spec_lt(&self, other: NaiveDateTime) -> bool {
        self.date.spec_lt(other.date) || (self.date == other.date && self.time.spec_lt(other.time))
    }

    /// `spec_lt`, or equal.
    pub open spec fn spec_le(&self, other: NaiveDateTime) -> bool {
        self.spec_lt(other) || *self == other
    }

    /// The order of time is the order of the nanoseconds, and the nanoseconds
    /// of a date-time lie within the bounds.
    pub proof fn lemma_order(a: NaiveDateTime, b: NaiveDateTime)
        requires
            a.wf(),
            b.wf(),
        ensures
            a.spec_lt(b) <==> a.nanos() < b.nanos(),
            a.spec_le(b) <==> a.nanos() <= b.nanos(),
            a == b <==> a.nanos() == b.nanos(),
            NaiveDateTime::nanos_in_range(a.nanos()),
            NaiveDateTime::nanos_in_range(b.nanos()),
            a.nanos() / (NANOS_PER_DAY as int) == a.date.day_number(),
            b.nanos() / (NANOS_PER_DAY as int) == b.date.day_number(),
    {
        NaiveDate::lemma_order(a.date, b.date);
        NaiveTime::lemma_order(a.time, b.time);
    }

    /// Every number of nanoseconds within the bounds names one date-time.
    pub proof fn lemma_from_nanos(n: int)
        requires
            NaiveDateTime::nanos_in_range(n),
        ensures
            NaiveDateTime::spec_from_nanos(n).wf(),
            NaiveDateTime::spec_from_nanos(n).nanos() == n,
    {
        let day = n / (NANOS_PER_DAY as int);
        let rest = n % (NANOS_PER_DAY as int);
        NaiveDate::lemma_from_day_number(day);
        NaiveTime::lemma_from_nanos_of_day(rest);
    }

    /// A date-time whose nanoseconds are `k` more than those of `a` is
    /// `a.shift_nanos(k)`.
    pub proof fn lemma_shift_nanos_is(a: NaiveDateTime, k: int, r: NaiveDateTime)
        requires
            r.wf(),
            r.nanos() == a.nanos() + k,
        ensures
            r == a.shift_nanos(k),
            a.can_shift_nanos(k),
    {
        NaiveDateTime::lemma_order(r, r);
        NaiveDateTime::lemma_from_nanos(r.nanos());
        NaiveDateTime::lemma_order(r, a.shift_nanos(k));
    }

    /// The date-time `millis` milliseconds later (earlier, for a negative
    /// number), or `None` when that falls on no date.
    pub fn checked_add_milliseconds(&self, millis: i64) -> (r: Option<NaiveDateTime>)
        requires
            self.wf(),
        ensures
            r == if self.can_shift_nanos(millis * 1_000_000) {
                Some(self.shift_nanos(millis * 1_000_000))
            } else {
                None
            },
            r.is_some() ==> r.unwrap().wf(),
    {
        let r = crate::primitive::checked_add_milliseconds(self, millis);
        proof {
            if r.is_some() {
                NaiveDateTime::lemma_shift_nanos_is(*self, millis * 1_000_000, r.unwrap());
            }
        }
        r
    }

    /// Whole seconds from `other` to this date-time, rounded toward zero, and
    /// the nanoseconds beyond them, which have no sign other than theirs.
    pub fn signed_duration_since(&self, other: &NaiveDateTime) -> (r: (i64, i32))
        requires
            self.wf(),
            other.wf(),
        ensures
            r.0 == crate::utils::truncated_quotient(self.nanos() - other.nanos(), 1_000_000_000),
            r.0 * 1_000_000_000 + r.1 == self.nanos() - other.nanos(),
            -17_000_000_000_000 < r.0 < 17_000_000_000_000,
            -1_000_000_000 < r.1 < 1_000_000_000,
    {
        proof {
            NaiveDateTime::lemma_order(*self, *other);
        }
        crate::primitive::duration_since(self, other)
    }

    /// Whole seconds from the midnight that starts 1 January 1970, negative
    /// before it.
    pub fn timestamp(&self) -> (r: i64)
        requires
            self.wf(),
        ensures
            r == self.spec_timestamp(),
    {
        crate::primitive::timestamp(self)
    }

    /// The date-time made of `date` and `time`.
    pub fn new(date: NaiveDate, time: NaiveTime) -> (r: NaiveDateTime)
        ensures
            r == (NaiveDateTime { date, time }),
    {
        NaiveDateTime { date, time }
    }

    /// The date.
    pub fn date(&self) -> (r: NaiveDate)
        ensures
            r == self.date,
    {
        self.date
    }

    /// The time of day.
    pub fn time(&self) -> (r: NaiveTime)
        ensures
            r == self.time,
    {
        self.time
    }

    /// The year.
    pub fn year(&self) -> (r: i32)
        ensures
            r == self.date.year,
    {
        self.date.year
    }

    /// The month, 1 to 12.
    pub fn month(&self) -> (r: u32)
        ensures
            r == self.date.month,
    {
        self.date.month
    }

    /// The day of the month, 1 to 31.
    pub fn day(&self) -> (r: u32)
        ensures
            r == self.date.day,
    {
        self.date.day
    }

    /// The hour, 0 to 23.
    pub fn hour(&self) -> (r: u32)
        ensures
            r == self.time.hour,
    {
        self.time.hour
    }

    /// The minute, 0 to 59.
    pub fn minute(&self) -> (r: u32)
        ensures
            r == self.time.minute,
    {
        self.time.minute
    }

    /// The second, 0 to 59.
    pub fn second(&self) -> (r: u32)
        ensures
            r == self.time.second,
    {
        self.time.second
    }

    /// The nanoseconds since the last whole second.
    pub fn nanosecond(&self) -> (r: u32)
        ensures
            r == self.time.nano,
    {
        self.time.nano
    }

    /// Whether this date-time is earlier than `other`.
    pub fn precedes(&self, other: &NaiveDateTime) -> (r: bool)
        ensures
            r == self.spec_lt(*other),
    {
        if self.date == other.date {
            self.time.precedes(&other.time)
        } else {
            self.date.precedes(&other.date)
        }
    }
}

} // verus!
