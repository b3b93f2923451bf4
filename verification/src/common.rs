//! Order, equality and nearness of instants.

use crate::instant::Instant;
use crate::naive_date::NaiveDate;
use crate::naive_datetime::NaiveDateTime;
use crate::primitive;
use crate::utils::{magnitude, truncated_quotient};
use vstd::prelude::*;

verus! {

/// Whether `year`, `month` and `day` name a date.
pub fn is_exist(year: i32, month: u32, day: u32) -> (r: bool)
    ensures
        r == crate::calendar::valid_ymd(year as int, month as int, day as int),
{
    NaiveDate::from_ymd_opt(year, month, day).is_some()
}

/// Comparison of two instants of one kind.
pub trait CommonHelper: Instant {
    /// How far apart two instants are when the closest one is sought: whole
    /// days between two dates, whole seconds between two date-times.
    spec fn distance(&self, other: &Self) -> int;

    /// Whether this instant is earlier than `other`.
    fn before(&self, other: &Self) -> (r: bool)
        ensures
            r == self.moment().spec_lt(other.moment()),
    ;

    /// Whether this instant is later than `other`.
    fn after(&self, other: &Self) -> (r: bool)
        ensures
            r == other.moment().spec_lt(self.moment()),
    ;

    /// Whether the two instants are the same.
    fn is_same(&self, other: &Self) -> (r: bool)
        ensures
            r == (self.moment() == other.moment()),
    ;

    /// Whether this instant is later than `now`: a date later than the date
    /// of `now`, a date-time later than `now`.
    fn is_future_at(&self, now: &NaiveDateTime) -> (r: bool)
        ensures
            r == Self::at(now.date, now.time).moment().spec_lt(self.moment()),
    ;

    /// Whether this instant is earlier than `now`: a date earlier than the
    /// date of `now`, a date-time earlier than `now`.
    fn is_past_at(&self, now: &NaiveDateTime) -> (r: bool)
        ensures
            r == self.moment().spec_lt(Self::at(now.date, now.time).moment()),
    ;

    /// `is_future_at` the present moment of the clock, in UTC: whatever the
    /// clock shows, the result is what `is_future_at` gives for that moment.
    fn is_future(&self) -> (r: bool)
        ensures
            exists|now: NaiveDateTime| #[trigger]
                now.wf() && r == Self::at(now.date, now.time).moment().spec_lt(self.moment()),
    ;

    /// `is_past_at` the present moment of the clock, in UTC: whatever the
    /// clock shows, the result is what `is_past_at` gives for that moment.
    fn is_past(&self) -> (r: bool)
        ensures
            exists|now: NaiveDateTime| #[trigger]
                now.wf() && r == self.moment().spec_lt(Self::at(now.date, now.time).moment()),
    ;

    /// The element of `dates` closest to this instant, the first of them
    /// where several are as close. `None` for no dates.
    fn closest_to(&self, dates: &[Self]) -> (r: Option<Self>)
        requires
            self.wf(),
            forall|i: int| 0 <= i < dates@.len() ==> (#[trigger] dates@[i]).wf(),
        ensures
            r.is_none() <==> dates@.len() == 0,
            r.is_some() ==> exists|i: int|
                {
                    &&& 0 <= i < dates@.len()
                    &&& r.unwrap() == dates@[i]
                    &&& forall|j: int|
                        0 <= j < dates@.len() ==> self.distance(&dates@[i])
                            <= #[trigger] self.distance(&dates@[j])
                    &&& forall|j: int|
                        0 <= j < i ==> self.distance(&dates@[i]) < #[trigger] self.distance(
                            &dates@[j],
                        )
                },
    ;

    /// The index of the element of `dates` closest to this instant, the
    /// first of them where several are as close. `None` for no dates.
    fn closest_to_index(&self, dates: &[Self]) -> (r: Option<usize>)
        requires
            self.wf(),
            forall|i: int| 0 <= i < dates@.len() ==> (#[trigger] dates@[i]).wf(),
        ensures
            r.is_none() <==> dates@.len() == 0,
            r.is_some() ==> {
                &&& r.unwrap() < dates@.len()
                &&& forall|j: int|
                    0 <= j < dates@.len() ==> self.distance(&dates@[r.unwrap() as int])
                        <= #[trigger] self.distance(&dates@[j])
                &&& forall|j: int|
                    0 <= j < r.unwrap() ==> self.distance(&dates@[r.unwrap() as int])
                        < #[trigger] self.distance(&dates@[j])
            },
    ;
}

impl NaiveDate {
    /// Days between two dates, without a sign.
    pub(crate) fn days_apart(&self, other: &NaiveDate) -> (r: i64)
        requires
            self.wf(),
            other.wf(),
        ensures
            r == magnitude(self.day_number() - other.day_number()),
    {
        proof {
            NaiveDate::lemma_order(*self, *other);
        }
        let d: i64 = primitive::days_between(self, other);
        if d < 0 {
            -d
        } else {
            d
        }
    }
}

impl NaiveDateTime {
    /// Whole seconds between two date-times, without a sign.
    pub(crate) fn seconds_apart(&self, other: &NaiveDateTime) -> (r: i64)
        requires
            self.wf(),
            other.wf(),
        ensures
            r == magnitude(truncated_quotient(self.nanos() - other.nanos(), 1_000_000_000)),
    {
        proof {
            NaiveDateTime::lemma_order(*self, *other);
            NaiveDateTime::lemma_order(*other, *self);
        }
        let d: (i64, i32) = primitive::duration_since(self, other);
        if d.0 < 0 {
            -d.0
        } else {
            d.0
        }
    }
}

impl CommonHelper for NaiveDate {
    open spec fn distance(&self, other: &Self) -> int {
        magnitude(self.day_number() - other.day_number())
    }

    fn before(&self, other: &Self) -> (r: bool)
        ensures
            r == self.spec_lt(*other),
    {
        self.precedes(other)
    }

    fn after(&self, other: &Self) -> (r: bool)
        ensures
            r == other.spec_lt(*self),
    {
        other.precedes(self)
    }

    fn is_same(&self, other: &Self) -> (r: bool)
        ensures
            r == (*self == *other),
    {
        *self == *other
    }

    fn is_future_at(&self, now: &NaiveDateTime) -> (r: bool)
        ensures
            r == now.date.spec_lt(*self),
    {
        now.date.precedes(self)
    }

    fn is_past_at(&self, now: &NaiveDateTime) -> (r: bool)
        ensures
            r == self.spec_lt(now.date),
    {
        self.precedes(&now.date)
    }

    fn is_future(&self) -> (r: bool) {
        let now = primitive::utc_now();
        self.is_future_at(&now)
    }

    fn is_past(&self) -> (r: bool) {
        let now = primitive::utc_now();
        self.is_past_at(&now)
    }

    fn closest_to(&self, dates: &[Self]) -> (r: Option<Self>) {
        match self.closest_to_index(dates) {
            Some(i) => Some(dates[i]),
            None => None,
        }
    }

    fn closest_to_index(&self, dates: &[Self]) -> (r: Option<usize>) {
        let n: usize = dates.len();
        if n == 0 {
            return None;
        }
        let mut best: usize = 0;
        let mut least: i64 = self.days_apart(&dates[0]);
        let mut i: usize = 1;
        while i < n
            invariant
                n == dates@.len(),
                1 <= i <= n,
                self.wf(),
                forall|j: int| 0 <= j < dates@.len() ==> (#[trigger] dates@[j]).wf(),
                0 <= best < i,
                least == self.distance(&dates@[best as int]),
                forall|j: int| 0 <= j < i ==> least <= #[trigger] self.distance(&dates@[j]),
                forall|j: int| 0 <= j < best ==> least < #[trigger] self.distance(&dates@[j]),
            decreases n - i,
        {
            let d: i64 = self.days_apart(&dates[i]);
            if d < least {
                best = i;
                least = d;
            }
            i += 1;
        }
        Some(best)
    }
}

impl CommonHelper for NaiveDateTime {
    open spec fn distance(&self, other: &Self) -> int {
        magnitude(truncated_quotient(self.nanos() - other.nanos(), 1_000_000_000))
    }

    fn before(&self, other: &Self) -> (r: bool)
        ensures
            r == self.spec_lt(*other),
    {
        self.precedes(other)
    }

    fn after(&self, other: &Self) -> (r: bool)
        ensures
            r == other.spec_lt(*self),
    {
        other.precedes(self)
    }

    fn is_same(&self, other: &Self) -> (r: bool)
        ensures
            r == (*self == *other),
    {
        *self == *other
    }

    fn is_future_at(&self, now: &NaiveDateTime) -> (r: bool)
        ensures
            r == now.spec_lt(*self),
    {
        now.precedes(self)
    }

    fn is_past_at(&self, now: &NaiveDateTime) -> (r: bool)
        ensures
            r == self.spec_lt(*now),
    {
        self.precedes(now)
    }

    fn is_future(&self) -> (r: bool) {
        let now = primitive::utc_now();
        self.is_future_at(&now)
    }

    fn is_past(&self) -> (r: bool) {
        let now = primitive::utc_now();
        self.is_past_at(&now)
    }

    fn closest_to(&self, dates: &[Self]) -> (r: Option<Self>) {
        match self.closest_to_index(dates) {
            Some(i) => Some(dates[i]),
            None => None,
        }
    }

    fn closest_to_index(&self, dates: &[Self]) -> (r: Option<usize>) {
        let n: usize = dates.len();
        if n == 0 {
            return None;
        }
        let mut best: usize = 0;
        let mut least: i64 = self.seconds_apart(&dates[0]);
        let mut i: usize = 1;
        while i < n
            invariant
                n == dates@.len(),
                1 <= i <= n,
                self.wf(),
                forall|j: int| 0 <= j < dates@.len() ==> (#[trigger] dates@[j]).wf(),
                0 <= best < i,
                least == self.distance(&dates@[best as int]),
                forall|j: int| 0 <= j < i ==> least <= #[trigger] self.distance(&dates@[j]),
                forall|j: int| 0 <= j < best ==> least < #[trigger] self.distance(&dates@[j]),
            decreases n - i,
        {
            let d: i64 = self.seconds_apart(&dates[i]);
            if d < least {
                best = i;
                least = d;
            }
            i += 1;
        }
        Some(best)
    }
}

} // verus!
