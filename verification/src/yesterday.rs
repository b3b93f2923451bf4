//! Yesterday: the day before the day of the clock.

use crate::day::DayHelper;
use crate::instant::Instant;
use crate::naive_date::NaiveDate;
use crate::naive_datetime::NaiveDateTime;
use crate::naive_time::NaiveTime;
use crate::now::Now;
use vstd::prelude::*;

verus! {

/// The day before the day of `now`, or `None` where that is no date.
pub open spec fn spec_yesterday(now: NaiveDateTime) -> Option<NaiveDate> {
    if now.date.can_shift(-1) {
        Some(now.date.shift(-1))
    } else {
        None
    }
}

/// The date-time on `date` at `time`, where there is such a date.
pub open spec fn spec_yesterday_at_time(date: Option<NaiveDate>, time: NaiveTime) -> Option<
    NaiveDateTime,
> {
    match date {
        Some(date) => Some(NaiveDateTime { date, time }),
        None => None,
    }
}

/// The day before the day of `now`, or `None` where that is no date.
pub fn yesterday_at(now: &NaiveDateTime) -> (r: Option<NaiveDate>)
    requires
        now.wf(),
    ensures
        r == spec_yesterday(*now),
        r.is_some() ==> r.unwrap().wf(),
{
    now.date.sub_days_opt(1)
}

/// Midnight of the day before the day of `now`.
pub fn begin_of_yesterday_at(now: &NaiveDateTime) -> (r: Option<NaiveDateTime>)
    requires
        now.wf(),
    ensures
        r == spec_yesterday_at_time(spec_yesterday(*now), NaiveTime::spec_midnight()),
        r.is_some() ==> r.unwrap().wf(),
{
    match yesterday_at(now) {
        Some(date) => Some(NaiveDateTime { date, time: NaiveTime::midnight() }),
        None => None,
    }
}

/// The last moment of the day before the day of `now`.
pub fn end_of_yesterday_at(now: &NaiveDateTime) -> (r: Option<NaiveDateTime>)
    requires
        now.wf(),
    ensures
        r == spec_yesterday_at_time(spec_yesterday(*now), NaiveTime::spec_last()),
        r.is_some() ==> r.unwrap().wf(),
{
    match yesterday_at(now) {
        Some(date) => Some(NaiveDateTime { date, time: NaiveTime::last() }),
        None => None,
    }
}

/// The day before the day of the clock, in UTC: whatever the clock
/// shows, the result is what `yesterday_at` gives for that moment.
pub fn yesterday() -> (r: Option<NaiveDate>)
    ensures
        exists|now: NaiveDateTime| #[trigger] now.wf() && r == spec_yesterday(now),
        r.is_some() ==> r.unwrap().wf(),
{
    let now = Now::utc();
    yesterday_at(&now)
}

/// Midnight of the day before the day of the clock, in UTC: whatever
/// the clock shows, the result is what `begin_of_yesterday_at` gives for that moment.
pub fn begin_of_yesterday() -> (r: Option<NaiveDateTime>)
    ensures
        exists|now: NaiveDateTime| #[trigger]
            now.wf() && r == spec_yesterday_at_time(
                spec_yesterday(now),
                NaiveTime::spec_midnight(),
            ),
        r.is_some() ==> r.unwrap().wf(),
{
    let now = Now::utc();
    begin_of_yesterday_at(&now)
}

/// The last moment of the day before the day of the clock, in UTC:
/// whatever the clock shows, the result is what `end_of_yesterday_at` gives for that
/// moment.
pub fn end_of_yesterday() -> (r: Option<NaiveDateTime>)
    ensures
        exists|now: NaiveDateTime| #[trigger]
            now.wf() && r == spec_yesterday_at_time(spec_yesterday(now), NaiveTime::spec_last()),
        r.is_some() ==> r.unwrap().wf(),
{
    let now = Now::utc();
    end_of_yesterday_at(&now)
}

/// Whether an instant falls on the day before the day of the clock.
pub trait YesterdayHelper: Instant {
    /// Whether this instant falls on the day before the day of `now`.
    fn is_yesterday_at(&self, now: &NaiveDateTime) -> (r: bool)
        requires
            self.wf(),
            now.wf(),
        ensures
            r == (spec_yesterday(*now) == Some(self.moment().date)),
    ;

    /// `is_yesterday_at` the present moment of the clock, in UTC: whatever the
    /// clock shows, the result is what `is_yesterday_at` gives for that moment.
    fn is_yesterday(&self) -> (r: bool)
        requires
            self.wf(),
        ensures
            exists|now: NaiveDateTime| #[trigger]
                now.wf() && r == (spec_yesterday(now) == Some(self.moment().date)),
    ;

    /// `begin_of_yesterday_at` the present moment of the clock, in UTC.
    fn begin_of_yesterday() -> (r: Option<NaiveDateTime>)
        ensures
            exists|now: NaiveDateTime| #[trigger]
                now.wf() && r == spec_yesterday_at_time(
                    spec_yesterday(now),
                    NaiveTime::spec_midnight(),
                ),
            r.is_some() ==> r.unwrap().wf(),
    ;

    /// `end_of_yesterday_at` the present moment of the clock, in UTC.
    fn end_of_yesterday() -> (r: Option<NaiveDateTime>)
        ensures
            exists|now: NaiveDateTime| #[trigger]
                now.wf() && r == spec_yesterday_at_time(
                    spec_yesterday(now),
                    NaiveTime::spec_last(),
                ),
            r.is_some() ==> r.unwrap().wf(),
    ;
}

impl YesterdayHelper for NaiveDate {
    fn is_yesterday_at(&self, now: &NaiveDateTime) -> (r: bool) {
        match yesterday_at(now) {
            Some(day) => day.is_same_day(self),
            None => false,
        }
    }

    fn is_yesterday(&self) -> (r: bool) {
        let now = Now::utc();
        self.is_yesterday_at(&now)
    }

    fn begin_of_yesterday() -> (r: Option<NaiveDateTime>) {
        begin_of_yesterday()
    }

    fn end_of_yesterday() -> (r: Option<NaiveDateTime>) {
        end_of_yesterday()
    }
}

impl YesterdayHelper for NaiveDateTime {
    fn is_yesterday_at(&self, now: &NaiveDateTime) -> (r: bool) {
        match yesterday_at(now) {
            Some(day) => day.is_same_day(&self.date),
            None => false,
        }
    }

    fn is_yesterday(&self) -> (r: bool) {
        let now = Now::utc();
        self.is_yesterday_at(&now)
    }

    fn begin_of_yesterday() -> (r: Option<NaiveDateTime>) {
        begin_of_yesterday()
    }

    fn end_of_yesterday() -> (r: Option<NaiveDateTime>) {
        end_of_yesterday()
    }
}

} // verus!
