//! Tomorrow: the day after the day of the clock.

use crate::day::DayHelper;
use crate::instant::Instant;
use crate::naive_date::NaiveDate;
use crate::naive_datetime::NaiveDateTime;
use crate::naive_time::NaiveTime;
use crate::now::Now;
use vstd::prelude::*;

verus! {

/// The day after the day of `now`, or `None` where that is no date.
pub open spec fn spec_tomorrow(now: NaiveDateTime) -> Option<NaiveDate> {
    if now.date.can_shift(1) {
        Some(now.date.shift(1))
    } else {
        None
    }
}

/// The date-time on `date` at `time`, where there is such a date.
pub open spec fn spec_tomorrow_at_time(date: Option<NaiveDate>, time: NaiveTime) -> Option<
    NaiveDateTime,
> {
    match date {
        Some(date) => Some(NaiveDateTime { date, time }),
        None => None,
    }
}

/// The day after the day of `now`, or `None` where that is no date.
pub fn tomorrow_at(now: &NaiveDateTime) -> (r: Option<NaiveDate>)
    requires
        now.wf(),
    ensures
        r == spec_tomorrow(*now),
        r.is_some() ==> r.unwrap().wf(),
{
    now.date.add_days_opt(1)
}

/// Midnight of the day after the day of `now`.
pub fn begin_of_tomorrow_at(now: &NaiveDateTime) -> (r: Option<NaiveDateTime>)
    requires
        now.wf(),
    ensures
        r == spec_tomorrow_at_time(spec_tomorrow(*now), NaiveTime::spec_midnight()),
        r.is_some() ==> r.unwrap().wf(),
{
    match tomorrow_at(now) {
        Some(date) => Some(NaiveDateTime { date, time: NaiveTime::midnight() }),
        None => None,
    }
}

/// The last moment of the day after the day of `now`.
pub fn end_of_tomorrow_at(now: &NaiveDateTime) -> (r: Option<NaiveDateTime>)
    requires
        now.wf(),
    ensures
        r == spec_tomorrow_at_time(spec_tomorrow(*now), NaiveTime::spec_last()),
        r.is_some() ==> r.unwrap().wf(),
{
    match tomorrow_at(now) {
        Some(date) => Some(NaiveDateTime { date, time: NaiveTime::last() }),
        None => None,
    }
}

/// The day after the day of the clock, in UTC: whatever the clock
/// shows, the result is what `tomorrow_at` gives for that moment.
pub fn tomorrow() -> (r: Option<NaiveDate>)
    ensures
        exists|now: NaiveDateTime| #[trigger] now.wf() && r == spec_tomorrow(now),
        r.is_some() ==> r.unwrap().wf(),
{
    let now = Now::utc();
    tomorrow_at(&now)
}

/// Midnight of the day after the day of the clock, in UTC: whatever
/// the clock shows, the result is what `begin_of_tomorrow_at` gives for that moment.
pub fn begin_of_tomorrow() -> (r: Option<NaiveDateTime>)
    ensures
        exists|now: NaiveDateTime| #[trigger]
            now.wf() && r == spec_tomorrow_at_time(
                spec_tomorrow(now),
                NaiveTime::spec_midnight(),
            ),
        r.is_some() ==> r.unwrap().wf(),
{
    let now = Now::utc();
    begin_of_tomorrow_at(&now)
}

/// The last moment of the day after the day of the clock, in UTC:
/// whatever the clock shows, the result is what `end_of_tomorrow_at` gives for that
/// moment.
pub fn end_of_tomorrow() -> (r: Option<NaiveDateTime>)
    ensures
        exists|now: NaiveDateTime| #[trigger]
            now.wf() && r == spec_tomorrow_at_time(spec_tomorrow(now), NaiveTime::spec_last()),
        r.is_some() ==> r.unwrap().wf(),
{
    let now = Now::utc();
    end_of_tomorrow_at(&now)
}

/// Whether an instant falls on the day after the day of the clock.
pub trait TomorrowHelper: Instant {
    /// Whether this instant falls on the day after the day of `now`.
    fn is_tomorrow_at(&self, now: &NaiveDateTime) -> (r: bool)
        requires
            self.wf(),
            now.wf(),
        ensures
            r == (spec_tomorrow(*now) == Some(self.moment().date)),
    ;

    /// `is_tomorrow_at` the present moment of the clock, in UTC: whatever the
    /// clock shows, the result is what `is_tomorrow_at` gives for that moment.
    fn is_tomorrow(&self) -> (r: bool)
        requires
            self.wf(),
        ensures
            exists|now: NaiveDateTime| #[trigger]
                now.wf() && r == (spec_tomorrow(now) == Some(self.moment().date)),
    ;

    /// `begin_of_tomorrow_at` the present moment of the clock, in UTC.
    fn begin_of_tomorrow() -> (r: Option<NaiveDateTime>)
        ensures
            exists|now: NaiveDateTime| #[trigger]
                now.wf() && r == spec_tomorrow_at_time(
                    spec_tomorrow(now),
                    NaiveTime::spec_midnight(),
                ),
            r.is_some() ==> r.unwrap().wf(),
    ;

    /// `end_of_tomorrow_at` the present moment of the clock, in UTC.
    fn end_of_tomorrow() -> (r: Option<NaiveDateTime>)
        ensures
            exists|now: NaiveDateTime| #[trigger]
                now.wf() && r == spec_tomorrow_at_time(
                    spec_tomorrow(now),
                    NaiveTime::spec_last(),
                ),
            r.is_some() ==> r.unwrap().wf(),
    ;
}

impl TomorrowHelper for NaiveDate {
    fn is_tomorrow_at(&self, now: &NaiveDateTime) -> (r: bool) {
        match tomorrow_at(now) {
            Some(day) => day.is_same_day(self),
            None => false,
        }
    }

    fn is_tomorrow(&self) -> (r: bool) {
        let now = Now::utc();
        self.is_tomorrow_at(&now)
    }

    fn begin_of_tomorrow() -> (r: Option<NaiveDateTime>) {
        begin_of_tomorrow()
    }

    fn end_of_tomorrow() -> (r: Option<NaiveDateTime>) {
        end_of_tomorrow()
    }
}

impl TomorrowHelper for NaiveDateTime {
    fn is_tomorrow_at(&self, now: &NaiveDateTime) -> (r: bool) {
        match tomorrow_at(now) {
            Some(day) => day.is_same_day(&self.date),
            None => false,
        }
    }

    fn is_tomorrow(&self) -> (r: bool) {
        let now = Now::utc();
        self.is_tomorrow_at(&now)
    }

    fn begin_of_tomorrow() -> (r: Option<NaiveDateTime>) {
        begin_of_tomorrow()
    }

    fn end_of_tomorrow() -> (r: Option<NaiveDateTime>) {
        end_of_tomorrow()
    }
}

} // verus!
