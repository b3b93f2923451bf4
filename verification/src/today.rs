//! Today: the day of the clock.

use crate::day::DayHelper;
use crate::instant::Instant;
use crate::naive_date::NaiveDate;
use crate::naive_datetime::NaiveDateTime;
use crate::naive_time::NaiveTime;
use crate::now::Now;
use vstd::prelude::*;

verus! {

/// The day of `now`.
pub fn today_at(now: &NaiveDateTime) -> (r: NaiveDate)
    ensures
        r == now.date,
{
    now.date
}

/// Midnight of the day of `now`.
pub fn begin_of_today_at(now: &NaiveDateTime) -> (r: NaiveDateTime)
    ensures
        r == (NaiveDateTime { date: now.date, time: NaiveTime::spec_midnight() }),
{
    NaiveDateTime { date: now.date, time: NaiveTime::midnight() }
}

/// The last moment of the day of `now`.
pub fn end_of_today_at(now: &NaiveDateTime) -> (r: NaiveDateTime)
    ensures
        r == (NaiveDateTime { date: now.date, time: NaiveTime::spec_last() }),
{
    NaiveDateTime { date: now.date, time: NaiveTime::last() }
}

/// The day of the clock, in UTC: the date of the moment that the clock shows.
pub fn today() -> (r: NaiveDate)
    ensures
        exists|now: NaiveDateTime| #[trigger] now.wf() && r == now.date,
        r.wf(),
{
    let now = Now::utc();
    today_at(&now)
}

/// Midnight of the day of the clock, in UTC.
pub fn begin_of_today() -> (r: NaiveDateTime)
    ensures
        exists|now: NaiveDateTime| #[trigger] now.wf() && r.date == now.date,
        r.wf(),
        r.time == NaiveTime::spec_midnight(),
{
    let now = Now::utc();
    begin_of_today_at(&now)
}

/// The last moment of the day of the clock, in UTC.
pub fn end_of_today() -> (r: NaiveDateTime)
    ensures
        exists|now: NaiveDateTime| #[trigger] now.wf() && r.date == now.date,
        r.wf(),
        r.time == NaiveTime::spec_last(),
{
    let now = Now::utc();
    end_of_today_at(&now)
}

/// Whether an instant falls on the day of the clock.
pub trait TodayHelper: Instant {
    /// Whether this instant falls on the day of `now`.
    fn is_today_at(&self, now: &NaiveDateTime) -> (r: bool)
        ensures
            r == (self.moment().date == now.date),
    ;

    /// `is_today_at` the present moment of the clock, in UTC: whatever the
    /// clock shows, the result is what `is_today_at` gives for that moment.
    fn is_today(&self) -> (r: bool)
        ensures
            exists|now: NaiveDateTime| #[trigger]
                now.wf() && r == (self.moment().date == now.date),
    ;

    /// Midnight of the day of the clock, in UTC.
    fn begin_of_today() -> (r: NaiveDateTime)
        ensures
            exists|now: NaiveDateTime| #[trigger] now.wf() && r.date == now.date,
            r.wf(),
            r.time == NaiveTime::spec_midnight(),
    ;

    /// The last moment of the day of the clock, in UTC.
    fn end_of_today() -> (r: NaiveDateTime)
        ensures
            exists|now: NaiveDateTime| #[trigger] now.wf() && r.date == now.date,
            r.wf(),
            r.time == NaiveTime::spec_last(),
    ;
}

impl TodayHelper for NaiveDate {
    fn is_today_at(&self, now: &NaiveDateTime) -> (r: bool) {
        today_at(now).is_same_day(self)
    }

    fn is_today(&self) -> (r: bool) {
        let now = Now::utc();
        self.is_today_at(&now)
    }

    fn begin_of_today() -> (r: NaiveDateTime) {
        begin_of_today()
    }

    fn end_of_today() -> (r: NaiveDateTime) {
        end_of_today()
    }
}

impl TodayHelper for NaiveDateTime {
    fn is_today_at(&self, now: &NaiveDateTime) -> (r: bool) {
        today_at(now).is_same_day(&self.date)
    }

    fn is_today(&self) -> (r: bool) {
        let now = Now::utc();
        self.is_today_at(&now)
    }

    fn begin_of_today() -> (r: NaiveDateTime) {
        begin_of_today()
    }

    fn end_of_today() -> (r: NaiveDateTime) {
        end_of_today()
    }
}

/// The bounds of the day of the clock, for a kind of instant that has a time
/// of day.
pub trait DayTimeHelper: Instant {
    /// The last moment of the day of the clock, in UTC.
    fn end_of_today() -> (r: Self)
        ensures
            exists|now: NaiveDateTime| #[trigger] now.wf() && r.moment().date == now.date,
            r.wf(),
            r.moment().time == NaiveTime::spec_last(),
    ;

    /// Midnight of the day of the clock, in UTC.
    fn start_of_today() -> (r: Self)
        ensures
            exists|now: NaiveDateTime| #[trigger] now.wf() && r.moment().date == now.date,
            r.wf(),
            r.moment().time == NaiveTime::spec_midnight(),
    ;
}

impl DayTimeHelper for NaiveDateTime {
    fn end_of_today() -> (r: Self) {
        end_of_today()
    }

    fn start_of_today() -> (r: Self) {
        begin_of_today()
    }
}

} // verus!
