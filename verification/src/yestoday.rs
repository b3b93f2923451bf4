//! The day before the day of the clock, under a second spelling of its name.

use crate::instant::Instant;
use crate::naive_date::NaiveDate;
use crate::naive_datetime::NaiveDateTime;
use crate::naive_time::NaiveTime;
use crate::yesterday::{
    begin_of_yesterday, end_of_yesterday, spec_yesterday, spec_yesterday_at_time, yesterday,
    yesterday_at, YesterdayHelper,
};
use vstd::prelude::*;

verus! {

/// The day before the day of `now`, or `None` where that is no date.
pub fn yestoday_at(now: &NaiveDateTime) -> (r: Option<NaiveDate>)
    requires
        now.wf(),
    ensures
        r == spec_yesterday(*now),
        r.is_some() ==> r.unwrap().wf(),
{
    yesterday_at(now)
}

/// The day before the day of the clock, in UTC: whatever the clock shows,
/// the result is what `yestoday_at` gives for that moment.
pub fn yestoday() -> (r: Option<NaiveDate>)
    ensures
        exists|now: NaiveDateTime| #[trigger] now.wf() && r == spec_yesterday(now),
        r.is_some() ==> r.unwrap().wf(),
{
    yesterday()
}

/// Whether an instant falls on the day before the day of the clock.
pub trait YestodayHelper: Instant {
    /// Whether this instant falls on the day before the day of `now`.
    fn is_yestoday_at(&self, now: &NaiveDateTime) -> (r: bool)
        requires
            self.wf(),
            now.wf(),
        ensures
            r == (spec_yesterday(*now) == Some(self.moment().date)),
    ;

    /// `is_yestoday_at` the present moment of the clock, in UTC: whatever
    /// the clock shows, the result is what `is_yestoday_at` gives for that
    /// moment.
    fn is_yestoday(&self) -> (r: bool)
        requires
            self.wf(),
        ensures
            exists|now: NaiveDateTime| #[trigger]
                now.wf() && r == (spec_yesterday(now) == Some(self.moment().date)),
    ;

    /// Midnight of the day before the day of the clock.
    fn begin_of_yestoday() -> (r: Option<NaiveDateTime>)
        ensures
            exists|now: NaiveDateTime| #[trigger]
                now.wf() && r == spec_yesterday_at_time(
                    spec_yesterday(now),
                    NaiveTime::spec_midnight(),
                ),
            r.is_some() ==> r.unwrap().wf(),
    ;

    /// The last moment of the day before the day of the clock.
    fn end_of_yestoday() -> (r: Option<NaiveDateTime>)
        ensures
            exists|now: NaiveDateTime| #[trigger]
                now.wf() && r == spec_yesterday_at_time(
                    spec_yesterday(now),
                    NaiveTime::spec_last(),
                ),
            r.is_some() ==> r.unwrap().wf(),
    ;
}

impl YestodayHelper for NaiveDate {
    fn is_yestoday_at(&self, now: &NaiveDateTime) -> (r: bool) {
        self.is_yesterday_at(now)
    }

    fn is_yestoday(&self) -> (r: bool) {
        self.is_yesterday()
    }

    fn begin_of_yestoday() -> (r: Option<NaiveDateTime>) {
        begin_of_yesterday()
    }

    fn end_of_yestoday() -> (r: Option<NaiveDateTime>) {
        end_of_yesterday()
    }
}

impl YestodayHelper for NaiveDateTime {
    fn is_yestoday_at(&self, now: &NaiveDateTime) -> (r: bool) {
        self.is_yesterday_at(now)
    }

    fn is_yestoday(&self) -> (r: bool) {
        self.is_yesterday()
    }

    fn begin_of_yestoday() -> (r: Option<NaiveDateTime>) {
        begin_of_yesterday()
    }

    fn end_of_yestoday() -> (r: Option<NaiveDateTime>) {
        end_of_yesterday()
    }
}

} // verus!
