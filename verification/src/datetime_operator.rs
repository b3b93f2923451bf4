//! The bounds of a day, an hour and a minute under one trait.

use crate::day::DayHelper;
use crate::hour::HourHelper;
use crate::instant::Instant;
use crate::minute::MinuteHelper;
use crate::naive_datetime::NaiveDateTime;
use crate::naive_time::NaiveTime;
use vstd::prelude::*;

verus! {

/// The first and the last moment of the day, the hour and the minute of a
/// date-time.
pub trait DateTimeOperator: Instant {
    /// Midnight of the day.
    fn begin_of_day(&self) -> (r: Self)
        requires
            self.wf(),
        ensures
            r.wf(),
            r == Self::at(self.moment().date, NaiveTime::spec_midnight()),
            r.moment().spec_le(self.moment()),
    ;

    /// The start of the hour.
    fn begin_of_hour(&self) -> (r: Self)
        requires
            self.wf(),
        ensures
            r.wf(),
            r == Self::at(self.moment().date, self.moment().time.spec_begin_of_hour()),
            r.moment().spec_le(self.moment()),
    ;

    /// The start of the minute.
    fn begin_of_minute(&self) -> (r: Self)
        requires
            self.wf(),
        ensures
            r.wf(),
            r == Self::at(self.moment().date, self.moment().time.spec_begin_of_minute()),
            r.moment().spec_le(self.moment()),
    ;

    /// The last moment of the day.
    fn end_of_day(&self) -> (r: Self)
        requires
            self.wf(),
        ensures
            r.wf(),
            r == Self::at(self.moment().date, NaiveTime::spec_last()),
            self.moment().spec_le(r.moment()),
    ;

    /// The last moment of the hour.
    fn end_of_hour(&self) -> (r: Self)
        requires
            self.wf(),
        ensures
            r.wf(),
            r == Self::at(self.moment().date, self.moment().time.spec_end_of_hour()),
            self.moment().spec_le(r.moment()),
    ;

    /// The last moment of the minute.
    fn end_of_minute(&self) -> (r: Self)
        requires
            self.wf(),
        ensures
            r.wf(),
            r == Self::at(self.moment().date, self.moment().time.spec_end_of_minute()),
            self.moment().spec_le(r.moment()),
    ;
}

impl DateTimeOperator for NaiveDateTime {
    fn begin_of_day(&self) -> (r: Self) {
        DayHelper::begin_of_day(self)
    }

    fn begin_of_hour(&self) -> (r: Self) {
        HourHelper::begin_of_hour(self)
    }

    fn begin_of_minute(&self) -> (r: Self) {
        MinuteHelper::begin_of_minute(self)
    }

    fn end_of_day(&self) -> (r: Self) {
        DayHelper::end_of_day(self)
    }

    fn end_of_hour(&self) -> (r: Self) {
        HourHelper::end_of_hour(self)
    }

    fn end_of_minute(&self) -> (r: Self) {
        MinuteHelper::end_of_minute(self)
    }
}

} // verus!
