//! What dates and date-times have in common.

use crate::naive_date::NaiveDate;
use crate::naive_datetime::NaiveDateTime;
use crate::naive_time::NaiveTime;
use vstd::prelude::*;

verus! {

/// A point in civil time: a date, or a date with a time of day. The two kinds
/// share every operation of this crate; the contracts speak of both through
/// `moment` and `at`.
pub trait Instant: Sized + Copy {
    /// Whether the value is a day of the calendar, with a time of day that
    /// exists.
    spec fn wf(&self) -> bool;

    /// The value as a date and a time of day. A date stands for its midnight.
    spec fn moment(&self) -> NaiveDateTime;

    /// The instant of this kind on `date` at `time`. A date has no time of
    /// day and drops `time`.
    spec fn at(date: NaiveDate, time: NaiveTime) -> Self;
}

} // verus!
