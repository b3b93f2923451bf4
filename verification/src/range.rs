//! Stepwise enumeration of the instants of a period.
//!
//! A sequence is a cursor: it holds the instant that comes next, the length
//! of a step and, where the sequence is bounded, the last instant that may
//! come. `next` hands out one instant at a time, so a sequence costs nothing
//! until it is walked and may be dropped at any point.

use crate::calendar::{lemma_day_number_in_month, lemma_year_span, max_day_number};
use crate::common::CommonHelper;
use crate::day::DayHelper;
use crate::hour::HourHelper;
use crate::instant::Instant;
use crate::minute::MinuteHelper;
use crate::month::MonthHelper;
use crate::naive_date::NaiveDate;
use crate::naive_datetime::NaiveDateTime;
use crate::naive_time::NaiveTime;
use crate::quarter::QuarterHelper;
use crate::second::SecondHelper;
use crate::utils::{spec_days_in_month, spec_days_in_year};
use crate::week::WeekHelper;
use crate::weekday::Weekday;
use crate::year::YearHelper;
use vstd::prelude::*;

verus! {

/// The length of one step of a sequence.
#[derive(Clone, Copy, Debug, PartialEq, Eq, Structural)]
pub enum Step {
    Second,
    Minute,
    Hour,
    Day,
    Week,
    Month,
    Quarter,
}

/// A sequence of dates, one step apart.
#[derive(Clone, Copy, Debug, PartialEq, Eq, Structural)]
pub struct DateSteps {
    /// The date that `next` hands out, if the sequence has not ended.
    pub next: Option<NaiveDate>,
    /// The last date that may come, if the sequence is bounded.
    pub end: Option<NaiveDate>,
    /// The length of a step. A step shorter than a day ends the sequence
    /// after its first date.
    pub step: Step,
}

/// A sequence of date-times, one step apart.
#[derive(Clone, Copy, Debug, PartialEq, Eq, Structural)]
pub struct DateTimeSteps {
    /// The date-time that `next` hands out, if the sequence has not ended.
    pub next: Option<NaiveDateTime>,
    /// The last date-time that may come, if the sequence is bounded.
    pub end: Option<NaiveDateTime>,
    /// The length of a step.
    pub step: Step,
}

/// The date one step after `date`, or `None` where that is no date or the
/// step is shorter than a day. A month or a quarter keeps the day of the
/// month, or takes the last day of a shorter month.
pub open spec fn spec_advance_date(date: NaiveDate, step: Step) -> Option<NaiveDate> {
    match step {
        Step::Day => if date.can_shift(1) {
            Some(date.shift(1))
        } else {
            None
        },
        Step::Week => if date.can_shift(7) {
            Some(date.shift(7))
        } else {
            None
        },
        Step::Month => date.spec_add_months(1),
        Step::Quarter => date.spec_add_months(3),
        _ => None,
    }
}

/// The nanoseconds of a step shorter than a day.
pub open spec fn spec_step_nanos(step: Step) -> int {
    match step {
        Step::Second => 1_000_000_000,
        Step::Minute => 60_000_000_000,
        _ => 3_600_000_000_000,
    }
}

/// The date-time one step after `moment`, or `None` where that falls on no
/// date. A step of a day or more keeps the time of day.
pub open spec fn spec_advance(moment: NaiveDateTime, step: Step) -> Option<NaiveDateTime> {
    match step {
        Step::Second | Step::Minute | Step::Hour => if moment.can_shift_nanos(
            spec_step_nanos(step),
        ) {
            Some(moment.shift_nanos(spec_step_nanos(step)))
        } else {
            None
        },
        _ => match spec_advance_date(moment.date, step) {
            Some(date) => Some(NaiveDateTime { date, time: moment.time }),
            None => None,
        },
    }
}

/// The Saturdays and Sundays among the `n` days from `start` on, in order,
/// as instants of kind `T` at midnight.
pub open spec fn weekends_from<T: Instant>(start: NaiveDate, n: nat) -> Seq<T>
    decreases n,
{
    if n == 0 {
        Seq::empty()
    } else {
        let before = weekends_from::<T>(start, (n - 1) as nat);
        let day = start.shift(n - 1);
        if day.spec_weekday().spec_is_weekend() {
            before.push(T::at(day, NaiveTime::spec_midnight()))
        } else {
            before
        }
    }
}

impl DateSteps {
    /// Whether the dates that the sequence holds are dates of the calendar.
    pub open spec fn wf(&self) -> bool {
        &&& self.next.is_some() ==> self.next.unwrap().wf()
        &&& self.end.is_some() ==> self.end.unwrap().wf()
    }

    /// The date that `next` hands out: the one that comes next, unless it is
    /// after the last date that may come.
    pub open spec fn spec_current(&self) -> Option<NaiveDate> {
        match self.next {
            Some(date) => if self.end.is_some() && self.end.unwrap().spec_lt(date) {
                None
            } else {
                Some(date)
            },
            None => None,
        }
    }

    /// The sequence after `next` has handed out one date.
    pub open spec fn spec_rest(&self) -> DateSteps {
        DateSteps {
            next: match self.spec_current() {
                Some(date) => spec_advance_date(date, self.step),
                None => None,
            },
            end: self.end,
            step: self.step,
        }
    }

    /// The date that the call of `next` after `k` earlier calls hands out.
    pub open spec fn spec_nth(&self, k: nat) -> Option<NaiveDate>
        decreases k,
    {
        if k == 0 {
            self.spec_current()
        } else {
            self.spec_rest().spec_nth((k - 1) as nat)
        }
    }

    /// Hands out the next date and moves the sequence one step on. `None`
    /// once the sequence has ended; it then stays ended.
    pub fn next(&mut self) -> (r: Option<NaiveDate>)
        requires
            old(self).wf(),
        ensures
            final(self).wf(),
            *final(self) == old(self).spec_rest(),
            final(self).end == old(self).end,
            final(self).step == old(self).step,
            r == old(self).spec_current(),
            r.is_some() ==> r.unwrap().wf(),
            final(self).next == match r {
                Some(date) => spec_advance_date(date, old(self).step),
                None => None,
            },
    {
        let current = match self.next {
            Some(date) => date,
            None => {
                return None;
            },
        };
        let over: bool = match self.end {
            Some(end) => current.after(&end),
            None => false,
        };
        if over {
            self.next = None;
            return None;
        }
        self.next = match self.step {
            Step::Day => current.add_days_opt(1),
            Step::Week => current.add_days_opt(7),
            Step::Month => current.add_months_opt(1),
            Step::Quarter => current.add_months_opt(3),
            _ => None,
        };
        Some(current)
    }
}

impl DateTimeSteps {
    /// Whether the date-times that the sequence holds exist.
    pub open spec fn wf(&self) -> bool {
        &&& self.next.is_some() ==> self.next.unwrap().wf()
        &&& self.end.is_some() ==> self.end.unwrap().wf()
    }

    /// The date-time that `next` hands out: the one that comes next, unless
    /// it is after the last date-time that may come.
    pub open spec fn spec_current(&self) -> Option<NaiveDateTime> {
        match self.next {
            Some(moment) => if self.end.is_some() && self.end.unwrap().spec_lt(moment) {
                None
            } else {
                Some(moment)
            },
            None => None,
        }
    }

    /// The sequence after `next` has handed out one date-time.
    pub open spec fn spec_rest(&self) -> DateTimeSteps {
        DateTimeSteps {
            next: match self.spec_current() {
                Some(moment) => spec_advance(moment, self.step),
                None => None,
            },
            end: self.end,
            step: self.step,
        }
    }

    /// The date-time that the call of `next` after `k` earlier calls hands
    /// out.
    pub open spec fn spec_nth(&self, k: nat) -> Option<NaiveDateTime>
        decreases k,
    {
        if k == 0 {
            self.spec_current()
        } else {
            self.spec_rest().spec_nth((k - 1) as nat)
        }
    }

    /// Hands out the next date-time and moves the sequence one step on.
    /// `None` once the sequence has ended; it then stays ended.
    pub fn next(&mut self) -> (r: Option<NaiveDateTime>)
        requires
            old(self).wf(),
        ensures
            final(self).wf(),
            *final(self) == old(self).spec_rest(),
            final(self).end == old(self).end,
            final(self).step == old(self).step,
            r == old(self).spec_current(),
            r.is_some() ==> r.unwrap().wf(),
            final(self).next == match r {
                Some(moment) => spec_advance(moment, old(self).step),
                None => None,
            },
    {
        let current = match self.next {
            Some(moment) => moment,
            None => {
                return None;
            },
        };
        let over: bool = match self.end {
            Some(end) => current.after(&end),
            None => false,
        };
        if over {
            self.next = None;
            return None;
        }
        self.next = match self.step {
            Step::Second => current.add_seconds_opt(1),
            Step::Minute => current.add_minutes_opt(1),
            Step::Hour => current.add_hours_opt(1),
            Step::Day => current.add_days_opt(1),
            Step::Week => current.add_days_opt(7),
            Step::Month => current.add_months_opt(1),
            Step::Quarter => current.add_months_opt(3),
        };
        Some(current)
    }
}

/// The days of a month, walked from day `from` on, come out in order up to
/// the last day of the month, and nothing comes after them.
pub proof fn lemma_days_of_month(a: NaiveDate, from: int, k: nat)
    requires
        a.wf(),
        1 <= from <= spec_days_in_month(a.month as int, a.year as int),
    ensures
        (DateSteps {
            next: Some(NaiveDate::spec_ymd(a.year as int, a.month as int, from)),
            end: Some(a.spec_end_of_month()),
            step: Step::Day,
        }).spec_nth(k) == if from + k <= spec_days_in_month(a.month as int, a.year as int) {
            Some(NaiveDate::spec_ymd(a.year as int, a.month as int, from + k))
        } else {
            None
        },
    decreases k,
{
    let last = spec_days_in_month(a.month as int, a.year as int);
    let day = NaiveDate::spec_ymd(a.year as int, a.month as int, from);
    let steps = DateSteps { next: Some(day), end: Some(a.spec_end_of_month()), step: Step::Day };
    if k > 0 {
        if from < last {
            let next = NaiveDate::spec_ymd(a.year as int, a.month as int, from + 1);
            lemma_day_number_in_month(a.year as int, a.month as int, from, from + 1);
            NaiveDate::lemma_shift_is(day, 1, next);
            assert(steps.spec_rest() == (DateSteps {
                next: Some(next),
                end: Some(a.spec_end_of_month()),
                step: Step::Day,
            }));
            lemma_days_of_month(a, from + 1, (k - 1) as nat);
        } else {
            let rest = steps.spec_rest();
            if day.can_shift(1) {
                NaiveDate::lemma_shift(day, 1);
                NaiveDate::lemma_order(day, day.shift(1));
            }
            assert(rest.spec_current().is_none());
            lemma_ended_stays_ended(rest, (k - 1) as nat);
        }
    }
}

/// A sequence that hands out no date hands out none later.
pub proof fn lemma_ended_stays_ended(steps: DateSteps, k: nat)
    requires
        steps.spec_current().is_none(),
    ensures
        steps.spec_nth(k).is_none(),
    decreases k,
{
    if k > 0 {
        lemma_ended_stays_ended(steps.spec_rest(), (k - 1) as nat);
    }
}

/// A sequence that hands out no date-time hands out none later.
pub proof fn lemma_ended_times_stay_ended(steps: DateTimeSteps, k: nat)
    requires
        steps.spec_current().is_none(),
    ensures
        steps.spec_nth(k).is_none(),
    decreases k,
{
    if k > 0 {
        lemma_ended_times_stay_ended(steps.spec_rest(), (k - 1) as nat);
    }
}

/// The days of a month at one time of day, walked from day `from` on, come
/// out in order up to the last day of the month, and nothing comes after
/// them.
pub proof fn lemma_days_of_month_at(a: NaiveDateTime, from: int, k: nat)
    requires
        a.wf(),
        1 <= from <= spec_days_in_month(a.date.month as int, a.date.year as int),
    ensures
        (DateTimeSteps {
            next: Some(
                NaiveDateTime {
                    date: NaiveDate::spec_ymd(a.date.year as int, a.date.month as int, from),
                    time: a.time,
                },
            ),
            end: Some(NaiveDateTime { date: a.date.spec_end_of_month(), time: a.time }),
            step: Step::Day,
        }).spec_nth(k) == if from + k <= spec_days_in_month(
            a.date.month as int,
            a.date.year as int,
        ) {
            Some(
                NaiveDateTime {
                    date: NaiveDate::spec_ymd(a.date.year as int, a.date.month as int, from + k),
                    time: a.time,
                },
            )
        } else {
            None
        },
    decreases k,
{
    let year = a.date.year as int;
    let month = a.date.month as int;
    let last = spec_days_in_month(month, year);
    let day = NaiveDate::spec_ymd(year, month, from);
    let end = NaiveDateTime { date: a.date.spec_end_of_month(), time: a.time };
    let steps = DateTimeSteps {
        next: Some(NaiveDateTime { date: day, time: a.time }),
        end: Some(end),
        step: Step::Day,
    };
    if k > 0 {
        if from < last {
            let next = NaiveDate::spec_ymd(year, month, from + 1);
            lemma_day_number_in_month(year, month, from, from + 1);
            NaiveDate::lemma_shift_is(day, 1, next);
            assert(steps.spec_rest() == (DateTimeSteps {
                next: Some(NaiveDateTime { date: next, time: a.time }),
                end: Some(end),
                step: Step::Day,
            }));
            lemma_days_of_month_at(a, from + 1, (k - 1) as nat);
        } else {
            let rest = steps.spec_rest();
            if day.can_shift(1) {
                NaiveDate::lemma_shift(day, 1);
                NaiveDate::lemma_order(day, day.shift(1));
            }
            assert(rest.spec_current().is_none());
            lemma_ended_times_stay_ended(rest, (k - 1) as nat);
        }
    }
}

/// The months of a year, walked from month `from` on, come out by their
/// first days in order up to December, and nothing comes after them.
pub proof fn lemma_months_of_year(a: NaiveDate, from: int, k: nat)
    requires
        a.wf(),
        1 <= from <= 12,
    ensures
        (DateSteps {
            next: Some(NaiveDate::spec_ymd(a.year as int, from, 1)),
            end: Some(a.spec_end_of_year()),
            step: Step::Month,
        }).spec_nth(k) == if from + k <= 12 {
            Some(NaiveDate::spec_ymd(a.year as int, from + k, 1))
        } else {
            None
        },
    decreases k,
{
    let first = NaiveDate::spec_ymd(a.year as int, from, 1);
    let steps = DateSteps { next: Some(first), end: Some(a.spec_end_of_year()), step: Step::Month };
    if k > 0 {
        if from < 12 {
            assert(first.spec_add_months(1) == Some(NaiveDate::spec_ymd(a.year as int, from + 1, 1)));
            assert(steps.spec_rest() == (DateSteps {
                next: Some(NaiveDate::spec_ymd(a.year as int, from + 1, 1)),
                end: Some(a.spec_end_of_year()),
                step: Step::Month,
            }));
            lemma_months_of_year(a, from + 1, (k - 1) as nat);
        } else {
            let rest = steps.spec_rest();
            assert(rest.spec_current().is_none());
            lemma_ended_stays_ended(rest, (k - 1) as nat);
        }
    }
}

/// The months of a year as date-times, walked from month `from` on, come out
/// by the midnights of their first days in order up to December, and nothing
/// comes after them.
pub proof fn lemma_months_of_year_at(a: NaiveDateTime, from: int, k: nat)
    requires
        a.wf(),
        1 <= from <= 12,
    ensures
        (DateTimeSteps {
            next: Some(
                NaiveDateTime {
                    date: NaiveDate::spec_ymd(a.date.year as int, from, 1),
                    time: NaiveTime::spec_midnight(),
                },
            ),
            end: Some(
                NaiveDateTime { date: a.date.spec_end_of_year(), time: NaiveTime::spec_last() },
            ),
            step: Step::Month,
        }).spec_nth(k) == if from + k <= 12 {
            Some(
                NaiveDateTime {
                    date: NaiveDate::spec_ymd(a.date.year as int, from + k, 1),
                    time: NaiveTime::spec_midnight(),
                },
            )
        } else {
            None
        },
    decreases k,
{
    let year = a.date.year as int;
    let first = NaiveDate::spec_ymd(year, from, 1);
    let end = NaiveDateTime { date: a.date.spec_end_of_year(), time: NaiveTime::spec_last() };
    let steps = DateTimeSteps {
        next: Some(NaiveDateTime { date: first, time: NaiveTime::spec_midnight() }),
        end: Some(end),
        step: Step::Month,
    };
    if k > 0 {
        if from < 12 {
            let next = NaiveDate::spec_ymd(year, from + 1, 1);
            assert(first.spec_add_months(1) == Some(next));
            assert(steps.spec_rest() == (DateTimeSteps {
                next: Some(NaiveDateTime { date: next, time: NaiveTime::spec_midnight() }),
                end: Some(end),
                step: Step::Month,
            }));
            lemma_months_of_year_at(a, from + 1, (k - 1) as nat);
        } else {
            let rest = steps.spec_rest();
            assert(rest.spec_current().is_none());
            lemma_ended_times_stay_ended(rest, (k - 1) as nat);
        }
    }
}

/// Sequences of days, weeks, months and quarters. `S` is the kind of
/// sequence: `DateSteps` for a date, `DateTimeSteps` for a date-time, which
/// keeps its time of day from step to step.
pub trait DateRange<S>: Instant {
    /// The sequence that hands out `first` first, moves on by `step`, and
    /// hands out nothing after `end`, where there is one.
    spec fn spec_steps(first: Self, end: Option<Self>, step: Step) -> S;

    /// Every day from this instant on.
    fn days(&self) -> (r: S)
        requires
            self.wf(),
        ensures
            r == Self::spec_steps(*self, None, Step::Day),
    ;

    /// The days of the month of this instant, first to last; those of a
    /// date-time at its own time of day.
    fn day_in_month_iter(&self) -> (r: S)
        requires
            self.wf(),
        ensures
            r == Self::spec_steps(
                Self::at(self.moment().date.spec_begin_of_month(), self.moment().time),
                Some(Self::at(self.moment().date.spec_end_of_month(), self.moment().time)),
                Step::Day,
            ),
    ;

    /// This instant and every seventh day after it.
    fn weeks(&self) -> (r: S)
        requires
            self.wf(),
        ensures
            r == Self::spec_steps(*self, None, Step::Week),
    ;

    /// The Saturdays and Sundays of the year of this instant, in order, at
    /// midnight.
    fn weekend_in_year_iter(&self) -> (r: Vec<Self>)
        requires
            self.wf(),
        ensures
            r@ == weekends_from::<Self>(
                self.moment().date.spec_begin_of_year(),
                spec_days_in_year(self.moment().date.year as int) as nat,
            ),
    ;

    /// The first day of the month of this instant and of every month after
    /// it; those of a date-time at its own time of day.
    fn months(&self) -> (r: S)
        requires
            self.wf(),
        ensures
            r == Self::spec_steps(
                Self::at(self.moment().date.spec_begin_of_month(), self.moment().time),
                None,
                Step::Month,
            ),
    ;

    /// As `months`, up to `end` and no further.
    fn months_end(&self, end: &Self) -> (r: S)
        requires
            self.wf(),
            end.wf(),
        ensures
            r == Self::spec_steps(
                Self::at(self.moment().date.spec_begin_of_month(), self.moment().time),
                Some(*end),
                Step::Month,
            ),
    ;

    /// The first days of the twelve months of the year of this instant, at
    /// midnight.
    fn month_in_year_iter(&self) -> (r: S)
        requires
            self.wf(),
        ensures
            r == Self::spec_steps(
                Self::at(self.moment().date.spec_begin_of_year(), NaiveTime::spec_midnight()),
                Some(Self::at(self.moment().date.spec_end_of_year(), NaiveTime::spec_last())),
                Step::Month,
            ),
    ;

    /// The seven days of the week of this instant, weeks starting on Monday,
    /// at midnight. Both ends of the week must be dates.
    fn day_in_week_iter(&self) -> (r: S)
        requires
            self.wf(),
            self.moment().date.can_shift(-self.moment().date.spec_week_offset(Weekday::Mon)),
            self.moment().date.can_shift(self.moment().date.spec_week_rest(Weekday::Mon)),
        ensures
            r == Self::spec_steps(
                Self::at(self.moment().date.spec_begin_of_week(Weekday::Mon), NaiveTime::spec_midnight()),
                Some(Self::at(self.moment().date.spec_end_of_week(Weekday::Mon), NaiveTime::spec_last())),
                Step::Day,
            ),
    ;

    /// The seven days of the week of this instant, weeks starting on Sunday,
    /// at midnight. Both ends of the week must be dates.
    fn day_in_week0_iter(&self) -> (r: S)
        requires
            self.wf(),
            self.moment().date.can_shift(-self.moment().date.spec_week_offset(Weekday::Sun)),
            self.moment().date.can_shift(self.moment().date.spec_week_rest(Weekday::Sun)),
        ensures
            r == Self::spec_steps(
                Self::at(self.moment().date.spec_begin_of_week(Weekday::Sun), NaiveTime::spec_midnight()),
                Some(Self::at(self.moment().date.spec_end_of_week(Weekday::Sun), NaiveTime::spec_last())),
                Step::Day,
            ),
    ;

    /// The seven days of the week of this instant, weeks starting on
    /// `weekday`, at midnight. Both ends of the week must be dates.
    fn day_in_week_with_iter(&self, weekday: Weekday) -> (r: S)
        requires
            self.wf(),
            self.moment().date.can_shift(-self.moment().date.spec_week_offset(weekday)),
            self.moment().date.can_shift(self.moment().date.spec_week_rest(weekday)),
        ensures
            r == Self::spec_steps(
                Self::at(self.moment().date.spec_begin_of_week(weekday), NaiveTime::spec_midnight()),
                Some(Self::at(self.moment().date.spec_end_of_week(weekday), NaiveTime::spec_last())),
                Step::Day,
            ),
    ;

    /// The first day of the quarter of this instant and of every quarter
    /// after it, at midnight.
    fn quarters(&self) -> (r: S)
        requires
            self.wf(),
        ensures
            r == Self::spec_steps(
                Self::at(self.moment().date.spec_begin_of_quarter(), NaiveTime::spec_midnight()),
                None,
                Step::Quarter,
            ),
    ;
}

/// Sequences of hours, minutes and seconds. `S` is the kind of sequence.
pub trait TimeRange<S>: Instant {
    /// The sequence that hands out `first` first, moves on by `step`, and
    /// hands out nothing after `end`, where there is one.
    spec fn spec_time_steps(first: Self, end: Option<Self>, step: Step) -> S;

    /// The start of the hour of this instant and of every hour after it.
    fn hours(&self) -> (r: S)
        requires
            self.wf(),
        ensures
            r == Self::spec_time_steps(
                Self::at(self.moment().date, self.moment().time.spec_begin_of_hour()),
                None,
                Step::Hour,
            ),
    ;

    /// The start of the minute of this instant and of every minute after it.
    fn minutes(&self) -> (r: S)
        requires
            self.wf(),
        ensures
            r == Self::spec_time_steps(
                Self::at(self.moment().date, self.moment().time.spec_begin_of_minute()),
                None,
                Step::Minute,
            ),
    ;

    /// The start of the second of this instant and of every second after it.
    fn seconds(&self) -> (r: S)
        requires
            self.wf(),
        ensures
            r == Self::spec_time_steps(
                Self::at(self.moment().date, self.moment().time.spec_begin_of_second()),
                None,
                Step::Second,
            ),
    ;

    /// As `hours`, up to `end` and no further.
    fn hours_with_iter(&self, end: &Self) -> (r: S)
        requires
            self.wf(),
            end.wf(),
        ensures
            r == Self::spec_time_steps(
                Self::at(self.moment().date, self.moment().time.spec_begin_of_hour()),
                Some(*end),
                Step::Hour,
            ),
    ;

    /// As `minutes`, up to `end` and no further.
    fn minutes_with_iter(&self, end: &Self) -> (r: S)
        requires
            self.wf(),
            end.wf(),
        ensures
            r == Self::spec_time_steps(
                Self::at(self.moment().date, self.moment().time.spec_begin_of_minute()),
                Some(*end),
                Step::Minute,
            ),
    ;

    /// As `seconds`, up to `end` and no further.
    fn seconds_with_iter(&self, end: &Self) -> (r: S)
        requires
            self.wf(),
            end.wf(),
        ensures
            r == Self::spec_time_steps(
                Self::at(self.moment().date, self.moment().time.spec_begin_of_second()),
                Some(*end),
                Step::Second,
            ),
    ;
}

/// The Saturdays and Sundays of the year of `date`, in order.
fn weekends_of_year(date: &NaiveDate) -> (r: Vec<NaiveDate>)
    requires
        date.wf(),
    ensures
        r@ == weekends_from::<NaiveDate>(
            date.spec_begin_of_year(),
            spec_days_in_year(date.year as int) as nat,
        ),
        forall|i: int| 0 <= i < r@.len() ==> (#[trigger] r@[i]).wf(),
{
    let start = date.begin_of_year();
    let end = date.end_of_year();
    let days: u64 = if date.is_leap_year() {
        366
    } else {
        365
    };
    let mut out: Vec<NaiveDate> = Vec::new();
    let mut k: u64 = 0;
    proof {
        lemma_year_span(date.year as int);
        NaiveDate::lemma_order(start, end);
    }
    while k < days
        invariant
            start.wf(),
            start == date.spec_begin_of_year(),
            days == spec_days_in_year(date.year as int),
            start.day_number() + days - 1 <= max_day_number(),
            k <= days,
            out@ == weekends_from::<NaiveDate>(start, k as nat),
            forall|i: int| 0 <= i < out@.len() ==> (#[trigger] out@[i]).wf(),
        decreases days - k,
    {
        proof {
            NaiveDate::lemma_order(start, start);
        }
        let day = start.add_days(k);
        if day.is_weekend() {
            out.push(day);
        }
        k += 1;
    }
    out
}

impl DateRange<DateSteps> for NaiveDate {
    open spec fn spec_steps(first: Self, end: Option<Self>, step: Step) -> DateSteps {
        DateSteps { next: Some(first), end, step }
    }

    fn days(&self) -> (r: DateSteps)
        ensures
            r.wf(),
    {
        DateSteps { next: Some(*self), end: None, step: Step::Day }
    }

    fn day_in_month_iter(&self) -> (r: DateSteps)
        ensures
            r.wf(),
    {
        let first = self.begin_of_month();
        let last = self.end_of_month();
        DateSteps { next: Some(first), end: Some(last), step: Step::Day }
    }

    fn weeks(&self) -> (r: DateSteps)
        ensures
            r.wf(),
    {
        DateSteps { next: Some(*self), end: None, step: Step::Week }
    }

    fn weekend_in_year_iter(&self) -> (r: Vec<Self>) {
        weekends_of_year(self)
    }

    fn months(&self) -> (r: DateSteps)
        ensures
            r.wf(),
    {
        DateSteps { next: Some(self.begin_of_month()), end: None, step: Step::Month }
    }

    fn months_end(&self, end: &Self) -> (r: DateSteps)
        ensures
            r.wf(),
    {
        DateSteps { next: Some(self.begin_of_month()), end: Some(*end), step: Step::Month }
    }

    fn month_in_year_iter(&self) -> (r: DateSteps)
        ensures
            r.wf(),
    {
        let first = self.begin_of_year();
        let last = self.end_of_year();
        DateSteps { next: Some(first), end: Some(last), step: Step::Month }
    }

    fn day_in_week_iter(&self) -> (r: DateSteps)
        ensures
            r.wf(),
    {
        self.day_in_week_with_iter(Weekday::Mon)
    }

    fn day_in_week0_iter(&self) -> (r: DateSteps)
        ensures
            r.wf(),
    {
        self.day_in_week_with_iter(Weekday::Sun)
    }

    fn day_in_week_with_iter(&self, weekday: Weekday) -> (r: DateSteps)
        ensures
            r.wf(),
    {
        let first = self.begin_of_week_with(weekday);
        let last = self.end_of_week_with(weekday);
        DateSteps { next: Some(first), end: Some(last), step: Step::Day }
    }

    fn quarters(&self) -> (r: DateSteps)
        ensures
            r.wf(),
    {
        DateSteps { next: Some(self.begin_of_quarter()), end: None, step: Step::Quarter }
    }
}

impl DateRange<DateTimeSteps> for NaiveDateTime {
    open spec fn spec_steps(first: Self, end: Option<Self>, step: Step) -> DateTimeSteps {
        DateTimeSteps { next: Some(first), end, step }
    }

    fn days(&self) -> (r: DateTimeSteps)
        ensures
            r.wf(),
    {
        DateTimeSteps { next: Some(*self), end: None, step: Step::Day }
    }

    fn day_in_month_iter(&self) -> (r: DateTimeSteps)
        ensures
            r.wf(),
    {
        let first = NaiveDateTime { date: self.date.begin_of_month(), time: self.time };
        let last = NaiveDateTime { date: self.date.end_of_month(), time: self.time };
        DateTimeSteps { next: Some(first), end: Some(last), step: Step::Day }
    }

    fn weeks(&self) -> (r: DateTimeSteps)
        ensures
            r.wf(),
    {
        DateTimeSteps { next: Some(*self), end: None, step: Step::Week }
    }

    fn weekend_in_year_iter(&self) -> (r: Vec<Self>) {
        let days = weekends_of_year(&self.date);
        let ghost start = self.date.spec_begin_of_year();
        let ghost total = spec_days_in_year(self.date.year as int) as nat;
        let n: usize = days.len();
        let mut out: Vec<NaiveDateTime> = Vec::new();
        let mut i: usize = 0;
        while i < n
            invariant
                n == days@.len(),
                i <= n,
                out@.len() == i,
                forall|k: int|
                    0 <= k < i ==> out@[k] == (NaiveDateTime {
                        date: days@[k],
                        time: NaiveTime::spec_midnight(),
                    }),
            decreases n - i,
        {
            out.push(NaiveDateTime { date: days[i], time: NaiveTime::midnight() });
            i += 1;
        }
        proof {
            lemma_weekends_at_midnight(start, total);
            assert(out@ =~= weekends_from::<NaiveDateTime>(start, total));
        }
        out
    }

    fn months(&self) -> (r: DateTimeSteps)
        ensures
            r.wf(),
    {
        let first = NaiveDateTime { date: self.date.begin_of_month(), time: self.time };
        DateTimeSteps { next: Some(first), end: None, step: Step::Month }
    }

    fn months_end(&self, end: &Self) -> (r: DateTimeSteps)
        ensures
            r.wf(),
    {
        let first = NaiveDateTime { date: self.date.begin_of_month(), time: self.time };
        DateTimeSteps { next: Some(first), end: Some(*end), step: Step::Month }
    }

    fn month_in_year_iter(&self) -> (r: DateTimeSteps)
        ensures
            r.wf(),
    {
        let first = self.begin_of_year();
        let last = self.end_of_year();
        DateTimeSteps { next: Some(first), end: Some(last), step: Step::Month }
    }

    fn day_in_week_iter(&self) -> (r: DateTimeSteps)
        ensures
            r.wf(),
    {
        self.day_in_week_with_iter(Weekday::Mon)
    }

    fn day_in_week0_iter(&self) -> (r: DateTimeSteps)
        ensures
            r.wf(),
    {
        self.day_in_week_with_iter(Weekday::Sun)
    }

    fn day_in_week_with_iter(&self, weekday: Weekday) -> (r: DateTimeSteps)
        ensures
            r.wf(),
    {
        let first = self.begin_of_week_with(weekday);
        let last = self.end_of_week_with(weekday);
        DateTimeSteps { next: Some(first), end: Some(last), step: Step::Day }
    }

    fn quarters(&self) -> (r: DateTimeSteps)
        ensures
            r.wf(),
    {
        DateTimeSteps { next: Some(self.begin_of_quarter()), end: None, step: Step::Quarter }
    }
}

/// The weekends of a run of days as date-times are those as dates, each at
/// midnight.
proof fn lemma_weekends_at_midnight(start: NaiveDate, n: nat)
    ensures
        weekends_from::<NaiveDateTime>(start, n).len() == weekends_from::<NaiveDate>(
            start,
            n,
        ).len(),
        forall|k: int|
            0 <= k < weekends_from::<NaiveDate>(start, n).len() ==> #[trigger] weekends_from::<
                NaiveDateTime,
            >(start, n)[k] == (NaiveDateTime {
                date: weekends_from::<NaiveDate>(start, n)[k],
                time: NaiveTime::spec_midnight(),
            }),
    decreases n,
{
    if n > 0 {
        lemma_weekends_at_midnight(start, (n - 1) as nat);
    }
}

impl TimeRange<DateTimeSteps> for NaiveDateTime {
    open spec fn spec_time_steps(first: Self, end: Option<Self>, step: Step) -> DateTimeSteps {
        DateTimeSteps { next: Some(first), end, step }
    }

    fn hours(&self) -> (r: DateTimeSteps)
        ensures
            r.wf(),
    {
        DateTimeSteps { next: Some(self.begin_of_hour()), end: None, step: Step::Hour }
    }

    fn minutes(&self) -> (r: DateTimeSteps)
        ensures
            r.wf(),
    {
        DateTimeSteps { next: Some(self.begin_of_minute()), end: None, step: Step::Minute }
    }

    fn seconds(&self) -> (r: DateTimeSteps)
        ensures
            r.wf(),
    {
        DateTimeSteps { next: Some(self.begin_of_second()), end: None, step: Step::Second }
    }

    fn hours_with_iter(&self, end: &Self) -> (r: DateTimeSteps)
        ensures
            r.wf(),
    {
        DateTimeSteps { next: Some(self.begin_of_hour()), end: Some(*end), step: Step::Hour }
    }

    fn minutes_with_iter(&self, end: &Self) -> (r: DateTimeSteps)
        ensures
            r.wf(),
    {
        DateTimeSteps { next: Some(self.begin_of_minute()), end: Some(*end), step: Step::Minute }
    }

    fn seconds_with_iter(&self, end: &Self) -> (r: DateTimeSteps)
        ensures
            r.wf(),
    {
        DateTimeSteps { next: Some(self.begin_of_second()), end: Some(*end), step: Step::Second }
    }
}

} // verus!
