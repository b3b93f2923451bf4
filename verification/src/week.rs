//! Weeks: weekdays, the bounds of a week under a chosen first weekday, weeks
//! of a month, and differences in weeks.

use crate::calendar::{lemma_day_number_in_month, weekday_index};
use crate::day::DayHelper;
use crate::instant::Instant;
use crate::naive_date::NaiveDate;
use crate::naive_datetime::NaiveDateTime;
use crate::naive_time::{NaiveTime, NANOS_PER_DAY};
use crate::primitive;
use crate::utils::{days_in_month, spec_days_in_month, truncated_quotient};
use crate::weekday::{
    days_forward, days_to_next, lemma_week_arithmetic, lemma_week_starts_apart,
    lemma_weekday_spans, Weekday,
};
use vstd::prelude::*;

verus! {

impl NaiveDate {
    /// Days from the first day of the week that holds this date, when weeks
    /// start on `start`: 0 to 6.
    pub open spec fn spec_week_offset(&self, start: Weekday) -> int {
        days_forward(start.spec_index(), weekday_index(self.day_number()))
    }

    /// Days up to the last day of the week that holds this date, when weeks
    /// start on `start`: 0 to 6.
    pub open spec fn spec_week_rest(&self, start: Weekday) -> int {
        days_forward(weekday_index(self.day_number()), start.spec_index() + 6)
    }

    /// The day number of the first day of the week that holds this date.
    pub open spec fn week_start_number(&self, start: Weekday) -> int {
        self.day_number() - self.spec_week_offset(start)
    }

    /// The first day of the week that holds this date: the last day, this
    /// date or earlier, that falls on `start`.
    pub open spec fn spec_begin_of_week(&self, start: Weekday) -> NaiveDate {
        self.shift(-self.spec_week_offset(start))
    }

    /// The last day of the week that holds this date: six days after the
    /// first.
    pub open spec fn spec_end_of_week(&self, start: Weekday) -> NaiveDate {
        self.shift(self.spec_week_rest(start))
    }

    /// Which week of its month holds this date, counted from 1, when weeks
    /// start on `start`: the whole weeks from the first day of the week that
    /// holds the first of the month, plus one.
    pub open spec fn spec_week_of_month(&self, start: Weekday) -> int {
        (self.day_number() - self.spec_begin_of_month().week_start_number(start)) / 7 + 1
    }

    /// How many weeks the month of this date touches, when weeks start on
    /// `start`.
    pub open spec fn spec_weeks_of_month(&self, start: Weekday) -> int {
        let days = spec_days_in_month(self.month as int, self.year as int);
        (days + self.spec_begin_of_month().spec_week_offset(start) + 6) / 7
    }

    /// Weeks from the week of `other` to the week of this date, when weeks
    /// start on `start`. Negative when `other` is in the later week.
    pub open spec fn spec_diff_calendar_weeks(&self, other: NaiveDate, start: Weekday) -> int {
        (self.week_start_number(start) - other.week_start_number(start)) / 7
    }

    /// Days from this date to the first later day that falls on `weekday`: 1
    /// to 7, 7 when this date falls on `weekday` itself.
    pub open spec fn spec_next_span(&self, weekday: Weekday) -> int {
        days_to_next(weekday_index(self.day_number()), weekday.spec_index())
    }

    /// Days from the last earlier day that falls on `weekday` to this date:
    /// 1 to 7, 7 when this date falls on `weekday` itself.
    pub open spec fn spec_previous_span(&self, weekday: Weekday) -> int {
        days_to_next(weekday.spec_index(), weekday_index(self.day_number()))
    }

    /// Days from the first day of the week that holds this date, when weeks
    /// start on `start`.
    pub fn week_offset(&self, start: Weekday) -> (r: u32)
        requires
            self.wf(),
        ensures
            r == self.spec_week_offset(start),
            r < 7,
    {
        let own: u32 = primitive::weekday_index_of(self);
        let first: u32 = start.num_days_from_monday();
        (own + 7 - first) % 7
    }

    /// The first and the last day of a week are six days apart, the first is
    /// on the starting weekday, and the date lies between them.
    pub proof fn lemma_week_bounds(d: NaiveDate, start: Weekday)
        requires
            d.wf(),
        ensures
            0 <= d.spec_week_offset(start) <= 6,
            d.spec_week_offset(start) + d.spec_week_rest(start) == 6,
            weekday_index(d.week_start_number(start)) == start.spec_index(),
            d.can_shift(-d.spec_week_offset(start)) ==> d.spec_begin_of_week(start).wf()
                && d.spec_begin_of_week(start).spec_le(d) && d.spec_begin_of_week(
                start,
            ).spec_weekday() == start,
            d.can_shift(d.spec_week_rest(start)) ==> d.spec_end_of_week(start).wf() && d.spec_le(
                d.spec_end_of_week(start),
            ),
    {
        lemma_week_arithmetic(d.day_number(), start.spec_index());
        if d.can_shift(-d.spec_week_offset(start)) {
            NaiveDate::lemma_shift(d, -d.spec_week_offset(start));
            NaiveDate::lemma_order(d.spec_begin_of_week(start), d);
        }
        if d.can_shift(d.spec_week_rest(start)) {
            NaiveDate::lemma_shift(d, d.spec_week_rest(start));
            NaiveDate::lemma_order(d, d.spec_end_of_week(start));
        }
    }
}

/// The last day of a week is exactly six days after its first day, whatever
/// the weekday that weeks start on; as moments, the end of the week is one
/// nanosecond short of seven days after its beginning.
pub proof fn lemma_week_is_six_days(i: NaiveDate, start: Weekday)
    requires
        i.wf(),
        i.can_shift(-i.spec_week_offset(start)),
        i.can_shift(i.spec_week_rest(start)),
    ensures
        i.spec_end_of_week(start).day_number() - i.spec_begin_of_week(start).day_number() == 6,
        i.spec_end_of_week(start) == i.spec_begin_of_week(start).shift(6),
        (NaiveDateTime { date: i.spec_end_of_week(start), time: NaiveTime::spec_last() }).nanos()
            - (NaiveDateTime {
            date: i.spec_begin_of_week(start),
            time: NaiveTime::spec_midnight(),
        }).nanos() == 7 * NANOS_PER_DAY - 1,
{
    NaiveDate::lemma_week_bounds(i, start);
    NaiveDate::lemma_shift(i, -i.spec_week_offset(start));
    NaiveDate::lemma_shift(i, i.spec_week_rest(start));
    NaiveDate::lemma_shift_is(i.spec_begin_of_week(start), 6, i.spec_end_of_week(start));
}

/// The week of the month that holds the last day of a month is the number of
/// weeks that the month touches.
pub proof fn lemma_weeks_of_month(a: NaiveDate, start: Weekday)
    requires
        a.wf(),
    ensures
        a.spec_end_of_month().spec_week_of_month(start) == a.spec_weeks_of_month(start),
        a.spec_end_of_month().spec_weeks_of_month(start) == a.spec_weeks_of_month(start),
{
    lemma_day_number_in_month(
        a.year as int,
        a.month as int,
        1,
        spec_days_in_month(a.month as int, a.year as int),
    );
}

/// Operations on the week of an instant. The unmarked functions take weeks to
/// start on Monday, those marked `0` on Sunday, those marked `_with` on the
/// weekday given.
pub trait WeekHelper: Instant {
    /// Whether the instant falls on a Monday.
    fn is_monday(&self) -> (r: bool)
        requires
            self.wf(),
        ensures
            r == (self.moment().date.spec_weekday() == Weekday::Mon),
    ;

    /// Whether the instant falls on a Tuesday.
    fn is_tuesday(&self) -> (r: bool)
        requires
            self.wf(),
        ensures
            r == (self.moment().date.spec_weekday() == Weekday::Tue),
    ;

    /// Whether the instant falls on a Wednesday.
    fn is_wednesday(&self) -> (r: bool)
        requires
            self.wf(),
        ensures
            r == (self.moment().date.spec_weekday() == Weekday::Wed),
    ;

    /// Whether the instant falls on a Thursday.
    fn is_thursday(&self) -> (r: bool)
        requires
            self.wf(),
        ensures
            r == (self.moment().date.spec_weekday() == Weekday::Thu),
    ;

    /// Whether the instant falls on a Friday.
    fn is_friday(&self) -> (r: bool)
        requires
            self.wf(),
        ensures
            r == (self.moment().date.spec_weekday() == Weekday::Fri),
    ;

    /// Whether the instant falls on a Saturday.
    fn is_saturday(&self) -> (r: bool)
        requires
            self.wf(),
        ensures
            r == (self.moment().date.spec_weekday() == Weekday::Sat),
    ;

    /// Whether the instant falls on a Sunday.
    fn is_sunday(&self) -> (r: bool)
        requires
            self.wf(),
        ensures
            r == (self.moment().date.spec_weekday() == Weekday::Sun),
    ;

    /// Whether the instant falls on a Saturday or a Sunday.
    fn is_weekend(&self) -> (r: bool)
        requires
            self.wf(),
        ensures
            r == self.moment().date.spec_weekday().spec_is_weekend(),
    ;

    /// Whether the instant falls on a day from Monday to Friday.
    fn is_workday(&self) -> (r: bool)
        requires
            self.wf(),
        ensures
            r == !self.moment().date.spec_weekday().spec_is_weekend(),
    ;

    /// The instant `week` weeks later, at the same time of day. The day must
    /// be a date.
    fn add_week(&self, week: u64) -> (r: Self)
        requires
            self.wf(),
            self.moment().date.can_shift(7 * week),
        ensures
            r.wf(),
            r == Self::at(self.moment().date.shift(7 * week), self.moment().time),
    ;

    /// The instant `week` weeks later, at the same time of day. The day must
    /// be a date.
    fn add_weeks(&self, week: u64) -> (r: Self)
        requires
            self.wf(),
            self.moment().date.can_shift(7 * week),
        ensures
            r.wf(),
            r == Self::at(self.moment().date.shift(7 * week), self.moment().time),
    ;

    /// The instant `week` weeks later, at the same time of day, or `None`
    /// when that day is past the last date.
    fn add_weeks_opt(&self, week: u64) -> (r: Option<Self>)
        requires
            self.wf(),
        ensures
            r == if self.moment().date.can_shift(7 * week) {
                Some(Self::at(self.moment().date.shift(7 * week), self.moment().time))
            } else {
                None
            },
            r.is_some() ==> r.unwrap().wf(),
    ;

    /// The instant `week` weeks earlier, at the same time of day. The day
    /// must be a date.
    fn sub_week(&self, week: u64) -> (r: Self)
        requires
            self.wf(),
            self.moment().date.can_shift(-(7 * week)),
        ensures
            r.wf(),
            r == Self::at(self.moment().date.shift(-(7 * week)), self.moment().time),
    ;

    /// The instant `week` weeks earlier, at the same time of day. The day
    /// must be a date.
    fn sub_weeks(&self, week: u64) -> (r: Self)
        requires
            self.wf(),
            self.moment().date.can_shift(-(7 * week)),
        ensures
            r.wf(),
            r == Self::at(self.moment().date.shift(-(7 * week)), self.moment().time),
    ;

    /// The instant `week` weeks earlier, at the same time of day, or `None`
    /// when that day is before the first date.
    fn sub_weeks_opt(&self, week: u64) -> (r: Option<Self>)
        requires
            self.wf(),
        ensures
            r == if self.moment().date.can_shift(-(7 * week)) {
                Some(Self::at(self.moment().date.shift(-(7 * week)), self.moment().time))
            } else {
                None
            },
            r.is_some() ==> r.unwrap().wf(),
    ;

    /// The last moment of the week that holds the instant: the last time of
    /// day, six days after the first day of the week. That day must be a date.
    /// Weeks start on Monday.
    fn end_of_week(&self) -> (r: Self)
        requires
            self.wf(),
            self.moment().date.can_shift(self.moment().date.spec_week_rest(Weekday::Mon)),
        ensures
            r.wf(),
            r == Self::at(self.moment().date.spec_end_of_week(Weekday::Mon), NaiveTime::spec_last()),
            self.moment().spec_le(r.moment()),
    ;

    /// The last moment of the week that holds the instant: the last time of
    /// day, six days after the first day of the week. That day must be a date.
    /// Weeks start on Sunday.
    fn end_of_week0(&self) -> (r: Self)
        requires
            self.wf(),
            self.moment().date.can_shift(self.moment().date.spec_week_rest(Weekday::Sun)),
        ensures
            r.wf(),
            r == Self::at(self.moment().date.spec_end_of_week(Weekday::Sun), NaiveTime::spec_last()),
            self.moment().spec_le(r.moment()),
    ;

    /// The last moment of the week that holds the instant: the last time of
    /// day, six days after the first day of the week. That day must be a date.
    /// Weeks start on `weekday`.
    fn end_of_week_with(&self, weekday: Weekday) -> (r: Self)
        requires
            self.wf(),
            self.moment().date.can_shift(self.moment().date.spec_week_rest(weekday)),
        ensures
            r.wf(),
            r == Self::at(self.moment().date.spec_end_of_week(weekday), NaiveTime::spec_last()),
            self.moment().spec_le(r.moment()),
    ;

    /// Weeks from the week of `other` to the week of this instant. Negative
    /// when `other` is in the later week. Weeks start on Monday.
    fn diff_calendar_weeks(&self, other: &Self) -> (r: i64)
        requires
            self.wf(),
            other.wf(),
        ensures
            r == self.moment().date.spec_diff_calendar_weeks(other.moment().date, Weekday::Mon),
    ;

    /// Weeks from the week of `other` to the week of this instant. Negative
    /// when `other` is in the later week. Weeks start on Sunday.
    fn diff_calendar_weeks0(&self, other: &Self) -> (r: i64)
        requires
            self.wf(),
            other.wf(),
        ensures
            r == self.moment().date.spec_diff_calendar_weeks(other.moment().date, Weekday::Sun),
    ;

    /// Weeks from the week of `other` to the week of this instant. Negative
    /// when `other` is in the later week. Weeks start on `weekday`.
    fn diff_calendar_weeks_with(&self, other: &Self, weekday: Weekday) -> (r: i64)
        requires
            self.wf(),
            other.wf(),
        ensures
            r == self.moment().date.spec_diff_calendar_weeks(other.moment().date, weekday),
    ;

    /// The first moment of the week that holds the instant: midnight of the
    /// last day, the instant's or earlier, that falls on the first weekday.
    /// That day must be a date. Weeks start on Monday.
    fn begin_of_week(&self) -> (r: Self)
        requires
            self.wf(),
            self.moment().date.can_shift(-self.moment().date.spec_week_offset(Weekday::Mon)),
        ensures
            r.wf(),
            r == Self::at(self.moment().date.spec_begin_of_week(Weekday::Mon), NaiveTime::spec_midnight()),
            r.moment().spec_le(self.moment()),
    ;

    /// The first moment of the week that holds the instant: midnight of the
    /// last day, the instant's or earlier, that falls on the first weekday.
    /// That day must be a date. Weeks start on Sunday.
    fn begin_of_week0(&self) -> (r: Self)
        requires
            self.wf(),
            self.moment().date.can_shift(-self.moment().date.spec_week_offset(Weekday::Sun)),
        ensures
            r.wf(),
            r == Self::at(self.moment().date.spec_begin_of_week(Weekday::Sun), NaiveTime::spec_midnight()),
            r.moment().spec_le(self.moment()),
    ;

    /// The first moment of the week that holds the instant: midnight of the
    /// last day, the instant's or earlier, that falls on the first weekday.
    /// That day must be a date. Weeks start on `weekday`.
    fn begin_of_week_with(&self, weekday: Weekday) -> (r: Self)
        requires
            self.wf(),
            self.moment().date.can_shift(-self.moment().date.spec_week_offset(weekday)),
        ensures
            r.wf(),
            r == Self::at(self.moment().date.spec_begin_of_week(weekday), NaiveTime::spec_midnight()),
            r.moment().spec_le(self.moment()),
    ;

    /// Which week of its month holds the instant, counted from 1. Weeks start on Monday.
    fn week_of_month(&self) -> (r: u8)
        requires
            self.wf(),
        ensures
            r == self.moment().date.spec_week_of_month(Weekday::Mon),
            1 <= r <= 6,
    ;

    /// Which week of its month holds the instant, counted from 1. Weeks start on Sunday.
    fn week_of_month0(&self) -> (r: u8)
        requires
            self.wf(),
        ensures
            r == self.moment().date.spec_week_of_month(Weekday::Sun),
            1 <= r <= 6,
    ;

    /// Which week of its month holds the instant, counted from 1. Weeks start on `weekday`.
    fn week_of_month_with(&self, weekday: Weekday) -> (r: u8)
        requires
            self.wf(),
        ensures
            r == self.moment().date.spec_week_of_month(weekday),
            1 <= r <= 6,
    ;

    /// How many weeks the month of the instant touches. Weeks start on Monday.
    fn weeks_of_month(&self) -> (r: u8)
        requires
            self.wf(),
        ensures
            r == self.moment().date.spec_weeks_of_month(Weekday::Mon),
            4 <= r <= 6,
    ;

    /// How many weeks the month of the instant touches. Weeks start on Sunday.
    fn weeks_of_month0(&self) -> (r: u8)
        requires
            self.wf(),
        ensures
            r == self.moment().date.spec_weeks_of_month(Weekday::Sun),
            4 <= r <= 6,
    ;

    /// How many weeks the month of the instant touches. Weeks start on `weekday`.
    fn weeks_of_month_with(&self, weekday: Weekday) -> (r: u8)
        requires
            self.wf(),
        ensures
            r == self.moment().date.spec_weeks_of_month(weekday),
            4 <= r <= 6,
    ;

    /// Whether the two instants fall in one week. Weeks start on Monday.
    fn is_same_week(&self, other: &Self) -> (r: bool)
        requires
            self.wf(),
            other.wf(),
        ensures
            r == (self.moment().date.week_start_number(Weekday::Mon) == other.moment().date.week_start_number(Weekday::Mon)),
    ;

    /// Whether the two instants fall in one week. Weeks start on Sunday.
    fn is_same_week0(&self, other: &Self) -> (r: bool)
        requires
            self.wf(),
            other.wf(),
        ensures
            r == (self.moment().date.week_start_number(Weekday::Sun) == other.moment().date.week_start_number(Weekday::Sun)),
    ;

    /// Whether the two instants fall in one week. Weeks start on `weekday`.
    fn is_same_week_with(&self, other: &Self, weekday: Weekday) -> (r: bool)
        requires
            self.wf(),
            other.wf(),
        ensures
            r == (self.moment().date.week_start_number(weekday) == other.moment().date.week_start_number(weekday)),
    ;

    /// Whole weeks of seven days of 24 hours from `other` to this instant,
    /// rounded toward zero. Negative when `other` is later.
    fn diff_weeks(&self, other: &Self) -> (r: i64)
        requires
            self.wf(),
            other.wf(),
        ensures
            r == truncated_quotient(
                self.moment().nanos() - other.moment().nanos(),
                7 * NANOS_PER_DAY,
            ),
    ;

    /// The first day after the day of this instant that falls on `weekday`;
    /// from a date-time, its midnight. It is 1 to 7 days ahead, 7 when the
    /// instant falls on `weekday` itself, and never the instant's own day.
    /// The day must be a date.
    fn next_day(&self, weekday: Weekday) -> (r: Self)
        requires
            self.wf(),
            self.moment().date.can_shift(self.moment().date.spec_next_span(weekday)),
        ensures
            r.wf(),
            r == Self::at(
                self.moment().date.shift(self.moment().date.spec_next_span(weekday)),
                NaiveTime::spec_midnight(),
            ),
            r.moment().date.spec_weekday() == weekday,
            self.moment().date.spec_lt(r.moment().date),
            r.moment().date.day_number() - self.moment().date.day_number() <= 7,
    ;

    /// The last day before the day of this instant that falls on `weekday`;
    /// from a date-time, its midnight. It is 1 to 7 days back, 7 when the
    /// instant falls on `weekday` itself, and never the instant's own day.
    /// The day must be a date.
    fn previous_day(&self, weekday: Weekday) -> (r: Self)
        requires
            self.wf(),
            self.moment().date.can_shift(-self.moment().date.spec_previous_span(weekday)),
        ensures
            r.wf(),
            r == Self::at(
                self.moment().date.shift(-self.moment().date.spec_previous_span(weekday)),
                NaiveTime::spec_midnight(),
            ),
            r.moment().date.spec_weekday() == weekday,
            r.moment().date.spec_lt(self.moment().date),
            self.moment().date.day_number() - r.moment().date.day_number() <= 7,
    ;

    /// `next_day` for Monday.
    fn next_monday(&self) -> (r: Self)
        requires
            self.wf(),
            self.moment().date.can_shift(self.moment().date.spec_next_span(Weekday::Mon)),
        ensures
            r.wf(),
            r == Self::at(
                self.moment().date.shift(self.moment().date.spec_next_span(Weekday::Mon)),
                NaiveTime::spec_midnight(),
            ),
    ;

    /// `next_day` for Tuesday.
    fn next_tuesday(&self) -> (r: Self)
        requires
            self.wf(),
            self.moment().date.can_shift(self.moment().date.spec_next_span(Weekday::Tue)),
        ensures
            r.wf(),
            r == Self::at(
                self.moment().date.shift(self.moment().date.spec_next_span(Weekday::Tue)),
                NaiveTime::spec_midnight(),
            ),
    ;

    /// `next_day` for Wednesday.
    fn next_wednesday(&self) -> (r: Self)
        requires
            self.wf(),
            self.moment().date.can_shift(self.moment().date.spec_next_span(Weekday::Wed)),
        ensures
            r.wf(),
            r == Self::at(
                self.moment().date.shift(self.moment().date.spec_next_span(Weekday::Wed)),
                NaiveTime::spec_midnight(),
            ),
    ;

    /// `next_day` for Thursday.
    fn next_thursday(&self) -> (r: Self)
        requires
            self.wf(),
            self.moment().date.can_shift(self.moment().date.spec_next_span(Weekday::Thu)),
        ensures
            r.wf(),
            r == Self::at(
                self.moment().date.shift(self.moment().date.spec_next_span(Weekday::Thu)),
                NaiveTime::spec_midnight(),
            ),
    ;

    /// `next_day` for Friday.
    fn next_friday(&self) -> (r: Self)
        requires
            self.wf(),
            self.moment().date.can_shift(self.moment().date.spec_next_span(Weekday::Fri)),
        ensures
            r.wf(),
            r == Self::at(
                self.moment().date.shift(self.moment().date.spec_next_span(Weekday::Fri)),
                NaiveTime::spec_midnight(),
            ),
    ;

    /// `next_day` for Saturday.
    fn next_saturday(&self) -> (r: Self)
        requires
            self.wf(),
            self.moment().date.can_shift(self.moment().date.spec_next_span(Weekday::Sat)),
        ensures
            r.wf(),
            r == Self::at(
                self.moment().date.shift(self.moment().date.spec_next_span(Weekday::Sat)),
                NaiveTime::spec_midnight(),
            ),
    ;

    /// `next_day` for Sunday.
    fn next_sunday(&self) -> (r: Self)
        requires
            self.wf(),
            self.moment().date.can_shift(self.moment().date.spec_next_span(Weekday::Sun)),
        ensures
            r.wf(),
            r == Self::at(
                self.moment().date.shift(self.moment().date.spec_next_span(Weekday::Sun)),
                NaiveTime::spec_midnight(),
            ),
    ;

    /// `previous_day` for Monday.
    fn previous_monday(&self) -> (r: Self)
        requires
            self.wf(),
            self.moment().date.can_shift(-self.moment().date.spec_previous_span(Weekday::Mon)),
        ensures
            r.wf(),
            r == Self::at(
                self.moment().date.shift(-self.moment().date.spec_previous_span(Weekday::Mon)),
                NaiveTime::spec_midnight(),
            ),
    ;

    /// `previous_day` for Tuesday.
    fn previous_tuesday(&self) -> (r: Self)
        requires
            self.wf(),
            self.moment().date.can_shift(-self.moment().date.spec_previous_span(Weekday::Tue)),
        ensures
            r.wf(),
            r == Self::at(
                self.moment().date.shift(-self.moment().date.spec_previous_span(Weekday::Tue)),
                NaiveTime::spec_midnight(),
            ),
    ;

    /// `previous_day` for Wednesday.
    fn previous_wednesday(&self) -> (r: Self)
        requires
            self.wf(),
            self.moment().date.can_shift(-self.moment().date.spec_previous_span(Weekday::Wed)),
        ensures
            r.wf(),
            r == Self::at(
                self.moment().date.shift(-self.moment().date.spec_previous_span(Weekday::Wed)),
                NaiveTime::spec_midnight(),
            ),
    ;

    /// `previous_day` for Thursday.
    fn previous_thursday(&self) -> (r: Self)
        requires
            self.wf(),
            self.moment().date.can_shift(-self.moment().date.spec_previous_span(Weekday::Thu)),
        ensures
            r.wf(),
            r == Self::at(
                self.moment().date.shift(-self.moment().date.spec_previous_span(Weekday::Thu)),
                NaiveTime::spec_midnight(),
            ),
    ;

    /// `previous_day` for Friday.
    fn previous_friday(&self) -> (r: Self)
        requires
            self.wf(),
            self.moment().date.can_shift(-self.moment().date.spec_previous_span(Weekday::Fri)),
        ensures
            r.wf(),
            r == Self::at(
                self.moment().date.shift(-self.moment().date.spec_previous_span(Weekday::Fri)),
                NaiveTime::spec_midnight(),
            ),
    ;

    /// `previous_day` for Saturday.
    fn previous_saturday(&self) -> (r: Self)
        requires
            self.wf(),
            self.moment().date.can_shift(-self.moment().date.spec_previous_span(Weekday::Sat)),
        ensures
            r.wf(),
            r == Self::at(
                self.moment().date.shift(-self.moment().date.spec_previous_span(Weekday::Sat)),
                NaiveTime::spec_midnight(),
            ),
    ;

    /// `previous_day` for Sunday.
    fn previous_sunday(&self) -> (r: Self)
        requires
            self.wf(),
            self.moment().date.can_shift(-self.moment().date.spec_previous_span(Weekday::Sun)),
        ensures
            r.wf(),
            r == Self::at(
                self.moment().date.shift(-self.moment().date.spec_previous_span(Weekday::Sun)),
                NaiveTime::spec_midnight(),
            ),
    ;

    /// The last day of the week that holds the instant; from a date-time,
    /// its midnight. That day must be a date. Weeks start on Monday.
    fn last_day_of_week(&self) -> (r: Self)
        requires
            self.wf(),
            self.moment().date.can_shift(self.moment().date.spec_week_rest(Weekday::Mon)),
        ensures
            r.wf(),
            r == Self::at(self.moment().date.spec_end_of_week(Weekday::Mon), NaiveTime::spec_midnight()),
    ;

    /// The last day of the week that holds the instant; from a date-time,
    /// its midnight. That day must be a date. Weeks start on Sunday.
    fn last_day_of_week0(&self) -> (r: Self)
        requires
            self.wf(),
            self.moment().date.can_shift(self.moment().date.spec_week_rest(Weekday::Sun)),
        ensures
            r.wf(),
            r == Self::at(self.moment().date.spec_end_of_week(Weekday::Sun), NaiveTime::spec_midnight()),
    ;

    /// The last day of the week that holds the instant; from a date-time,
    /// its midnight. That day must be a date. Weeks start on `weekday`.
    fn last_day_of_week_with(&self, weekday: Weekday) -> (r: Self)
        requires
            self.wf(),
            self.moment().date.can_shift(self.moment().date.spec_week_rest(weekday)),
        ensures
            r.wf(),
            r == Self::at(self.moment().date.spec_end_of_week(weekday), NaiveTime::spec_midnight()),
    ;

}

impl WeekHelper for NaiveDate {
    fn is_monday(&self) -> (r: bool) {
        self.weekday() == Weekday::Mon
    }

    fn is_tuesday(&self) -> (r: bool) {
        self.weekday() == Weekday::Tue
    }

    fn is_wednesday(&self) -> (r: bool) {
        self.weekday() == Weekday::Wed
    }

    fn is_thursday(&self) -> (r: bool) {
        self.weekday() == Weekday::Thu
    }

    fn is_friday(&self) -> (r: bool) {
        self.weekday() == Weekday::Fri
    }

    fn is_saturday(&self) -> (r: bool) {
        self.weekday() == Weekday::Sat
    }

    fn is_sunday(&self) -> (r: bool) {
        self.weekday() == Weekday::Sun
    }

    fn is_weekend(&self) -> (r: bool) {
        let day = self.weekday();
        day == Weekday::Sat || day == Weekday::Sun
    }

    fn is_workday(&self) -> (r: bool) {
        !self.is_weekend()
    }

    fn add_week(&self, week: u64) -> (r: Self) {
        self.add_weeks(week)
    }

    fn add_weeks(&self, week: u64) -> (r: Self) {
        proof {
            NaiveDate::lemma_order(*self, *self);
        }
        self.add_days(7 * week)
    }

    fn add_weeks_opt(&self, week: u64) -> (r: Option<Self>) {
        proof {
            NaiveDate::lemma_order(*self, *self);
        }
        match week.checked_mul(7) {
            Some(days) => self.add_days_opt(days),
            None => None,
        }
    }

    fn sub_week(&self, week: u64) -> (r: Self) {
        self.sub_weeks(week)
    }

    fn sub_weeks(&self, week: u64) -> (r: Self) {
        proof {
            NaiveDate::lemma_order(*self, *self);
        }
        self.sub_days(7 * week)
    }

    fn sub_weeks_opt(&self, week: u64) -> (r: Option<Self>) {
        proof {
            NaiveDate::lemma_order(*self, *self);
        }
        match week.checked_mul(7) {
            Some(days) => self.sub_days_opt(days),
            None => None,
        }
    }

    fn end_of_week(&self) -> (r: Self) {
        self.end_of_week_with(Weekday::Mon)
    }

    fn end_of_week0(&self) -> (r: Self) {
        self.end_of_week_with(Weekday::Sun)
    }

    fn end_of_week_with(&self, weekday: Weekday) -> (r: Self) {
        let r = primitive::week_last_day(self, weekday.num_days_from_monday());
        proof {
            NaiveDate::lemma_shift_is(*self, self.spec_week_rest(weekday), r);
            NaiveDate::lemma_week_bounds(*self, weekday);
        }
        r
    }

    fn diff_calendar_weeks(&self, other: &Self) -> (r: i64) {
        self.diff_calendar_weeks_with(other, Weekday::Mon)
    }

    fn diff_calendar_weeks0(&self, other: &Self) -> (r: i64) {
        self.diff_calendar_weeks_with(other, Weekday::Sun)
    }

    fn diff_calendar_weeks_with(&self, other: &Self, weekday: Weekday) -> (r: i64) {
        proof {
            NaiveDate::lemma_order(*self, *other);
            lemma_week_starts_apart(self.day_number(), other.day_number(), weekday.spec_index());
        }
        let days: i64 = primitive::days_between(self, other);
        let own: i64 = self.week_offset(weekday) as i64;
        let theirs: i64 = other.week_offset(weekday) as i64;
        let apart: i64 = days - own + theirs;
        assert(apart == self.week_start_number(weekday) - other.week_start_number(weekday));
        assert(apart % 7 == 0);
        apart / 7
    }

    fn begin_of_week(&self) -> (r: Self) {
        self.begin_of_week_with(Weekday::Mon)
    }

    fn begin_of_week0(&self) -> (r: Self) {
        self.begin_of_week_with(Weekday::Sun)
    }

    fn begin_of_week_with(&self, weekday: Weekday) -> (r: Self) {
        let r = primitive::week_first_day(self, weekday.num_days_from_monday());
        proof {
            NaiveDate::lemma_shift_is(*self, -self.spec_week_offset(weekday), r);
            NaiveDate::lemma_week_bounds(*self, weekday);
        }
        r
    }

    fn week_of_month(&self) -> (r: u8) {
        self.week_of_month_with(Weekday::Mon)
    }

    fn week_of_month0(&self) -> (r: u8) {
        self.week_of_month_with(Weekday::Sun)
    }

    fn week_of_month_with(&self, weekday: Weekday) -> (r: u8) {
        let first = NaiveDate { year: self.year, month: self.month, day: 1 };
        let offset: u32 = first.week_offset(weekday);
        proof {
            lemma_day_number_in_month(self.year as int, self.month as int, 1, self.day as int);
        }
        ((self.day - 1 + offset) / 7 + 1) as u8
    }

    fn weeks_of_month(&self) -> (r: u8) {
        self.weeks_of_month_with(Weekday::Mon)
    }

    fn weeks_of_month0(&self) -> (r: u8) {
        self.weeks_of_month_with(Weekday::Sun)
    }

    fn weeks_of_month_with(&self, weekday: Weekday) -> (r: u8) {
        let first = NaiveDate { year: self.year, month: self.month, day: 1 };
        let offset: u32 = first.week_offset(weekday);
        ((days_in_month(self.month, self.year) + offset + 6) / 7) as u8
    }

    fn is_same_week(&self, other: &Self) -> (r: bool) {
        self.is_same_week_with(other, Weekday::Mon)
    }

    fn is_same_week0(&self, other: &Self) -> (r: bool) {
        self.is_same_week_with(other, Weekday::Sun)
    }

    fn is_same_week_with(&self, other: &Self, weekday: Weekday) -> (r: bool) {
        proof {
            NaiveDate::lemma_order(*self, *other);
        }
        let days: i64 = primitive::days_between(self, other);
        let own: i64 = self.week_offset(weekday) as i64;
        let theirs: i64 = other.week_offset(weekday) as i64;
        days - own + theirs == 0
    }

    fn diff_weeks(&self, other: &Self) -> (r: i64) {
        proof {
            NaiveDate::lemma_order(*self, *other);
            let d = self.day_number() - other.day_number();
            assert(self.moment().nanos() - other.moment().nanos() == d * NANOS_PER_DAY);
        }
        primitive::days_between(self, other) / 7
    }

    fn next_day(&self, weekday: Weekday) -> (r: Self) {
        let own: u32 = primitive::weekday_index_of(self);
        let span: u32 = (weekday.num_days_from_monday() + 6 - own) % 7 + 1;
        let r = self.add_days(span as u64);
        proof {
            lemma_weekday_spans(self.day_number(), weekday.spec_index());
            NaiveDate::lemma_shift(*self, span as int);
            NaiveDate::lemma_order(*self, r);
        }
        r
    }

    fn previous_day(&self, weekday: Weekday) -> (r: Self) {
        let own: u32 = primitive::weekday_index_of(self);
        let span: u32 = (own + 6 - weekday.num_days_from_monday()) % 7 + 1;
        let r = self.sub_days(span as u64);
        proof {
            lemma_weekday_spans(self.day_number(), weekday.spec_index());
            NaiveDate::lemma_shift(*self, -(span as int));
            NaiveDate::lemma_order(r, *self);
        }
        r
    }

    fn next_monday(&self) -> (r: Self) {
        self.next_day(Weekday::Mon)
    }

    fn next_tuesday(&self) -> (r: Self) {
        self.next_day(Weekday::Tue)
    }

    fn next_wednesday(&self) -> (r: Self) {
        self.next_day(Weekday::Wed)
    }

    fn next_thursday(&self) -> (r: Self) {
        self.next_day(Weekday::Thu)
    }

    fn next_friday(&self) -> (r: Self) {
        self.next_day(Weekday::Fri)
    }

    fn next_saturday(&self) -> (r: Self) {
        self.next_day(Weekday::Sat)
    }

    fn next_sunday(&self) -> (r: Self) {
        self.next_day(Weekday::Sun)
    }

    fn previous_monday(&self) -> (r: Self) {
        self.previous_day(Weekday::Mon)
    }

    fn previous_tuesday(&self) -> (r: Self) {
        self.previous_day(Weekday::Tue)
    }

    fn previous_wednesday(&self) -> (r: Self) {
        self.previous_day(Weekday::Wed)
    }

    fn previous_thursday(&self) -> (r: Self) {
        self.previous_day(Weekday::Thu)
    }

    fn previous_friday(&self) -> (r: Self) {
        self.previous_day(Weekday::Fri)
    }

    fn previous_saturday(&self) -> (r: Self) {
        self.previous_day(Weekday::Sat)
    }

    fn previous_sunday(&self) -> (r: Self) {
        self.previous_day(Weekday::Sun)
    }

    fn last_day_of_week(&self) -> (r: Self) {
        self.end_of_week_with(Weekday::Mon)
    }

    fn last_day_of_week0(&self) -> (r: Self) {
        self.end_of_week_with(Weekday::Sun)
    }

    fn last_day_of_week_with(&self, weekday: Weekday) -> (r: Self) {
        self.end_of_week_with(weekday)
    }
}

impl WeekHelper for NaiveDateTime {
    fn is_monday(&self) -> (r: bool) {
        self.date.is_monday()
    }

    fn is_tuesday(&self) -> (r: bool) {
        self.date.is_tuesday()
    }

    fn is_wednesday(&self) -> (r: bool) {
        self.date.is_wednesday()
    }

    fn is_thursday(&self) -> (r: bool) {
        self.date.is_thursday()
    }

    fn is_friday(&self) -> (r: bool) {
        self.date.is_friday()
    }

    fn is_saturday(&self) -> (r: bool) {
        self.date.is_saturday()
    }

    fn is_sunday(&self) -> (r: bool) {
        self.date.is_sunday()
    }

    fn is_weekend(&self) -> (r: bool) {
        self.date.is_weekend()
    }

    fn is_workday(&self) -> (r: bool) {
        self.date.is_workday()
    }

    fn add_week(&self, week: u64) -> (r: Self) {
        NaiveDateTime { date: self.date.add_weeks(week), time: self.time }
    }

    fn add_weeks(&self, week: u64) -> (r: Self) {
        NaiveDateTime { date: self.date.add_weeks(week), time: self.time }
    }

    fn add_weeks_opt(&self, week: u64) -> (r: Option<Self>) {
        match self.date.add_weeks_opt(week) {
            Some(date) => Some(NaiveDateTime { date, time: self.time }),
            None => None,
        }
    }

    fn sub_week(&self, week: u64) -> (r: Self) {
        NaiveDateTime { date: self.date.sub_weeks(week), time: self.time }
    }

    fn sub_weeks(&self, week: u64) -> (r: Self) {
        NaiveDateTime { date: self.date.sub_weeks(week), time: self.time }
    }

    fn sub_weeks_opt(&self, week: u64) -> (r: Option<Self>) {
        match self.date.sub_weeks_opt(week) {
            Some(date) => Some(NaiveDateTime { date, time: self.time }),
            None => None,
        }
    }

    fn end_of_week(&self) -> (r: Self) {
        self.end_of_week_with(Weekday::Mon)
    }

    fn end_of_week0(&self) -> (r: Self) {
        self.end_of_week_with(Weekday::Sun)
    }

    fn end_of_week_with(&self, weekday: Weekday) -> (r: Self) {
        NaiveDateTime { date: self.date.end_of_week_with(weekday), time: NaiveTime::last() }
    }

    fn diff_calendar_weeks(&self, other: &Self) -> (r: i64) {
        self.date.diff_calendar_weeks_with(&other.date, Weekday::Mon)
    }

    fn diff_calendar_weeks0(&self, other: &Self) -> (r: i64) {
        self.date.diff_calendar_weeks_with(&other.date, Weekday::Sun)
    }

    fn diff_calendar_weeks_with(&self, other: &Self, weekday: Weekday) -> (r: i64) {
        self.date.diff_calendar_weeks_with(&other.date, weekday)
    }

    fn begin_of_week(&self) -> (r: Self) {
        self.begin_of_week_with(Weekday::Mon)
    }

    fn begin_of_week0(&self) -> (r: Self) {
        self.begin_of_week_with(Weekday::Sun)
    }

    fn begin_of_week_with(&self, weekday: Weekday) -> (r: Self) {
        NaiveDateTime { date: self.date.begin_of_week_with(weekday), time: NaiveTime::midnight() }
    }

    fn week_of_month(&self) -> (r: u8) {
        self.date.week_of_month_with(Weekday::Mon)
    }

    fn week_of_month0(&self) -> (r: u8) {
        self.date.week_of_month_with(Weekday::Sun)
    }

    fn week_of_month_with(&self, weekday: Weekday) -> (r: u8) {
        self.date.week_of_month_with(weekday)
    }

    fn weeks_of_month(&self) -> (r: u8) {
        self.date.weeks_of_month_with(Weekday::Mon)
    }

    fn weeks_of_month0(&self) -> (r: u8) {
        self.date.weeks_of_month_with(Weekday::Sun)
    }

    fn weeks_of_month_with(&self, weekday: Weekday) -> (r: u8) {
        self.date.weeks_of_month_with(weekday)
    }

    fn is_same_week(&self, other: &Self) -> (r: bool) {
        self.date.is_same_week_with(&other.date, Weekday::Mon)
    }

    fn is_same_week0(&self, other: &Self) -> (r: bool) {
        self.date.is_same_week_with(&other.date, Weekday::Sun)
    }

    fn is_same_week_with(&self, other: &Self, weekday: Weekday) -> (r: bool) {
        self.date.is_same_week_with(&other.date, weekday)
    }

    fn diff_weeks(&self, other: &Self) -> (r: i64) {
        self.diff_days(other) / 7
    }

    fn next_day(&self, weekday: Weekday) -> (r: Self) {
        NaiveDateTime { date: self.date.next_day(weekday), time: NaiveTime::midnight() }
    }

    fn previous_day(&self, weekday: Weekday) -> (r: Self) {
        NaiveDateTime { date: self.date.previous_day(weekday), time: NaiveTime::midnight() }
    }

    fn next_monday(&self) -> (r: Self) {
        self.next_day(Weekday::Mon)
    }

    fn next_tuesday(&self) -> (r: Self) {
        self.next_day(Weekday::Tue)
    }

    fn next_wednesday(&self) -> (r: Self) {
        self.next_day(Weekday::Wed)
    }

    fn next_thursday(&self) -> (r: Self) {
        self.next_day(Weekday::Thu)
    }

    fn next_friday(&self) -> (r: Self) {
        self.next_day(Weekday::Fri)
    }

    fn next_saturday(&self) -> (r: Self) {
        self.next_day(Weekday::Sat)
    }

    fn next_sunday(&self) -> (r: Self) {
        self.next_day(Weekday::Sun)
    }

    fn previous_monday(&self) -> (r: Self) {
        self.previous_day(Weekday::Mon)
    }

    fn previous_tuesday(&self) -> (r: Self) {
        self.previous_day(Weekday::Tue)
    }

    fn previous_wednesday(&self) -> (r: Self) {
        self.previous_day(Weekday::Wed)
    }

    fn previous_thursday(&self) -> (r: Self) {
        self.previous_day(Weekday::Thu)
    }

    fn previous_friday(&self) -> (r: Self) {
        self.previous_day(Weekday::Fri)
    }

    fn previous_saturday(&self) -> (r: Self) {
        self.previous_day(Weekday::Sat)
    }

    fn previous_sunday(&self) -> (r: Self) {
        self.previous_day(Weekday::Sun)
    }

    fn last_day_of_week(&self) -> (r: Self) {
        self.last_day_of_week_with(Weekday::Mon)
    }

    fn last_day_of_week0(&self) -> (r: Self) {
        self.last_day_of_week_with(Weekday::Sun)
    }

    fn last_day_of_week_with(&self, weekday: Weekday) -> (r: Self) {
        NaiveDateTime { date: self.date.end_of_week_with(weekday), time: NaiveTime::midnight() }
    }
}

} // verus!
