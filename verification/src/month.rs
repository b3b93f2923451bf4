//! Months: the bounds of a month, month arithmetic, differences in months,
//! and the days and weekends of a month.

use crate::calendar::lemma_day_number_in_month;
use crate::common::CommonHelper;
use crate::day::DayHelper;
use crate::instant::Instant;
use crate::naive_date::NaiveDate;
use crate::naive_datetime::NaiveDateTime;
use crate::naive_time::NaiveTime;
use crate::primitive;
use crate::utils::{days_in_month, month_type, spec_days_in_month, MonthType};
use crate::week::WeekHelper;
use crate::weekday::Weekday;
use vstd::prelude::*;

verus! {

impl NaiveDate {
    /// The first day of the month of this date.
    pub open spec fn spec_begin_of_month(&self) -> NaiveDate {
        NaiveDate { year: self.year, month: self.month, day: 1 }
    }

    /// The last day of the month of this date.
    pub open spec fn spec_end_of_month(&self) -> NaiveDate {
        NaiveDate {
            year: self.year,
            month: self.month,
            day: spec_days_in_month(self.month as int, self.year as int) as u32,
        }
    }

    /// The number of the month when months are counted through the years.
    pub open spec fn spec_month_index(&self) -> int {
        self.year * 12 + self.month - 1
    }

    /// Months from the month of `other` to the month of this date, the days
    /// of the month left aside. Negative when `other` is in the later month.
    pub open spec fn spec_diff_calendar_months(&self, other: NaiveDate) -> int {
        self.spec_month_index() - other.spec_month_index()
    }
}

impl NaiveDateTime {
    /// The date-time `k` months later, at the same time of day: see
    /// `NaiveDate::spec_add_months`.
    pub open spec fn spec_add_months(&self, k: int) -> Option<NaiveDateTime> {
        match self.date.spec_add_months(k) {
            Some(date) => Some(NaiveDateTime { date, time: self.time }),
            None => None,
        }
    }

    /// Whole months from `earlier` up to this date-time, which is not before
    /// it: the months between their calendar months, less one where
    /// `earlier`, moved on by that many months, comes after this date-time.
    pub open spec fn spec_elapsed_months(&self, earlier: NaiveDateTime) -> int {
        let months = self.date.spec_diff_calendar_months(earlier.date);
        if self.spec_lt(earlier.spec_add_months(months).unwrap()) {
            months - 1
        } else {
            months
        }
    }

    /// Whole months from `other` to this date-time, rounded toward zero.
    /// Negative when `other` is later.
    pub open spec fn spec_diff_months(&self, other: NaiveDateTime) -> int {
        if other.spec_le(*self) {
            self.spec_elapsed_months(other)
        } else {
            -other.spec_elapsed_months(*self)
        }
    }

    /// A date-time moved on by the months up to the calendar month of a later
    /// one lands in that month.
    pub proof fn lemma_add_months_lands(earlier: NaiveDateTime, later: NaiveDateTime)
        requires
            earlier.wf(),
            later.wf(),
        ensures
            ({
                let months = later.date.spec_diff_calendar_months(earlier.date);
                let moved = earlier.spec_add_months(months);
                &&& moved.is_some()
                &&& moved.unwrap().wf()
                &&& moved.unwrap().date.year == later.date.year
                &&& moved.unwrap().date.month == later.date.month
            }),
    {
    }
}

/// A month starts no later and ends no earlier than any of its days, and its
/// last day is a day of the calendar.
pub proof fn lemma_month_bounds(a: NaiveDate)
    requires
        a.wf(),
    ensures
        a.spec_begin_of_month().wf(),
        a.spec_end_of_month().wf(),
        a.spec_begin_of_month().spec_le(a),
        a.spec_le(a.spec_end_of_month()),
{
}

/// The months from `b` to `a` are the months from `a` to `b` with the sign
/// turned.
pub proof fn lemma_diff_calendar_months_antisymmetric(a: NaiveDate, b: NaiveDate)
    ensures
        a.spec_diff_calendar_months(b) == -b.spec_diff_calendar_months(a),
{
}

/// The month of the last day of a month starts where that month starts, and
/// ends where it ends.
pub proof fn lemma_begin_of_month_of_end(a: NaiveDate)
    requires
        a.wf(),
    ensures
        a.spec_end_of_month().spec_begin_of_month() == a.spec_begin_of_month(),
        a.spec_begin_of_month().spec_end_of_month() == a.spec_end_of_month(),
{
}

/// The first `n` days of `month` of `year`, in order, as instants of kind `T`
/// at midnight.
pub open spec fn month_days<T: Instant>(year: i32, month: u32, n: nat) -> Seq<T> {
    Seq::new(
        n,
        |i: int| T::at(NaiveDate { year, month, day: (i + 1) as u32 }, NaiveTime::spec_midnight()),
    )
}

/// The Saturdays and Sundays among the first `n` days of `month` of `year`,
/// in order, as instants of kind `T` at midnight.
pub open spec fn weekend_days<T: Instant>(year: i32, month: u32, n: nat) -> Seq<T>
    decreases n,
{
    if n == 0 {
        Seq::empty()
    } else {
        let before = weekend_days::<T>(year, month, (n - 1) as nat);
        let day = NaiveDate { year, month, day: n as u32 };
        if day.spec_weekday().spec_is_weekend() {
            before.push(T::at(day, NaiveTime::spec_midnight()))
        } else {
            before
        }
    }
}

/// The elements of `range` taken two by two: each pair holds two neighbours,
/// and the last pair holds `None` second where the number of elements is odd.
pub open spec fn spec_collect_sat_sun<T>(range: Seq<T>) -> Seq<(Option<T>, Option<T>)> {
    Seq::new(
        ((range.len() + 1) / 2) as nat,
        |i: int|
            (
                Some(range[2 * i]),
                if 2 * i + 1 < range.len() {
                    Some(range[2 * i + 1])
                } else {
                    None
                },
            ),
    )
}

/// The weekend days `range` of a month as pairs of a Saturday and the Sunday
/// after it. Where the first day is no Saturday, the first pair is that day
/// alone in second place.
pub open spec fn spec_each_weekend<T: Instant>(range: Seq<T>) -> Seq<(Option<T>, Option<T>)> {
    if range.len() == 0 {
        Seq::empty()
    } else if range[0].moment().date.spec_weekday() == Weekday::Sat {
        spec_collect_sat_sun(range)
    } else {
        seq![(None, Some(range[0]))] + spec_collect_sat_sun(range.skip(1))
    }
}

/// The elements of `range` taken two by two, as `spec_collect_sat_sun` says.
pub fn collect_sat_sun<T: Copy>(range: &[T]) -> (r: Vec<(Option<T>, Option<T>)>)
    ensures
        r@ == spec_collect_sat_sun(range@),
{
    let n: usize = range.len();
    let pairs: usize = n / 2 + n % 2;
    let mut out: Vec<(Option<T>, Option<T>)> = Vec::new();
    let mut k: usize = 0;
    while k < pairs
        invariant
            n == range@.len(),
            pairs == (n + 1) / 2,
            k <= pairs,
            out@.len() == k,
            forall|j: int| 0 <= j < out@.len() ==> out@[j] == spec_collect_sat_sun(range@)[j],
        decreases pairs - k,
    {
        let first: usize = 2 * k;
        let second: Option<T> = if first + 1 < n {
            Some(range[first + 1])
        } else {
            None
        };
        out.push((Some(range[first]), second));
        k += 1;
    }
    assert(out@ =~= spec_collect_sat_sun(range@));
    out
}

/// The weekend days `range` of a month as pairs, as `spec_each_weekend` says.
pub fn each_weekend<T: WeekHelper>(range: &[T]) -> (r: Vec<(Option<T>, Option<T>)>)
    requires
        forall|i: int| 0 <= i < range@.len() ==> (#[trigger] range@[i]).wf(),
    ensures
        r@ == spec_each_weekend(range@),
{
    if range.len() == 0 {
        return Vec::new();
    }
    if range[0].is_saturday() {
        collect_sat_sun(range)
    } else {
        let n: usize = range.len();
        let mut rest: Vec<T> = Vec::new();
        let mut i: usize = 1;
        while i < n
            invariant
                n == range@.len(),
                1 <= i <= n,
                rest@ == range@.subrange(1, i as int),
            decreases n - i,
        {
            rest.push(range[i]);
            assert(range@.subrange(1, i as int).push(range@[i as int]) =~= range@.subrange(
                1,
                i + 1,
            ));
            i += 1;
        }
        assert(rest@ =~= range@.skip(1));
        let mut result: Vec<(Option<T>, Option<T>)> = Vec::new();
        result.push((None, Some(range[0])));
        let mut pairs = collect_sat_sun(rest.as_slice());
        result.append(&mut pairs);
        result
    }
}

/// The instant `count` days after `start`, where it is not after `end`; the
/// count then goes up by one. `None`, and the count unchanged, where that
/// day is after `end` or past the last date.
pub fn date_from_fn<T: DayHelper + CommonHelper>(start: T, end: T, count: &mut u64) -> (r: Option<
    T,
>)
    requires
        start.wf(),
        end.wf(),
    ensures
        r == ({
            let date = start.moment().date;
            let n = *old(count) as int;
            let current = T::at(date.shift(n), start.moment().time);
            if date.can_shift(n) && !end.moment().spec_lt(current.moment()) && n < u64::MAX {
                Some(current)
            } else {
                None
            }
        }),
        *final(count) == if r.is_some() {
            *old(count) + 1
        } else {
            *old(count) as int
        },
{
    if *count == u64::MAX {
        return None;
    }
    match start.add_days_opt(*count) {
        Some(current) => {
            if current.after(&end) {
                None
            } else {
                *count += 1;
                Some(current)
            }
        },
        None => None,
    }
}

/// The days of a month as a list.
pub trait Range<T: Instant>: Instant {
    /// Every day of the month of this instant, from the first to the last,
    /// each at midnight.
    fn range(&self) -> (r: Vec<T>)
        requires
            self.wf(),
        ensures
            r@ == month_days::<T>(
                self.moment().date.year,
                self.moment().date.month,
                spec_days_in_month(
                    self.moment().date.month as int,
                    self.moment().date.year as int,
                ) as nat,
            ),
            forall|i: int| 0 <= i < r@.len() ==> (#[trigger] r@[i]).wf(),
    ;
}

/// Operations on the month of an instant.
pub trait MonthHelper: Instant {
    /// The first moment of the month: midnight of its first day.
    fn begin_of_month(&self) -> (r: Self)
        requires
            self.wf(),
        ensures
            r.wf(),
            r == Self::at(self.moment().date.spec_begin_of_month(), NaiveTime::spec_midnight()),
            r.moment().spec_le(self.moment()),
    ;

    /// The last moment of the month: the last time of day of its last day,
    /// which is the 28th, 29th, 30th or 31st as the calendar has it.
    fn end_of_month(&self) -> (r: Self)
        requires
            self.wf(),
        ensures
            r.wf(),
            r == Self::at(self.moment().date.spec_end_of_month(), NaiveTime::spec_last()),
            self.moment().spec_le(r.moment()),
    ;

    /// Whether the two instants fall in one month of one year.
    fn is_same_month(&self, other: &Self) -> (r: bool)
        ensures
            r == (self.moment().date.year == other.moment().date.year && self.moment().date.month
                == other.moment().date.month),
    ;

    /// The instant `month` months later (earlier, for a negative number), on
    /// the same day of the month or on the last day of a shorter month, at
    /// the same time of day. The year reached must be in range.
    fn add_months(&self, month: i64) -> (r: Self)
        requires
            self.wf(),
            self.moment().date.spec_add_months(month as int).is_some(),
        ensures
            r.wf(),
            r == Self::at(
                self.moment().date.spec_add_months(month as int).unwrap(),
                self.moment().time,
            ),
    ;

    /// As `add_months`, or `None` when the year reached is out of range.
    fn add_months_opt(&self, month: i64) -> (r: Option<Self>)
        requires
            self.wf(),
        ensures
            r == match self.moment().date.spec_add_months(month as int) {
                Some(date) => Some(Self::at(date, self.moment().time)),
                None => None,
            },
            r.is_some() ==> r.unwrap().wf(),
    ;

    /// Whole months from `other` to this instant, rounded toward zero.
    fn diff_month(&self, other: &Self) -> (r: i64)
        requires
            self.wf(),
            other.wf(),
        ensures
            r == self.moment().spec_diff_months(other.moment()),
    ;

    /// Whole months from `other` to this instant, rounded toward zero: the
    /// calendar months between them, one less in size where the earlier of
    /// the two, moved by that many months, passes the later. Negative when
    /// `other` is later.
    fn diff_months(&self, other: &Self) -> (r: i64)
        requires
            self.wf(),
            other.wf(),
        ensures
            r == self.moment().spec_diff_months(other.moment()),
    ;

    /// Months from the month of `other` to the month of this instant.
    fn diff_calendar_month(&self, other: &Self) -> (r: i64)
        requires
            self.wf(),
            other.wf(),
        ensures
            r == self.moment().date.spec_diff_calendar_months(other.moment().date),
    ;

    /// Months from the month of `other` to the month of this instant, the
    /// days and times left aside: twelve for each year between them plus the
    /// difference of the months. Negative when `other` is in the later month.
    fn diff_calendar_months(&self, other: &Self) -> (r: i64)
        requires
            self.wf(),
            other.wf(),
        ensures
            r == self.moment().date.spec_diff_calendar_months(other.moment().date),
    ;

    /// The weekends of the month of this instant, each a pair of a Saturday
    /// and the Sunday after it, at midnight. Where the month starts on a
    /// Sunday the first pair is `(None, Some(sunday))`; where it ends on a
    /// Saturday the last pair is `(Some(saturday), None)`.
    fn each_weekend(&self) -> (r: Vec<(Option<Self>, Option<Self>)>)
        requires
            self.wf(),
        ensures
            r@ == spec_each_weekend(
                weekend_days::<Self>(
                    self.moment().date.year,
                    self.moment().date.month,
                    spec_days_in_month(
                        self.moment().date.month as int,
                        self.moment().date.year as int,
                    ) as nat,
                ),
            ),
    ;

    /// The Saturdays and Sundays of the month of this instant, in order, at
    /// midnight.
    fn weekend_list(&self) -> (r: Vec<Self>)
        requires
            self.wf(),
        ensures
            r@ == weekend_days::<Self>(
                self.moment().date.year,
                self.moment().date.month,
                spec_days_in_month(
                    self.moment().date.month as int,
                    self.moment().date.year as int,
                ) as nat,
            ),
            forall|i: int| 0 <= i < r@.len() ==> (#[trigger] r@[i]).wf(),
    ;

    /// The number of days of the month of this instant.
    fn days_in_month(&self) -> (r: u32)
        requires
            self.wf(),
        ensures
            r == spec_days_in_month(
                self.moment().date.month as int,
                self.moment().date.year as int,
            ),
    ;

    /// Whether the instant falls on the first day of its month.
    fn is_first_day_of_month(&self) -> (r: bool)
        ensures
            r == (self.moment().date.day == 1),
    ;

    /// Whether the instant falls on the last day of its month.
    fn is_last_day_of_month(&self) -> (r: bool)
        requires
            self.wf(),
        ensures
            r == (self.moment().date == self.moment().date.spec_end_of_month()),
    ;

    /// The instant `month` months earlier (later, for a negative number): see
    /// `add_months`.
    fn sub_months(&self, month: i64) -> (r: Self)
        requires
            self.wf(),
            self.moment().date.spec_add_months(-(month as int)).is_some(),
        ensures
            r.wf(),
            r == Self::at(
                self.moment().date.spec_add_months(-(month as int)).unwrap(),
                self.moment().time,
            ),
    ;

    /// As `sub_months`, or `None` when the year reached is out of range.
    fn sub_months_opt(&self, month: i64) -> (r: Option<Self>)
        requires
            self.wf(),
        ensures
            r == match self.moment().date.spec_add_months(-(month as int)) {
                Some(date) => Some(Self::at(date, self.moment().time)),
                None => None,
            },
            r.is_some() ==> r.unwrap().wf(),
    ;

    /// The last day of the month of this instant; from a date-time, its
    /// midnight.
    fn last_day_of_month(&self) -> (r: Self)
        requires
            self.wf(),
        ensures
            r.wf(),
            r == Self::at(self.moment().date.spec_end_of_month(), NaiveTime::spec_midnight()),
    ;
}

impl Range<NaiveDate> for NaiveDate {
    fn range(&self) -> (r: Vec<NaiveDate>) {
        let start = self.begin_of_month();
        let end = self.end_of_month();
        let ghost len = spec_days_in_month(self.month as int, self.year as int);
        let mut count: u64 = 0;
        let mut out: Vec<NaiveDate> = Vec::new();
        let mut done: bool = false;
        while !done
            invariant
                self.wf(),
                start == self.spec_begin_of_month(),
                end == self.spec_end_of_month(),
                len == spec_days_in_month(self.month as int, self.year as int),
                0 <= count <= len,
                done ==> count == len,
                out@ == month_days::<NaiveDate>(self.year, self.month, count as nat),
                forall|i: int| 0 <= i < out@.len() ==> (#[trigger] out@[i]).wf(),
            decreases len - count + if done { 0int } else { 1int },
        {
            let ghost day = NaiveDate::spec_ymd(self.year as int, self.month as int, count + 1);
            proof {
                lemma_day_number_in_month(
                    self.year as int,
                    self.month as int,
                    1,
                    count as int + 1,
                );
                lemma_day_number_in_month(self.year as int, self.month as int, 1, len);
                NaiveDate::lemma_order(start, end);
                if count < len {
                    NaiveDate::lemma_shift_is(start, count as int, day);
                    NaiveDate::lemma_order(day, end);
                } else if start.can_shift(count as int) {
                    NaiveDate::lemma_shift(start, count as int);
                    NaiveDate::lemma_order(end, start.shift(count as int));
                }
            }
            match date_from_fn(start, end, &mut count) {
                Some(current) => {
                    out.push(current);
                    assert(out@ =~= month_days::<NaiveDate>(self.year, self.month, count as nat));
                },
                None => {
                    done = true;
                },
            }
        }
        out
    }
}

impl Range<NaiveDateTime> for NaiveDateTime {
    fn range(&self) -> (r: Vec<NaiveDateTime>) {
        let days = self.date.range();
        let n: usize = days.len();
        let mut out: Vec<NaiveDateTime> = Vec::new();
        let mut i: usize = 0;
        while i < n
            invariant
                n == days@.len(),
                i <= n,
                days@ == month_days::<NaiveDate>(self.date.year, self.date.month, n as nat),
                forall|k: int| 0 <= k < days@.len() ==> (#[trigger] days@[k]).wf(),
                out@ == month_days::<NaiveDateTime>(self.date.year, self.date.month, i as nat),
                forall|k: int| 0 <= k < out@.len() ==> (#[trigger] out@[k]).wf(),
            decreases n - i,
        {
            out.push(NaiveDateTime { date: days[i], time: NaiveTime::midnight() });
            i += 1;
            assert(out@ =~= month_days::<NaiveDateTime>(self.date.year, self.date.month, i as nat));
        }
        out
    }
}

impl MonthHelper for NaiveDate {
    fn begin_of_month(&self) -> (r: Self) {
        NaiveDate { year: self.year, month: self.month, day: 1 }
    }

    fn end_of_month(&self) -> (r: Self) {
        let last_day: u32 = match month_type(self.month, self.year) {
            MonthType::Day30 => 30,
            MonthType::Day31 => 31,
            MonthType::Other(false) => 28,
            MonthType::Other(true) => 29,
        };
        NaiveDate { year: self.year, month: self.month, day: last_day }
    }

    fn is_same_month(&self, other: &Self) -> (r: bool) {
        self.year == other.year && self.month == other.month
    }

    fn add_months(&self, month: i64) -> (r: Self) {
        self.add_months_opt(month).unwrap()
    }

    fn add_months_opt(&self, month: i64) -> (r: Option<Self>) {
        if month >= 0 {
            if month > 0xffff_ffff {
                None
            } else {
                primitive::checked_add_months(self, month as u32)
            }
        } else if month < -0xffff_ffff {
            None
        } else {
            primitive::checked_sub_months(self, (-month) as u32)
        }
    }

    fn diff_month(&self, other: &Self) -> (r: i64) {
        self.diff_months(other)
    }

    fn diff_months(&self, other: &Self) -> (r: i64) {
        let base: i64 = self.diff_calendar_months(other);
        if self.before(other) {
            proof {
                NaiveDateTime::lemma_add_months_lands(self.moment(), other.moment());
            }
            let moved = self.add_months(-base);
            if other.before(&moved) {
                base + 1
            } else {
                base
            }
        } else {
            proof {
                NaiveDateTime::lemma_add_months_lands(other.moment(), self.moment());
            }
            let moved = other.add_months(base);
            if self.before(&moved) {
                base - 1
            } else {
                base
            }
        }
    }

    fn diff_calendar_month(&self, other: &Self) -> (r: i64) {
        self.diff_calendar_months(other)
    }

    fn diff_calendar_months(&self, other: &Self) -> (r: i64) {
        let years: i64 = self.year as i64 - other.year as i64;
        let months: i64 = self.month as i64 - other.month as i64;
        years * 12 + months
    }

    fn each_weekend(&self) -> (r: Vec<(Option<Self>, Option<Self>)>) {
        let range = self.weekend_list();
        each_weekend(range.as_slice())
    }

    fn weekend_list(&self) -> (r: Vec<Self>) {
        let days = self.range();
        let n: usize = days.len();
        let mut out: Vec<NaiveDate> = Vec::new();
        let mut i: usize = 0;
        while i < n
            invariant
                n == days@.len(),
                i <= n,
                days@ == month_days::<NaiveDate>(self.year, self.month, n as nat),
                forall|k: int| 0 <= k < days@.len() ==> (#[trigger] days@[k]).wf(),
                out@ == weekend_days::<NaiveDate>(self.year, self.month, i as nat),
                forall|k: int| 0 <= k < out@.len() ==> (#[trigger] out@[k]).wf(),
            decreases n - i,
        {
            let day = days[i];
            if day.is_weekend() {
                out.push(day);
            }
            i += 1;
        }
        out
    }

    fn days_in_month(&self) -> (r: u32) {
        days_in_month(self.month, self.year)
    }

    fn is_first_day_of_month(&self) -> (r: bool) {
        self.day == 1
    }

    fn is_last_day_of_month(&self) -> (r: bool) {
        self.day == days_in_month(self.month, self.year)
    }

    fn sub_months(&self, month: i64) -> (r: Self) {
        self.sub_months_opt(month).unwrap()
    }

    fn sub_months_opt(&self, month: i64) -> (r: Option<Self>) {
        if month == i64::MIN {
            None
        } else {
            self.add_months_opt(-month)
        }
    }

    fn last_day_of_month(&self) -> (r: Self) {
        self.end_of_month()
    }
}

impl MonthHelper for NaiveDateTime {
    fn begin_of_month(&self) -> (r: Self) {
        NaiveDateTime { date: self.date.begin_of_month(), time: NaiveTime::midnight() }
    }

    fn end_of_month(&self) -> (r: Self) {
        NaiveDateTime { date: self.date.end_of_month(), time: NaiveTime::last() }
    }

    fn is_same_month(&self, other: &Self) -> (r: bool) {
        self.date.is_same_month(&other.date)
    }

    fn add_months(&self, month: i64) -> (r: Self) {
        NaiveDateTime { date: self.date.add_months(month), time: self.time }
    }

    fn add_months_opt(&self, month: i64) -> (r: Option<Self>) {
        match self.date.add_months_opt(month) {
            Some(date) => Some(NaiveDateTime { date, time: self.time }),
            None => None,
        }
    }

    fn diff_month(&self, other: &Self) -> (r: i64) {
        self.diff_months(other)
    }

    fn diff_months(&self, other: &Self) -> (r: i64) {
        let base: i64 = self.diff_calendar_months(other);
        if self.before(other) {
            proof {
                NaiveDateTime::lemma_add_months_lands(*self, *other);
            }
            let moved = self.add_months(-base);
            if other.before(&moved) {
                base + 1
            } else {
                base
            }
        } else {
            proof {
                NaiveDateTime::lemma_add_months_lands(*other, *self);
            }
            let moved = other.add_months(base);
            if self.before(&moved) {
                base - 1
            } else {
                base
            }
        }
    }

    fn diff_calendar_month(&self, other: &Self) -> (r: i64) {
        self.date.diff_calendar_months(&other.date)
    }

    fn diff_calendar_months(&self, other: &Self) -> (r: i64) {
        self.date.diff_calendar_months(&other.date)
    }

    fn each_weekend(&self) -> (r: Vec<(Option<Self>, Option<Self>)>) {
        let range = self.weekend_list();
        each_weekend(range.as_slice())
    }

    fn weekend_list(&self) -> (r: Vec<Self>) {
        let days = self.range();
        let n: usize = days.len();
        let mut out: Vec<NaiveDateTime> = Vec::new();
        let mut i: usize = 0;
        while i < n
            invariant
                n == days@.len(),
                i <= n,
                days@ == month_days::<NaiveDateTime>(self.date.year, self.date.month, n as nat),
                forall|k: int| 0 <= k < days@.len() ==> (#[trigger] days@[k]).wf(),
                out@ == weekend_days::<NaiveDateTime>(self.date.year, self.date.month, i as nat),
                forall|k: int| 0 <= k < out@.len() ==> (#[trigger] out@[k]).wf(),
            decreases n - i,
        {
            let day = days[i];
            if day.is_weekend() {
                out.push(day);
            }
            i += 1;
        }
        out
    }

    fn days_in_month(&self) -> (r: u32) {
        days_in_month(self.date.month, self.date.year)
    }

    fn is_first_day_of_month(&self) -> (r: bool) {
        self.date.day == 1
    }

    fn is_last_day_of_month(&self) -> (r: bool) {
        self.date.is_last_day_of_month()
    }

    fn sub_months(&self, month: i64) -> (r: Self) {
        NaiveDateTime { date: self.date.sub_months(month), time: self.time }
    }

    fn sub_months_opt(&self, month: i64) -> (r: Option<Self>) {
        match self.date.sub_months_opt(month) {
            Some(date) => Some(NaiveDateTime { date, time: self.time }),
            None => None,
        }
    }

    fn last_day_of_month(&self) -> (r: Self) {
        NaiveDateTime { date: self.date.end_of_month(), time: NaiveTime::midnight() }
    }
}

} // verus!
