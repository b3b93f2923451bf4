//! The seven days of the week.

use crate::calendar::weekday_index;
use vstd::prelude::*;

verus! {

/// A day of the week. It names both the weekday of a date and the day on
/// which a week is taken to start.
#[derive(Clone, Copy, Debug, PartialEq, Eq, Structural, Hash)]
pub enum Weekday {
    Mon,
    Tue,
    Wed,
    Thu,
    Fri,
    Sat,
    Sun,
}

impl Weekday {
    /// Days from Monday: 0 for Monday, 6 for Sunday.
    pub open spec fn spec_index(self) -> int {
        match self {
            Weekday::Mon => 0,
            Weekday::Tue => 1,
            Weekday::Wed => 2,
            Weekday::Thu => 3,
            Weekday::Fri => 4,
            Weekday::Sat => 5,
            Weekday::Sun => 6,
        }
    }

    /// The weekday that is `index` days from Monday, for `index` from 0 to 6.
    pub open spec fn spec_from_index(index: int) -> Weekday {
        if index == 0 {
            Weekday::Mon
        } else if index == 1 {
            Weekday::Tue
        } else if index == 2 {
            Weekday::Wed
        } else if index == 3 {
            Weekday::Thu
        } else if index == 4 {
            Weekday::Fri
        } else if index == 5 {
            Weekday::Sat
        } else {
            Weekday::Sun
        }
    }

    /// Days from Monday: 0 for Monday, 6 for Sunday.
    pub fn num_days_from_monday(&self) -> (r: u32)
        ensures
            r == self.spec_index(),
            r < 7,
    {
        match self {
            Weekday::Mon => 0,
            Weekday::Tue => 1,
            Weekday::Wed => 2,
            Weekday::Thu => 3,
            Weekday::Fri => 4,
            Weekday::Sat => 5,
            Weekday::Sun => 6,
        }
    }

    /// Position in a week that starts on Monday: 1 for Monday, 7 for Sunday.
    pub fn number_from_monday(&self) -> (r: u32)
        ensures
            r == self.spec_index() + 1,
            1 <= r <= 7,
    {
        self.num_days_from_monday() + 1
    }

    /// The weekday that is `index` days from Monday.
    pub fn from_index(index: u32) -> (r: Weekday)
        requires
            index < 7,
        ensures
            r == Weekday::spec_from_index(index as int),
            r.spec_index() == index,
    {
        if index == 0 {
            Weekday::Mon
        } else if index == 1 {
            Weekday::Tue
        } else if index == 2 {
            Weekday::Wed
        } else if index == 3 {
            Weekday::Thu
        } else if index == 4 {
            Weekday::Fri
        } else if index == 5 {
            Weekday::Sat
        } else {
            Weekday::Sun
        }
    }

    /// Whether this is Saturday or Sunday.
    pub open spec fn spec_is_weekend(self) -> bool {
        self == Weekday::Sat || self == Weekday::Sun
    }
}

/// Days from the weekday with index `from` forward to the next day with index
/// `to`: 0 when they are the same, at most 6.
pub open spec fn days_forward(from: int, to: int) -> int {
    (to - from + 7) % 7
}

/// The arithmetic of a week that starts on the weekday with index `start`,
/// for the day with number `n`: the days back to the first day of the week
/// and the days on to its last day add up to six, and the first day falls on
/// the starting weekday.
pub proof fn lemma_week_arithmetic(n: int, start: int)
    requires
        0 <= start <= 6,
    ensures
        0 <= days_forward(start, (n + 6) % 7) <= 6,
        0 <= days_forward((n + 6) % 7, start + 6) <= 6,
        days_forward(start, (n + 6) % 7) + days_forward((n + 6) % 7, start + 6) == 6,
        (n - days_forward(start, (n + 6) % 7) + 6) % 7 == start,
{
}

/// Days from a day with weekday index `own` to the first later day with
/// weekday index `target`: 1 to 7, 7 when the two are the same weekday.
pub open spec fn days_to_next(own: int, target: int) -> int {
    (target - own + 6) % 7 + 1
}

/// From the day with number `n`, the day `days_to_next` later is the first
/// later day on the weekday with index `target`, and the day as many days
/// earlier, counted the other way round, is the last earlier one.
pub proof fn lemma_weekday_spans(n: int, target: int)
    requires
        0 <= target <= 6,
    ensures
        1 <= days_to_next(weekday_index(n), target) <= 7,
        1 <= days_to_next(target, weekday_index(n)) <= 7,
        weekday_index(n + days_to_next(weekday_index(n), target)) == target,
        weekday_index(n - days_to_next(target, weekday_index(n))) == target,
        forall|k: int|
            1 <= k < days_to_next(weekday_index(n), target) ==> #[trigger] weekday_index(n + k)
                != target,
        forall|k: int|
            1 <= k < days_to_next(target, weekday_index(n)) ==> #[trigger] weekday_index(n - k)
                != target,
{
}

/// The first days of two weeks that start on one weekday are a whole number
/// of weeks apart.
pub proof fn lemma_week_starts_apart(a: int, b: int, start: int)
    requires
        0 <= start <= 6,
    ensures
        ((a - days_forward(start, (a + 6) % 7)) - (b - days_forward(start, (b + 6) % 7))) % 7 == 0,
{
    lemma_week_arithmetic(a, start);
    lemma_week_arithmetic(b, start);
}

} // verus!
