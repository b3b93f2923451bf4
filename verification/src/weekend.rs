//! The weekends of a month in closed form, and what follows for the pairs of
//! `MonthHelper::each_weekend`.

use crate::calendar::{lemma_day_number_in_month, weekday_index};
use crate::instant::Instant;
use crate::month::{spec_collect_sat_sun, spec_each_weekend, weekend_days};
use crate::naive_date::NaiveDate;
use crate::utils::spec_days_in_month;
use crate::weekday::Weekday;
use vstd::prelude::*;

verus! {

/// The day of the month of the first Saturday of a month whose first day
/// has the day number `first`: 1 to 6, or 0 where the month starts on a
/// Sunday, which belongs to the Saturday of the day before the month.
pub open spec fn spec_first_saturday(first: int) -> int {
    (6 - weekday_index(first)) % 7
}

/// The day of the month of the weekend day `j`, counted from 0 at the
/// Saturday `s`: a Saturday for even `j`, the Sunday after it for odd `j`.
pub open spec fn spec_weekend_day(s: int, j: int) -> int {
    s + 7 * (j / 2) + j % 2
}

/// How many weekend days, counted from the Saturday `s`, lie on day `n` or
/// before it.
pub open spec fn spec_weekend_count(s: int, n: int) -> int {
    let saturdays: int = if n >= s {
        (n - s) / 7 + 1
    } else {
        0
    };
    let sundays: int = if n >= s + 1 {
        (n - s - 1) / 7 + 1
    } else {
        0
    };
    saturdays + sundays
}

/// Day `n` of a month is a Saturday or a Sunday according to its distance
/// from the first Saturday.
proof fn lemma_weekend_by_distance(first: int, n: int)
    ensures
        weekday_index(first + n - 1) == 5 <==> (n - spec_first_saturday(first)) % 7 == 0,
        weekday_index(first + n - 1) == 6 <==> (n - spec_first_saturday(first)) % 7 == 1,
        0 <= spec_first_saturday(first) <= 6,
        0 <= weekday_index(first + n - 1) <= 6,
{
}

/// From one day to the next the count of weekend days grows by one on a
/// weekend day, which is then the last counted, and stays otherwise.
proof fn lemma_weekend_count_step(s: int, n: int)
    requires
        0 <= s <= 6,
        1 <= n,
    ensures
        (n - s) % 7 == 0 || (n - s) % 7 == 1 ==> spec_weekend_count(s, n) == spec_weekend_count(
            s,
            n - 1,
        ) + 1 && spec_weekend_day(s, spec_weekend_count(s, n - 1)) == n,
        !((n - s) % 7 == 0 || (n - s) % 7 == 1) ==> spec_weekend_count(s, n) == spec_weekend_count(
            s,
            n - 1,
        ),
        spec_weekend_count(s, n - 1) >= 0,
{
}

/// The Saturdays and Sundays among the first `n` days of a month, by their
/// distance from the first Saturday.
pub open spec fn spec_weekends_closed(year: i32, month: u32, n: int) -> Seq<NaiveDate> {
    let s = spec_first_saturday(NaiveDate { year, month, day: 1 }.day_number());
    let skipped: int = if s == 0 {
        1
    } else {
        0
    };
    Seq::new(
        (spec_weekend_count(s, n) - skipped) as nat,
        |k: int| NaiveDate { year, month, day: spec_weekend_day(s, k + skipped) as u32 },
    )
}

/// The weekend days of a month are those of the closed form.
pub proof fn lemma_weekend_days_closed(year: i32, month: u32, n: nat)
    requires
        n <= 31,
    ensures
        weekend_days::<NaiveDate>(year, month, n) == spec_weekends_closed(year, month, n as int),
    decreases n,
{
    let first = NaiveDate { year, month, day: 1 }.day_number();
    let s = spec_first_saturday(first);
    lemma_weekend_by_distance(first, n as int);
    if n == 0 {
        assert(weekend_days::<NaiveDate>(year, month, n) =~= spec_weekends_closed(
            year,
            month,
            n as int,
        ));
    } else {
        lemma_weekend_days_closed(year, month, (n - 1) as nat);
        lemma_weekend_count_step(s, n as int);
        lemma_day_number_in_month(year as int, month as int, 1, n as int);
        let day = NaiveDate { year, month, day: n as u32 };
        assert(day.day_number() == first + n - 1);
        assert(day.spec_weekday().spec_is_weekend() <==> (n - s) % 7 == 0 || (n - s) % 7 == 1);
        assert(weekend_days::<NaiveDate>(year, month, n) =~= spec_weekends_closed(
            year,
            month,
            n as int,
        ));
    }
}

/// The date of day `day` of the month of `a`.
pub open spec fn spec_day_of_month(a: NaiveDate, day: int) -> NaiveDate {
    NaiveDate { year: a.year, month: a.month, day: day as u32 }
}

/// The pair that holds the Saturday on day `saturday` of the month of `a`
/// and the Sunday after it: each is there where it lies within the month.
pub open spec fn spec_weekend_pair(a: NaiveDate, saturday: int) -> (
    Option<NaiveDate>,
    Option<NaiveDate>,
) {
    (
        if saturday >= 1 {
            Some(spec_day_of_month(a, saturday))
        } else {
            None
        },
        if saturday + 1 <= spec_days_in_month(a.month as int, a.year as int) {
            Some(spec_day_of_month(a, saturday + 1))
        } else {
            None
        },
    )
}

/// The pairs of the weekends of the month of `a`, one for each Saturday from
/// the first on, seven days apart.
pub open spec fn spec_weekend_pairs(a: NaiveDate) -> Seq<(Option<NaiveDate>, Option<NaiveDate>)> {
    let s = spec_first_saturday(a.spec_begin_of_month().day_number());
    let last = spec_days_in_month(a.month as int, a.year as int);
    Seq::new(((last - s) / 7 + 1) as nat, |i: int| spec_weekend_pair(a, s + 7 * i))
}

/// The pairs that `each_weekend` makes of the weekend days of a month are
/// those of the closed form.
pub proof fn lemma_each_weekend_closed(a: NaiveDate)
    requires
        a.wf(),
    ensures
        spec_each_weekend(
            weekend_days::<NaiveDate>(
                a.year,
                a.month,
                spec_days_in_month(a.month as int, a.year as int) as nat,
            ),
        ) == spec_weekend_pairs(a),
{
    let last = spec_days_in_month(a.month as int, a.year as int);
    let first = a.spec_begin_of_month().day_number();
    let s = spec_first_saturday(first);
    let days = weekend_days::<NaiveDate>(a.year, a.month, last as nat);
    lemma_weekend_days_closed(a.year, a.month, last as nat);
    lemma_weekend_by_distance(first, days[0].day as int);
    lemma_day_number_in_month(a.year as int, a.month as int, 1, days[0].day as int);
    let pairs = spec_each_weekend(days);
    if s == 0 {
        let rest = days.skip(1);
        assert(days[0].spec_weekday() == Weekday::Sun);
        assert(pairs.len() == spec_weekend_pairs(a).len());
        assert forall|i: int| 0 <= i < pairs.len() implies pairs[i] == spec_weekend_pairs(a)[i] by {
            if i > 0 {
                assert(pairs[i] == spec_collect_sat_sun(rest)[i - 1]);
            }
        }
    } else {
        assert(days[0].spec_weekday() == Weekday::Sat);
    }
    assert(pairs =~= spec_weekend_pairs(a));
}

/// The weekends of a month as `each_weekend` pairs them: 4 or 5 pairs, a
/// Saturday first and the Sunday of the next day second, every Saturday and
/// Sunday of the month in its pair and no other day. Only the first pair can
/// lack its Saturday, where the month starts on a Sunday, and only the last
/// its Sunday, where the month ends on a Saturday.
pub proof fn lemma_weekend_pairs(a: NaiveDate)
    requires
        a.wf(),
    ensures
        ({
            let last = spec_days_in_month(a.month as int, a.year as int);
            let pairs = spec_each_weekend(weekend_days::<NaiveDate>(a.year, a.month, last as nat));
            &&& 4 <= pairs.len() <= 5
            &&& forall|i: int|
                0 <= i < pairs.len() ==> {
                    let (saturday, sunday) = #[trigger] pairs[i];
                    &&& saturday.is_some() || sunday.is_some()
                    &&& saturday.is_some() ==> saturday.unwrap().wf() && saturday.unwrap().year
                        == a.year && saturday.unwrap().month == a.month
                        && saturday.unwrap().spec_weekday() == Weekday::Sat
                    &&& sunday.is_some() ==> sunday.unwrap().wf() && sunday.unwrap().year == a.year
                        && sunday.unwrap().month == a.month && sunday.unwrap().spec_weekday()
                        == Weekday::Sun
                    &&& saturday.is_some() && sunday.is_some() ==> sunday.unwrap().day
                        == saturday.unwrap().day + 1
                    &&& saturday.is_none() ==> i == 0 && sunday.unwrap().day == 1
                    &&& sunday.is_none() ==> i == pairs.len() - 1 && saturday.unwrap().day == last
                    &&& i > 0 && saturday.is_some() ==> pairs[i - 1].1.is_some()
                        && saturday.unwrap().day == pairs[i - 1].1.unwrap().day + 6
                }
            &&& forall|day: int|
                1 <= day <= last && #[trigger] spec_day_of_month(a, day).spec_weekday()
                    == Weekday::Sat ==> exists|i: int|
                    0 <= i < pairs.len() && #[trigger] pairs[i].0 == Some(
                        spec_day_of_month(a, day),
                    )
            &&& forall|day: int|
                1 <= day <= last && #[trigger] spec_day_of_month(a, day).spec_weekday()
                    == Weekday::Sun ==> exists|i: int|
                    0 <= i < pairs.len() && #[trigger] pairs[i].1 == Some(
                        spec_day_of_month(a, day),
                    )
        }),
{
    let last = spec_days_in_month(a.month as int, a.year as int);
    let first = a.spec_begin_of_month().day_number();
    let s = spec_first_saturday(first);
    let pairs = spec_each_weekend(weekend_days::<NaiveDate>(a.year, a.month, last as nat));
    lemma_each_weekend_closed(a);
    lemma_weekend_by_distance(first, 1);
    assert forall|i: int| 0 <= i < pairs.len() implies {
        let (saturday, sunday) = #[trigger] pairs[i];
        &&& saturday.is_some() ==> saturday.unwrap().spec_weekday() == Weekday::Sat
        &&& sunday.is_some() ==> sunday.unwrap().spec_weekday() == Weekday::Sun
    } by {
        lemma_weekend_by_distance(first, s + 7 * i);
        lemma_weekend_by_distance(first, s + 7 * i + 1);
        lemma_day_number_in_month(a.year as int, a.month as int, 1, s + 7 * i);
        lemma_day_number_in_month(a.year as int, a.month as int, 1, s + 7 * i + 1);
    }
    assert forall|day: int|
        1 <= day <= last && #[trigger] spec_day_of_month(a, day).spec_weekday()
            == Weekday::Sat implies exists|i: int|
        0 <= i < pairs.len() && #[trigger] pairs[i].0 == Some(spec_day_of_month(a, day)) by {
        lemma_weekend_by_distance(first, day);
        lemma_day_number_in_month(a.year as int, a.month as int, 1, day);
        let i = (day - s) / 7;
        assert(pairs[i].0 == Some(spec_day_of_month(a, day)));
    }
    assert forall|day: int|
        1 <= day <= last && #[trigger] spec_day_of_month(a, day).spec_weekday()
            == Weekday::Sun implies exists|i: int|
        0 <= i < pairs.len() && #[trigger] pairs[i].1 == Some(spec_day_of_month(a, day)) by {
        lemma_weekend_by_distance(first, day);
        lemma_day_number_in_month(a.year as int, a.month as int, 1, day);
        let i = (day - 1 - s) / 7;
        assert(pairs[i].1 == Some(spec_day_of_month(a, day)));
    }
}

} // verus!
