//! The span between two dates in years, months and days.

use crate::calendar::{lemma_day_number_in_month, lemma_next_month_start};
use crate::day::DayHelper;
use crate::instant::Instant;
use crate::month::MonthHelper;
use crate::naive_date::NaiveDate;
use crate::naive_datetime::NaiveDateTime;
use vstd::prelude::*;

verus! {

/// A span of time in calendar units.
#[derive(Debug, Eq, PartialEq, Copy, Clone, Structural)]
pub struct Period {
    pub year: i16,
    pub month: i8,
    pub day: i8,
    pub hour: i8,
    pub minute: i8,
    pub second: i8,
}

impl Period {
    /// This span with every part turned to the other sign.
    pub open spec fn spec_negated(self) -> Period {
        Period {
            year: (-self.year) as i16,
            month: (-self.month) as i8,
            day: (-self.day) as i8,
            hour: (-self.hour) as i8,
            minute: (-self.minute) as i8,
            second: (-self.second) as i8,
        }
    }

    /// The span from `one` to `other`: forward where `other` is not before
    /// `one`, else the span from `other` to `one` with every part negative.
    pub open spec fn spec_between(one: NaiveDate, other: NaiveDate) -> Period {
        if one.spec_le(other) {
            Period::spec_forward(one, other)
        } else {
            Period::spec_forward(other, one).spec_negated()
        }
    }

    /// The span from `one` to `other`, which is not before it: the whole
    /// months between them as years and months, and the days from `one`
    /// moved on by those months up to `other`.
    pub open spec fn spec_forward(one: NaiveDate, other: NaiveDate) -> Period {
        let months = other.moment().spec_elapsed_months(one.moment());
        let moved = one.spec_add_months(months).unwrap();
        Period {
            year: (months / 12) as i16,
            month: (months % 12) as i8,
            day: (other.day_number() - moved.day_number()) as i8,
            hour: 0,
            minute: 0,
            second: 0,
        }
    }

    /// The whole months between two dates are none or more and no more than
    /// the calendar months between them; the earlier date moved on by them
    /// is a date, not after the later one and less than 31 days before it.
    pub proof fn lemma_elapsed_months(one: NaiveDate, other: NaiveDate)
        requires
            one.wf(),
            other.wf(),
            one.spec_le(other),
        ensures
            ({
                let months = other.moment().spec_elapsed_months(one.moment());
                let moved = one.spec_add_months(months);
                &&& 0 <= months <= other.spec_diff_calendar_months(one)
                &&& other.moment().spec_diff_months(one.moment()) == months
                &&& moved.is_some()
                &&& moved.unwrap().wf()
                &&& 0 <= other.day_number() - moved.unwrap().day_number() <= 30
            }),
    {
        let calendar = other.spec_diff_calendar_months(one);
        let months = other.moment().spec_elapsed_months(one.moment());
        NaiveDateTime::lemma_add_months_lands(one.moment(), other.moment());
        let landed = one.spec_add_months(calendar).unwrap();
        if months == calendar {
            lemma_day_number_in_month(
                other.year as int,
                other.month as int,
                landed.day as int,
                other.day as int,
            );
        } else {
            let moved = one.spec_add_months(months).unwrap();
            lemma_next_month_start(moved.year as int, moved.month as int);
            lemma_day_number_in_month(moved.year as int, moved.month as int, 1, moved.day as int);
            lemma_day_number_in_month(other.year as int, other.month as int, 1, other.day as int);
        }
    }

    /// The span from `one` to `other` in years, months and days: none of the
    /// parts negative where `other` is not before `one`, none positive where
    /// it is. The two dates must be no more than 32 767 years apart.
    pub fn bewteen(one: &NaiveDate, other: &NaiveDate) -> (r: Period)
        requires
            one.wf(),
            other.wf(),
            -32_767 <= other.year - one.year <= 32_767,
        ensures
            r == Period::spec_between(*one, *other),
            one.spec_le(*other) ==> 0 <= r.year && 0 <= r.month <= 11 && 0 <= r.day <= 30,
            other.spec_lt(*one) ==> r.year <= 0 && -11 <= r.month <= 0 && -30 <= r.day <= 0,
    {
        if other.precedes(one) {
            let back = Period::forward(other, one);
            Period {
                year: -back.year,
                month: -back.month,
                day: -back.day,
                hour: 0,
                minute: 0,
                second: 0,
            }
        } else {
            Period::forward(one, other)
        }
    }

    /// The span from `one` to `other`, which is not before it.
    fn forward(one: &NaiveDate, other: &NaiveDate) -> (r: Period)
        requires
            one.wf(),
            other.wf(),
            one.spec_le(*other),
            other.year - one.year <= 32_767,
        ensures
            r == Period::spec_forward(*one, *other),
            0 <= r.year,
            0 <= r.month <= 11,
            0 <= r.day <= 30,
    {
        proof {
            Period::lemma_elapsed_months(*one, *other);
        }
        let months: i64 = other.diff_months(one);
        let moved = one.add_months(months);
        let days: i64 = other.diff_calendar_days(&moved);
        Period {
            year: (months / 12) as i16,
            month: (months % 12) as i8,
            day: days as i8,
            hour: 0,
            minute: 0,
            second: 0,
        }
    }
}

} // verus!
