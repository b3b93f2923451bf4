//! Order of two instants and the test for one day, as one small trait.

use crate::instant::Instant;
use crate::naive_date::NaiveDate;
use crate::naive_datetime::NaiveDateTime;
use vstd::prelude::*;

verus! {

/// Order of two instants, and whether they share a day.
pub trait DateOperator: Instant {
    /// Whether this instant is earlier than `other`.
    fn before(&self, other: &Self) -> (r: bool)
        ensures
            r == self.moment().spec_lt(other.moment()),
    ;

    /// Whether this instant is later than `other`.
    fn after(&self, other: &Self) -> (r: bool)
        ensures
            r == other.moment().spec_lt(self.moment()),
    ;

    /// Whether the two instants fall on one date.
    fn is_same_day(&self, other: &Self) -> (r: bool)
        ensures
            r == (self.moment().date == other.moment().date),
    ;
}

impl DateOperator for NaiveDateTime {
    fn before(&self, other: &Self) -> (r: bool) {
        self.precedes(other)
    }

    fn after(&self, other: &Self) -> (r: bool) {
        other.precedes(self)
    }

    fn is_same_day(&self, other: &Self) -> (r: bool) {
        self.date == other.date
    }
}

impl DateOperator for NaiveDate {
    fn before(&self, other: &Self) -> (r: bool) {
        self.precedes(other)
    }

    fn after(&self, other: &Self) -> (r: bool) {
        other.precedes(self)
    }

    fn is_same_day(&self, other: &Self) -> (r: bool) {
        *self == *other
    }
}

} // verus!
