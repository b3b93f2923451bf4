//! A time of day, to the nanosecond.

use vstd::prelude::*;

verus! {

/// Nanoseconds in a second.
pub const NANOS_PER_SECOND: u32 = 1_000_000_000;

/// Seconds in a day.
pub const SECONDS_PER_DAY: i64 = 86_400;

/// Nanoseconds in a day.
pub const NANOS_PER_DAY: i64 = 86_400_000_000_000;

/// A time of day without a time zone. The sub-second part is counted in
/// nanoseconds, the one resolution that every boundary of this crate uses.
/// Leap seconds are not represented.
#[derive(Clone, Copy, Debug, PartialEq, Eq, Structural, PartialOrd, Ord, Hash)]
pub struct NaiveTime {
    pub hour: u32,
    pub minute: u32,
    pub second: u32,
    pub nano: u32,
}

impl NaiveTime {
    /// Whether the fields name a time of day.
    pub open spec fn wf(&self) -> bool {
        self.hour < 24 && self.minute < 60 && self.second < 60 && self.nano < NANOS_PER_SECOND
    }

    /// 00:00:00.
    pub open spec fn spec_midnight() -> NaiveTime {
        NaiveTime { hour: 0, minute: 0, second: 0, nano: 0 }
    }

    /// 23:59:59.999999999, the last time of a day.
    pub open spec fn spec_last() -> NaiveTime {
        NaiveTime { hour: 23, minute: 59, second: 59, nano: 999_999_999 }
    }

    /// Whole seconds since midnight.
    pub open spec fn second_of_day(&self) -> int {
        self.hour * 3600 + self.minute * 60 + self.second
    }

    /// Nanoseconds since midnight.
    pub open spec fn nanos_of_day(&self) -> int {
        self.second_of_day() * NANOS_PER_SECOND + self.nano
    }

    /// The time that is `n` nanoseconds after midnight, for `n` within a day.
    pub open spec fn spec_from_nanos_of_day(n: int) -> NaiveTime {
        let s = n / (NANOS_PER_SECOND as int);
        NaiveTime {
            hour: (s / 3600) as u32,
            minute: ((s / 60) % 60) as u32,
            second: (s % 60) as u32,
            nano: (n % (NANOS_PER_SECOND as int)) as u32,
        }
    }

    /// The time `hour:min:sec.nano`, or `None` when a field is out of range.
    pub open spec fn spec_from_hms_nano_opt(hour: u32, min: u32, sec: u32, nano: u32) -> Option<
        NaiveTime,
    > {
        if hour < 24 && min < 60 && sec < 60 && nano < NANOS_PER_SECOND {
            Some(NaiveTime { hour, minute: min, second: sec, nano })
        } else {
            None
        }
    }

    /// The time `hour:min:sec` with `sub` units of `unit` nanoseconds each,
    /// or `None` when a field is out of range or `sub` reaches a second.
    pub open spec fn spec_from_hms_sub_opt(hour: u32, min: u32, sec: u32, sub: u32, unit: u32)
        -> Option<NaiveTime> {
        if sub * unit < NANOS_PER_SECOND {
            NaiveTime::spec_from_hms_nano_opt(hour, min, sec, (sub * unit) as u32)
        } else {
            None
        }
    }

    /// The order of the clock: hour, minute, second, nanosecond.
    pub open spec fn spec_lt(&self, other: NaiveTime) -> bool {
        self.hour < other.hour || (self.hour == other.hour && (self.minute < other.minute || (
        self.minute == other.minute && (self.second < other.second || (self.second == other.second
            && self.nano < other.nano)))))
    }

    /// `spec_lt`, or equal.
    pub open spec fn spec_le(&self, other: NaiveTime) -> bool {
        self.spec_lt(other) || *self == other
    }

    /// The order of the clock is the order of the nanoseconds since midnight.
    pub proof fn lemma_order(a: NaiveTime, b: NaiveTime)
        requires
            a.wf(),
            b.wf(),
        ensures
            a.spec_lt(b) <==> a.nanos_of_day() < b.nanos_of_day(),
            a == b <==> a.nanos_of_day() == b.nanos_of_day(),
            0 <= a.nanos_of_day() < NANOS_PER_DAY,
            0 <= a.second_of_day() < SECONDS_PER_DAY,
    {
    }

    /// `spec_from_nanos_of_day` is the inverse of `nanos_of_day`.
    pub proof fn lemma_from_nanos_of_day(n: int)
        requires
            0 <= n < NANOS_PER_DAY,
        ensures
            NaiveTime::spec_from_nanos_of_day(n).wf(),
            NaiveTime::spec_from_nanos_of_day(n).nanos_of_day() == n,
    {
    }

    /// 00:00:00.
    pub fn midnight() -> (r: NaiveTime)
        ensures
            r == NaiveTime::spec_midnight(),
            r.wf(),
    {
        NaiveTime { hour: 0, minute: 0, second: 0, nano: 0 }
    }

    /// 23:59:59.999999999.
    pub fn last() -> (r: NaiveTime)
        ensures
            r == NaiveTime::spec_last(),
            r.wf(),
    {
        NaiveTime { hour: 23, minute: 59, second: 59, nano: 999_999_999 }
    }

    /// The time `hour:min:sec.nano`, or `None` when a field is out of range.
    pub fn from_hms_nano_opt(hour: u32, min: u32, sec: u32, nano: u32) -> (r: Option<NaiveTime>)
        ensures
            r == NaiveTime::spec_from_hms_nano_opt(hour, min, sec, nano),
            r.is_some() ==> r.unwrap().wf(),
    {
        if hour < 24 && min < 60 && sec < 60 && nano < NANOS_PER_SECOND {
            Some(NaiveTime { hour, minute: min, second: sec, nano })
        } else {
            None
        }
    }

    /// The time `hour:min:sec`, or `None` when a field is out of range.
    pub fn from_hms_opt(hour: u32, min: u32, sec: u32) -> (r: Option<NaiveTime>)
        ensures
            r == NaiveTime::spec_from_hms_nano_opt(hour, min, sec, 0),
            r.is_some() ==> r.unwrap().wf(),
    {
        NaiveTime::from_hms_nano_opt(hour, min, sec, 0)
    }

    /// The time `hour:min:sec` and `milli` milliseconds, or `None` when a
    /// field is out of range.
    pub fn from_hms_milli_opt(hour: u32, min: u32, sec: u32, milli: u32) -> (r: Option<NaiveTime>)
        ensures
            r == NaiveTime::spec_from_hms_sub_opt(hour, min, sec, milli, 1_000_000),
            r.is_some() ==> r.unwrap().wf(),
    {
        if milli < 1000 {
            NaiveTime::from_hms_nano_opt(hour, min, sec, milli * 1_000_000)
        } else {
            None
        }
    }

    /// The time `hour:min:sec` and `micro` microseconds, or `None` when a
    /// field is out of range.
    pub fn from_hms_micro_opt(hour: u32, min: u32, sec: u32, micro: u32) -> (r: Option<NaiveTime>)
        ensures
            r == NaiveTime::spec_from_hms_sub_opt(hour, min, sec, micro, 1000),
            r.is_some() ==> r.unwrap().wf(),
    {
        if micro < 1_000_000 {
            NaiveTime::from_hms_nano_opt(hour, min, sec, micro * 1000)
        } else {
            None
        }
    }

    /// The hour, 0 to 23.
    pub fn hour(&self) -> (r: u32)
        ensures
            r == self.hour,
    {
        self.hour
    }

    /// The minute, 0 to 59.
    pub fn minute(&self) -> (r: u32)
        ensures
            r == self.minute,
    {
        self.minute
    }

    /// The second, 0 to 59.
    pub fn second(&self) -> (r: u32)
        ensures
            r == self.second,
    {
        self.second
    }

    /// The nanoseconds since the last whole second.
    pub fn nanosecond(&self) -> (r: u32)
        ensures
            r == self.nano,
    {
        self.nano
    }

    /// Whether this time is earlier in the day than `other`.
    pub fn precedes(&self, other: &NaiveTime) -> (r: bool)
        ensures
            r == self.spec_lt(*other),
    {
        if self.hour != other.hour {
            self.hour < other.hour
        } else if self.minute != other.minute {
            self.minute < other.minute
        } else if self.second != other.second {
            self.second < other.second
        } else {
            self.nano < other.nano
        }
    }
}

} // verus!
