//! The clock: the present moment in UTC, at an offset of whole hours, and as
//! a timestamp.

use crate::hour::HourHelper;
use crate::instant::Instant;
use crate::naive_datetime::NaiveDateTime;
use crate::primitive;
use vstd::prelude::*;

verus! {

/// The one place where this crate reads the clock. Every function here that
/// does so has a twin that takes the moment as an argument.
pub struct Now;

/// An offset from UTC in whole hours, from -11 to 11.
#[derive(Clone, Copy, Debug)]
pub struct ZoneNum(pub i32);

impl ZoneNum {
    /// Whether the offset is from -11 to 11.
    pub open spec fn wf(&self) -> bool {
        -12 < self.0 < 12
    }

    /// The offset of `value` hours, which must be from -11 to 11.
    pub fn new(value: i32) -> (r: Self)
        requires
            -12 < value < 12,
        ensures
            r.0 == value,
            r.wf(),
    {
        ZoneNum(value)
    }

    /// The offset in hours.
    pub fn value(&self) -> (r: i32)
        ensures
            r == self.0,
    {
        self.0
    }
}

/// On which side of UTC a zone lies.
pub enum ZoneType {
    /// East of UTC: local time is ahead by the offset.
    East(ZoneNum),
    /// West of UTC: local time is behind by the offset.
    West(ZoneNum),
}

impl ZoneType {
    /// Hours that local time is ahead of UTC, negative where it is behind.
    pub open spec fn spec_hours(&self) -> int {
        match self {
            ZoneType::East(n) => n.0 as int,
            ZoneType::West(n) => -(n.0 as int),
        }
    }

    /// Whether the offset is from -11 to 11.
    pub open spec fn wf(&self) -> bool {
        match self {
            ZoneType::East(n) => n.wf(),
            ZoneType::West(n) => n.wf(),
        }
    }
}

/// The unit that a timestamp counts in.
#[derive(Clone, Copy, Debug, PartialEq, Eq, Structural)]
pub enum Timestamp {
    Micro,
    Nano,
    Milli,
    Second,
}

impl NaiveDateTime {
    /// Units of `unit` from the midnight that starts 1 January 1970 to this
    /// date-time, rounded down.
    pub open spec fn spec_timestamp_in(&self, unit: Timestamp) -> int {
        match unit {
            Timestamp::Second => self.spec_timestamp(),
            Timestamp::Milli => self.spec_timestamp() * 1_000 + self.time.nano / 1_000_000,
            Timestamp::Micro => self.spec_timestamp() * 1_000_000 + self.time.nano / 1_000,
            Timestamp::Nano => self.spec_timestamp() * 1_000_000_000 + self.time.nano,
        }
    }

    /// The timestamp of this date-time in `unit`, or `None` where the number
    /// does not fit in 64 bits.
    pub open spec fn spec_timestamp_opt(&self, unit: Timestamp) -> Option<i64> {
        if i64::MIN <= self.spec_timestamp_in(unit) <= i64::MAX {
            Some(self.spec_timestamp_in(unit) as i64)
        } else {
            None
        }
    }

    /// The local time at `zone` when UTC is at this date-time, as a timestamp
    /// in `unit`. `None` where the local time falls on no date or the number
    /// does not fit.
    pub open spec fn spec_local_timestamp(&self, zone: ZoneType, unit: Timestamp) -> Option<i64> {
        match self.spec_local(zone) {
            Some(local) => local.spec_timestamp_opt(unit),
            None => None,
        }
    }

    /// The local time at `zone` when UTC is at this date-time, or `None`
    /// where that falls on no date.
    pub open spec fn spec_local(&self, zone: ZoneType) -> Option<NaiveDateTime> {
        let shift = zone.spec_hours() * 3_600_000_000_000;
        if self.can_shift_nanos(shift) {
            Some(self.shift_nanos(shift))
        } else {
            None
        }
    }
}

impl Now {
    /// The local time at `zone` when UTC is at `now`: `now` moved by the
    /// hours of the offset, ahead to the east and back to the west. `None`
    /// where that falls on no date.
    pub fn local_at(now: &NaiveDateTime, zone: ZoneType) -> (r: Option<NaiveDateTime>)
        requires
            now.wf(),
            zone.wf(),
        ensures
            r == now.spec_local(zone),
            r.is_some() ==> r.unwrap().wf(),
    {
        let hours: i32 = match zone {
            ZoneType::East(n) => n.value(),
            ZoneType::West(n) => -n.value(),
        };
        if hours >= 0 {
            now.add_hours_opt(hours as u32)
        } else {
            now.sub_hours_opt((-hours) as u32)
        }
    }

    /// The timestamp of `now` in `time_type`: the units from the midnight
    /// that starts 1 January 1970, rounded down. `None` where the number does
    /// not fit, which only nanoseconds can do.
    pub fn timestamp_at(now: &NaiveDateTime, time_type: Timestamp) -> (r: Option<i64>)
        requires
            now.wf(),
        ensures
            r == now.spec_timestamp_opt(time_type),
            time_type != Timestamp::Nano ==> r.is_some(),
    {
        proof {
            NaiveDateTime::lemma_order(*now, *now);
            crate::naive_time::NaiveTime::lemma_order(now.time, now.time);
        }
        let seconds: i64 = now.timestamp();
        let nano: i64 = now.time.nano as i64;
        match time_type {
            Timestamp::Second => Some(seconds),
            Timestamp::Milli => Some(seconds * 1_000 + nano / 1_000_000),
            Timestamp::Micro => Some(seconds * 1_000_000 + nano / 1_000),
            Timestamp::Nano => {
                let whole: i128 = seconds as i128 * 1_000_000_000 + nano as i128;
                if whole < -0x8000_0000_0000_0000 || whole > 0x7fff_ffff_ffff_ffff {
                    None
                } else {
                    Some(whole as i64)
                }
            },
        }
    }

    /// The local time at `zone` when UTC is at `now`, as a timestamp in
    /// `time_type`. `None` where the local time falls on no date or the
    /// number does not fit.
    pub fn timestamp_with_local_at(now: &NaiveDateTime, zone_type: ZoneType, time_type: Timestamp)
        -> (r: Option<i64>)
        requires
            now.wf(),
            zone_type.wf(),
        ensures
            r == now.spec_local_timestamp(zone_type, time_type),
    {
        match Now::local_at(now, zone_type) {
            Some(local) => Now::timestamp_at(&local, time_type),
            None => None,
        }
    }

    /// The present moment of the clock, in UTC.
    pub fn utc() -> (r: NaiveDateTime)
        ensures
            r.wf(),
    {
        primitive::utc_now()
    }

    /// The present local time at `zone`: whatever the clock shows, the
    /// result is what `local_at` gives for that moment.
    pub fn local(zone: ZoneType) -> (r: Option<NaiveDateTime>)
        requires
            zone.wf(),
        ensures
            exists|now: NaiveDateTime| #[trigger] now.wf() && r == now.spec_local(zone),
            r.is_some() ==> r.unwrap().wf(),
    {
        let now = Now::utc();
        Now::local_at(&now, zone)
    }

    /// The present moment as a timestamp in `time_type`: whatever the clock
    /// shows, the result is what `timestamp_at` gives for that moment.
    pub fn timestamp_utc(time_type: Timestamp) -> (r: Option<i64>)
        ensures
            exists|now: NaiveDateTime| #[trigger]
                now.wf() && r == now.spec_timestamp_opt(time_type),
            time_type != Timestamp::Nano ==> r.is_some(),
    {
        let now = Now::utc();
        Now::timestamp_at(&now, time_type)
    }

    /// The present moment as a timestamp in seconds: the seconds from 1970
    /// to the moment that the clock shows.
    pub fn timestamp() -> (r: i64)
        ensures
            exists|now: NaiveDateTime| #[trigger]
                now.wf() && r == now.spec_timestamp_in(Timestamp::Second),
    {
        Now::timestamp_utc(Timestamp::Second).unwrap()
    }

    /// The present moment as a timestamp in nanoseconds, or `None` where the
    /// number does not fit: before 1677 or after 2262.
    pub fn timestamp_nanos() -> (r: Option<i64>)
        ensures
            exists|now: NaiveDateTime| #[trigger]
                now.wf() && r == now.spec_timestamp_opt(Timestamp::Nano),
    {
        Now::timestamp_utc(Timestamp::Nano)
    }

    /// The present moment as a timestamp in microseconds: those from 1970 to
    /// the moment that the clock shows, rounded down.
    pub fn timestamp_micros() -> (r: i64)
        ensures
            exists|now: NaiveDateTime| #[trigger]
                now.wf() && r == now.spec_timestamp_in(Timestamp::Micro),
    {
        Now::timestamp_utc(Timestamp::Micro).unwrap()
    }

    /// The present moment as a timestamp in milliseconds: those from 1970 to
    /// the moment that the clock shows, rounded down.
    pub fn timestamp_millis() -> (r: i64)
        ensures
            exists|now: NaiveDateTime| #[trigger]
                now.wf() && r == now.spec_timestamp_in(Timestamp::Milli),
    {
        Now::timestamp_utc(Timestamp::Milli).unwrap()
    }

    /// The present local time at the zone as a timestamp in `time_type`:
    /// whatever the clock shows, the result is what `timestamp_with_local_at`
    /// gives for that moment.
    pub fn timestamp_with_local(zone_type: ZoneType, time_type: Timestamp) -> (r: Option<i64>)
        requires
            zone_type.wf(),
        ensures
            exists|now: NaiveDateTime| #[trigger]
                now.wf() && r == now.spec_local_timestamp(zone_type, time_type),
    {
        let now = Now::utc();
        Now::timestamp_with_local_at(&now, zone_type, time_type)
    }

    /// The present local time at the zone as a timestamp in seconds, or
    /// `None` where that time falls on no date or the number does not fit.
    pub fn timestamp_local(zone_type: ZoneType) -> (r: Option<i64>)
        requires
            zone_type.wf(),
        ensures
            exists|now: NaiveDateTime| #[trigger]
                now.wf() && r == now.spec_local_timestamp(zone_type, Timestamp::Second),
    {
        Now::timestamp_with_local(zone_type, Timestamp::Second)
    }

    /// The present local time at the zone as a timestamp in nanoseconds, or
    /// `None` where that time falls on no date or the number does not fit.
    pub fn timestamp_local_nanos(zone_type: ZoneType) -> (r: Option<i64>)
        requires
            zone_type.wf(),
        ensures
            exists|now: NaiveDateTime| #[trigger]
                now.wf() && r == now.spec_local_timestamp(zone_type, Timestamp::Nano),
    {
        Now::timestamp_with_local(zone_type, Timestamp::Nano)
    }

    /// The present local time at the zone as a timestamp in milliseconds, or
    /// `None` where that time falls on no date or the number does not fit.
    pub fn timestamp_local_milli(zone_type: ZoneType) -> (r: Option<i64>)
        requires
            zone_type.wf(),
        ensures
            exists|now: NaiveDateTime| #[trigger]
                now.wf() && r == now.spec_local_timestamp(zone_type, Timestamp::Milli),
    {
        Now::timestamp_with_local(zone_type, Timestamp::Milli)
    }

    /// The present local time at the zone as a timestamp in microseconds, or
    /// `None` where that time falls on no date or the number does not fit.
    pub fn timestamp_local_micro(zone_type: ZoneType) -> (r: Option<i64>)
        requires
            zone_type.wf(),
        ensures
            exists|now: NaiveDateTime| #[trigger]
                now.wf() && r == now.spec_local_timestamp(zone_type, Timestamp::Micro),
    {
        Now::timestamp_with_local(zone_type, Timestamp::Micro)
    }
}

} // verus!
