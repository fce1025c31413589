//! Departure times.
//!
//! A departure time is a moment on the UTC time line, held as the number of
//! seconds since the start of 1970. The calendar work is done by `chrono`: which
//! hour and minute a moment falls on, and what moment lies some minutes later.
//! The library reads no clock: whoever wants the present time reads it and makes
//! a departure time of it with `DepartureTime::from_timestamp`.

use vstd::prelude::*;
use chrono::TimeZone;
use chrono::Timelike;

verus! {

/// The earliest moment that `chrono` can hold: the start of the year -262144.
pub const MIN_TIMESTAMP: i64 = -8_334_632_851_200;

/// The latest moment that `chrono` can hold: the last second of the year 262143.
pub const MAX_TIMESTAMP: i64 = 8_210_298_412_799;

/// Seconds in a day.
pub const SECONDS_PER_DAY: i64 = 86_400;

/// Seconds in a minute.
pub const SECONDS_PER_MINUTE: i64 = 60;

/// Whether `secs` is a moment that a departure time can hold.
pub open spec fn is_timestamp(secs: int) -> bool {
    MIN_TIMESTAMP <= secs <= MAX_TIMESTAMP
}

/// The second of the day, from 0 to 86399, on which the moment `secs` falls.
pub open spec fn second_of_day(secs: int) -> int {
    secs % (SECONDS_PER_DAY as int)
}

/// The hour of the day, from 0 to 23, on which the moment `secs` falls.
pub open spec fn hour_of(secs: int) -> int {
    second_of_day(secs) / 60 / 60
}

/// The minute of the hour, from 0 to 59, on which the moment `secs` falls.
pub open spec fn minute_of(secs: int) -> int {
    (second_of_day(secs) / 60) % 60
}

/// The hour that `chrono`'s `Timelike::hour` reads from the UTC date and time
/// that `TimeZone::timestamp` makes of `secs`. The contract claims what the two
/// compute: the seconds are split into days and a second of the day by floored
/// division, and the hour is that second divided by 60 twice. `timestamp` panics
/// outside the range of dates that `chrono` holds, which `requires` leaves out.
#[verifier::external_body]
fn utc_hour(secs: i64) -> (hour: u32)
    requires
        is_timestamp(secs as int),
    ensures
        hour == hour_of(secs as int),
{
    chrono::Utc.timestamp(secs, 0).hour()
}

/// The minute that `chrono`'s `Timelike::minute` reads from the UTC date and time
/// that `TimeZone::timestamp` makes of `secs`: the second of the day divided by
/// 60, modulo 60.
#[verifier::external_body]
fn utc_minute(secs: i64) -> (minute: u32)
    requires
        is_timestamp(secs as int),
    ensures
        minute == minute_of(secs as int),
{
    chrono::Utc.timestamp(secs, 0).minute()
}

/// The moment `minutes` minutes after `secs`, as `chrono` adds a `time::Duration`
/// of `Duration::minutes` to a UTC date and time. The contract claims that the
/// sum counts 60 seconds to the minute (`chrono` knows no leap seconds on
/// timestamps). The addition panics when the sum leaves the range of dates that
/// `chrono` holds, which `requires` leaves out.
#[verifier::external_body]
fn utc_add_minutes(secs: i64, minutes: i64) -> (sum: i64)
    requires
        is_timestamp(secs as int),
        is_timestamp(secs + SECONDS_PER_MINUTE * minutes),
    ensures
        sum == secs + SECONDS_PER_MINUTE * minutes,
{
    (chrono::Utc.timestamp(secs, 0) + time::Duration::minutes(minutes)).timestamp()
}

/// A moment at which a train departs.
#[derive(Clone, Copy, Debug, PartialEq, Eq)]
pub struct DepartureTime {
    secs: i64,
}

impl View for DepartureTime {
    type V = int;

    /// The moment in seconds since the start of 1970, UTC.
    closed spec fn view(&self) -> int {
        self.secs as int
    }
}

impl DepartureTime {
    /// Every departure time is a moment that `chrono` can hold.
    pub open spec fn wf(&self) -> bool {
        is_timestamp(self@)
    }

    /// The departure time `secs` seconds after the start of 1970, unless `secs`
    /// lies outside the range of moments that can be held.
    pub fn from_timestamp(secs: i64) -> (time: Option<DepartureTime>)
        ensures
            time is Some <==> is_timestamp(secs as int),
            time matches Some(t) ==> t@ == secs && t.wf(),
    {
        if MIN_TIMESTAMP <= secs && secs <= MAX_TIMESTAMP {
            Some(DepartureTime { secs })
        } else {
            None
        }
    }

    /// Seconds since the start of 1970, UTC.
    pub fn timestamp(&self) -> (secs: i64)
        ensures
            secs == self@,
    {
        self.secs
    }

    /// The hour of the day, from 0 to 23.
    pub fn hour(&self) -> (hour: u32)
        requires
            self.wf(),
        ensures
            hour == hour_of(self@),
            hour < 24,
    {
        utc_hour(self.secs)
    }

    /// The minute of the hour, from 0 to 59.
    pub fn minute(&self) -> (minute: u32)
        requires
            self.wf(),
        ensures
            minute == minute_of(self@),
            minute < 60,
    {
        utc_minute(self.secs)
    }

    /// Whether the moment `minutes` minutes later can still be held.
    pub fn can_add_minutes(&self, minutes: i64) -> (possible: bool)
        requires
            self.wf(),
        ensures
            possible == is_timestamp(self@ + SECONDS_PER_MINUTE * minutes),
    {
        if minutes >= 0 {
            minutes <= (MAX_TIMESTAMP - self.secs) / SECONDS_PER_MINUTE
        } else {
            // The division of a positive by a positive rounds down, as the bound asks.
            minutes >= -((self.secs - MIN_TIMESTAMP) / SECONDS_PER_MINUTE)
        }
    }

    /// The moment `minutes` minutes later.
    pub fn plus_minutes(&self, minutes: i64) -> (later: DepartureTime)
        requires
            self.wf(),
            is_timestamp(self@ + SECONDS_PER_MINUTE * minutes),
        ensures
            later@ == self@ + SECONDS_PER_MINUTE * minutes,
            later.wf(),
    {
        DepartureTime { secs: utc_add_minutes(self.secs, minutes) }
    }
}

} // verus!
