//! Conversions between unix time and the Julian-day axis.

use vstd::prelude::*;
use crate::numeric::tdiv;

verus! {

/// The unix epoch in milliseconds on the Julian-day axis: noon of the
/// reference day plus half a day to midnight of 1970-01-01 UTC.
pub const UNIX_EPOCH_JD_MS: i64 = 210_866_760_000_000;

/// The two components of the unix epoch's place on the Julian-day axis.
#[derive(Clone, Copy, Debug, PartialEq, Eq, Structural)]
pub enum JulianDayEpoch {
    Days,
    Hours,
}

impl JulianDayEpoch {
    /// The whole days (to the preceding noon) and the extra hours to
    /// midnight.
    pub open spec fn value_spec(&self) -> int {
        match self {
            JulianDayEpoch::Days => 2_440_587,
            JulianDayEpoch::Hours => 12,
        }
    }

    pub fn value(&self) -> (r: i64)
        ensures
            r as int == self.value_spec(),
    {
        match self {
            JulianDayEpoch::Days => 2_440_587,
            JulianDayEpoch::Hours => 12,
        }
    }

    /// The unix epoch in milliseconds on the Julian-day axis, from its
    /// two components.
    pub fn days_unix_ms() -> (r: i64)
        ensures
            r == UNIX_EPOCH_JD_MS,
    {
        JulianDayEpoch::Days.value() * 86_400_000 + JulianDayEpoch::Hours.value() * 3_600_000
    }
}

/// Converts a unix timestamp (seconds) to milliseconds on the Julian-day
/// axis.
pub fn unixtime_to_julian_day(ts: i64) -> (r: i64)
    requires
        -1_000_000_000_000 <= ts <= 1_000_000_000_000,
    ensures
        r == ts * 1000 + UNIX_EPOCH_JD_MS,
{
    ts * 1000 + JulianDayEpoch::days_unix_ms()
}

/// Converts milliseconds on the Julian-day axis to a unix timestamp in
/// seconds, truncating sub-second parts toward zero.
pub fn julian_day_to_unixtime(jd_ms: i64) -> (r: i64)
    requires
        -0x4000_0000_0000_0000 <= jd_ms <= 0x4000_0000_0000_0000,
    ensures
        r == tdiv(jd_ms - UNIX_EPOCH_JD_MS, 1000),
{
    crate::numeric::div_trunc(jd_ms - UNIX_EPOCH_JD_MS, 1000)
}

} // verus!
