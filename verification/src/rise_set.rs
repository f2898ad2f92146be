//! Daily transition sets and the day-boundary bookkeeping around them.
//!
//! A transition that did not happen is carried as a sentinel instant: zero,
//! or anything below [`MIN_JD_MS`].  Callers test against `MIN_JD_MS`
//! before treating a value as real; nothing here raises an error.

use vstd::prelude::*;
use crate::models::{KeyNumValue, KeyNumValueSet, SunPeriod, DAY_MS, DEG_180, HALF_DAY_MS, MAX_JD_MS, valid_jd_ms};
use crate::text::{contains_seq, str_contains, str_eq};
use crate::numeric::tdiv;

verus! {

/// The search bound for multi-day scans around polar day and night: half a
/// year.
pub const MAX_POLAR_DAY: i32 = 183;

/// Instants below this (1000 days past the epoch, in milliseconds) are
/// sentinels meaning "not found / not applicable".
pub const MIN_JD_MS: i64 = 86_400_000_000;

/// Altitude tolerance (half a degree, in micro-degrees) against which a
/// day counts as all-up or all-down.
pub const UP_DOWN_TOLERANCE: i64 = 500_000;

/// The flag bits of the ephemeris library's transition queries, as named
/// variants rather than hand-ORed numbers.
#[derive(Clone, Copy, Debug, PartialEq, Eq, Structural)]
pub enum TransitionParams {
    Rise,
    Setting,
    Mc,
    Ic,
    Center,
    Bottom,
    Fixed,
    BitNoRefraction,
    BitGeoctrNoEclLat,
}

impl TransitionParams {
    /// The numeric flag bit of each variant.
    pub open spec fn value_spec(&self) -> int {
        match self {
            TransitionParams::Rise => 1,
            TransitionParams::Setting => 2,
            TransitionParams::Mc => 4,
            TransitionParams::Ic => 8,
            TransitionParams::Center => 256,
            TransitionParams::Bottom => 8192,
            TransitionParams::Fixed => 16384,
            TransitionParams::BitNoRefraction => 512,
            TransitionParams::BitGeoctrNoEclLat => 128,
        }
    }

    pub fn value(&self) -> (r: i32)
        ensures
            r as int == self.value_spec(),
    {
        match self {
            TransitionParams::Rise => 1,
            TransitionParams::Setting => 2,
            TransitionParams::Mc => 4,
            TransitionParams::Ic => 8,
            TransitionParams::Center => 256,
            TransitionParams::Bottom => 8192,
            TransitionParams::Fixed => 16384,
            TransitionParams::BitNoRefraction => 512,
            TransitionParams::BitGeoctrNoEclLat => 128,
        }
    }

    /// Centre-of-disc rising without refraction: `Center | BitNoRefraction`.
    pub fn center_disc_rising() -> (r: i32)
        ensures
            r == 768,
    {
        TransitionParams::Center.value() + TransitionParams::BitNoRefraction.value()
    }

    /// The rise query under the centre-disc convention.
    pub fn center_disc_rising_rise() -> (r: i32)
        ensures
            r == 769,
    {
        TransitionParams::center_disc_rising() + TransitionParams::Rise.value()
    }

    /// The plain rise query with a fixed disc.
    pub fn rise_normal() -> (r: i32)
        ensures
            r == 16385,
    {
        TransitionParams::Fixed.value() + TransitionParams::Rise.value()
    }

    /// The plain set query with a fixed disc.
    pub fn set_normal() -> (r: i32)
        ensures
            r == 16386,
    {
        TransitionParams::Fixed.value() + TransitionParams::Setting.value()
    }

    /// The set query under the centre-disc convention.
    pub fn center_disc_rising_set() -> (r: i32)
        ensures
            r == 770,
    {
        TransitionParams::center_disc_rising() + TransitionParams::Setting.value()
    }

    /// The upper-transit query without refraction.
    pub fn mc() -> (r: i32)
        ensures
            r == 516,
    {
        TransitionParams::BitNoRefraction.value() + TransitionParams::Mc.value()
    }

    /// The lower-transit query without refraction.
    pub fn ic() -> (r: i32)
        ensures
            r == 520,
    {
        TransitionParams::BitNoRefraction.value() + TransitionParams::Ic.value()
    }
}

/// A family of daily transition records that expose their instants as
/// keyed values.
pub trait TransitionGroup {
    /// The record's instants are on the Julian-day axis and its altitudes
    /// within range: the bounds every arithmetic use needs.
    spec fn wf(&self) -> bool;

    /// The day's rise-to-set span, in milliseconds.
    spec fn period_spec(&self) -> int;

    /// The keyed instants the record flattens to.
    spec fn key_nums_spec(&self) -> Seq<(Seq<char>, int)>;

    fn period(&self) -> (r: i64)
        requires
            self.wf(),
        ensures
            r as int == self.period_spec(),
    ;

    fn to_key_nums(&self) -> (r: Vec<KeyNumValue>)
        ensures
            r@.map_values(|kv: KeyNumValue| (kv.key@, kv.value as int)) == self.key_nums_spec(),
    ;
}

/// One day's transitions with cross-day links and altitude extrema.  In an
/// all-up period `prev_set` carries the previous rise and `next_rise` the
/// next set instead.
#[derive(Clone, Copy, Debug, PartialEq, Eq, Structural)]
pub struct ExtendedTransitionSet {
    pub prev_set: i64,
    pub rise: i64,
    pub mc: i64,
    pub set: i64,
    pub ic: i64,
    pub next_rise: i64,
    pub min: i64,
    pub max: i64,
}

impl ExtendedTransitionSet {
    pub open spec fn wf_spec(&self) -> bool {
        &&& -MAX_JD_MS <= self.prev_set <= MAX_JD_MS
        &&& -MAX_JD_MS <= self.rise <= MAX_JD_MS
        &&& -MAX_JD_MS <= self.mc <= MAX_JD_MS
        &&& -MAX_JD_MS <= self.set <= MAX_JD_MS
        &&& -MAX_JD_MS <= self.ic <= MAX_JD_MS
        &&& -MAX_JD_MS <= self.next_rise <= MAX_JD_MS
        &&& -DEG_180 <= self.min <= DEG_180
        &&& -DEG_180 <= self.max <= DEG_180
    }

    /// The day misses a rise or a set and never sinks below the tolerance.
    pub open spec fn is_up_by_spec(&self, tolerance: int) -> bool {
        (self.rise == 0 || self.set == 0) && self.min >= -tolerance
    }

    pub open spec fn is_up_spec(&self) -> bool {
        self.is_up_by_spec(UP_DOWN_TOLERANCE as int)
    }

    /// The day misses a rise or a set and never climbs above the tolerance.
    pub open spec fn is_down_by_spec(&self, tolerance: int) -> bool {
        (self.rise == 0 || self.set == 0) && self.max <= tolerance
    }

    pub open spec fn is_down_spec(&self) -> bool {
        self.is_down_by_spec(UP_DOWN_TOLERANCE as int)
    }

    /// The object sets after an extended period of being up all day, so it
    /// will rise again soon.
    pub open spec fn up_period_over_spec(&self) -> bool {
        self.rise == 0 && self.set > 0 && self.min < 0
    }

    /// A real rise is missing although the day swings through the horizon.
    pub open spec fn needs_rise_spec(&self) -> bool {
        self.rise < MIN_JD_MS && self.max > 0 && self.min < 0
    }

    pub fn is_up(&self) -> (r: bool)
        ensures
            r == self.is_up_spec(),
    {
        (self.rise == 0 || self.set == 0) && self.min >= -UP_DOWN_TOLERANCE
    }

    pub fn is_down(&self) -> (r: bool)
        ensures
            r == self.is_down_spec(),
    {
        (self.rise == 0 || self.set == 0) && self.max <= UP_DOWN_TOLERANCE
    }

    pub fn up_period_over(&self) -> (r: bool)
        ensures
            r == self.up_period_over_spec(),
    {
        self.rise == 0 && self.set > 0 && self.min < 0
    }

    pub fn needs_rise(&self) -> (r: bool)
        ensures
            r == self.needs_rise_spec(),
    {
        self.rise < MIN_JD_MS && self.max > 0 && self.min < 0
    }

    /// Backfills the previous rise or set link in a day scan, once the
    /// carried value is known.
    pub fn set_prev(&mut self, prev_jd: i64)
        ensures
            *final(self) == (ExtendedTransitionSet { prev_set: prev_jd, ..*old(self) }),
    {
        self.prev_set = prev_jd;
    }

    /// Backfills the next rise or set link in a day scan, once the carried
    /// value is known.
    pub fn set_next(&mut self, next_jd: i64)
        ensures
            *final(self) == (ExtendedTransitionSet { next_rise: next_jd, ..*old(self) }),
    {
        self.next_rise = next_jd;
    }
}

impl TransitionGroup for ExtendedTransitionSet {
    open spec fn wf(&self) -> bool {
        self.wf_spec()
    }

    open spec fn period_spec(&self) -> int {
        self.set - self.rise
    }

    open spec fn key_nums_spec(&self) -> Seq<(Seq<char>, int)> {
        let is_up = self.min >= 0 && self.max > 0;
        let prev_key = if is_up { "prev_rise"@ } else { "prev_set"@ };
        let next_key = if is_up { "next_set"@ } else { "next_rise"@ };
        seq![
            (prev_key, self.prev_set as int),
            ("rise"@, self.rise as int),
            ("mc"@, self.mc as int),
            ("set"@, self.set as int),
            ("ic"@, self.ic as int),
            (next_key, self.next_rise as int),
            ("min"@, self.min as int),
            ("max"@, self.max as int),
        ]
    }

    fn period(&self) -> (r: i64)
    {
        self.set - self.rise
    }

    fn to_key_nums(&self) -> (r: Vec<KeyNumValue>)
    {
        let is_up = self.min >= 0 && self.max > 0;
        let prev_key = if is_up { "prev_rise" } else { "prev_set" };
        let next_key = if is_up { "next_set" } else { "next_rise" };
        let mut items: Vec<KeyNumValue> = Vec::new();
        items.push(KeyNumValue::new(prev_key, self.prev_set));
        items.push(KeyNumValue::new("rise", self.rise));
        items.push(KeyNumValue::new("mc", self.mc));
        items.push(KeyNumValue::new("set", self.set));
        items.push(KeyNumValue::new("ic", self.ic));
        items.push(KeyNumValue::new(next_key, self.next_rise));
        items.push(KeyNumValue::new("min", self.min));
        items.push(KeyNumValue::new("max", self.max));
        proof {
            assert(items@.map_values(|kv: KeyNumValue| (kv.key@, kv.value as int))
                =~= self.key_nums_spec());
        }
        items
    }
}

/// One day's transitions together with the day's altitude extrema.
#[derive(Clone, Copy, Debug, PartialEq, Eq, Structural)]
pub struct AltTransitionSet {
    pub min: i64,
    pub rise: i64,
    pub mc: i64,
    pub set: i64,
    pub ic: i64,
    pub max: i64,
}

impl AltTransitionSet {
    pub open spec fn is_up_spec(&self) -> bool {
        (self.rise == 0 || self.set == 0) && self.min >= -UP_DOWN_TOLERANCE
    }

    pub open spec fn is_down_spec(&self) -> bool {
        (self.rise == 0 || self.set == 0) && self.max <= UP_DOWN_TOLERANCE
    }

    pub fn is_up(&self) -> (r: bool)
        ensures
            r == self.is_up_spec(),
    {
        (self.rise == 0 || self.set == 0) && self.min >= -UP_DOWN_TOLERANCE
    }

    pub fn is_down(&self) -> (r: bool)
        ensures
            r == self.is_down_spec(),
    {
        (self.rise == 0 || self.set == 0) && self.max <= UP_DOWN_TOLERANCE
    }

    /// `1` for an all-up day, `-1` for an all-down day, `0` otherwise.
    pub fn start_mode(&self) -> (r: i8)
        ensures
            self.is_up_spec() ==> r == 1,
            !self.is_up_spec() && self.is_down_spec() ==> r == -1,
            !self.is_up_spec() && !self.is_down_spec() ==> r == 0,
    {
        if self.is_up() {
            1
        } else if self.is_down() {
            -1
        } else {
            0
        }
    }
}

impl TransitionGroup for AltTransitionSet {
    open spec fn wf(&self) -> bool {
        &&& -MAX_JD_MS <= self.rise <= MAX_JD_MS
        &&& -MAX_JD_MS <= self.mc <= MAX_JD_MS
        &&& -MAX_JD_MS <= self.set <= MAX_JD_MS
        &&& -MAX_JD_MS <= self.ic <= MAX_JD_MS
        &&& -DEG_180 <= self.min <= DEG_180
        &&& -DEG_180 <= self.max <= DEG_180
    }

    open spec fn period_spec(&self) -> int {
        self.set - self.rise
    }

    open spec fn key_nums_spec(&self) -> Seq<(Seq<char>, int)> {
        seq![
            ("min"@, self.min as int),
            ("rise"@, self.rise as int),
            ("mc"@, self.mc as int),
            ("set"@, self.set as int),
            ("ic"@, self.ic as int),
            ("max"@, self.max as int),
        ]
    }

    fn period(&self) -> (r: i64)
    {
        self.set - self.rise
    }

    fn to_key_nums(&self) -> (r: Vec<KeyNumValue>)
    {
        let mut items: Vec<KeyNumValue> = Vec::new();
        items.push(KeyNumValue::new("min", self.min));
        items.push(KeyNumValue::new("rise", self.rise));
        items.push(KeyNumValue::new("mc", self.mc));
        items.push(KeyNumValue::new("set", self.set));
        items.push(KeyNumValue::new("ic", self.ic));
        items.push(KeyNumValue::new("max", self.max));
        proof {
            assert(items@.map_values(|kv: KeyNumValue| (kv.key@, kv.value as int))
                =~= self.key_nums_spec());
        }
        items
    }
}

/// One day's four basic transitions.
#[derive(Clone, Copy, Debug, PartialEq, Eq, Structural)]
pub struct TransitionSet {
    pub rise: i64,
    pub mc: i64,
    pub set: i64,
    pub ic: i64,
}

impl TransitionSet {
    pub fn empty() -> (r: TransitionSet)
        ensures
            r == (TransitionSet { rise: 0, mc: 0, set: 0, ic: 0 }),
    {
        TransitionSet { rise: 0, mc: 0, set: 0, ic: 0 }
    }
}

impl TransitionGroup for TransitionSet {
    open spec fn wf(&self) -> bool {
        &&& -MAX_JD_MS <= self.rise <= MAX_JD_MS
        &&& -MAX_JD_MS <= self.mc <= MAX_JD_MS
        &&& -MAX_JD_MS <= self.set <= MAX_JD_MS
        &&& -MAX_JD_MS <= self.ic <= MAX_JD_MS
    }

    open spec fn period_spec(&self) -> int {
        self.set - self.rise
    }

    open spec fn key_nums_spec(&self) -> Seq<(Seq<char>, int)> {
        let rise_key = if self.rise < 100 * DAY_MS { "max"@ } else { "rise"@ };
        let set_key = if self.set < 100 * DAY_MS { "min"@ } else { "set"@ };
        seq![
            (rise_key, self.rise as int),
            ("mc"@, self.mc as int),
            (set_key, self.set as int),
            ("ic"@, self.ic as int),
        ]
    }

    fn period(&self) -> (r: i64)
    {
        self.set - self.rise
    }

    fn to_key_nums(&self) -> (r: Vec<KeyNumValue>)
    {
        let rise_key = if self.rise < 100 * DAY_MS { "max" } else { "rise" };
        let set_key = if self.set < 100 * DAY_MS { "min" } else { "set" };
        let mut items: Vec<KeyNumValue> = Vec::new();
        items.push(KeyNumValue::new(rise_key, self.rise));
        items.push(KeyNumValue::new("mc", self.mc));
        items.push(KeyNumValue::new(set_key, self.set));
        items.push(KeyNumValue::new("ic", self.ic));
        proof {
            assert(items@.map_values(|kv: KeyNumValue| (kv.key@, kv.value as int))
                =~= self.key_nums_spec());
        }
        items
    }
}

/// Latitudes beyond ±60° take the sampling pipeline rather than the fast
/// oracle queries.
pub fn is_near_poles(lat: i64) -> (r: bool)
    ensures
        r == (lat >= 60_000_000 || lat <= -60_000_000),
{
    lat >= 60_000_000 || lat <= -60_000_000
}

/// The mean-solar-time offset of a longitude on the time axis: fifteen
/// degrees to the hour, eastern longitudes starting their day earlier.
pub open spec fn solar_time_offset_spec(lng: int) -> int {
    tdiv(-lng * 6, 25)
}

pub fn longitude_to_solar_time_offset_jd(lng: i64) -> (r: i64)
    requires
        -DEG_180 <= lng <= DEG_180,
    ensures
        r == solar_time_offset_spec(lng as int),
{
    crate::numeric::div_trunc(-lng * 6, 25)
}

/// The local solar day start nearest the given instant.
pub open spec fn start_jd_geo_spec(jd: int, lng: int) -> int {
    let offset = solar_time_offset_spec(lng);
    let jd_progress = jd % (DAY_MS as int);
    let adjusted_progress = offset - jd_progress;
    let start_offset = if adjusted_progress >= HALF_DAY_MS {
        HALF_DAY_MS as int
    } else {
        -HALF_DAY_MS as int
    };
    let start = jd - jd_progress + start_offset;
    let ref_jd = start + offset;
    let diff = jd - ref_jd;
    if diff > DAY_MS {
        ref_jd + DAY_MS
    } else if diff < -DAY_MS {
        ref_jd - DAY_MS
    } else {
        ref_jd
    }
}

/// The start of the local solar day containing (or nearest to) `jd` for an
/// observer at longitude `lng`: midnight of mean solar time, within a day
/// of the given instant.
pub fn start_jd_geo(jd: i64, lng: i64) -> (r: i64)
    requires
        valid_jd_ms(jd),
        -DEG_180 <= lng <= DEG_180,
    ensures
        r == start_jd_geo_spec(jd as int, lng as int),
{
    let offset = longitude_to_solar_time_offset_jd(lng);
    let jd_progress = jd % DAY_MS;
    let adjusted_progress = offset - jd_progress;
    let start_offset: i64 = if adjusted_progress >= HALF_DAY_MS {
        HALF_DAY_MS
    } else {
        -HALF_DAY_MS
    };
    let start = (jd - jd_progress) + start_offset;
    let ref_jd = start + offset;
    let diff = jd - ref_jd;
    if diff > DAY_MS {
        ref_jd + DAY_MS
    } else if diff < -DAY_MS {
        ref_jd - DAY_MS
    } else {
        ref_jd
    }
}

/// As [`start_jd_geo`], but an explicit time-zone offset in seconds, when
/// known, replaces the longitude estimate (240 seconds to the degree).
pub fn start_jd_geo_tz(jd: i64, lng: i64, tz_offset: Option<i32>) -> (r: i64)
    requires
        valid_jd_ms(jd),
        -DEG_180 <= lng <= DEG_180,
        match tz_offset {
            Some(tzs) => -43_200 <= tzs <= 43_200,
            None => true,
        },
    ensures
        r == start_jd_geo_spec(
            jd as int,
            match tz_offset {
                Some(tzs) => tdiv(tzs as int * 1_000_000, 240),
                None => lng as int,
            },
        ),
{
    let lng_offset: i64 = match tz_offset {
        Some(tzs) => crate::numeric::div_trunc((tzs as i64) * 1_000_000, 240),
        None => lng,
    };
    proof {
        if let Some(tzs) = tz_offset {
            crate::numeric::lemma_tdiv_abs_le(tzs as int * 1_000_000, 240);
        }
    }
    start_jd_geo(jd, lng_offset)
}

/// A valid upper-transit answer keeps its instant; an invalid one (below
/// one day: the native flags misbehaved) is replaced by the midpoint of
/// the surrounding rise and set.
pub open spec fn normalized_transit_spec(value: int, first: int, second: int) -> int {
    if value >= DAY_MS {
        value
    } else {
        (second + first) / 2
    }
}

/// Normalizes an upper-transit instant: `value` as the oracle returned it,
/// `rise_n` and `set_n` the fixed-disc rise and following set used for the
/// midpoint fallback.
pub fn normalized_mc_jd(value: i64, rise_n: i64, set_n: i64) -> (r: i64)
    requires
        -MAX_JD_MS <= value <= MAX_JD_MS,
        0 <= rise_n <= MAX_JD_MS,
        0 <= set_n <= MAX_JD_MS,
    ensures
        r == normalized_transit_spec(value as int, rise_n as int, set_n as int),
{
    if value >= DAY_MS {
        value
    } else {
        (set_n + rise_n) / 2
    }
}

/// Normalizes a lower-transit instant: the midpoint fallback spans the
/// fixed-disc set and the following rise.
pub fn normalized_ic_jd(value: i64, set_n: i64, next_rise_n: i64) -> (r: i64)
    requires
        -MAX_JD_MS <= value <= MAX_JD_MS,
        0 <= set_n <= MAX_JD_MS,
        0 <= next_rise_n <= MAX_JD_MS,
    ensures
        r == normalized_transit_spec(value as int, set_n as int, next_rise_n as int),
{
    if value >= DAY_MS {
        value
    } else {
        (next_rise_n + set_n) / 2
    }
}

/// The midpoint fallback lands between the two instants it interpolates:
/// whenever the oracle's native transit answer is invalid and the
/// surrounding rise and set are in order, the normalized transit sits
/// within them.
pub proof fn lemma_normalized_transit_between(value: int, first: int, second: int)
    requires
        value < DAY_MS,
        0 <= first <= second,
    ensures
        first <= normalized_transit_spec(value, first, second) <= second,
{
    assert((second + first) / 2 >= (first + first) / 2) by {
        vstd::arithmetic::div_mod::lemma_div_is_ordered(first + first, second + first, 2);
    }
    assert((first + first) / 2 == first) by {
        vstd::arithmetic::div_mod::lemma_div_by_multiple(first, 2);
        assert(first * 2 == first + first) by (nonlinear_arith);
    }
    assert((second + first) / 2 <= (second + second) / 2) by {
        vstd::arithmetic::div_mod::lemma_div_is_ordered(second + first, second + second, 2);
    }
    assert((second + second) / 2 == second) by {
        vstd::arithmetic::div_mod::lemma_div_by_multiple(second, 2);
        assert(second * 2 == second + second) by (nonlinear_arith);
    }
}

/// The first real instant in a day-by-day candidate scan: candidates are
/// per-day results at growing distance from the reference day, and the
/// scan takes the first at or beyond the sentinel threshold, from
/// `counter_start` up to the half-year bound.
pub open spec fn first_real_candidate(candidates: Seq<i64>, c: int) -> int
    decreases candidates.len() - c,
{
    if c < 0 || c >= candidates.len() {
        0
    } else if candidates[c] >= MIN_JD_MS {
        candidates[c] as int
    } else {
        first_real_candidate(candidates, c + 1)
    }
}

/// Walks outward day by day for the nearest real transition: `candidates`
/// holds, for each day offset, the set instant (scanning forward) or rise
/// instant (scanning backward) that day produced, and the result is the
/// first real one from `counter_start` on, or the zero sentinel.
pub fn calc_next_set_or_prev_rise_jd(candidates: &Vec<i64>, counter_start: usize) -> (r: i64)
    requires
        candidates@.len() == MAX_POLAR_DAY,
    ensures
        r as int == first_real_candidate(candidates@, counter_start as int),
{
    if counter_start >= 183 {
        return 0;
    }
    let mut counter: usize = counter_start;
    while counter < 183
        invariant
            candidates@.len() == MAX_POLAR_DAY,
            counter_start <= counter <= 183,
            first_real_candidate(candidates@, counter_start as int) == first_real_candidate(
                candidates@,
                counter as int,
            ),
        decreases 183 - counter,
    {
        let candidate = candidates[counter];
        if candidate >= MIN_JD_MS {
            return candidate;
        }
        counter = counter + 1;
    }
    0
}

/// The state carried across a multi-day sun scan: the last real set and
/// rise seen, the links resolved for all-up days, whether multi-day
/// searches are armed, and whether the previous day ended an up period.
#[derive(Clone, Copy, Debug, PartialEq, Eq, Structural)]
pub struct SunScanState {
    pub prev_set_jd: i64,
    pub next_rise_jd: i64,
    pub prev_rise_jd: i64,
    pub next_set_jd: i64,
    pub get_prev_next: bool,
    pub prev_up_over: bool,
}

/// The scan state before the first day: nothing carried, searches armed.
pub open spec fn sun_scan_init_spec() -> SunScanState {
    SunScanState {
        prev_set_jd: 0,
        next_rise_jd: 0,
        prev_rise_jd: 0,
        next_set_jd: 0,
        get_prev_next: true,
        prev_up_over: false,
    }
}

/// One day of the sun scan.
///
/// A day with a real rise or set refreshes the carried instants and
/// re-arms the multi-day searches.  An all-down day is backfilled with
/// the carried previous set and next rise; an all-up day with the carried
/// previous rise and next set, falling back to the bounded day-by-day
/// search results (`fb_prev_rise`, `fb_next_set`) when nothing is carried
/// yet.  The disarmed state is an optimisation, not a correctness
/// requirement.
pub open spec fn sun_scan_step_spec(
    st: SunScanState,
    row: ExtendedTransitionSet,
    fb_prev_rise: i64,
    fb_next_set: i64,
) -> (SunScanState, ExtendedTransitionSet) {
    let next_rise_jd = if row.next_rise > 0 { row.next_rise } else { st.next_rise_jd };
    let prev_set_jd = if row.set > 0 {
        row.set
    } else if row.prev_set > MIN_JD_MS {
        row.prev_set
    } else {
        st.prev_set_jd
    };
    let prev_rise_carried = if row.rise > 0 { row.rise } else { st.prev_rise_jd };
    let rearmed = row.set > MIN_JD_MS || row.rise > MIN_JD_MS;
    if row.is_down_spec() {
        let out = ExtendedTransitionSet { prev_set: prev_set_jd, next_rise: next_rise_jd, ..row };
        (
            SunScanState {
                prev_set_jd,
                next_rise_jd,
                prev_rise_jd: prev_rise_carried,
                next_set_jd: st.next_set_jd,
                get_prev_next: rearmed,
                prev_up_over: row.up_period_over_spec(),
            },
            out,
        )
    } else if row.is_up_spec() {
        let prev_rise_jd = if prev_rise_carried < MIN_JD_MS { fb_prev_rise } else { prev_rise_carried };
        let next_set_jd = if st.next_set_jd < MIN_JD_MS { fb_next_set } else { st.next_set_jd };
        let out = ExtendedTransitionSet { prev_set: prev_rise_jd, next_rise: next_set_jd, ..row };
        (
            SunScanState {
                prev_set_jd,
                next_rise_jd,
                prev_rise_jd,
                next_set_jd,
                get_prev_next: rearmed,
                prev_up_over: row.up_period_over_spec(),
            },
            out,
        )
    } else {
        (
            SunScanState {
                prev_set_jd,
                next_rise_jd,
                prev_rise_jd: prev_rise_carried,
                next_set_jd: st.next_set_jd,
                get_prev_next: if rearmed { true } else { st.get_prev_next },
                prev_up_over: row.up_period_over_spec(),
            },
            row,
        )
    }
}

/// The scan state and enriched day records after the first `n` days.
pub open spec fn sun_scan_fold(
    rows: Seq<ExtendedTransitionSet>,
    fb_prev: Seq<i64>,
    fb_next: Seq<i64>,
    n: int,
) -> (SunScanState, Seq<ExtendedTransitionSet>)
    decreases n,
{
    if n <= 0 {
        (sun_scan_init_spec(), Seq::<ExtendedTransitionSet>::empty())
    } else {
        let prior = sun_scan_fold(rows, fb_prev, fb_next, n - 1);
        let step = sun_scan_step_spec(prior.0, rows[n - 1], fb_prev[n - 1], fb_next[n - 1]);
        (step.0, prior.1.push(step.1))
    }
}

/// The scan emits one record per day.
pub proof fn lemma_sun_scan_fold_len(
    rows: Seq<ExtendedTransitionSet>,
    fb_prev: Seq<i64>,
    fb_next: Seq<i64>,
    n: int,
)
    requires
        n >= 0,
    ensures
        sun_scan_fold(rows, fb_prev, fb_next, n).1.len() == n,
    decreases n,
{
    if n > 0 {
        lemma_sun_scan_fold_len(rows, fb_prev, fb_next, n - 1);
    }
}

/// The executable form of [`sun_scan_init_spec`].
pub fn sun_scan_init() -> (r: SunScanState)
    ensures
        r == sun_scan_init_spec(),
{
    SunScanState {
        prev_set_jd: 0,
        next_rise_jd: 0,
        prev_rise_jd: 0,
        next_set_jd: 0,
        get_prev_next: true,
        prev_up_over: false,
    }
}

/// Whether the coming step will consult the previous-rise fallback: the
/// day is all-up and no real rise is carried yet.  A driver that resolves
/// fallbacks lazily asks this before each step.
pub fn sun_scan_needs_prev_rise(st: &SunScanState, row: &ExtendedTransitionSet) -> (r: bool)
    ensures
        r == (!row.is_down_spec() && row.is_up_spec() && (if row.rise > 0 {
            row.rise
        } else {
            st.prev_rise_jd
        }) < MIN_JD_MS),
{
    let carried = if row.rise > 0 { row.rise } else { st.prev_rise_jd };
    !row.is_down() && row.is_up() && carried < MIN_JD_MS
}

/// Whether the coming step will consult the next-set fallback.
pub fn sun_scan_needs_next_set(st: &SunScanState, row: &ExtendedTransitionSet) -> (r: bool)
    ensures
        r == (!row.is_down_spec() && row.is_up_spec() && st.next_set_jd < MIN_JD_MS),
{
    !row.is_down() && row.is_up() && st.next_set_jd < MIN_JD_MS
}

/// One executable day of the sun scan, for drivers that interleave the
/// scan with fallback searches.
pub fn sun_scan_step(
    st: &SunScanState,
    row: &ExtendedTransitionSet,
    fb_prev_rise: i64,
    fb_next_set: i64,
) -> (r: (SunScanState, ExtendedTransitionSet))
    ensures
        r == sun_scan_step_spec(*st, *row, fb_prev_rise, fb_next_set),
{
    let next_rise_jd = if row.next_rise > 0 { row.next_rise } else { st.next_rise_jd };
    let prev_set_jd = if row.set > 0 {
        row.set
    } else if row.prev_set > MIN_JD_MS {
        row.prev_set
    } else {
        st.prev_set_jd
    };
    let prev_rise_carried = if row.rise > 0 { row.rise } else { st.prev_rise_jd };
    let rearmed = row.set > MIN_JD_MS || row.rise > MIN_JD_MS;
    if row.is_down() {
        let mut out = *row;
        out.set_prev(prev_set_jd);
        out.set_next(next_rise_jd);
        (
            SunScanState {
                prev_set_jd,
                next_rise_jd,
                prev_rise_jd: prev_rise_carried,
                next_set_jd: st.next_set_jd,
                get_prev_next: rearmed,
                prev_up_over: row.up_period_over(),
            },
            out,
        )
    } else if row.is_up() {
        let prev_rise_jd = if prev_rise_carried < MIN_JD_MS { fb_prev_rise } else { prev_rise_carried };
        let next_set_jd = if st.next_set_jd < MIN_JD_MS { fb_next_set } else { st.next_set_jd };
        let mut out = *row;
        out.set_prev(prev_rise_jd);
        out.set_next(next_set_jd);
        (
            SunScanState {
                prev_set_jd,
                next_rise_jd,
                prev_rise_jd,
                next_set_jd,
                get_prev_next: rearmed,
                prev_up_over: row.up_period_over(),
            },
            out,
        )
    } else {
        (
            SunScanState {
                prev_set_jd,
                next_rise_jd,
                prev_rise_jd: prev_rise_carried,
                next_set_jd: st.next_set_jd,
                get_prev_next: if rearmed { true } else { st.get_prev_next },
                prev_up_over: row.up_period_over(),
            },
            *row,
        )
    }
}

/// Walks a sequence of per-day sun transition records in order,
/// propagating carried rise and set instants across all-up and all-down
/// periods.
///
/// `rows[k]` is day `k`'s record as the per-day pipeline produced it;
/// `prev_rise_fallbacks[k]` and `next_set_fallbacks[k]` hold the bounded
/// backward and forward search results for day `k`, consulted only when
/// an all-up day has no carried value yet (see
/// [`sun_scan_needs_prev_rise`]).  Days are strictly sequential: each
/// backfill may depend on the previous day's carried state.
pub fn calc_transition_sets_sun(
    rows: &Vec<ExtendedTransitionSet>,
    prev_rise_fallbacks: &Vec<i64>,
    next_set_fallbacks: &Vec<i64>,
) -> (r: Vec<ExtendedTransitionSet>)
    requires
        prev_rise_fallbacks@.len() == rows@.len(),
        next_set_fallbacks@.len() == rows@.len(),
    ensures
        r@ == sun_scan_fold(rows@, prev_rise_fallbacks@, next_set_fallbacks@, rows@.len() as int).1,
        r@.len() == rows@.len(),
{
    let n = rows.len();
    let mut st = sun_scan_init();
    let mut out: Vec<ExtendedTransitionSet> = Vec::new();
    let mut i: usize = 0;
    while i < n
        invariant
            i <= n,
            n == rows@.len(),
            prev_rise_fallbacks@.len() == n,
            next_set_fallbacks@.len() == n,
            st == sun_scan_fold(rows@, prev_rise_fallbacks@, next_set_fallbacks@, i as int).0,
            out@ == sun_scan_fold(rows@, prev_rise_fallbacks@, next_set_fallbacks@, i as int).1,
        decreases n - i,
    {
        let stepped = sun_scan_step(&st, &rows[i], prev_rise_fallbacks[i], next_set_fallbacks[i]);
        st = stepped.0;
        out.push(stepped.1);
        i = i + 1;
    }
    proof {
        lemma_sun_scan_fold_len(rows@, prev_rise_fallbacks@, next_set_fallbacks@, n as int);
    }
    out
}

/// Across an unbroken all-up stretch whose days report no transition of
/// their own, every enriched record links to real instants: the previous
/// rise and next set carried in `prev_set` and `next_rise` are at or
/// beyond the sentinel threshold, provided the bounded searches resolve.
pub proof fn lemma_up_period_links_are_real(
    rows: Seq<ExtendedTransitionSet>,
    fb_prev: Seq<i64>,
    fb_next: Seq<i64>,
    n: int,
)
    requires
        0 <= n <= rows.len(),
        fb_prev.len() == rows.len(),
        fb_next.len() == rows.len(),
        forall|k: int|
            0 <= k < rows.len() ==> (#[trigger] rows[k]).is_up_spec() && !rows[k].is_down_spec()
                && rows[k].rise < MIN_JD_MS && rows[k].set < MIN_JD_MS,
        forall|k: int| 0 <= k < rows.len() ==> #[trigger] fb_prev[k] >= MIN_JD_MS,
        forall|k: int| 0 <= k < rows.len() ==> #[trigger] fb_next[k] >= MIN_JD_MS,
    ensures
        forall|k: int|
            0 <= k < n ==> (#[trigger] sun_scan_fold(rows, fb_prev, fb_next, n).1[k]).prev_set
                >= MIN_JD_MS && sun_scan_fold(rows, fb_prev, fb_next, n).1[k].next_rise
                >= MIN_JD_MS,
        n >= 1 ==> sun_scan_fold(rows, fb_prev, fb_next, n).0.prev_rise_jd >= MIN_JD_MS
            && sun_scan_fold(rows, fb_prev, fb_next, n).0.next_set_jd >= MIN_JD_MS,
    decreases n,
{
    lemma_sun_scan_fold_len(rows, fb_prev, fb_next, n);
    if n > 0 {
        lemma_up_period_links_are_real(rows, fb_prev, fb_next, n - 1);
        lemma_sun_scan_fold_len(rows, fb_prev, fb_next, n - 1);
    }
}

/// The day scan is a pure fold: identical inputs give identical enriched
/// records, however often it is re-run.
pub proof fn lemma_sun_scan_deterministic(
    r1: Seq<ExtendedTransitionSet>,
    r2: Seq<ExtendedTransitionSet>,
    rows: Seq<ExtendedTransitionSet>,
    fb_prev: Seq<i64>,
    fb_next: Seq<i64>,
    n: int,
)
    requires
        r1 == sun_scan_fold(rows, fb_prev, fb_next, n).1,
        r2 == sun_scan_fold(rows, fb_prev, fb_next, n).1,
    ensures
        r1 == r2,
{
}

/// Whether a candidate ends the forward search for the next rise: it
/// must be real, and when the backward search also starts away from the
/// reference day it must lie past the day's own rise.
pub fn next_rise_accept(candidate: i64, counter_start_prev: i32, base_rise: i64) -> (r: bool)
    ensures
        r == (candidate >= MIN_JD_MS && (counter_start_prev < 1 || candidate > base_rise)),
{
    candidate >= MIN_JD_MS && (counter_start_prev < 1 || candidate > base_rise)
}

/// The first accepted candidate of the forward next-rise search.
pub open spec fn first_accepted_rise(
    candidates: Seq<i64>,
    c: int,
    counter_start_prev: int,
    base_rise: int,
) -> int
    decreases candidates.len() - c,
{
    if c < 0 || c >= candidates.len() {
        0
    } else if candidates[c] >= MIN_JD_MS && (counter_start_prev < 1 || candidates[c] > base_rise) {
        candidates[c] as int
    } else {
        first_accepted_rise(candidates, c + 1, counter_start_prev, base_rise)
    }
}

/// Walks the forward day-by-day candidates for the next real rise,
/// skipping any that does not pass [`next_rise_accept`].
pub fn resolve_next_rise(
    candidates: &Vec<i64>,
    counter_start: usize,
    counter_start_prev: i32,
    base_rise: i64,
) -> (r: i64)
    requires
        candidates@.len() == MAX_POLAR_DAY,
    ensures
        r as int == first_accepted_rise(
            candidates@,
            counter_start as int,
            counter_start_prev as int,
            base_rise as int,
        ),
{
    let mut counter: usize = counter_start;
    if counter_start >= 183 {
        return 0;
    }
    while counter < 183
        invariant
            candidates@.len() == MAX_POLAR_DAY,
            counter_start <= counter <= 183,
            first_accepted_rise(
                candidates@,
                counter_start as int,
                counter_start_prev as int,
                base_rise as int,
            ) == first_accepted_rise(
                candidates@,
                counter as int,
                counter_start_prev as int,
                base_rise as int,
            ),
        decreases 183 - counter,
    {
        let candidate = candidates[counter];
        if next_rise_accept(candidate, counter_start_prev, base_rise) {
            return candidate;
        }
        counter = counter + 1;
    }
    0
}

/// The flattened transition rows of the first sun entry.
pub open spec fn sun_rows_spec(items: Seq<KeyNumValueSet>, i: int) -> Seq<KeyNumValue>
    decreases items.len() - i,
{
    if i < 0 || i >= items.len() {
        Seq::<KeyNumValue>::empty()
    } else if items[i].key@ == "su"@ {
        items[i].items@
    } else {
        sun_rows_spec(items, i + 1)
    }
}

/// The position of the sun's entry, when the collection has one.
fn sun_rows_index(items: &Vec<KeyNumValueSet>) -> (r: Option<usize>)
    ensures
        match r {
            Some(j) => j < items@.len() && items@[j as int].key@ == "su"@ && sun_rows_spec(
                items@,
                0,
            ) == items@[j as int].items@,
            None => sun_rows_spec(items@, 0) == Seq::<KeyNumValue>::empty(),
        },
{
    let n = items.len();
    let mut i: usize = 0;
    while i < n
        invariant
            i <= n,
            n == items@.len(),
            sun_rows_spec(items@, 0) == sun_rows_spec(items@, i as int),
        decreases n - i,
    {
        if str_eq(items[i].key.as_str(), "su") {
            return Some(i);
        }
        i = i + 1;
    }
    None
}

/// Picks the sun's keyed transition rows out of a per-body collection:
/// fresh copies carrying the same keys and instants.
pub fn extract_sun_rise_sets(items: &Vec<KeyNumValueSet>) -> (r: Vec<KeyNumValue>)
    ensures
        r@.len() == sun_rows_spec(items@, 0).len(),
        forall|k: int|
            0 <= k < r@.len() ==> (#[trigger] r@[k]).key@ == sun_rows_spec(items@, 0)[k].key@
                && r@[k].value == sun_rows_spec(items@, 0)[k].value,
{
    match sun_rows_index(items) {
        Some(j) => {
            let source = &items[j].items;
            let mut out: Vec<KeyNumValue> = Vec::new();
            let mut i: usize = 0;
            while i < source.len()
                invariant
                    i <= source@.len(),
                    out@.len() == i,
                    forall|k: int|
                        0 <= k < i ==> (#[trigger] out@[k]).key@ == source@[k].key@
                            && out@[k].value == source@[k].value,
                decreases source@.len() - i,
            {
                out.push(KeyNumValue::new(source[i].key.as_str(), source[i].value));
                i = i + 1;
            }
            out
        },
        None => Vec::new(),
    }
}

/// The value of the first row bearing the given key.
pub open spec fn row_value_spec(rows: Seq<KeyNumValue>, key: Seq<char>, i: int) -> Option<i64>
    decreases rows.len() - i,
{
    if i < 0 || i >= rows.len() {
        None
    } else if rows[i].key@ == key {
        Some(rows[i].value)
    } else {
        row_value_spec(rows, key, i + 1)
    }
}

/// The sun's rise or set instant out of a per-body collection, when one
/// is recorded.
pub fn extract_sun_rise_set_jd(transitions: &Vec<KeyNumValueSet>, is_set: bool) -> (r: Option<i64>)
    ensures
        r == row_value_spec(
            sun_rows_spec(transitions@, 0),
            if is_set { "set"@ } else { "rise"@ },
            0,
        ),
{
    let tr_key: &str = if is_set { "set" } else { "rise" };
    match sun_rows_index(transitions) {
        Some(j) => {
            let rows = &transitions[j].items;
            let n = rows.len();
            let mut i: usize = 0;
            while i < n
                invariant
                    i <= n,
                    n == rows@.len(),
                    rows@ == sun_rows_spec(transitions@, 0),
                    tr_key@ == if is_set { "set"@ } else { "rise"@ },
                    row_value_spec(rows@, tr_key@, 0) == row_value_spec(rows@, tr_key@, i as int),
                decreases n - i,
            {
                if str_eq(rows[i].key.as_str(), tr_key) {
                    return Some(rows[i].value);
                }
                i = i + 1;
            }
            None
        },
        None => None,
    }
}

/// The fold behind [`calc_sun_period`]: among the rise-like and set-like
/// rows, the latest instant at or before the reference (later rows win
/// ties, as a stable sort would order them) and the earliest after it.
pub open spec fn sun_period_fold(rows: Seq<KeyNumValue>, jd: int, n: int) -> (
    Option<(i64, bool)>,
    Option<i64>,
)
    decreases n,
{
    if n <= 0 {
        (None, None)
    } else {
        let prior = sun_period_fold(rows, jd, n - 1);
        let row = rows[n - 1];
        if contains_seq(row.key@, "set"@) || contains_seq(row.key@, "rise"@) {
            let before = if row.value <= jd && (prior.0 is None
                || row.value >= prior.0->Some_0.0) {
                Some((row.value, contains_seq(row.key@, "set"@)))
            } else {
                prior.0
            };
            let after = if row.value > jd && (prior.1 is None || row.value < prior.1->Some_0) {
                Some(row.value)
            } else {
                prior.1
            };
            (before, after)
        } else {
            prior
        }
    }
}

/// The daylight or night period the reference instant falls in: bounded
/// by the surrounding rise-like and set-like instants of the sun's rows,
/// a night whenever the opening bound is a set.  Missing bounds stay at
/// the zero sentinel.
pub fn calc_sun_period(rise_set_items: &Vec<KeyNumValueSet>, jd: i64) -> (r: SunPeriod)
    ensures
        r.jd == jd,
        ({
            let fold = sun_period_fold(
                sun_rows_spec(rise_set_items@, 0),
                jd as int,
                sun_rows_spec(rise_set_items@, 0).len() as int,
            );
            (match fold.0 {
                Some((start, night)) => r.start == start && r.night == night,
                None => r.start == 0 && !r.night,
            }) && (match fold.1 {
                Some(end) => r.end == end,
                None => r.end == 0,
            })
        }),
{
    let mut before: Option<(i64, bool)> = None;
    let mut after: Option<i64> = None;
    let index = sun_rows_index(rise_set_items);
    if index.is_none() {
        return SunPeriod::new(jd, 0, 0, false);
    }
    let j = index.unwrap();
    let rows = &rise_set_items[j].items;
    let n = rows.len();
    let mut i: usize = 0;
    while i < n
        invariant
            i <= n,
            n == rows@.len(),
            rows@ == sun_rows_spec(rise_set_items@, 0),
            (before, after) == sun_period_fold(rows@, jd as int, i as int),
        decreases n - i,
    {
        let row = &rows[i];
        let is_set_like = str_contains(row.key.as_str(), "set");
        let is_rise_like = str_contains(row.key.as_str(), "rise");
        if is_set_like || is_rise_like {
            let take_before = row.value <= jd && (match before {
                Some((v, _)) => row.value >= v,
                None => true,
            });
            if take_before {
                before = Some((row.value, is_set_like));
            }
            let take_after = row.value > jd && (match after {
                Some(v) => row.value < v,
                None => true,
            });
            if take_after {
                after = Some(row.value);
            }
        }
        i = i + 1;
    }
    let (start, night) = match before {
        Some((v, ng)) => (v, ng),
        None => (0, false),
    };
    let end = match after {
        Some(v) => v,
        None => 0,
    };
    SunPeriod::new(jd, start, end, night)
}

/// What the bounded searches leave in the cross-day links: a found
/// candidate replaces a sentinel link, an exhausted search leaves the
/// link as the neighbouring day reported it.
pub open spec fn resolved_link_spec(link: int, found: int) -> int {
    if link < MIN_JD_MS && found >= MIN_JD_MS {
        found
    } else {
        link
    }
}

/// Assembles a near-polar day's extended set from the sampling
/// pipeline's results.
///
/// `base` is the day's own scan, `prev` and `next` its neighbours (empty
/// sets unless `get_prev_next`).  When a neighbour supplies no real link,
/// the bounded half-year searches fill it in: `next_candidates[c]` holds
/// the rise that the day `counter_start_next + … + c` produced (accepted
/// by [`next_rise_accept`]), `prev_candidates[c]` the set of the day the
/// same distance back.
pub fn calc_transition_set_extended_azalt(
    base: &AltTransitionSet,
    prev: &TransitionSet,
    next: &TransitionSet,
    get_prev_next: bool,
    next_candidates: &Vec<i64>,
    prev_candidates: &Vec<i64>,
    counter_start_next: usize,
    counter_start_prev: usize,
) -> (r: ExtendedTransitionSet)
    requires
        next_candidates@.len() == MAX_POLAR_DAY,
        prev_candidates@.len() == MAX_POLAR_DAY,
        counter_start_prev <= 0x7fff_ffff,
    ensures
        r.rise == base.rise,
        r.mc == base.mc,
        r.set == base.set,
        r.ic == base.ic,
        r.min == base.min,
        r.max == base.max,
        get_prev_next && (next.rise < MIN_JD_MS || prev.set < MIN_JD_MS) ==> r.next_rise
            == resolved_link_spec(
            next.rise as int,
            first_accepted_rise(
                next_candidates@,
                counter_start_next as int,
                counter_start_prev as int,
                base.rise as int,
            ),
        ) && r.prev_set == resolved_link_spec(
            prev.set as int,
            first_real_candidate(prev_candidates@, counter_start_prev as int),
        ),
        !(get_prev_next && (next.rise < MIN_JD_MS || prev.set < MIN_JD_MS)) ==> r.next_rise
            == next.rise && r.prev_set == prev.set,
{
    let mut prev_set = prev.set;
    let mut next_rise = next.rise;
    if get_prev_next && (next.rise < MIN_JD_MS || prev.set < MIN_JD_MS) {
        if next_rise < MIN_JD_MS {
            let found = resolve_next_rise(
                next_candidates,
                counter_start_next,
                counter_start_prev as i32,
                base.rise,
            );
            if found >= MIN_JD_MS {
                next_rise = found;
            }
        }
        if prev_set < MIN_JD_MS {
            let found = calc_next_set_or_prev_rise_jd(prev_candidates, counter_start_prev);
            if found >= MIN_JD_MS {
                prev_set = found;
            }
        }
        proof {
            lemma_first_accepted_real(
                next_candidates@,
                counter_start_next as int,
                counter_start_prev as int,
                base.rise as int,
            );
            lemma_first_real_real(prev_candidates@, counter_start_prev as int);
        }
    }
    ExtendedTransitionSet {
        prev_set,
        rise: base.rise,
        mc: base.mc,
        set: base.set,
        ic: base.ic,
        next_rise,
        min: base.min,
        max: base.max,
    }
}

/// A found next-rise candidate is always a real instant.
proof fn lemma_first_accepted_real(
    candidates: Seq<i64>,
    c: int,
    counter_start_prev: int,
    base_rise: int,
)
    ensures
        first_accepted_rise(candidates, c, counter_start_prev, base_rise) == 0
            || first_accepted_rise(candidates, c, counter_start_prev, base_rise) >= MIN_JD_MS,
    decreases candidates.len() - c,
{
    if 0 <= c < candidates.len() {
        lemma_first_accepted_real(candidates, c + 1, counter_start_prev, base_rise);
    }
}

/// A found previous-set candidate is always a real instant.
proof fn lemma_first_real_real(candidates: Seq<i64>, c: int)
    ensures
        first_real_candidate(candidates, c) == 0 || first_real_candidate(candidates, c)
            >= MIN_JD_MS,
    decreases candidates.len() - c,
{
    if 0 <= c < candidates.len() {
        lemma_first_real_real(candidates, c + 1);
    }
}

} // verus!
