//! Scanning a day's altitude curve for horizon crossings and meridian
//! transits.
//!
//! The position oracle supplies one altitude per sample instant (cadence
//! `multiplier` minutes); everything here consumes those plain values.  The
//! scan tracks the running maximum (MC candidate) and minimum (IC
//! candidate) and linearly interpolates the instant at which the
//! disc-adjusted altitude changes sign (rise and set candidates).  A
//! second, finer pass over a narrow window sharpens an extremum, and a
//! final pass synthesises near-horizon rise or set instants that a coarse
//! cadence would miss.

use vstd::prelude::*;
use crate::models::{KeyNumValue, DAY_MS, DEG_90, DEG_180, HALF_DAY_MS, MAX_JD_MS, valid_altitude, valid_jd_ms};
use crate::numeric::{abs_i, abs_val, div_trunc, tdiv, lemma_abs_mul_bound, lemma_div_bounded_by_factor, lemma_tdiv_abs_le};
use crate::rise_set::{MIN_JD_MS, UP_DOWN_TOLERANCE};

verus! {

/// Minutes per day: the span of one scanned day.
pub const MINS_PER_DAY: i64 = 1440;

/// Milliseconds per minute.
pub const MS_PER_MIN: i64 = 60_000;

/// Milliseconds per fine refinement step (one second).
pub const REFINE_STEP_MS: i64 = 1000;

/// What a sample stands for in a day's transition record.
#[derive(Clone, Copy, Debug, PartialEq, Eq, Structural)]
pub enum TransitionMode {
    Rise,
    Setting,
    Mc,
    Ic,
    Unset,
}

impl TransitionMode {
    /// The spec-level key of each mode.
    pub open spec fn to_key_spec(&self) -> Seq<char> {
        match self {
            TransitionMode::Rise => "rise"@,
            TransitionMode::Setting => "set"@,
            TransitionMode::Mc => "mc"@,
            TransitionMode::Ic => "ic"@,
            TransitionMode::Unset => ""@,
        }
    }

    pub fn to_key(&self) -> (r: &'static str)
        ensures
            r@ == self.to_key_spec(),
    {
        match self {
            TransitionMode::Rise => "rise",
            TransitionMode::Setting => "set",
            TransitionMode::Mc => "mc",
            TransitionMode::Ic => "ic",
            TransitionMode::Unset => "",
        }
    }
}

/// One altitude sample: the instant (`jd`, milliseconds on the Julian-day
/// axis), its offset into the scanned day (`mins`, milliseconds) and the
/// altitude `value` in micro-degrees.
#[derive(Clone, Copy, Debug, PartialEq, Eq, Structural)]
pub struct AltitudeSample {
    pub mode: TransitionMode,
    pub mins: i64,
    pub jd: i64,
    pub value: i64,
}

/// The instant adjustment applied when a running extremum moves: the
/// altitude gain mapped onto the time axis at a third of a day per
/// half-turn (micro-degrees × 9 / 50 gives milliseconds).
pub open spec fn frac_jd_adjust(value: int, prev_val: int, max_mode: bool) -> int {
    let frac_diff = if max_mode {
        abs_i(value) - abs_i(prev_val)
    } else {
        abs_i(prev_val) - abs_i(value)
    };
    tdiv(frac_diff * 9, 50)
}

impl AltitudeSample {
    pub fn new(mode: TransitionMode, mins: i64, jd: i64, value: i64) -> (r: AltitudeSample)
        ensures
            r == (AltitudeSample { mode, mins, jd, value }),
    {
        AltitudeSample { mode, mins, jd, value }
    }

    pub fn basic_var(mode: TransitionMode, value: i64) -> (r: AltitudeSample)
        ensures
            r == (AltitudeSample { mode, mins: 0, jd: 0, value }),
    {
        AltitudeSample { mode, mins: 0, jd: 0, value }
    }

    pub fn basic(mode: TransitionMode) -> (r: AltitudeSample)
        ensures
            r == (AltitudeSample { mode, mins: 0, jd: 0, value: 0 }),
    {
        AltitudeSample::basic_var(mode, 0)
    }

    /// A sample pinned to the lowest possible altitude, the seed of a
    /// running-maximum scan.
    pub fn basic_low(mode: TransitionMode) -> (r: AltitudeSample)
        ensures
            r == (AltitudeSample { mode, mins: 0, jd: 0, value: (-DEG_90) as i64 }),
    {
        AltitudeSample::basic_var(mode, -90_000_000)
    }

    /// A sample pinned to the highest possible altitude, the seed of a
    /// running-minimum scan.
    pub fn basic_high(mode: TransitionMode) -> (r: AltitudeSample)
        ensures
            r == (AltitudeSample { mode, mins: 0, jd: 0, value: DEG_90 as i64 }),
    {
        AltitudeSample::basic_var(mode, 90_000_000)
    }

    pub fn set_mode(&mut self, mode: TransitionMode)
        ensures
            *final(self) == (AltitudeSample { mode, ..*old(self) }),
    {
        self.mode = mode;
    }

    /// Micro-adjustment of the instant to account for altitude speed: an
    /// estimate refined later over a narrower window.
    pub fn set_frac_jd_diff(&mut self, prev_val: i64, max_mode: bool)
        requires
            -DEG_180 <= old(self).value <= DEG_180,
            -DEG_180 <= prev_val <= DEG_180,
            -MAX_JD_MS - DAY_MS <= old(self).jd <= MAX_JD_MS + DAY_MS,
        ensures
            *final(self) == (AltitudeSample {
                jd: (old(self).jd + frac_jd_adjust(old(self).value as int, prev_val as int, max_mode)) as i64,
                ..*old(self)
            }),
    {
        let av = abs_val(self.value);
        let ap = abs_val(prev_val);
        let frac_diff = if max_mode {
            av - ap
        } else {
            ap - av
        };
        let shift = div_trunc(frac_diff * 9, 50);
        self.jd = self.jd + shift;
    }

    pub fn to_key_num(&self) -> (r: KeyNumValue)
        ensures
            r.key@ == self.mode.to_key_spec(),
            r.value == self.jd,
    {
        KeyNumValue::new(self.mode.to_key(), self.jd)
    }
}

/// The interpolated zero-crossing instant between two samples: the second
/// instant, pulled back by the sample gap weighted with the share of the
/// second magnitude in the total swing.  A degenerate pair with no swing
/// yields an impossibly remote instant, read downstream as "no event".
pub open spec fn mid_point_spec(first_jd: int, first_value: int, second_jd: int, second_value: int) -> int {
    let value_diff = abs_i(second_value - first_value);
    if value_diff == 0 {
        second_jd - abs_i(second_jd - first_jd) - MAX_JD_MS
    } else {
        second_jd - tdiv(abs_i(second_jd - first_jd) * abs_i(second_value), value_diff)
    }
}

/// Progress to zero between two sample altitudes mapped onto the gap
/// between their instants.  In most rise and set cases one altitude is
/// below and the other above the horizon; occasionally both share a sign
/// and the result leaves the gap.
pub fn calc_mid_point(first: &AltitudeSample, second: &AltitudeSample) -> (r: i64)
    requires
        -DEG_180 <= first.value <= DEG_180,
        -DEG_180 <= second.value <= DEG_180,
        -MAX_JD_MS - DAY_MS <= first.jd <= MAX_JD_MS + DAY_MS,
        -MAX_JD_MS - DAY_MS <= second.jd <= MAX_JD_MS + DAY_MS,
        abs_i(second.jd - first.jd) <= DAY_MS,
    ensures
        r == mid_point_spec(first.jd as int, first.value as int, second.jd as int, second.value as int),
{
    let value_diff = second.value - first.value;
    let jd_diff = abs_val(second.jd - first.jd);
    if value_diff == 0 {
        second.jd - jd_diff - MAX_JD_MS
    } else {
        let vd = abs_val(value_diff);
        let av2 = abs_val(second.value);
        proof {
            lemma_abs_mul_bound(jd_diff as int, av2 as int, DAY_MS as int, DEG_180 as int);
        }
        let num = jd_diff * av2;
        proof {
            lemma_tdiv_abs_le(num as int, vd as int);
        }
        second.jd - div_trunc(num, vd)
    }
}

/// When two consecutive samples straddle the horizon, the interpolated
/// crossing never leaves the window they span.
pub proof fn lemma_mid_point_within_window(first_jd: int, first_value: int, second_jd: int, second_value: int)
    requires
        first_jd <= second_jd,
        first_value != second_value,
        (first_value <= 0 && second_value >= 0) || (second_value <= 0 && first_value >= 0),
    ensures
        first_jd <= mid_point_spec(first_jd, first_value, second_jd, second_value) <= second_jd,
{
    let w = second_jd - first_jd;
    let vd = abs_i(second_value - first_value);
    let num = abs_i(second_jd - first_jd) * abs_i(second_value);
    assert(vd == abs_i(first_value) + abs_i(second_value));
    assert(num == w * abs_i(second_value));
    assert(num <= vd * w) by {
        vstd::arithmetic::mul::lemma_mul_inequality(abs_i(second_value), vd, w);
        vstd::arithmetic::mul::lemma_mul_is_commutative(abs_i(second_value), w);
        vstd::arithmetic::mul::lemma_mul_is_commutative(vd, w);
    }
    assert(num >= 0) by {
        vstd::arithmetic::mul::lemma_mul_nonnegative(w, abs_i(second_value));
    }
    lemma_div_bounded_by_factor(num, vd, w);
}

/// The approximate crossing instant recovered from the day's extrema when
/// no sign change was sampled: the MC instant advanced (for a set) or
/// pulled back (for a rise) by the MC-to-IC gap, weighted with how far the
/// maximum stands above the horizon relative to the full altitude swing.
/// A flat curve (no swing downward) leaves the MC instant unchanged.
pub open spec fn jd_from_min_max_spec(mc_jd: int, mc_value: int, ic_jd: int, ic_value: int, set_mode: bool) -> int {
    let diff_alt = mc_value - ic_value;
    let rel_diff = if set_mode {
        abs_i(ic_jd - mc_jd)
    } else {
        -abs_i(ic_jd - mc_jd)
    };
    if diff_alt > 0 {
        mc_jd + tdiv(rel_diff * mc_value, diff_alt)
    } else {
        mc_jd
    }
}

/// Approximates a rise or set instant from the MC and IC samples when the
/// object only grazes the horizon within the day, as may happen near the
/// poles.
pub fn calc_jd_from_min_max(mc: &AltitudeSample, ic: &AltitudeSample, set_mode: bool) -> (r: i64)
    requires
        -DEG_180 <= mc.value <= DEG_180,
        -DEG_180 <= ic.value <= DEG_180,
        -MAX_JD_MS - DAY_MS <= mc.jd <= MAX_JD_MS + DAY_MS,
        -MAX_JD_MS - DAY_MS <= ic.jd <= MAX_JD_MS + DAY_MS,
        abs_i(ic.jd - mc.jd) <= 2 * DAY_MS,
    ensures
        r == jd_from_min_max_spec(mc.jd as int, mc.value as int, ic.jd as int, ic.value as int, set_mode),
{
    let diff_alt = mc.value - ic.value;
    if diff_alt > 0 {
        let gap = abs_val(ic.jd - mc.jd);
        let rel_diff = if set_mode {
            gap
        } else {
            -gap
        };
        proof {
            lemma_abs_mul_bound(rel_diff as int, mc.value as int, 2 * DAY_MS as int, DEG_180 as int);
        }
        let num = rel_diff * mc.value;
        proof {
            lemma_tdiv_abs_le(num as int, diff_alt as int);
        }
        mc.jd + div_trunc(num, diff_alt)
    } else {
        mc.jd
    }
}

/// The projected transition sample between two samples for a rise or set,
/// based on their altitude difference.
pub fn calc_mid_sample(
    item: &AltitudeSample,
    prev_min: i64,
    prev_value: i64,
    prev_jd: i64,
    mode: TransitionMode,
) -> (r: AltitudeSample)
    requires
        -DEG_180 <= prev_value <= DEG_180,
        -DEG_180 <= item.value <= DEG_180,
        -MAX_JD_MS - DAY_MS <= prev_jd <= MAX_JD_MS + DAY_MS,
        -MAX_JD_MS - DAY_MS <= item.jd <= MAX_JD_MS + DAY_MS,
        abs_i(item.jd - prev_jd) <= DAY_MS,
    ensures
        r == (AltitudeSample {
            mode,
            mins: prev_min,
            jd: mid_point_spec(prev_jd as int, prev_value as int, item.jd as int, item.value as int) as i64,
            value: 0,
        }),
{
    let prev_sample = AltitudeSample::new(mode, prev_min, prev_jd, prev_value);
    let mid_point = calc_mid_point(&prev_sample, item);
    AltitudeSample::new(mode, prev_min, mid_point, 0)
}

/// The full state of a day scan over an altitude curve: the four candidate
/// samples, which curve indices the extrema came from, whether the object
/// was seen crossing the horizon, and the previous sample carried between
/// steps.
#[derive(Clone, Copy, Debug, PartialEq, Eq, Structural)]
pub struct TransitionScan {
    pub rise: AltitudeSample,
    pub set: AltitudeSample,
    pub mc: AltitudeSample,
    pub ic: AltitudeSample,
    pub mc_index: usize,
    pub ic_index: usize,
    pub obj_rises: bool,
    pub obj_sets: bool,
    pub prev_value: i64,
    pub prev_min: i64,
    pub prev_jd: i64,
    pub prev_mc_val: i64,
    pub prev_ic_val: i64,
}

/// The scan state before the first sample: MC seeded at the lowest
/// altitude, IC at the highest, no crossings seen.
pub open spec fn scan_init_spec() -> TransitionScan {
    TransitionScan {
        rise: AltitudeSample { mode: TransitionMode::Rise, mins: 0, jd: 0, value: 0 },
        set: AltitudeSample { mode: TransitionMode::Setting, mins: 0, jd: 0, value: 0 },
        mc: AltitudeSample { mode: TransitionMode::Mc, mins: 0, jd: 0, value: (-DEG_90) as i64 },
        ic: AltitudeSample { mode: TransitionMode::Ic, mins: 0, jd: 0, value: DEG_90 as i64 },
        mc_index: 0,
        ic_index: 0,
        obj_rises: false,
        obj_sets: false,
        prev_value: 0,
        prev_min: 0,
        prev_jd: 0,
        prev_mc_val: 0,
        prev_ic_val: 0,
    }
}

/// One scan step: sample `i` with altitude `v` updates the running
/// extrema (micro-adjusted by the altitude speed once a previous extremum
/// exists) and interpolates a rise or set instant when the disc-adjusted
/// altitude changes sign against the previous sample.
pub open spec fn scan_step_spec(
    st: TransitionScan,
    jd_start: i64,
    step_ms: i64,
    disc: i64,
    i: int,
    v: i64,
) -> TransitionScan {
    let n_ms = (i * step_ms) as i64;
    let jd = (jd_start + n_ms) as i64;
    let mc = if v > st.mc.value {
        let adjusted = if st.prev_mc_val != 0 {
            (jd + frac_jd_adjust(v as int, st.prev_mc_val as int, true)) as i64
        } else {
            jd
        };
        AltitudeSample { mode: TransitionMode::Mc, mins: n_ms, jd: adjusted, value: v }
    } else {
        st.mc
    };
    let prev_mc_val = if v > st.mc.value {
        v
    } else {
        st.prev_mc_val
    };
    let mc_index = if v > st.mc.value {
        i as usize
    } else {
        st.mc_index
    };
    let ic = if v < st.ic.value {
        let adjusted = if st.prev_ic_val != 0 {
            (jd + frac_jd_adjust(v as int, st.prev_ic_val as int, false)) as i64
        } else {
            jd
        };
        AltitudeSample { mode: TransitionMode::Ic, mins: n_ms, jd: adjusted, value: v }
    } else {
        st.ic
    };
    let prev_ic_val = if v < st.ic.value {
        v
    } else {
        st.prev_ic_val
    };
    let ic_index = if v < st.ic.value {
        i as usize
    } else {
        st.ic_index
    };
    let offset_pv = st.prev_value + disc;
    let offset_v = v + disc;
    let offset_pv2 = st.prev_value - disc;
    let offset_v2 = v - disc;
    let rise = if offset_pv < 0 && offset_v > 0 {
        AltitudeSample {
            mode: TransitionMode::Rise,
            mins: st.prev_min,
            jd: mid_point_spec(st.prev_jd as int, offset_pv, jd as int, v as int) as i64,
            value: 0,
        }
    } else {
        st.rise
    };
    let set = if !(offset_pv < 0 && offset_v > 0) && offset_pv2 > 0 && offset_v2 < 0 {
        AltitudeSample {
            mode: TransitionMode::Setting,
            mins: st.prev_min,
            jd: mid_point_spec(st.prev_jd as int, offset_pv2, jd as int, v as int) as i64,
            value: 0,
        }
    } else {
        st.set
    };
    TransitionScan {
        rise,
        set,
        mc,
        ic,
        mc_index,
        ic_index,
        obj_rises: st.obj_rises || (v > 0 && st.prev_value < 0),
        obj_sets: st.obj_sets || (v < 0 && st.prev_value > 0),
        prev_value: v,
        prev_min: n_ms,
        prev_jd: jd,
        prev_mc_val,
        prev_ic_val,
    }
}

/// The scan state after the first `n` samples of the altitude curve.
pub open spec fn scan_fold(
    jd_start: i64,
    step_ms: i64,
    disc: i64,
    alts: Seq<i64>,
    n: int,
) -> TransitionScan
    decreases n,
{
    if n <= 0 {
        scan_init_spec()
    } else {
        scan_step_spec(scan_fold(jd_start, step_ms, disc, alts, n - 1), jd_start, step_ms, disc, n - 1, alts[n - 1])
    }
}

/// How many samples one day yields at a cadence of `multiplier` minutes.
pub open spec fn sample_count_spec(multiplier: int) -> int {
    1440int / multiplier + 1
}

/// Scans one day of altitude samples for rise, set, MC and IC candidates.
///
/// `altitudes[i]` is the body's altitude (micro-degrees) at
/// `jd_start + i·multiplier` minutes, as the position oracle reported it;
/// `disc_offset` is the apparent disc semi-diameter share that shifts the
/// horizon for the Sun and Moon, zero for other bodies.  The result is
/// exactly the fold of [`scan_step_spec`] over the curve: rise and set
/// interpolated at the last sign change of the disc-adjusted altitude, MC
/// and IC the running extrema, ready for refinement over a narrower
/// window.
#[verifier::rlimit(100)]
pub fn calc_transposed_object_transitions(
    jd_start: i64,
    multiplier: u8,
    altitudes: &Vec<i64>,
    disc_offset: i64,
) -> (r: TransitionScan)
    requires
        1 <= multiplier,
        valid_jd_ms(jd_start),
        altitudes@.len() == sample_count_spec(multiplier as int),
        forall|k: int| 0 <= k < altitudes@.len() ==> valid_altitude(#[trigger] altitudes@[k]),
        0 <= disc_offset <= DEG_90,
    ensures
        r == scan_fold(
            jd_start,
            (multiplier as i64 * MS_PER_MIN) as i64,
            disc_offset,
            altitudes@,
            altitudes@.len() as int,
        ),
{
    let step_ms: i64 = (multiplier as i64) * MS_PER_MIN;
    let n = altitudes.len();
    let mut st = TransitionScan {
        rise: AltitudeSample::basic(TransitionMode::Rise),
        set: AltitudeSample::basic(TransitionMode::Setting),
        mc: AltitudeSample::basic_low(TransitionMode::Mc),
        ic: AltitudeSample::basic_high(TransitionMode::Ic),
        mc_index: 0,
        ic_index: 0,
        obj_rises: false,
        obj_sets: false,
        prev_value: 0,
        prev_min: 0,
        prev_jd: 0,
        prev_mc_val: 0,
        prev_ic_val: 0,
    };
    let mut i: usize = 0;
    while i < n
        invariant
            st == scan_fold(jd_start, step_ms, disc_offset, altitudes@, i as int),
            i <= n,
            n == altitudes@.len(),
            n == sample_count_spec(multiplier as int),
            step_ms == (multiplier as i64 * MS_PER_MIN) as i64,
            1 <= multiplier,
            valid_jd_ms(jd_start),
            0 <= disc_offset <= DEG_90,
            forall|k: int| 0 <= k < altitudes@.len() ==> valid_altitude(#[trigger] altitudes@[k]),
            -DEG_90 <= st.prev_value <= DEG_90,
            -DEG_90 <= st.prev_mc_val <= DEG_90,
            -DEG_90 <= st.prev_ic_val <= DEG_90,
            i == 0 ==> st.prev_value == 0 && st.prev_jd == 0 && st.prev_min == 0,
            i >= 1 ==> st.prev_jd == jd_start + (i - 1) * (step_ms as int) && 0 <= st.prev_min
                <= DAY_MS,
        decreases n - i,
    {
        proof {
            assert((i as int) * (step_ms as int) <= DAY_MS) by {
                let m = multiplier as int;
                vstd::arithmetic::div_mod::lemma_fundamental_div_mod(1440int, m);
                assert(i as int <= 1440int / m);
                assert((1440int / m) * m <= 1440) by {
                    assert(1440int == m * (1440int / m) + 1440int % m);
                    assert(1440int % m >= 0) by {
                        vstd::arithmetic::div_mod::lemma_mod_division_less_than_divisor(1440int, m);
                    }
                    vstd::arithmetic::mul::lemma_mul_is_commutative(m, 1440int / m);
                }
                assert((i as int) * (step_ms as int) == ((i as int) * m) * 60_000) by {
                    vstd::arithmetic::mul::lemma_mul_is_associative(i as int, m, 60_000);
                }
                assert((i as int) * m <= (1440int / m) * m) by {
                    vstd::arithmetic::mul::lemma_mul_inequality(i as int, 1440int / m, m);
                }
                assert(((i as int) * m) * 60_000 <= 1440 * 60_000) by {
                    vstd::arithmetic::mul::lemma_mul_inequality((i as int) * m, 1440, 60_000);
                }
            }
        }
        let v = altitudes[i];
        let n_ms = (i as i64) * step_ms;
        let jd = jd_start + n_ms;
        let ghost st0 = st;
        if v > st.mc.value {
            let mut item = AltitudeSample::new(TransitionMode::Mc, n_ms, jd, v);
            if st.prev_mc_val != 0 {
                item.set_frac_jd_diff(st.prev_mc_val, true);
            }
            st.mc = item;
            st.prev_mc_val = v;
            st.mc_index = i;
        }
        if v < st.ic.value {
            let mut item = AltitudeSample::new(TransitionMode::Ic, n_ms, jd, v);
            if st.prev_ic_val != 0 {
                item.set_frac_jd_diff(st.prev_ic_val, false);
            }
            st.ic = item;
            st.prev_ic_val = v;
            st.ic_index = i;
        }
        let offset_pv = st.prev_value + disc_offset;
        let offset_v = v + disc_offset;
        let offset_pv2 = st.prev_value - disc_offset;
        let offset_v2 = v - disc_offset;
        if offset_pv < 0 && offset_v > 0 {
            let item = AltitudeSample::new(TransitionMode::Unset, n_ms, jd, v);
            st.rise = calc_mid_sample(&item, st.prev_min, offset_pv, st.prev_jd, TransitionMode::Rise);
        } else if offset_pv2 > 0 && offset_v2 < 0 {
            let item = AltitudeSample::new(TransitionMode::Unset, n_ms, jd, v);
            st.set = calc_mid_sample(&item, st.prev_min, offset_pv2, st.prev_jd, TransitionMode::Setting);
        }
        if v > 0 && st.prev_value < 0 {
            st.obj_rises = true;
        }
        if v < 0 && st.prev_value > 0 {
            st.obj_sets = true;
        }
        st.prev_value = v;
        st.prev_min = n_ms;
        st.prev_jd = jd;
        proof {
            assert(st == scan_step_spec(st0, jd_start, step_ms, disc_offset, i as int, altitudes@[i as int]));
            assert(st == scan_fold(jd_start, step_ms, disc_offset, altitudes@, i + 1));
        }
        i = i + 1;
    }
    st
}

/// The MC candidate of a scan is the running maximum: no sample of the
/// curve stands above it, and unless no sample ever beat the low seed, it
/// equals one of them.
pub proof fn lemma_scan_mc_tracks_max(jd_start: i64, step_ms: i64, disc: i64, alts: Seq<i64>, n: int)
    requires
        0 <= n <= alts.len(),
    ensures
        forall|k: int|
            0 <= k < n ==> scan_fold(jd_start, step_ms, disc, alts, n).mc.value >= alts[k],
        scan_fold(jd_start, step_ms, disc, alts, n).mc.value == -DEG_90 || exists|k: int|
            0 <= k < n && alts[k] == scan_fold(jd_start, step_ms, disc, alts, n).mc.value,
    decreases n,
{
    if n > 0 {
        lemma_scan_mc_tracks_max(jd_start, step_ms, disc, alts, n - 1);
        let prev = scan_fold(jd_start, step_ms, disc, alts, n - 1);
        let curr = scan_fold(jd_start, step_ms, disc, alts, n);
        if alts[n - 1] > prev.mc.value {
            assert(alts[n - 1] == curr.mc.value);
        }
    }
}

/// The IC candidate of a scan is the running minimum.
pub proof fn lemma_scan_ic_tracks_min(jd_start: i64, step_ms: i64, disc: i64, alts: Seq<i64>, n: int)
    requires
        0 <= n <= alts.len(),
    ensures
        forall|k: int|
            0 <= k < n ==> scan_fold(jd_start, step_ms, disc, alts, n).ic.value <= alts[k],
        scan_fold(jd_start, step_ms, disc, alts, n).ic.value == DEG_90 || exists|k: int|
            0 <= k < n && alts[k] == scan_fold(jd_start, step_ms, disc, alts, n).ic.value,
    decreases n,
{
    if n > 0 {
        lemma_scan_ic_tracks_min(jd_start, step_ms, disc, alts, n - 1);
        let prev = scan_fold(jd_start, step_ms, disc, alts, n - 1);
        let curr = scan_fold(jd_start, step_ms, disc, alts, n);
        if alts[n - 1] < prev.ic.value {
            assert(alts[n - 1] == curr.ic.value);
        }
    }
}

/// The scan is a pure function of the curve: two scans of identical
/// inputs give identical transition candidates.
pub proof fn lemma_scan_deterministic(
    r1: TransitionScan,
    r2: TransitionScan,
    jd_start: i64,
    step_ms: i64,
    disc: i64,
    alts: Seq<i64>,
    n: int,
)
    requires
        r1 == scan_fold(jd_start, step_ms, disc, alts, n),
        r2 == scan_fold(jd_start, step_ms, disc, alts, n),
    ensures
        r1 == r2,
{
}

/// The mode a refined extremum carries.
pub open spec fn refine_mode(max_mode: bool) -> TransitionMode {
    if max_mode {
        TransitionMode::Mc
    } else {
        TransitionMode::Ic
    }
}

/// The refinement state after the first `n` fine samples: whichever
/// sample is strictly greater (maximum mode) or strictly less (minimum
/// mode) than the running best replaces it.
pub open spec fn refine_fold(
    base: AltitudeSample,
    start_min: int,
    start_jd: int,
    fine: Seq<i64>,
    max_mode: bool,
    n: int,
) -> AltitudeSample
    decreases n,
{
    if n <= 0 {
        base
    } else {
        let prev = refine_fold(base, start_min, start_jd, fine, max_mode, n - 1);
        let v = fine[n - 1];
        if (max_mode && v > prev.value) || (!max_mode && v < prev.value) {
            AltitudeSample {
                mode: refine_mode(max_mode),
                mins: (start_min + (n - 1) * REFINE_STEP_MS) as i64,
                jd: (start_jd + (n - 1) * REFINE_STEP_MS) as i64,
                value: v,
            }
        } else {
            prev
        }
    }
}

/// Where the fine re-sampling window of a coarse extremum starts and how
/// many one-second steps it spans: symmetric around the sample, 2.25
/// times the cadence wide.
pub fn refine_window(sample: &AltitudeSample, multiplier: u8) -> (r: (i64, i64, usize))
    requires
        1 <= multiplier,
        -MAX_JD_MS <= sample.jd <= MAX_JD_MS + DAY_MS,
        -MAX_JD_MS <= sample.mins <= MAX_JD_MS,
    ensures
        r.0 as int == sample.jd - 67_500 * multiplier as int,
        r.1 as int == sample.mins - 67_500 * multiplier as int,
        r.2 as int == 136 * multiplier as int,
{
    let half_window: i64 = 67_500 * (multiplier as i64);
    (sample.jd - half_window, sample.mins - half_window, 136 * (multiplier as usize))
}

/// Sharpens a coarse extremum over its fine window: `fine[i]` is the
/// altitude one second past the previous one, starting at the window
/// start given by [`refine_window`].  A linear scan keeps whichever
/// sample strictly improves on the running best; altitude curves are
/// locally flat near extrema, so this is as sharp as differentiating and
/// more robust.
pub fn recalc_min_max_transit_sample(
    sample: &AltitudeSample,
    fine: &Vec<i64>,
    max_mode: bool,
    multiplier: u8,
) -> (r: AltitudeSample)
    requires
        1 <= multiplier,
        fine@.len() == 136 * multiplier as int,
        -MAX_JD_MS <= sample.jd <= MAX_JD_MS + DAY_MS,
        -MAX_JD_MS <= sample.mins <= MAX_JD_MS,
    ensures
        r == refine_fold(
            *sample,
            sample.mins - 67_500 * multiplier as int,
            sample.jd - 67_500 * multiplier as int,
            fine@,
            max_mode,
            fine@.len() as int,
        ),
{
    let (start_jd, start_min, count) = refine_window(sample, multiplier);
    let mut best: AltitudeSample = *sample;
    let mut i: usize = 0;
    while i < count
        invariant
            i <= count,
            count == fine@.len(),
            count == 136 * multiplier as int,
            1 <= multiplier,
            start_jd as int == sample.jd - 67_500 * multiplier as int,
            start_min as int == sample.mins - 67_500 * multiplier as int,
            -MAX_JD_MS <= sample.jd <= MAX_JD_MS + DAY_MS,
            -MAX_JD_MS <= sample.mins <= MAX_JD_MS,
            best == refine_fold(
                *sample,
                start_min as int,
                start_jd as int,
                fine@,
                max_mode,
                i as int,
            ),
        decreases count - i,
    {
        let v = fine[i];
        let improved = if max_mode {
            v > best.value
        } else {
            v < best.value
        };
        if improved {
            let offset = (i as i64) * REFINE_STEP_MS;
            best = AltitudeSample::new(
                if max_mode { TransitionMode::Mc } else { TransitionMode::Ic },
                start_min + offset,
                start_jd + offset,
                v,
            );
        }
        i = i + 1;
    }
    best
}

/// Refinement only ever improves: the result is at least as extremal as
/// the coarse sample and every fine sample.
pub proof fn lemma_refine_extremal(
    base: AltitudeSample,
    start_min: int,
    start_jd: int,
    fine: Seq<i64>,
    max_mode: bool,
    n: int,
)
    requires
        0 <= n <= fine.len(),
    ensures
        max_mode ==> refine_fold(base, start_min, start_jd, fine, max_mode, n).value
            >= base.value,
        max_mode ==> forall|k: int|
            0 <= k < n ==> refine_fold(base, start_min, start_jd, fine, max_mode, n).value
                >= fine[k],
        !max_mode ==> refine_fold(base, start_min, start_jd, fine, max_mode, n).value
            <= base.value,
        !max_mode ==> forall|k: int|
            0 <= k < n ==> refine_fold(base, start_min, start_jd, fine, max_mode, n).value
                <= fine[k],
    decreases n,
{
    if n > 0 {
        lemma_refine_extremal(base, start_min, start_jd, fine, max_mode, n - 1);
    }
}

/// The rise and set a day ends with, once the extrema are refined: missing
/// instants are synthesised from MC and IC where the object only grazes
/// the horizon, and left as sentinels otherwise.
pub open spec fn finalize_rise_set_spec(
    rise0: AltitudeSample,
    set0: AltitudeSample,
    mc: AltitudeSample,
    ic: AltitudeSample,
    prev_min: i64,
    obj_rises: bool,
    obj_sets: bool,
    rise_set_minmax: bool,
) -> (AltitudeSample, AltitudeSample) {
    let diff = abs_i(mc.jd - rise0.jd);
    let rise1 = if rise_set_minmax && rise0.jd <= 0 {
        AltitudeSample {
            mode: TransitionMode::Rise,
            mins: 0,
            jd: if mc.value > 0 { 0 } else { (mc.jd - diff) as i64 },
            value: 0,
        }
    } else {
        rise0
    };
    let set1 = if rise_set_minmax && set0.jd <= 0 {
        AltitudeSample {
            mode: TransitionMode::Setting,
            mins: 0,
            jd: if ic.value < 0 { (ic.jd - diff) as i64 } else { 0 },
            value: 0,
        }
    } else {
        set0
    };
    let set2 = if mc.value >= 0 && mc.value < UP_DOWN_TOLERANCE && set1.jd <= MIN_JD_MS
        && rise1.jd > MIN_JD_MS {
        AltitudeSample {
            mode: TransitionMode::Setting,
            mins: prev_min,
            jd: jd_from_min_max_spec(
                mc.jd as int,
                mc.value as int,
                ic.jd as int,
                ic.value as int,
                true,
            ) as i64,
            value: 0,
        }
    } else {
        set1
    };
    if set2.jd == 0 && rise1.jd > 0 && mc.jd > 0 {
        let diff_mc = abs_i(mc.jd - rise1.jd);
        if diff_mc < HALF_DAY_MS && obj_sets {
            (
                rise1,
                AltitudeSample {
                    mode: TransitionMode::Setting,
                    mins: prev_min,
                    jd: (mc.jd + diff_mc) as i64,
                    value: 0,
                },
            )
        } else {
            (rise1, set2)
        }
    } else if rise1.jd == 0 && set2.jd > 0 && mc.jd > 0 {
        let diff_mc = abs_i(set2.jd - mc.jd);
        if diff_mc < HALF_DAY_MS && obj_rises {
            (
                AltitudeSample {
                    mode: TransitionMode::Rise,
                    mins: prev_min,
                    jd: (mc.jd - diff_mc) as i64,
                    value: 0,
                },
                set2,
            )
        } else {
            (rise1, set2)
        }
    } else {
        (rise1, set2)
    }
}

/// Completes a day scan after refinement into the four samples
/// `[rise, set, mc, ic]`.
///
/// With `rise_set_minmax`, a missing rise or set is first projected from
/// the MC or IC instant.  A day whose maximum sits just above the horizon
/// with a rise but no set gets its set approximated between MC and IC;
/// and when one crossing was seen but its interpolation was lost, the
/// missing instant is mirrored around MC within half a day.  The half-day
/// comparison limit on that mirroring reuses the numeric value of the
/// altitude tolerance, half a unit, read on the time axis.
pub fn finalize_transitions(
    rise0: AltitudeSample,
    set0: AltitudeSample,
    mc: AltitudeSample,
    ic: AltitudeSample,
    prev_min: i64,
    obj_rises: bool,
    obj_sets: bool,
    rise_set_minmax: bool,
) -> (r: Vec<AltitudeSample>)
    requires
        -MAX_JD_MS - DAY_MS <= rise0.jd <= MAX_JD_MS + DAY_MS,
        -MAX_JD_MS - DAY_MS <= set0.jd <= MAX_JD_MS + DAY_MS,
        -MAX_JD_MS - DAY_MS <= mc.jd <= MAX_JD_MS + DAY_MS,
        -MAX_JD_MS - DAY_MS <= ic.jd <= MAX_JD_MS + DAY_MS,
        -DEG_180 <= mc.value <= DEG_180,
        -DEG_180 <= ic.value <= DEG_180,
        0 <= mc.value < UP_DOWN_TOLERANCE ==> abs_i(ic.jd - mc.jd) <= 2 * DAY_MS,
    ensures
        r@.len() == 4,
        (r@[0], r@[1]) == finalize_rise_set_spec(
            rise0,
            set0,
            mc,
            ic,
            prev_min,
            obj_rises,
            obj_sets,
            rise_set_minmax,
        ),
        r@[2] == mc,
        r@[3] == ic,
{
    let mut rise = rise0;
    let mut set = set0;
    if rise_set_minmax {
        let diff = abs_val(mc.jd - rise.jd);
        if rise.jd <= 0 {
            let rise_jd = if mc.value > 0 { 0 } else { mc.jd - diff };
            rise = AltitudeSample::new(TransitionMode::Rise, 0, rise_jd, 0);
        }
        if set.jd <= 0 {
            let set_jd = if ic.value < 0 { ic.jd - diff } else { 0 };
            set = AltitudeSample::new(TransitionMode::Setting, 0, set_jd, 0);
        }
    }
    if mc.value >= 0 && mc.value < UP_DOWN_TOLERANCE && set.jd <= MIN_JD_MS && rise.jd > MIN_JD_MS {
        let target_jd = calc_jd_from_min_max(&mc, &ic, true);
        set = AltitudeSample::new(TransitionMode::Setting, prev_min, target_jd, 0);
    }
    if set.jd == 0 && rise.jd > 0 && mc.jd > 0 {
        let diff_mc = abs_val(mc.jd - rise.jd);
        if diff_mc < HALF_DAY_MS && obj_sets {
            set = AltitudeSample::new(TransitionMode::Setting, prev_min, mc.jd + diff_mc, 0);
        }
    } else if rise.jd == 0 && set.jd > 0 && mc.jd > 0 {
        let diff_mc = abs_val(set.jd - mc.jd);
        if diff_mc < HALF_DAY_MS && obj_rises {
            rise = AltitudeSample::new(TransitionMode::Rise, prev_min, mc.jd - diff_mc, 0);
        }
    }
    let mut out: Vec<AltitudeSample> = Vec::new();
    out.push(rise);
    out.push(set);
    out.push(mc);
    out.push(ic);
    out
}

/// The first sample of the given mode, or an all-zero sample of that mode
/// when none is present.
pub open spec fn find_mode_spec(samples: Seq<AltitudeSample>, mode: TransitionMode, i: int) -> AltitudeSample
    decreases samples.len() - i,
{
    if i < 0 || i >= samples.len() {
        AltitudeSample { mode, mins: 0, jd: 0, value: 0 }
    } else if samples[i].mode == mode {
        samples[i]
    } else {
        find_mode_spec(samples, mode, i + 1)
    }
}

/// Picks the sample of the given mode out of a day's results.
pub fn extract_from_alt_samples(alt_samples: &Vec<AltitudeSample>, mode: TransitionMode) -> (r: AltitudeSample)
    ensures
        r == find_mode_spec(alt_samples@, mode, 0),
{
    let n = alt_samples.len();
    let mut i: usize = 0;
    while i < n
        invariant
            i <= n,
            n == alt_samples@.len(),
            find_mode_spec(alt_samples@, mode, 0) == find_mode_spec(alt_samples@, mode, i as int),
        decreases n - i,
    {
        let candidate = alt_samples[i];
        if matches_mode(&candidate, mode) {
            return candidate;
        }
        i = i + 1;
    }
    AltitudeSample::basic(mode)
}

/// Mode equality as a plain comparison.
fn matches_mode(sample: &AltitudeSample, mode: TransitionMode) -> (r: bool)
    ensures
        r == (sample.mode == mode),
{
    match (sample.mode, mode) {
        (TransitionMode::Rise, TransitionMode::Rise) => true,
        (TransitionMode::Setting, TransitionMode::Setting) => true,
        (TransitionMode::Mc, TransitionMode::Mc) => true,
        (TransitionMode::Ic, TransitionMode::Ic) => true,
        (TransitionMode::Unset, TransitionMode::Unset) => true,
        _ => false,
    }
}

/// Assembles a day's basic transition set from its four samples.
pub fn transition_set_from_samples(samples: &Vec<AltitudeSample>) -> (r: crate::rise_set::TransitionSet)
    ensures
        r.rise == find_mode_spec(samples@, TransitionMode::Rise, 0).jd,
        r.set == find_mode_spec(samples@, TransitionMode::Setting, 0).jd,
        r.mc == find_mode_spec(samples@, TransitionMode::Mc, 0).jd,
        r.ic == find_mode_spec(samples@, TransitionMode::Ic, 0).jd,
{
    let rise = extract_from_alt_samples(samples, TransitionMode::Rise);
    let set = extract_from_alt_samples(samples, TransitionMode::Setting);
    let mc = extract_from_alt_samples(samples, TransitionMode::Mc);
    let ic = extract_from_alt_samples(samples, TransitionMode::Ic);
    crate::rise_set::TransitionSet { rise: rise.jd, mc: mc.jd, set: set.jd, ic: ic.jd }
}

/// Assembles a day's transition set with altitude extrema from its four
/// samples: the minimum is the IC sample's altitude, the maximum the MC
/// sample's.
pub fn alt_transition_set_from_samples(samples: &Vec<AltitudeSample>) -> (r: crate::rise_set::AltTransitionSet)
    ensures
        r.rise == find_mode_spec(samples@, TransitionMode::Rise, 0).jd,
        r.set == find_mode_spec(samples@, TransitionMode::Setting, 0).jd,
        r.mc == find_mode_spec(samples@, TransitionMode::Mc, 0).jd,
        r.ic == find_mode_spec(samples@, TransitionMode::Ic, 0).jd,
        r.min == find_mode_spec(samples@, TransitionMode::Ic, 0).value,
        r.max == find_mode_spec(samples@, TransitionMode::Mc, 0).value,
{
    let rise = extract_from_alt_samples(samples, TransitionMode::Rise);
    let set = extract_from_alt_samples(samples, TransitionMode::Setting);
    let mc = extract_from_alt_samples(samples, TransitionMode::Mc);
    let ic = extract_from_alt_samples(samples, TransitionMode::Ic);
    crate::rise_set::AltTransitionSet {
        min: ic.value,
        rise: rise.jd,
        mc: mc.jd,
        set: set.jd,
        ic: ic.jd,
        max: mc.value,
    }
}

/// Flattens a day's samples into keyed instants, one per sample mode.
pub fn samples_to_key_nums(samples: &Vec<AltitudeSample>) -> (r: Vec<KeyNumValue>)
    ensures
        r@.len() == samples@.len(),
        forall|k: int|
            0 <= k < r@.len() ==> (#[trigger] r@[k]).key@ == samples@[k].mode.to_key_spec()
                && r@[k].value == samples@[k].jd,
{
    let mut out: Vec<KeyNumValue> = Vec::new();
    let mut i: usize = 0;
    while i < samples.len()
        invariant
            i <= samples@.len(),
            out@.len() == i,
            forall|k: int|
                0 <= k < i ==> (#[trigger] out@[k]).key@ == samples@[k].mode.to_key_spec()
                    && out@[k].value == samples@[k].jd,
        decreases samples@.len() - i,
    {
        out.push(samples[i].to_key_num());
        i = i + 1;
    }
    out
}

/// The carried previous sample of a fold is the last sample seen.
pub proof fn lemma_scan_prev_fields(jd_start: i64, step_ms: i64, disc: i64, alts: Seq<i64>, n: int)
    requires
        0 <= n <= alts.len(),
        n <= 1441,
        0 < step_ms <= 255 * MS_PER_MIN,
        valid_jd_ms(jd_start),
    ensures
        n == 0 ==> scan_fold(jd_start, step_ms, disc, alts, n).prev_value == 0 && scan_fold(
            jd_start,
            step_ms,
            disc,
            alts,
            n,
        ).prev_jd == 0,
        n >= 1 ==> scan_fold(jd_start, step_ms, disc, alts, n).prev_value == alts[n - 1]
            && scan_fold(jd_start, step_ms, disc, alts, n).prev_jd == jd_start + (n - 1)
            * step_ms,
    decreases n,
{
    if n > 0 {
        lemma_scan_prev_fields(jd_start, step_ms, disc, alts, n - 1);
        assert(0 <= (n - 1) * step_ms <= 1441 * (255 * MS_PER_MIN)) by (nonlinear_arith)
            requires
                0 <= n - 1 <= 1440,
                0 < step_ms <= 255 * MS_PER_MIN,
        {
        }
    }
}

/// With no disc offset, every rise or set the scan records is an
/// interpolated instant inside the sampled day: the sign-change window
/// never lets the crossing escape its own sample gap.
pub proof fn lemma_scan_crossings_within_day(jd_start: i64, step_ms: i64, alts: Seq<i64>, n: int)
    requires
        0 <= n <= alts.len(),
        n <= 1441,
        0 < step_ms <= 255 * MS_PER_MIN,
        valid_jd_ms(jd_start),
        forall|k: int| 0 <= k < alts.len() ==> valid_altitude(#[trigger] alts[k]),
    ensures
        scan_fold(jd_start, step_ms, 0, alts, n).rise == scan_init_spec().rise || (jd_start
            <= scan_fold(jd_start, step_ms, 0, alts, n).rise.jd <= jd_start + (n - 1) * step_ms),
        scan_fold(jd_start, step_ms, 0, alts, n).set == scan_init_spec().set || (jd_start
            <= scan_fold(jd_start, step_ms, 0, alts, n).set.jd <= jd_start + (n - 1) * step_ms),
    decreases n,
{
    if n > 0 {
        lemma_scan_crossings_within_day(jd_start, step_ms, alts, n - 1);
        lemma_scan_prev_fields(jd_start, step_ms, 0, alts, n - 1);
        assert(0 <= (n - 1) * step_ms <= 1441 * (255 * MS_PER_MIN) && (n - 2) * step_ms <= (n
            - 1) * step_ms) by (nonlinear_arith)
            requires
                0 <= n - 1 <= 1440,
                0 < step_ms <= 255 * MS_PER_MIN,
        {
        }
        let st = scan_fold(jd_start, step_ms, 0, alts, n - 1);
        let v = alts[n - 1];
        let jd = jd_start + (n - 1) * step_ms;
        let offset_pv = st.prev_value as int;
        if offset_pv < 0 && v > 0 {
            // an upward crossing interpolates between the two samples
            lemma_mid_point_within_window(st.prev_jd as int, offset_pv, jd, v as int);
        } else if offset_pv > 0 && v < 0 {
            lemma_mid_point_within_window(st.prev_jd as int, offset_pv, jd, v as int);
        }
    }
}

} // verus!
