//! The lunar-phase solver: finding the instant the Sun–Moon longitude
//! separation next reaches a multiple of 90°.
//!
//! The search is an adaptive step-shrinking scan, not a derivative-based
//! method: the angle-to-time relation is too noisy at this granularity to
//! differentiate reliably.  The solver is a state machine: a driver asks
//! the position oracle for the separation angle at the state's next
//! target instant and feeds it back through [`phase_scan_step`] until the
//! state reports done, which a hard cap of 500 iterations guarantees.

use vstd::prelude::*;
use crate::models::{DEG_360, DEG_90, MAX_JD_MS, valid_jd_ms};
use crate::numeric::tdiv;

verus! {

/// A lunar month never runs under 24 days; a gap shorter than this (in
/// milliseconds) between consecutive phase events is a real quarter gap.
pub const SHORT_LUNAR_MONTH_MS: i64 = 2_073_600_000;

/// The median synodic month, 29.53059 days, in milliseconds.
pub const MEDIAN_LUNAR_MONTH_MS: i64 = 2_551_442_976;

/// Convergence tolerance on the remainder to the next 90° boundary:
/// 0.005°, in micro-degrees.
pub const PHASE_TOLERANCE: i64 = 5_000;

/// The solver's starting step: a twelfth of a day, in milliseconds.
pub const PHASE_START_STEP_MS: i64 = 7_200_000;

/// The iteration cap that bounds the search even if convergence stalls.
pub const PHASE_MAX_ITERATIONS: u32 = 500;

/// One lunar-phase event: its instant, the separation angle reached, the
/// quarter number (1–4, wrapping 4 to 1), whether the moon is waxing, and
/// the days since the previous event when that gap is a real quarter.
#[derive(Clone, Copy, Debug, PartialEq, Eq, Structural)]
pub struct MoonPhase {
    pub jd: i64,
    pub angle: i64,
    pub num: u8,
    pub waxing: bool,
    pub days: Option<i64>,
}

/// What [`MoonPhase::new`] builds: a tiny residual overshoot is projected
/// onto the time axis at one quarter month per 90° rather than
/// re-iterated, and a near-exact angle snaps to the boundary itself.
pub open spec fn moon_phase_new_spec(ref_jd: int, angle: int, num: int, days: Option<i64>) -> MoonPhase {
    let target_angle = if num > 1 { (num - 1) * DEG_90 } else { DEG_360 as int };
    let rem_angle = target_angle - angle;
    let snapped = if rem_angle > 50_000 { angle } else { target_angle % (DEG_360 as int) };
    let extra_jd = tdiv(rem_angle * 637_860_744, DEG_90 as int);
    let jd = if extra_jd < 43_200 { ref_jd + extra_jd } else { ref_jd };
    MoonPhase {
        jd: jd as i64,
        angle: snapped as i64,
        num: num as u8,
        waxing: num <= 2,
        days,
    }
}

impl MoonPhase {
    /// Builds a phase event, snapping a near-exact hit to its 90° target
    /// and applying the final small instant correction.
    pub fn new(ref_jd: i64, angle: i64, num: u8, days: Option<i64>) -> (r: MoonPhase)
        requires
            valid_jd_ms(ref_jd),
            0 <= angle <= DEG_360,
            1 <= num <= 4,
        ensures
            r == moon_phase_new_spec(ref_jd as int, angle as int, num as int, days),
    {
        let target_angle: i64 = if num > 1 {
            ((num - 1) as i64) * DEG_90
        } else {
            DEG_360
        };
        let rem_angle = target_angle - angle;
        let snapped = if rem_angle > 50_000 {
            angle
        } else {
            target_angle % DEG_360
        };
        let extra_jd = crate::numeric::div_trunc(rem_angle * 637_860_744, DEG_90);
        let jd = if extra_jd < 43_200 {
            ref_jd + extra_jd
        } else {
            ref_jd
        };
        proof {
            crate::numeric::lemma_tdiv_abs_le(rem_angle as int * 637_860_744, DEG_90 as int);
        }
        MoonPhase { jd, angle: snapped, num, waxing: num <= 2, days }
    }
}

/// The separation angle from the sun to the moon, normalised to
/// `[0°, 360°)`, with the waxing flag and the quarter the angle falls in.
pub fn calc_sun_moon_angle(moon_lng: i64, sun_lng: i64) -> (r: (i64, bool, u8))
    requires
        0 <= moon_lng < DEG_360,
        0 <= sun_lng < DEG_360,
    ensures
        r.0 == (moon_lng - sun_lng + DEG_360) % (DEG_360 as int),
        0 <= r.0 < DEG_360,
        r.1 == (r.0 <= 180_000_000),
        r.2 == (r.0 as int) / (DEG_90 as int) + 1,
        1 <= r.2 <= 4,
{
    let angle = (moon_lng + DEG_360 - sun_lng) % DEG_360;
    let waxing = angle <= 180_000_000;
    let phase = (angle / DEG_90) as u8 + 1;
    (angle, waxing, phase)
}

/// The next quarter number after the given one, wrapping 4 back to 1.
pub fn next_phase_num(phase: u8) -> (r: u8)
    ensures
        r == (if phase < 4 { (phase + 1) as int } else { 1int }),
{
    if phase < 4 {
        phase + 1
    } else {
        1
    }
}

/// The step table: finer steps (down to 1/15360 day) as the remainder to
/// the boundary shrinks, coarser ones (up to 1/24 day) far away, and the
/// current step kept beyond a quarter turn.
pub open spec fn adjusted_increment_spec(rem_val: int, increment: int) -> int {
    if rem_val * 2 < 15_625 {
        5_625
    } else if rem_val < 15_625 {
        22_500
    } else if rem_val < 31_250 {
        22_500
    } else if rem_val < 62_500 {
        45_000
    } else if rem_val < 125_000 {
        90_000
    } else if rem_val < 250_000 {
        180_000
    } else if rem_val < 500_000 {
        360_000
    } else if rem_val < 1_000_000 {
        900_000
    } else if rem_val < 2_000_000 {
        1_800_000
    } else if rem_val < 4_000_000 {
        3_600_000
    } else {
        increment
    }
}

/// Picks the search step for the given remainder (micro-degrees) to the
/// next 90° boundary, shrinking as the boundary nears.
pub fn adjusted_micro_increment(rem_val: i64, increment: &i64) -> (r: i64)
    requires
        0 <= rem_val <= DEG_90,
    ensures
        r == adjusted_increment_spec(rem_val as int, *increment as int),
{
    if rem_val * 2 < 15_625 {
        5_625
    } else if rem_val < 15_625 {
        22_500
    } else if rem_val < 31_250 {
        22_500
    } else if rem_val < 62_500 {
        45_000
    } else if rem_val < 125_000 {
        90_000
    } else if rem_val < 250_000 {
        180_000
    } else if rem_val < 500_000 {
        360_000
    } else if rem_val < 1_000_000 {
        900_000
    } else if rem_val < 2_000_000 {
        1_800_000
    } else if rem_val < 4_000_000 {
        3_600_000
    } else {
        *increment
    }
}

/// The solver's state between oracle queries.
#[derive(Clone, Copy, Debug, PartialEq, Eq, Structural)]
pub struct PhaseScanState {
    /// Remainder (micro-degrees) to the next 90° boundary at the last
    /// sampled instant.
    pub rem_val: i64,
    /// The current search step, milliseconds.
    pub increment: i64,
    /// Iterations performed so far.
    pub counter: u32,
    /// The instant found within tolerance, zero until one is.
    pub nx_jd: i64,
    /// The separation angle at `nx_jd`.
    pub nx_angle: i64,
    /// The instant whose angle the driver queries next.
    pub next_jd_target: i64,
    /// Whether the search is over: converged, or the iteration cap hit.
    pub done: bool,
}

impl PhaseScanState {
    /// Field bounds every step preserves: the step stays within the
    /// table's range and the target instant within half a year of the
    /// axis bound.
    pub open spec fn wf(&self) -> bool {
        &&& 0 <= self.rem_val <= DEG_90
        &&& 5_625 <= self.increment <= PHASE_START_STEP_MS
        &&& self.counter <= 501
        &&& 0 <= self.nx_jd <= MAX_JD_MS + 4_000_000_000
        &&& 0 <= self.nx_angle <= DEG_360
        &&& 0 <= self.next_jd_target <= MAX_JD_MS + 4_000_000_000
        &&& self.counter >= 501 ==> self.done
    }

    /// Any recorded instant lies within tolerance of a 90° boundary.
    pub open spec fn recorded_near_boundary(&self) -> bool {
        self.nx_jd != 0 ==> DEG_90 - (self.nx_angle as int) % (DEG_90 as int) < PHASE_TOLERANCE
    }
}

/// The state the search starts from: the remainder taken from the
/// caller's current angle, the first query one starting step past the
/// starting estimate.
pub open spec fn phase_scan_start_spec(start_jd_target: int, current_angle: int) -> PhaseScanState {
    let rem = DEG_90 - current_angle % (DEG_90 as int);
    PhaseScanState {
        rem_val: rem as i64,
        increment: PHASE_START_STEP_MS,
        counter: 0,
        nx_jd: 0,
        nx_angle: 0,
        next_jd_target: (start_jd_target + PHASE_START_STEP_MS) as i64,
        done: !(rem > PHASE_TOLERANCE),
    }
}

pub fn phase_scan_start(start_jd_target: i64, current_angle: i64) -> (st: PhaseScanState)
    requires
        valid_jd_ms(start_jd_target),
        0 <= current_angle <= DEG_360,
    ensures
        st == phase_scan_start_spec(start_jd_target as int, current_angle as int),
        st.wf(),
        st.recorded_near_boundary(),
{
    let rem = DEG_90 - current_angle % DEG_90;
    PhaseScanState {
        rem_val: rem,
        increment: PHASE_START_STEP_MS,
        counter: 0,
        nx_jd: 0,
        nx_angle: 0,
        next_jd_target: start_jd_target + PHASE_START_STEP_MS,
        done: !(rem > PHASE_TOLERANCE),
    }
}

/// One solver iteration on the separation angle the oracle reported at
/// `st.next_jd_target`.
pub open spec fn phase_scan_step_spec(st: PhaseScanState, next_angle: int) -> PhaseScanState {
    let rem = DEG_90 - next_angle % (DEG_90 as int);
    let inc = adjusted_increment_spec(rem, st.increment as int);
    let nx_jd = if rem < PHASE_TOLERANCE { st.next_jd_target as int } else { st.nx_jd as int };
    let nx_angle = if rem < PHASE_TOLERANCE { next_angle } else { st.nx_angle as int };
    let counter = st.counter + 1;
    PhaseScanState {
        rem_val: rem as i64,
        increment: inc as i64,
        counter: counter as u32,
        nx_jd: nx_jd as i64,
        nx_angle: nx_angle as i64,
        next_jd_target: (st.next_jd_target + inc) as i64,
        done: !(rem > PHASE_TOLERANCE) || counter > PHASE_MAX_ITERATIONS,
    }
}

/// Advances the search by one oracle answer.  The caller drives: query
/// the angle at `st.next_jd_target`, feed it here, stop when `done`.
pub fn phase_scan_step(st: &PhaseScanState, next_angle: i64) -> (r: PhaseScanState)
    requires
        st.wf(),
        !st.done,
        0 <= next_angle <= DEG_360,
        st.next_jd_target + PHASE_START_STEP_MS <= MAX_JD_MS + 4_000_000_000,
    ensures
        r == phase_scan_step_spec(*st, next_angle as int),
        r.wf(),
        st.recorded_near_boundary() ==> r.recorded_near_boundary(),
        r.counter == st.counter + 1,
{
    let rem = DEG_90 - next_angle % DEG_90;
    let inc = adjusted_micro_increment(rem, &st.increment);
    let (nx_jd, nx_angle) = if rem < PHASE_TOLERANCE {
        (st.next_jd_target, next_angle)
    } else {
        (st.nx_jd, st.nx_angle)
    };
    let counter = st.counter + 1;
    PhaseScanState {
        rem_val: rem,
        increment: inc,
        counter,
        nx_jd,
        nx_angle,
        next_jd_target: st.next_jd_target + inc,
        done: !(rem > PHASE_TOLERANCE) || counter > PHASE_MAX_ITERATIONS,
    }
}

/// The search always halts: every step raises the counter by one, and any
/// state past the iteration cap is done, so a driver that stops on `done`
/// performs at most 501 steps from a fresh state.
pub proof fn lemma_phase_scan_terminates(st: PhaseScanState, next_angle: int)
    requires
        st.counter <= 501,
    ensures
        phase_scan_step_spec(st, next_angle).counter == st.counter + 1,
        st.counter >= PHASE_MAX_ITERATIONS ==> phase_scan_step_spec(st, next_angle).done,
{
}

/// Whatever angles the oracle returns, a finished search that recorded an
/// instant recorded one whose separation angle lies within the 0.005°
/// tolerance of the next 90° boundary.
pub proof fn lemma_phase_scan_accuracy(st: PhaseScanState, next_angle: int)
    requires
        st.recorded_near_boundary(),
        0 <= next_angle <= DEG_360,
    ensures
        phase_scan_step_spec(st, next_angle).recorded_near_boundary(),
{
}

/// The duration since the previous event, kept only when it is shorter
/// than the shortest possible lunar month (a real quarter gap).
pub fn phase_days_since(nx_jd: i64, prev_jd: i64) -> (r: Option<i64>)
    requires
        -MAX_JD_MS <= nx_jd <= MAX_JD_MS,
        -MAX_JD_MS <= prev_jd <= MAX_JD_MS,
    ensures
        r == (if nx_jd - prev_jd < SHORT_LUNAR_MONTH_MS {
            Some((nx_jd - prev_jd) as i64)
        } else {
            Option::<i64>::None
        }),
{
    let days_ms = nx_jd - prev_jd;
    if days_ms < SHORT_LUNAR_MONTH_MS {
        Some(days_ms)
    } else {
        None
    }
}

/// The starting estimate for the next phase search: the current instant
/// advanced by the angular progress toward the next boundary, scaled at a
/// quarter of the shortest lunar month per 90°.
pub fn next_phase_start_estimate(jd: i64, current_angle: i64, phase: u8) -> (r: i64)
    requires
        valid_jd_ms(jd),
        0 <= current_angle <= DEG_360,
        1 <= phase <= 4,
    ensures
        r == jd + tdiv((phase * DEG_90 - current_angle) * 144, 25),
{
    let distance = (phase as i64) * DEG_90 - current_angle;
    let extra = crate::numeric::div_trunc(distance * 144, 25);
    proof {
        crate::numeric::lemma_tdiv_abs_le(distance as int * 144, 25);
    }
    jd + extra
}

} // verus!
