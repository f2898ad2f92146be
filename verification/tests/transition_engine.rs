use astrocalc::rise_set::{calc_next_set_or_prev_rise_jd, calc_transition_set_extended_azalt,
    calc_transition_sets_sun, sun_scan_init, sun_scan_needs_next_set, sun_scan_needs_prev_rise,
    sun_scan_step, AltTransitionSet, ExtendedTransitionSet, TransitionSet, MIN_JD_MS};
use astrocalc::transitions::{
    calc_mid_point, calc_transposed_object_transitions, extract_from_alt_samples,
    finalize_transitions, recalc_min_max_transit_sample, refine_window, samples_to_key_nums,
    transition_set_from_samples, AltitudeSample, TransitionMode,
};

const DAY_MS: f64 = 86_400_000.0;

fn jd_ms(days: f64) -> i64 {
    (days * DAY_MS).round() as i64
}

fn micro_deg(deg: f64) -> i64 {
    (deg * 1_000_000.0).round() as i64
}

#[test]
fn test_midpoint_calculation() {
    let sample_pairs: Vec<(AltitudeSample, AltitudeSample)> = vec![
        (
            AltitudeSample::new(
                TransitionMode::Setting,
                (620.5 * 60_000.0) as i64,
                jd_ms(2460269.9496062486),
                micro_deg(-0.1375207470177369),
            ),
            AltitudeSample::new(
                TransitionMode::Setting,
                (620.5 * 60_000.0) as i64,
                jd_ms(2460269.9496062486),
                micro_deg(-0.13176826910947412),
            ),
        ),
        (
            AltitudeSample::new(
                TransitionMode::Rise,
                (760.0 * 60_000.0) as i64,
                jd_ms(2460271.9393263613),
                micro_deg(0.059815943129908664),
            ),
            AltitudeSample::new(
                TransitionMode::Rise,
                (765.0 * 60_000.0) as i64,
                jd_ms(2460271.9374574847),
                micro_deg(0.0),
            ),
        ),
    ];
    let mut num_ok = 0;
    let five_min = jd_ms(1.0 / 288.0);
    let num = sample_pairs.len();
    for pair in sample_pairs {
        let new_val = calc_mid_point(&pair.0, &pair.1);
        if (new_val - pair.0.jd).abs() < five_min {
            num_ok += 1;
        }
    }
    assert_eq!(num, num_ok);
}

#[test]
fn day_scan_interpolates_crossings_and_tracks_extrema() {
    // a two-hour cadence: 1440/120 + 1 = 13 samples across the day
    let jd0 = jd_ms(2459731.0);
    let step: i64 = 120 * 60_000;
    let altitudes: Vec<i64> = vec![
        micro_deg(-20.0),
        micro_deg(-10.0),
        micro_deg(10.0),
        micro_deg(30.0),
        micro_deg(40.0),
        micro_deg(30.0),
        micro_deg(10.0),
        micro_deg(-10.0),
        micro_deg(-30.0),
        micro_deg(-40.0),
        micro_deg(-30.0),
        micro_deg(-20.0),
        micro_deg(-10.0),
    ];
    let scan = calc_transposed_object_transitions(jd0, 120, &altitudes, 0);
    // the rise interpolates halfway between samples 1 and 2
    assert_eq!(scan.rise.jd, jd0 + 2 * step - step / 2);
    assert_eq!(scan.set.jd, jd0 + 7 * step - step / 2);
    // MC: the maximum, its instant micro-adjusted by the altitude gain
    assert_eq!(scan.mc.value, micro_deg(40.0));
    assert_eq!(scan.mc_index, 4);
    assert_eq!(scan.mc.jd, jd0 + 4 * step + micro_deg(10.0) * 9 / 50);
    // IC: the minimum, pulled back because the magnitude still grew
    assert_eq!(scan.ic.value, micro_deg(-40.0));
    assert_eq!(scan.ic_index, 9);
    assert_eq!(scan.ic.jd, jd0 + 9 * step - micro_deg(10.0) * 9 / 50);
    assert!(scan.obj_rises);
    assert!(scan.obj_sets);
}

#[test]
fn scanning_the_same_curve_twice_is_bit_identical() {
    let jd0 = jd_ms(2459880.25);
    let altitudes: Vec<i64> = (0..13)
        .map(|i| micro_deg(-30.0) + (i as i64) * micro_deg(4.5))
        .collect();
    let first = calc_transposed_object_transitions(jd0, 120, &altitudes, 250_000);
    let second = calc_transposed_object_transitions(jd0, 120, &altitudes, 250_000);
    assert_eq!(first, second);
}

#[test]
fn refinement_keeps_the_strictly_better_sample() {
    let coarse = AltitudeSample::new(TransitionMode::Mc, 30 * 60_000, jd_ms(2459731.52), micro_deg(12.0));
    let (start_jd, start_min, count) = refine_window(&coarse, 1);
    assert_eq!(count, 136);
    assert_eq!(start_jd, coarse.jd - 67_500);
    assert_eq!(start_min, coarse.mins - 67_500);
    // a curve that peaks at the 40th fine step
    let fine: Vec<i64> = (0..136)
        .map(|i| micro_deg(12.0) + 80_000 - (i as i64 - 40) * (i as i64 - 40) * 50)
        .collect();
    let refined = recalc_min_max_transit_sample(&coarse, &fine, true, 1);
    assert_eq!(refined.jd, start_jd + 40 * 1000);
    assert_eq!(refined.value, micro_deg(12.0) + 80_000);
    // in minimum mode the tail of the curve wins instead
    let minimum = recalc_min_max_transit_sample(&coarse, &fine, false, 1);
    assert_eq!(minimum.jd, start_jd + 135 * 1000);
    assert_eq!(minimum.value, micro_deg(12.0) + 80_000 - 95 * 95 * 50);
}

#[test]
fn finalize_passes_real_crossings_through() {
    let rise = AltitudeSample::new(TransitionMode::Rise, 0, jd_ms(2459731.7), 0);
    let set = AltitudeSample::new(TransitionMode::Setting, 0, jd_ms(2459732.2), 0);
    let mc = AltitudeSample::new(TransitionMode::Mc, 0, jd_ms(2459731.95), micro_deg(35.0));
    let ic = AltitudeSample::new(TransitionMode::Ic, 0, jd_ms(2459732.45), micro_deg(-20.0));
    let out = finalize_transitions(rise, set, mc, ic, 0, true, true, false);
    assert_eq!(out.len(), 4);
    assert_eq!(out[0], rise);
    assert_eq!(out[1], set);
    assert_eq!(out[2], mc);
    assert_eq!(out[3], ic);
    let ts = transition_set_from_samples(&out);
    assert_eq!(ts.rise, rise.jd);
    assert_eq!(ts.set, set.jd);
}

#[test]
fn finalize_synthesises_a_set_when_the_peak_grazes_the_horizon() {
    // MC just above the horizon, a rise but no sampled set
    let rise = AltitudeSample::new(TransitionMode::Rise, 0, jd_ms(2459731.7), 0);
    let set = AltitudeSample::new(TransitionMode::Setting, 0, 0, 0);
    let mc = AltitudeSample::new(TransitionMode::Mc, 0, jd_ms(2459731.9), micro_deg(0.3));
    let ic = AltitudeSample::new(TransitionMode::Ic, 0, jd_ms(2459732.4), micro_deg(-15.0));
    let out = finalize_transitions(rise, set, mc, ic, 1440 * 60_000, false, false, false);
    let synthesised = out[1];
    assert_eq!(synthesised.mode, TransitionMode::Setting);
    // the set lands between MC and IC, weighted by the altitude swing
    let diff_alt = mc.value - ic.value;
    let expected = mc.jd + (ic.jd - mc.jd) * mc.value / diff_alt;
    assert_eq!(synthesised.jd, expected);
    assert!(mc.jd <= synthesised.jd && synthesised.jd <= ic.jd);
}

#[test]
fn extract_finds_the_sample_by_mode_or_yields_a_blank() {
    let samples = vec![
        AltitudeSample::new(TransitionMode::Rise, 0, jd_ms(2459731.7), 0),
        AltitudeSample::new(TransitionMode::Mc, 0, jd_ms(2459731.95), micro_deg(35.0)),
    ];
    let rise = extract_from_alt_samples(&samples, TransitionMode::Rise);
    assert_eq!(rise.jd, samples[0].jd);
    let missing = extract_from_alt_samples(&samples, TransitionMode::Ic);
    assert_eq!(missing.jd, 0);
    assert_eq!(missing.mode, TransitionMode::Ic);
}

#[test]
fn polar_scan_takes_the_first_real_candidate() {
    let mut candidates = vec![0i64; 183];
    candidates[40] = jd_ms(2459771.3);
    candidates[50] = jd_ms(2459781.3);
    assert_eq!(calc_next_set_or_prev_rise_jd(&candidates, 0), jd_ms(2459771.3));
    assert_eq!(calc_next_set_or_prev_rise_jd(&candidates, 41), jd_ms(2459781.3));
    assert_eq!(calc_next_set_or_prev_rise_jd(&candidates, 51), 0);
}

#[test]
fn polar_summer_days_carry_real_links() {
    // ten all-up days without transitions of their own
    let up_day = ExtendedTransitionSet {
        prev_set: 0,
        rise: 0,
        mc: jd_ms(2459731.9),
        set: 0,
        ic: jd_ms(2459732.4),
        next_rise: 0,
        min: micro_deg(1.5),
        max: micro_deg(32.0),
    };
    let days: Vec<ExtendedTransitionSet> = (0..10)
        .map(|i| ExtendedTransitionSet {
            mc: up_day.mc + i as i64 * jd_ms(1.0),
            ic: up_day.ic + i as i64 * jd_ms(1.0),
            ..up_day
        })
        .collect();
    let prev_rise = vec![jd_ms(2459700.2); 10];
    let next_set = vec![jd_ms(2459760.7); 10];
    let enriched = calc_transition_sets_sun(&days, &prev_rise, &next_set);
    assert_eq!(enriched.len(), 10);
    for row in &enriched {
        assert!(row.is_up());
        assert!(row.min >= -500_000);
        assert!(row.prev_set >= MIN_JD_MS);
        assert!(row.next_rise >= MIN_JD_MS);
    }
    // the fallbacks are consulted on the first day only
    let st = sun_scan_init();
    assert!(sun_scan_needs_prev_rise(&st, &days[0]));
    assert!(sun_scan_needs_next_set(&st, &days[0]));
    let (st1, _row) = sun_scan_step(&st, &days[0], prev_rise[0], next_set[0]);
    assert!(!sun_scan_needs_prev_rise(&st1, &days[1]));
    assert!(!sun_scan_needs_next_set(&st1, &days[1]));
}

#[test]
fn ordinary_days_pass_through_the_sun_scan_unchanged() {
    let day = ExtendedTransitionSet {
        prev_set: 0,
        rise: jd_ms(2459731.7),
        mc: jd_ms(2459731.95),
        set: jd_ms(2459732.2),
        ic: jd_ms(2459732.45),
        next_rise: jd_ms(2459732.7),
        min: micro_deg(-20.0),
        max: micro_deg(35.0),
    };
    let days = vec![day; 3];
    let fallbacks = vec![0i64; 3];
    let enriched = calc_transition_sets_sun(&days, &fallbacks, &fallbacks);
    assert_eq!(enriched.len(), 3);
    for row in &enriched {
        assert_eq!(*row, day);
    }
    // re-running the whole scan is bit-identical
    let again = calc_transition_sets_sun(&days, &fallbacks, &fallbacks);
    assert_eq!(enriched, again);
}

#[test]
fn samples_flatten_to_keyed_instants() {
    let samples = vec![
        AltitudeSample::new(TransitionMode::Rise, 0, jd_ms(2459731.7), 0),
        AltitudeSample::new(TransitionMode::Setting, 0, jd_ms(2459732.2), 0),
    ];
    let nums = samples_to_key_nums(&samples);
    assert_eq!(nums.len(), 2);
    assert_eq!(nums[0].key.as_str(), "rise");
    assert_eq!(nums[0].value, samples[0].jd);
    assert_eq!(nums[1].key.as_str(), "set");
}

#[test]
fn extended_azalt_backfills_links_from_the_bounded_searches() {
    let base = AltTransitionSet {
        min: micro_deg(2.0),
        rise: 0,
        mc: jd_ms(2459731.9),
        set: 0,
        ic: jd_ms(2459732.4),
        max: micro_deg(30.0),
    };
    // neighbouring days report nothing real either
    let prev = TransitionSet { rise: 0, mc: 0, set: 0, ic: 0 };
    let next = TransitionSet { rise: 0, mc: 0, set: 0, ic: 0 };
    let mut next_candidates = vec![0i64; 183];
    let mut prev_candidates = vec![0i64; 183];
    next_candidates[25] = jd_ms(2459760.3);
    prev_candidates[12] = jd_ms(2459700.8);
    let row = calc_transition_set_extended_azalt(
        &base,
        &prev,
        &next,
        true,
        &next_candidates,
        &prev_candidates,
        10,
        5,
    );
    assert_eq!(row.next_rise, jd_ms(2459760.3));
    assert_eq!(row.prev_set, jd_ms(2459700.8));
    assert_eq!(row.rise, base.rise);
    assert_eq!(row.min, base.min);
    // with the searches disarmed the neighbours' answers stand
    let plain = calc_transition_set_extended_azalt(
        &base,
        &prev,
        &next,
        false,
        &next_candidates,
        &prev_candidates,
        10,
        5,
    );
    assert_eq!(plain.next_rise, 0);
    assert_eq!(plain.prev_set, 0);
}
