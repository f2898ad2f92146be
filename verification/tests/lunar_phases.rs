use astrocalc::lunar::{
    adjusted_micro_increment, calc_sun_moon_angle, next_phase_num, next_phase_start_estimate,
    phase_days_since, phase_scan_start, phase_scan_step, MoonPhase, PHASE_TOLERANCE,
    SHORT_LUNAR_MONTH_MS,
};

const DAY_MS: f64 = 86_400_000.0;

fn jd_ms(days: f64) -> i64 {
    (days * DAY_MS).round() as i64
}

fn micro_deg(deg: f64) -> i64 {
    (deg * 1_000_000.0).round() as i64
}

#[test]
fn sun_moon_angle_wraps_and_numbers_the_quarter() {
    let (angle, waxing, phase) = calc_sun_moon_angle(micro_deg(10.0), micro_deg(350.0));
    assert_eq!(angle, micro_deg(20.0));
    assert!(waxing);
    assert_eq!(phase, 1);
    let (angle2, waxing2, phase2) = calc_sun_moon_angle(micro_deg(100.0), micro_deg(290.0));
    assert_eq!(angle2, micro_deg(170.0));
    assert!(waxing2);
    assert_eq!(phase2, 2);
    let (angle3, waxing3, phase3) = calc_sun_moon_angle(micro_deg(10.0), micro_deg(100.0));
    assert_eq!(angle3, micro_deg(270.0));
    assert!(!waxing3);
    assert_eq!(phase3, 4);
}

#[test]
fn quarter_numbers_wrap_four_to_one() {
    assert_eq!(next_phase_num(1), 2);
    assert_eq!(next_phase_num(3), 4);
    assert_eq!(next_phase_num(4), 1);
}

#[test]
fn step_table_shrinks_with_the_remainder() {
    let base: i64 = 7_200_000;
    // far away: keep the current step beyond four degrees
    assert_eq!(adjusted_micro_increment(micro_deg(10.0), &base), base);
    assert_eq!(adjusted_micro_increment(micro_deg(3.0), &base), 3_600_000);
    assert_eq!(adjusted_micro_increment(micro_deg(1.5), &base), 1_800_000);
    assert_eq!(adjusted_micro_increment(micro_deg(0.75), &base), 900_000);
    assert_eq!(adjusted_micro_increment(micro_deg(0.3), &base), 360_000);
    assert_eq!(adjusted_micro_increment(micro_deg(0.2), &base), 180_000);
    assert_eq!(adjusted_micro_increment(micro_deg(0.1), &base), 90_000);
    assert_eq!(adjusted_micro_increment(micro_deg(0.05), &base), 45_000);
    assert_eq!(adjusted_micro_increment(micro_deg(0.02), &base), 22_500);
    assert_eq!(adjusted_micro_increment(micro_deg(0.01), &base), 22_500);
    // within 1/128 of a degree the finest step applies: 1/15360 day
    assert_eq!(adjusted_micro_increment(7_812, &base), 5_625);
}

#[test]
fn phase_scan_converges_within_the_iteration_cap() {
    // the separation angle grows at 12.5°/day from 80° toward 90°
    let start_angle = micro_deg(80.0);
    let rate_per_day = micro_deg(12.5);
    let start_jd = jd_ms(2459731.5);
    let angle_at = |jd: i64| -> i64 {
        let elapsed = jd - start_jd;
        (start_angle + (elapsed as i128 * rate_per_day as i128 / 86_400_000) as i64)
            % 360_000_000
    };
    let mut st = phase_scan_start(start_jd, start_angle);
    let mut iterations = 0;
    while !st.done {
        st = phase_scan_step(&st, angle_at(st.next_jd_target));
        iterations += 1;
        assert!(iterations <= 501);
    }
    assert!(st.counter <= 501);
    assert!(st.nx_jd > 0);
    // the recorded angle sits within tolerance of the 90° boundary
    let rem = 90_000_000 - st.nx_angle % 90_000_000;
    assert!(rem < PHASE_TOLERANCE);
}

#[test]
fn near_exact_hits_snap_to_the_boundary() {
    // 0.002° short of the first quarter: snapped, instant nudged forward
    let angle = micro_deg(90.0) - 2_000;
    let ref_jd = jd_ms(2459745.25);
    let phase = MoonPhase::new(ref_jd, angle, 2, None);
    assert_eq!(phase.angle, micro_deg(90.0));
    assert_eq!(phase.num, 2);
    assert!(phase.waxing);
    let extra = 2_000i64 * 637_860_744 / 90_000_000;
    assert_eq!(phase.jd, ref_jd + extra);
    // far from the boundary the angle and instant stay as given
    let rough = MoonPhase::new(ref_jd, micro_deg(60.0), 2, Some(jd_ms(7.4)));
    assert_eq!(rough.angle, micro_deg(60.0));
    assert_eq!(rough.jd, ref_jd);
    assert_eq!(rough.days, Some(jd_ms(7.4)));
}

#[test]
fn days_since_previous_event_only_within_a_month() {
    let prev = jd_ms(2459731.5);
    let a_week = prev + jd_ms(7.375);
    assert_eq!(phase_days_since(a_week, prev), Some(jd_ms(7.375)));
    let too_long = prev + SHORT_LUNAR_MONTH_MS;
    assert_eq!(phase_days_since(too_long, prev), None);
}

#[test]
fn start_estimate_scales_with_angular_progress() {
    let jd = jd_ms(2459731.5);
    // 30° short of the next boundary: a third of a quarter month ahead
    let est = next_phase_start_estimate(jd, micro_deg(60.0), 1);
    assert_eq!(est, jd + micro_deg(30.0) * 144 / 25);
    assert_eq!(est, jd + jd_ms(2.0));
}
