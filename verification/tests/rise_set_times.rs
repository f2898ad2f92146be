use astrocalc::rise_set::{
    is_near_poles, normalized_ic_jd, normalized_mc_jd, start_jd_geo, start_jd_geo_tz,
    AltTransitionSet, ExtendedTransitionSet, TransitionGroup, TransitionParams, TransitionSet,
    MIN_JD_MS,
};

/// Milliseconds per day, as the library counts instants.
const DAY_MS: f64 = 86_400_000.0;

fn jd_ms(days: f64) -> i64 {
    (days * DAY_MS).round() as i64
}

#[test]
fn has_correct_geo_day_start_offset() {
    let ref_jd = jd_ms(2459731.875);
    let day_start_utc_jd = jd_ms(2459731.5);
    let lng1 = 90_000_000i64; // 90ºE
    let lng2 = -90_000_000i64; // 90ºW
    let start_jd1 = start_jd_geo(ref_jd, lng1);
    let start_jd2 = start_jd_geo(ref_jd, lng2);
    let expected_start_1 = day_start_utc_jd - jd_ms(0.25);
    let expected_start_2 = day_start_utc_jd + jd_ms(0.25);
    assert_eq!(start_jd1, expected_start_1);
    assert_eq!(start_jd2, expected_start_2);
}

#[test]
fn has_correct_geo_day_start_tz_offset_east() {
    let ref_jd = jd_ms(2459731.875);
    let day_start_utc_jd = jd_ms(2459731.5);
    let lng1 = 84_000_000i64; // 84ºE
    let tzs1 = 18000i32;
    let start_jd1 = start_jd_geo_tz(ref_jd, lng1, Some(tzs1));
    let expected_start_1 = day_start_utc_jd - jd_ms(5.0 / 24.0);
    assert_eq!(start_jd1, expected_start_1);
}

#[test]
fn has_correct_geo_day_start_tz_offset_west() {
    let ref_jd = jd_ms(2459731.875);
    let day_start_utc_jd = jd_ms(2459731.5);
    let lng2 = -84_000_000i64;
    let tzs2 = -18000i32;
    let start_jd2 = start_jd_geo_tz(ref_jd, lng2, Some(tzs2));
    let expected_start_2 = day_start_utc_jd + jd_ms(5.0 / 24.0);
    assert_eq!(start_jd2, expected_start_2);
}

#[test]
fn has_correct_geo_day_start_tz_offset_east_none() {
    let ref_jd = jd_ms(2459731.875);
    let day_start_utc_jd = jd_ms(2459731.5);
    let lng1 = 84_000_000i64; // 84ºE
    let start_jd3 = start_jd_geo_tz(ref_jd, lng1, None);
    let expected_start_3 = day_start_utc_jd - jd_ms(5.6 / 24.0);
    assert_eq!(start_jd3, expected_start_3);
}

#[test]
fn has_correct_geo_day_start_tz_offset_west_none() {
    let ref_jd = jd_ms(2459731.875);
    let day_start_utc_jd = jd_ms(2459731.5);
    let lng2 = -84_000_000i64; // 84ºW
    let start_jd4 = start_jd_geo_tz(ref_jd, lng2, None);
    let expected_start_4 = day_start_utc_jd + jd_ms(5.6 / 24.0);
    assert_eq!(start_jd4, expected_start_4);
}

#[test]
fn transition_params_compose_the_documented_flag_values() {
    assert_eq!(TransitionParams::center_disc_rising(), 768);
    assert_eq!(TransitionParams::center_disc_rising_rise(), 769);
    assert_eq!(TransitionParams::center_disc_rising_set(), 770);
    assert_eq!(TransitionParams::rise_normal(), 16385);
    assert_eq!(TransitionParams::set_normal(), 16386);
    assert_eq!(TransitionParams::mc(), 516);
    assert_eq!(TransitionParams::ic(), 520);
}

#[test]
fn near_poles_threshold_sits_at_sixty_degrees() {
    assert!(is_near_poles(60_000_000));
    assert!(is_near_poles(-60_000_000));
    assert!(!is_near_poles(59_999_999));
    assert!(!is_near_poles(-59_999_999));
}

#[test]
fn invalid_native_transit_falls_back_to_the_midpoint() {
    let rise = jd_ms(2459731.6);
    let set = jd_ms(2459732.1);
    // a value below one day is invalid: take the rise/set midpoint
    let mc = normalized_mc_jd(0, rise, set);
    assert_eq!(mc, (rise + set) / 2);
    assert!(rise <= mc && mc <= set);
    // a valid value is kept as it is
    let valid = jd_ms(2459731.85);
    assert_eq!(normalized_mc_jd(valid, rise, set), valid);
    let ic = normalized_ic_jd(0, set, rise + jd_ms(1.0));
    assert_eq!(ic, (set + rise + jd_ms(1.0)) / 2);
}

#[test]
fn extended_set_up_down_flags_follow_the_tolerance() {
    let up = ExtendedTransitionSet {
        prev_set: 0,
        rise: 0,
        mc: jd_ms(2459731.9),
        set: 0,
        ic: jd_ms(2459732.4),
        next_rise: 0,
        min: -400_000,
        max: 30_000_000,
    };
    assert!(up.is_up());
    assert!(!up.is_down());
    assert!(!up.needs_rise() || up.min < 0);
    let down = ExtendedTransitionSet {
        min: -40_000_000,
        max: 400_000,
        ..up
    };
    assert!(down.is_down());
    assert!(!down.up_period_over());
}

#[test]
fn key_nums_relabel_links_for_an_all_up_day() {
    let up = ExtendedTransitionSet {
        prev_set: jd_ms(2459700.2),
        rise: 0,
        mc: jd_ms(2459731.9),
        set: 0,
        ic: jd_ms(2459732.4),
        next_rise: jd_ms(2459760.7),
        min: 1_000_000,
        max: 30_000_000,
    };
    let nums = up.to_key_nums();
    assert_eq!(nums.len(), 8);
    assert_eq!(nums[0].key.as_str(), "prev_rise");
    assert_eq!(nums[5].key.as_str(), "next_set");
    assert_eq!(nums[1].key.as_str(), "rise");
    assert_eq!(nums[0].value, up.prev_set);
}

#[test]
fn basic_set_key_nums_mark_sentinel_crossings_as_extrema() {
    let ts = TransitionSet {
        rise: 0,
        mc: jd_ms(2459731.9),
        set: jd_ms(2459732.2),
        ic: jd_ms(2459732.4),
    };
    let nums = ts.to_key_nums();
    assert_eq!(nums.len(), 4);
    assert_eq!(nums[0].key.as_str(), "max");
    assert_eq!(nums[2].key.as_str(), "set");
}

#[test]
fn alt_set_period_spans_rise_to_set() {
    let alt = AltTransitionSet {
        min: -20_000_000,
        rise: jd_ms(2459731.7),
        mc: jd_ms(2459731.95),
        set: jd_ms(2459732.2),
        ic: jd_ms(2459732.45),
        max: 35_000_000,
    };
    assert_eq!(alt.period(), jd_ms(0.5));
    assert_eq!(alt.start_mode(), 0);
    assert!(alt.rise < MIN_JD_MS || alt.rise > 0);
}
