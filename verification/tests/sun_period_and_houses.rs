use astrocalc::math_funcs::{
    adjust_lng_by_body_key, calc_opposite, normalize_360, normalize_base, recalc_houses,
    recalc_houses_by_system, subtract_360,
};
use astrocalc::models::{KeyNumValue, KeyNumValueSet};
use astrocalc::rise_set::{
    calc_sun_period, extract_sun_rise_set_jd, extract_sun_rise_sets, next_rise_accept,
    resolve_next_rise, MIN_JD_MS,
};
use astrocalc::text::str_contains;

const DAY_MS: f64 = 86_400_000.0;

fn jd_ms(days: f64) -> i64 {
    (days * DAY_MS).round() as i64
}

fn sun_set(items: Vec<KeyNumValue>) -> Vec<KeyNumValueSet> {
    vec![
        KeyNumValueSet::new("mo", Vec::new()),
        KeyNumValueSet::new("su", items),
    ]
}

#[test]
fn sun_rows_come_from_the_sun_entry() {
    let items = sun_set(vec![
        KeyNumValue::new("rise", jd_ms(2459731.7)),
        KeyNumValue::new("set", jd_ms(2459732.2)),
    ]);
    let rows = extract_sun_rise_sets(&items);
    assert_eq!(rows.len(), 2);
    assert_eq!(rows[0].key.as_str(), "rise");
    assert_eq!(extract_sun_rise_set_jd(&items, true), Some(jd_ms(2459732.2)));
    assert_eq!(extract_sun_rise_set_jd(&items, false), Some(jd_ms(2459731.7)));
    let empty: Vec<KeyNumValueSet> = Vec::new();
    assert!(extract_sun_rise_sets(&empty).is_empty());
    assert_eq!(extract_sun_rise_set_jd(&empty, true), None);
}

#[test]
fn sun_period_brackets_the_reference_instant() {
    let rise1 = jd_ms(2459731.7);
    let set1 = jd_ms(2459732.2);
    let rise2 = jd_ms(2459732.7);
    let items = sun_set(vec![
        KeyNumValue::new("rise", rise1),
        KeyNumValue::new("mc", jd_ms(2459731.95)),
        KeyNumValue::new("set", set1),
        KeyNumValue::new("next_rise", rise2),
    ]);
    // daytime: between the rise and the set
    let day = calc_sun_period(&items, jd_ms(2459732.0));
    assert_eq!(day.start, rise1);
    assert_eq!(day.end, set1);
    assert!(!day.night);
    // night: between the set and the next rise (a set-like key opens it)
    let night = calc_sun_period(&items, jd_ms(2459732.5));
    assert_eq!(night.start, set1);
    assert_eq!(night.end, rise2);
    assert!(night.night);
    // before any recorded instant the bounds stay sentinels
    let open = calc_sun_period(&items, jd_ms(2459731.5));
    assert_eq!(open.start, 0);
    assert_eq!(open.end, rise1);
}

#[test]
fn substring_search_matches_link_keys() {
    assert!(str_contains("prev_set", "set"));
    assert!(str_contains("next_rise", "rise"));
    assert!(!str_contains("mc", "set"));
    assert!(str_contains("set", "set"));
    assert!(str_contains("anything", ""));
}

#[test]
fn next_rise_candidates_respect_the_acceptance_rule() {
    let base_rise = jd_ms(2459731.7);
    let mut candidates = vec![0i64; 183];
    candidates[20] = base_rise - jd_ms(0.5); // real but not past the day's rise
    candidates[30] = base_rise + jd_ms(3.0);
    assert!(!next_rise_accept(candidates[20], 5, base_rise));
    assert!(next_rise_accept(candidates[20], 0, base_rise));
    // with a backward search pending, the earlier candidate is skipped
    assert_eq!(
        resolve_next_rise(&candidates, 0, 5, base_rise),
        base_rise + jd_ms(3.0)
    );
    // without one, it is taken
    assert_eq!(
        resolve_next_rise(&candidates, 0, 0, base_rise),
        base_rise - jd_ms(0.5)
    );
    assert!(resolve_next_rise(&candidates, 31, 5, base_rise) < MIN_JD_MS);
}

#[test]
fn circle_arithmetic_wraps_into_range() {
    assert_eq!(calc_opposite(10_000_000), 190_000_000);
    assert_eq!(calc_opposite(270_000_000), 90_000_000);
    assert_eq!(adjust_lng_by_body_key("ke", 10_000_000), 190_000_000);
    assert_eq!(adjust_lng_by_body_key("su", 10_000_000), 10_000_000);
    assert_eq!(subtract_360(10_000_000, 24_000_000), 346_000_000);
    assert_eq!(normalize_360(-10_000_000), 350_000_000);
    assert_eq!(normalize_base(-10_000_000, 180), 170_000_000);
}

#[test]
fn whole_sign_houses_step_through_the_signs() {
    // ascendant at 95.5°, no correction: houses start at 90°
    let houses = recalc_houses(Vec::new(), 0, Some(95_500_000), Some('W'));
    assert_eq!(houses.len(), 12);
    assert_eq!(houses[0], 90_000_000);
    assert_eq!(houses[1], 120_000_000);
    assert_eq!(houses[11], 60_000_000);
    // another system only subtracts the correction
    let cusps = recalc_houses_by_system(vec![100_000_000, 200_000_000], 24_000_000, 'K');
    assert_eq!(cusps, vec![76_000_000, 176_000_000]);
    // with no ascendant the first position anchors the wheel
    let anchored = recalc_houses(vec![185_000_000], 0, None, None);
    assert_eq!(anchored[0], 180_000_000);
}
