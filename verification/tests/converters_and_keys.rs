use astrocalc::ayanamshas::{
    all_ayanamsha_keys, match_ayanamsha_key, match_ayanamsha_num, Ayanamsha, AynamshaInfo,
};
use astrocalc::bodies::{planet_num_to_graha_key, Body};
use astrocalc::constants::empty_string;
use astrocalc::converters::{
    body_keys_str_to_keys, body_keys_str_to_keys_or, calc_angle, calc_circular_diff,
    calc_days_to_next_prev_equinox, calc_sun_moon_angle, get_next_prev_rise_set_polar_calc_offset,
    int_sqrt, julian_day_year_day, loc_string_to_geo, min_progress_to_end_of_light_period,
    parse_fixed_micro, split_on_commas, subtract_to_zero, time_interval_format, to_str_refs,
};
use astrocalc::julian_date::{julian_day_to_unixtime, unixtime_to_julian_day, UNIX_EPOCH_JD_MS};
use astrocalc::models::{GeoPos, KeyNumValue};
use astrocalc::planet_stations::PlanetStation;
use astrocalc::traits::{AddKeyedItem, MatchVecKey, PlanetNum};
use astrocalc::validators::{is_decimal_str, is_integer_str};

const DAY_MS: f64 = 86_400_000.0;

fn jd_ms(days: f64) -> i64 {
    (days * DAY_MS).round() as i64
}

#[test]
fn year_day_follows_the_civil_calendar() {
    // 2022-06-01 is the 152nd day of its year
    assert_eq!(julian_day_year_day(jd_ms(2459731.5)), 152);
    // 2020-12-31 closes a leap year
    assert_eq!(julian_day_year_day(jd_ms(2459214.5)), 366);
    // 2021-01-01 opens the next one
    assert_eq!(julian_day_year_day(jd_ms(2459215.5)), 1);
}

#[test]
fn equinox_distance_looks_both_ways_round_the_year() {
    // day 152: 114 days short of the autumn equinox near day 266
    assert_eq!(calc_days_to_next_prev_equinox(jd_ms(2459731.5)), 114);
    assert_eq!(calc_circular_diff(152, 83, 366), 297);
    assert_eq!(calc_circular_diff(40, 83, 366), 43);
}

#[test]
fn integer_square_root_brackets_its_argument() {
    assert_eq!(int_sqrt(0), 0);
    assert_eq!(int_sqrt(1), 1);
    assert_eq!(int_sqrt(99), 9);
    assert_eq!(int_sqrt(100), 10);
    assert_eq!(int_sqrt(571_429_000_000), 755_929);
    assert_eq!(int_sqrt(1_000_000_000_000), 1_000_000);
}

#[test]
fn polar_progress_rises_logarithmically_past_two_thirds() {
    assert_eq!(min_progress_to_end_of_light_period(50_000_000), 0);
    assert_eq!(min_progress_to_end_of_light_period(-50_000_000), 0);
    // 80°: linear progress 4/7, square root ≈ 0.7559
    let k = min_progress_to_end_of_light_period(80_000_000);
    assert_eq!(k, 90);
    let near_pole = min_progress_to_end_of_light_period(89_000_000);
    assert!(near_pole > k && near_pole <= 120);
}

#[test]
fn polar_search_offsets_scale_with_season_and_latitude() {
    let (next, prev) = get_next_prev_rise_set_polar_calc_offset(jd_ms(2459731.5), 80_000_000);
    // 114 days to the equinox at progress 90/183, pulled in by 18 days
    assert_eq!(next, 114 * 90 / 183 - 18);
    assert_eq!(prev, (183 - 114) * 90 / 183 - 18);
    // moderate latitudes always start at the reference day
    assert_eq!(
        get_next_prev_rise_set_polar_calc_offset(jd_ms(2459731.5), 55_000_000),
        (0, 0)
    );
    assert_eq!(subtract_to_zero(10, 18), 0);
}

#[test]
fn splitting_keeps_two_letter_keys_in_order() {
    let parts = split_on_commas("su,mo,,xx1,ve");
    assert_eq!(parts.len(), 5);
    assert_eq!(parts[2].as_str(), "");
    let keys = body_keys_str_to_keys("su,mo,,xx1,ve".to_string());
    assert_eq!(keys.len(), 3);
    assert_eq!(keys[0].as_str(), "su");
    assert_eq!(keys[1].as_str(), "mo");
    assert_eq!(keys[2].as_str(), "ve");
}

#[test]
fn key_fallback_applies_on_an_empty_selection() {
    let keys = body_keys_str_to_keys_or("as,su,mo".to_string(), vec!["su", "mo"]);
    assert_eq!(keys.len(), 2);
    assert_eq!(keys[0].as_str(), "su");
    let defaults = body_keys_str_to_keys_or("".to_string(), vec!["ju", "sa"]);
    assert_eq!(defaults.len(), 2);
    assert_eq!(defaults[0].as_str(), "ju");
    assert_eq!(defaults[1].as_str(), "sa");
}

#[test]
fn coordinates_parse_to_micro_degrees() {
    assert_eq!(parse_fixed_micro("45.336"), Some(45_336_000));
    assert_eq!(parse_fixed_micro("-13.2785"), Some(-13_278_500));
    assert_eq!(parse_fixed_micro("50"), Some(50_000_000));
    assert_eq!(parse_fixed_micro(".5"), Some(500_000));
    assert_eq!(parse_fixed_micro("7."), Some(7_000_000));
    assert_eq!(parse_fixed_micro("1.2345678"), Some(1_234_567));
    assert_eq!(parse_fixed_micro(""), None);
    assert_eq!(parse_fixed_micro("-"), None);
    assert_eq!(parse_fixed_micro("1.2.3"), None);
    assert_eq!(parse_fixed_micro("abc"), None);
}

#[test]
fn location_strings_become_observer_positions() {
    let geo = loc_string_to_geo("45.336,13.278,50").unwrap();
    assert_eq!(
        geo,
        GeoPos {
            lat: 45_336_000,
            lng: 13_278_000,
            alt: 50_000_000
        }
    );
    let flat = loc_string_to_geo("45.336,13.278").unwrap();
    assert_eq!(flat.alt, 0);
    // malformed parts are skipped, as a lenient query parser should
    let partial = loc_string_to_geo("45.336,bogus,13.278").unwrap();
    assert_eq!(partial.lat, 45_336_000);
    assert_eq!(partial.lng, 13_278_000);
    assert!(loc_string_to_geo("45.336").is_none());
    assert!(loc_string_to_geo("").is_none());
}

#[test]
fn interval_formatting_breaks_out_hours_minutes_seconds() {
    assert_eq!(time_interval_format(11_130_000).as_str(), "3h 5m 30s");
    assert_eq!(time_interval_format(3 * 3_600_000).as_str(), "3h");
    assert_eq!(time_interval_format(30_000).as_str(), "0m 30s");
    assert_eq!(time_interval_format(5 * 60_000).as_str(), "5m");
    assert_eq!(time_interval_format(0).as_str(), "");
}

#[test]
fn circular_angles_measure_forward_separation() {
    assert_eq!(calc_angle(10_000_000, 350_000_000), 20_000_000);
    assert_eq!(calc_angle(350_000_000, 10_000_000), 340_000_000);
    let (angle, waxing, phase) = calc_sun_moon_angle(190_000_000, 0);
    assert_eq!(angle, 190_000_000);
    assert!(!waxing);
    assert_eq!(phase, 3);
}

#[test]
fn str_refs_mirror_their_sources() {
    let owned = vec!["su".to_string(), "mo".to_string()];
    let refs = to_str_refs(&owned);
    assert_eq!(refs, vec!["su", "mo"]);
}

#[test]
fn numeric_string_validators_accept_plain_shapes() {
    assert!(is_integer_str("12345"));
    assert!(!is_integer_str("12a45"));
    assert!(is_decimal_str("123.45"));
    assert!(is_decimal_str("123"));
    assert!(!is_decimal_str("12.3.4"));
    assert!(!is_decimal_str("12,3"));
}

#[test]
fn ayanamsha_keys_resolve_by_alias_and_number() {
    assert_eq!(match_ayanamsha_num("true_citra"), 27);
    assert_eq!(match_ayanamsha_num("TC"), 27);
    assert_eq!(match_ayanamsha_num("27"), 27);
    assert_eq!(match_ayanamsha_num("lahiri"), 1);
    assert_eq!(match_ayanamsha_num("unknown"), 0);
    assert_eq!(match_ayanamsha_key("tc,su").as_str(), "true_citra");
    assert_eq!(match_ayanamsha_key("0").as_str(), "tropical");
    assert_eq!(all_ayanamsha_keys().len(), 17);
    let info = AynamshaInfo::new("krishnamurti");
    assert_eq!(info.key.as_str(), "kr");
    assert_eq!(info.num, 5);
    assert_eq!(Ayanamsha::Raman.as_i32(), 3);
    assert_eq!(Ayanamsha::Tropical.as_u8(), 0);
}

#[test]
fn body_keys_resolve_with_the_earth_placeholder_fallback() {
    assert_eq!(Body::match_key("mo"), Body::Moon);
    assert_eq!(Body::match_key("KE"), Body::TrueNode);
    // unknown keys deliberately read as the Earth placeholder
    assert_eq!(Body::match_key("zz"), Body::Earth);
    assert_eq!(planet_num_to_graha_key(1), "mo");
    assert_eq!(planet_num_to_graha_key(102), "ke");
    assert_eq!(planet_num_to_graha_key(999), "");
    assert_eq!(Body::Moon.to_num(), 1);
    assert_eq!(<Body as PlanetNum>::from_num(9), Body::Pluto);
}

#[test]
fn planet_station_markers_round_trip_to_labels() {
    assert_eq!(PlanetStation::new(0).as_string().as_str(), "retro-start");
    assert_eq!(PlanetStation::new(3).as_string().as_str(), "peak");
    assert_eq!(PlanetStation::new(9).as_string().as_str(), "sample");
}

#[test]
fn keyed_values_support_lookup_and_append() {
    let mut rows: Vec<KeyNumValue> = Vec::new();
    rows.add("rise", jd_ms(2459731.7));
    rows.add("set", jd_ms(2459732.2));
    let hit = rows.match_by_key("set").unwrap();
    assert_eq!(hit.value, jd_ms(2459732.2));
    assert!(rows.match_by_key("mc").is_none());
    assert_eq!(empty_string().as_str(), "");
}

#[test]
fn unix_time_round_trips_through_the_julian_axis() {
    assert_eq!(unixtime_to_julian_day(0), UNIX_EPOCH_JD_MS);
    let ts = 1_654_041_600i64; // 2022-06-01T00:00:00Z
    let jd = unixtime_to_julian_day(ts);
    assert_eq!(jd, jd_ms(2459731.5));
    assert_eq!(julian_day_to_unixtime(jd), ts);
}

#[test]
fn help_tables_list_every_endpoint() {
    let help = astrocalc::help::endpoint_help();
    assert_eq!(help.len(), 9);
    assert!(help.contains_key("GET /positions"));
    let options = astrocalc::help::rise_set_option_help();
    assert_eq!(options.len(), 1);
    let houses = astrocalc::house_systems::houses_as_key_map();
    assert_eq!(houses.len(), 24);
    assert_eq!(houses.get(&'W').unwrap().as_str(), "equal/ whole sign");
}
