//! Conversions between query strings, observer locations and the fixed
//! point units, and the season-aware search-bound heuristic for polar
//! day scans.

use vstd::prelude::*;
use crate::models::{GeoPos, DAY_MS, DEG_90, valid_jd_ms};
use crate::numeric::tdiv;
use crate::text::{dec_value, digits_only, str_eq};

verus! {

/// Days from the civil epoch to the noon-aligned start of the Julian-day
/// axis, plus
/// twenty whole 400-year Gregorian cycles so that every division in the
/// calendar arithmetic sees a non-negative operand.  Shifting by whole
/// cycles leaves month, day and leap structure untouched.
pub const CIVIL_SHIFT_DAYS: i64 = 719_468 + 2_921_940 - 2_440_588;

/// Days per 400-year Gregorian cycle.
pub const ERA_DAYS: i64 = 146_097;

/// The day of its Gregorian calendar year (1–366) of the given instant.
///
/// The arithmetic is the standard civil-from-days conversion: split the
/// day count into 400-year eras, find the year within the era from the
/// leap-corrected day count, and read month and day off the
/// March-aligned year.
pub open spec fn year_day_spec(jd_ms: int) -> int {
    let z = (jd_ms + 43_200_000) / (DAY_MS as int) + CIVIL_SHIFT_DAYS;
    let era = z / (ERA_DAYS as int);
    let doe = z % (ERA_DAYS as int);
    let yoe = (doe - doe / 1460 + doe / 36524 - doe / 146096) / 365;
    let y = yoe + era * 400;
    let doy_raw = doe - (365 * yoe + yoe / 4 - yoe / 100);
    let doy = if doy_raw < 0 { 0 } else if doy_raw > 365 { 365 } else { doy_raw };
    let mp = (5 * doy + 2) / 153;
    let m = if mp < 10 { mp + 3 } else { mp - 9 };
    let year = if m <= 2 { y + 1 } else { y };
    let leap: int = if year % 4 == 0 && (year % 100 != 0 || year % 400 == 0) { 1 } else { 0 };
    if m >= 3 {
        doy + 60 + leap
    } else {
        doy - 305
    }
}

/// Computes the day of the Gregorian year (1-based) of an instant,
/// without consulting a calendar library: the Julian-day axis itself
/// carries the calendar.  (Clamping the March-aligned day count is a
/// proof device: the civil-calendar identities keep it in range on their
/// own, and the clamp lets the result's bounds stand without them.)
pub fn julian_day_year_day(jd_ms: i64) -> (r: i64)
    requires
        valid_jd_ms(jd_ms),
    ensures
        r == year_day_spec(jd_ms as int),
        1 <= r <= 366,
{
    let z = (jd_ms + 43_200_000) / DAY_MS + CIVIL_SHIFT_DAYS;
    let era = z / ERA_DAYS;
    let doe = z % ERA_DAYS;
    proof {
        assert(0 <= z);
        assert(0 <= doe < ERA_DAYS);
        assert(doe / 1460 + doe / 146096 <= doe) by {
            vstd::arithmetic::div_mod::lemma_div_is_ordered_by_denominator(doe as int, 2, 1460);
            vstd::arithmetic::div_mod::lemma_div_is_ordered_by_denominator(doe as int, 2, 146096);
            vstd::arithmetic::div_mod::lemma_fundamental_div_mod(doe as int, 2);
            assert(doe as int % 2 >= 0);
        }
        assert(doe / 1460 >= 0 && doe / 36524 >= 0 && doe / 146096 >= 0);
    }
    let numerator = doe - doe / 1460 + doe / 36524 - doe / 146096;
    proof {
        assert(numerator >= 0);
        assert(numerator <= 2 * ERA_DAYS) by {
            assert(doe / 36524 <= doe);
        }
    }
    let yoe = numerator / 365;
    let y = yoe + era * 400;
    proof {
        assert(0 <= yoe <= 2 * ERA_DAYS);
        assert(yoe / 4 >= 0 && yoe / 100 >= 0 && yoe / 4 <= yoe && yoe / 100 <= yoe);
    }
    let doy_raw = doe - (365 * yoe + yoe / 4 - yoe / 100);
    let doy: i64 = if doy_raw < 0 {
        0
    } else if doy_raw > 365 {
        365
    } else {
        doy_raw
    };
    let mp = (5 * doy + 2) / 153;
    proof {
        assert(0 <= mp <= 11) by {
            assert(5 * doy + 2 <= 1827);
            vstd::arithmetic::div_mod::lemma_div_is_ordered(5 * doy as int + 2, 1827, 153);
        }
        assert(mp >= 10 ==> doy >= 306) by {
            if doy < 306 {
                vstd::arithmetic::div_mod::lemma_div_is_ordered(5 * doy as int + 2, 1527, 153);
            }
        }
        assert(mp < 10 ==> doy <= 305) by {
            if doy >= 306 {
                vstd::arithmetic::div_mod::lemma_div_is_ordered(1532, 5 * doy as int + 2, 153);
            }
        }
    }
    let m = if mp < 10 { mp + 3 } else { mp - 9 };
    let year = if m <= 2 { y + 1 } else { y };
    let leap: i64 = if year % 4 == 0 && (year % 100 != 0 || year % 400 == 0) { 1 } else { 0 };
    if m >= 3 {
        doy + 60 + leap
    } else {
        doy - 305
    }
}

/// The forward distance from `ref_int` to `target_int` on a circle of
/// `base` steps.
pub fn calc_circular_diff(ref_int: i32, target_int: i32, base: i32) -> (r: i32)
    requires
        -100_000 <= ref_int <= 100_000,
        -100_000 <= target_int <= 100_000,
        -100_000 <= base <= 100_000,
    ensures
        r == (if ref_int < target_int {
            target_int - ref_int
        } else {
            target_int + base - ref_int
        }),
{
    if ref_int < target_int {
        target_int - ref_int
    } else {
        target_int + base - ref_int
    }
}

/// Days to the nearest equinox (spring near day 83, autumn near day 266),
/// looking forward around the year circle from either side.
pub open spec fn days_to_equinox_spec(yd: int) -> int {
    let first = if yd < 83 { 83 - yd } else { 83 + 366 - yd };
    let second = if yd < 266 { 266 - yd } else { 266 + 365 - yd };
    let second_used: int = if first >= 183 { second } else { 366 };
    if first < second_used {
        first
    } else {
        second_used
    }
}

/// How many days separate the instant from the nearest equinox: the
/// season-awareness behind the polar search-bound heuristic.
pub fn calc_days_to_next_prev_equinox(jd_ms: i64) -> (r: i32)
    requires
        valid_jd_ms(jd_ms),
    ensures
        r == days_to_equinox_spec(year_day_spec(jd_ms as int)),
{
    let yd = julian_day_year_day(jd_ms) as i32;
    let half_year_days: i32 = 183;
    let autumn_eq: i32 = 266;
    let spring_eq = autumn_eq - half_year_days;
    let first = calc_circular_diff(yd, spring_eq, 366);
    let mut second = half_year_days * 2;
    if first >= half_year_days {
        second = calc_circular_diff(yd, autumn_eq, 365);
    }
    if first < second {
        first
    } else {
        second
    }
}

/// The integer square root, defined one step at a time: going from `x-1`
/// to `x` raises the root by one exactly when the next square fits.
pub open spec fn isqrt_spec(x: int) -> int
    decreases x,
{
    if x <= 0 {
        0
    } else if (isqrt_spec(x - 1) + 1) * (isqrt_spec(x - 1) + 1) <= x {
        isqrt_spec(x - 1) + 1
    } else {
        isqrt_spec(x - 1)
    }
}

/// [`isqrt_spec`] is the greatest integer whose square fits.
pub proof fn lemma_isqrt_bounds(x: int)
    requires
        x >= 0,
    ensures
        isqrt_spec(x) >= 0,
        isqrt_spec(x) * isqrt_spec(x) <= x,
        x < (isqrt_spec(x) + 1) * (isqrt_spec(x) + 1),
    decreases x,
{
    if x > 0 {
        lemma_isqrt_bounds(x - 1);
        let rp = isqrt_spec(x - 1);
        assert((rp + 1) * (rp + 1) < (rp + 2) * (rp + 2)) by (nonlinear_arith)
            requires
                rp >= 0,
        {
        }
    }
}

/// Only one non-negative integer squeezes between the squares, so the
/// bounds pin the root down.
pub proof fn lemma_isqrt_unique(x: int, r: int)
    requires
        x >= 0,
        r >= 0,
        r * r <= x,
        x < (r + 1) * (r + 1),
    ensures
        r == isqrt_spec(x),
{
    lemma_isqrt_bounds(x);
    let s = isqrt_spec(x);
    if r < s {
        assert((r + 1) * (r + 1) <= s * s) by (nonlinear_arith)
            requires
                0 <= r,
                r + 1 <= s,
        {
        }
    } else if s < r {
        assert((s + 1) * (s + 1) <= r * r) by (nonlinear_arith)
            requires
                0 <= s,
                s + 1 <= r,
        {
        }
    }
}

/// The integer square root: the greatest `r` with `r·r <= x`.
pub fn int_sqrt(x: u64) -> (r: u64)
    requires
        x <= 1_000_000_000_000,
    ensures
        r as int == isqrt_spec(x as int),
        r * r <= x < (r + 1) * (r + 1),
{
    let mut lo: u64 = 0;
    let mut hi: u64 = 1_000_001;
    while lo + 1 < hi
        invariant
            lo < hi <= 1_000_001,
            lo * lo <= x,
            x < hi * hi,
        decreases hi - lo,
    {
        let mid = lo + (hi - lo) / 2;
        proof {
            assert(mid < hi);
            assert(mid * mid <= 1_000_000_000_000 + 2_000_001) by (nonlinear_arith)
                requires
                    mid <= 1_000_000,
            {
            }
        }
        if mid * mid <= x {
            lo = mid;
        } else {
            hi = mid;
        }
    }
    proof {
        lemma_isqrt_unique(x as int, lo as int);
    }
    lo
}

/// How far toward permanent day or night a latitude stands, in
/// millionths: zero up to 200/3 degrees, then the square root of the
/// linear progress toward the pole.
pub open spec fn pole_progress_spec(lat: int) -> int {
    let a = if lat >= 0 { lat } else { -lat };
    if 3 * a > 200_000_000 {
        let linear = 1_000_000 - 3 * (DEG_90 - a) / 70;
        isqrt_spec(linear * 1_000_000)
    } else {
        0
    }
}

/// The numerator, over 183, of the progress-scaled share of the polar
/// search bound: `floor(progress × 120)` with `progress` in millionths.
pub open spec fn min_progress_numerator_spec(lat: int) -> int {
    pole_progress_spec(lat) * 120 / 1_000_000
}

/// The logarithmic-in-latitude progress factor of the polar search
/// heuristic, as the numerator of a fraction over 183: searches near the
/// poles start farther out, searches at moderate high latitude near the
/// reference day.
pub fn min_progress_to_end_of_light_period(lat: i64) -> (r: i64)
    requires
        -DEG_90 <= lat <= DEG_90,
    ensures
        r == min_progress_numerator_spec(lat as int),
        0 <= r <= 120,
{
    let a = if lat >= 0 { lat } else { -lat };
    if 3 * a > 200_000_000 {
        let linear = 1_000_000 - 3 * (DEG_90 - a) / 70;
        let s = int_sqrt((linear * 1_000_000) as u64);
        proof {
            lemma_isqrt_bounds(linear as int * 1_000_000);
            assert(isqrt_spec(linear as int * 1_000_000) <= 1_000_000) by {
                if isqrt_spec(linear as int * 1_000_000) > 1_000_000 {
                    assert(isqrt_spec(linear as int * 1_000_000) * isqrt_spec(
                        linear as int * 1_000_000,
                    ) > 1_000_000_000_000) by (nonlinear_arith)
                        requires
                            isqrt_spec(linear as int * 1_000_000) > 1_000_000,
                    {
                    }
                }
            }
        }
        (s as i64) * 120 / 1_000_000
    } else {
        0
    }
}

/// Where the bounded polar searches start, as day offsets from the
/// reference day: the distance to the nearest equinox (forward) and its
/// complement (backward), scaled by the latitude progress factor and
/// pulled in by eighteen days.
pub open spec fn polar_offsets_spec(jd_ms: int, lat: int) -> (int, int) {
    let next_equinox = days_to_equinox_spec(year_day_spec(jd_ms));
    let k = min_progress_numerator_spec(lat);
    let counter_next = tdiv(next_equinox * k, 183);
    let counter_prev = tdiv((183 - next_equinox) * k, 183);
    (
        if counter_next - 18 > 0 { counter_next - 18 } else { 0 },
        if counter_prev - 18 > 0 { counter_prev - 18 } else { 0 },
    )
}

/// The starting offsets of the next-rise and previous-set polar
/// searches for a day and latitude.
pub fn get_next_prev_rise_set_polar_calc_offset(ref_jd: i64, lat: i64) -> (r: (i32, i32))
    requires
        valid_jd_ms(ref_jd),
        -DEG_90 <= lat <= DEG_90,
    ensures
        r.0 == polar_offsets_spec(ref_jd as int, lat as int).0,
        r.1 == polar_offsets_spec(ref_jd as int, lat as int).1,
        0 <= r.0 <= 240,
        0 <= r.1 <= 240,
{
    let subtract_val: i32 = 18;
    let next_equinox = calc_days_to_next_prev_equinox(ref_jd);
    let min_progress = min_progress_to_end_of_light_period(lat);
    proof {
        assert(0 <= days_to_equinox_spec(year_day_spec(ref_jd as int)) <= 366);
        assert(next_equinox as int * min_progress <= 366 * 120 && next_equinox as int
            * min_progress >= 0) by (nonlinear_arith)
            requires
                0 <= next_equinox <= 366,
                0 <= min_progress <= 120,
        {
        }
        assert((183 - next_equinox as int) * min_progress >= -183 * 120 && (183
            - next_equinox as int) * min_progress <= 183 * 120) by (nonlinear_arith)
            requires
                0 <= next_equinox <= 366,
                0 <= min_progress <= 120,
        {
        }
    }
    let counter_next = crate::numeric::div_trunc((next_equinox as i64) * min_progress, 183) as i32;
    let counter_prev = crate::numeric::div_trunc(((183 - next_equinox) as i64) * min_progress, 183)
        as i32;
    proof {
        crate::numeric::lemma_tdiv_abs_le((next_equinox as i64 * min_progress) as int, 183);
        crate::numeric::lemma_tdiv_abs_le(((183 - next_equinox) as i64 * min_progress) as int, 183);
    }
    (subtract_to_zero(counter_next, subtract_val), subtract_to_zero(counter_prev, subtract_val))
}

/// Strictly positive values shrink by `sub_num`, stopping at zero.
pub fn subtract_to_zero(num: i32, sub_num: i32) -> (r: i32)
    requires
        -1_000_000 <= num <= 1_000_000,
        -1_000_000 <= sub_num <= 1_000_000,
    ensures
        r == (if num - sub_num > 0 { num - sub_num } else { 0 }),
{
    let new_val = num - sub_num;
    if new_val > 0 {
        new_val
    } else {
        0
    }
}

/// Borrowed views of a list of owned strings.
pub fn to_str_refs(strings: &Vec<String>) -> (r: Vec<&str>)
    ensures
        r@.len() == strings@.len(),
        forall|k: int| 0 <= k < r@.len() ==> (#[trigger] r@[k])@ == strings@[k]@,
{
    let mut strs: Vec<&str> = Vec::new();
    let mut i: usize = 0;
    while i < strings.len()
        invariant
            i <= strings@.len(),
            strs@.len() == i,
            forall|k: int| 0 <= k < i ==> (#[trigger] strs@[k])@ == strings@[k]@,
        decreases strings@.len() - i,
    {
        strs.push(strings[i].as_str());
        i = i + 1;
    }
    strs
}

/// The comma-separated segments of `s` from position `i` on, the current
/// segment having started at `start`.
pub open spec fn split_commas_from(s: Seq<char>, i: int, start: int) -> Seq<Seq<char>>
    decreases s.len() - i,
{
    if i < 0 || i >= s.len() {
        seq![s.subrange(start, s.len() as int)]
    } else if s[i] == ',' {
        seq![s.subrange(start, i)] + split_commas_from(s, i + 1, i + 1)
    } else {
        split_commas_from(s, i + 1, start)
    }
}

/// The comma-separated segments of `s`.
pub open spec fn split_commas(s: Seq<char>) -> Seq<Seq<char>> {
    split_commas_from(s, 0, 0)
}

/// Splits a string at commas; a trailing comma yields a final empty
/// segment, as the segment count is one more than the comma count.
pub fn split_on_commas(s: &str) -> (r: Vec<String>)
    ensures
        r@.map_values(|t: String| t@) =~~= split_commas(s@),
{
    let n = s.unicode_len();
    let mut out: Vec<String> = Vec::new();
    let mut seg = String::new();
    let ghost mut start: int = 0;
    let mut i: usize = 0;
    while i < n
        invariant
            i <= n,
            n == s@.len(),
            0 <= start <= i,
            seg@ == s@.subrange(start, i as int),
            out@.map_values(|t: String| t@) + split_commas_from(s@, i as int, start)
                =~~= split_commas(s@),
        decreases n - i,
    {
        let c = s.get_char(i);
        let ghost prev_out = out@;
        let ghost prev_start = start;
        if c == ',' {
            out.push(seg);
            seg = String::new();
            proof {
                start = i + 1;
                assert(out@.map_values(|t: String| t@) =~~= prev_out.map_values(|t: String| t@)
                    .push(s@.subrange(prev_start, i as int)));
            }
        } else {
            seg.push(c);
            proof {
                assert(s@.subrange(prev_start, i + 1) =~= s@.subrange(prev_start, i as int).push(
                    s@[i as int],
                ));
            }
        }
        i = i + 1;
    }
    let ghost prev_out = out@;
    out.push(seg);
    proof {
        assert(out@.map_values(|t: String| t@) =~~= prev_out.map_values(|t: String| t@).push(
            s@.subrange(start, n as int),
        ));
        assert(out@.map_values(|t: String| t@) =~~= split_commas(s@));
    }
    out
}

/// The segments of exactly two characters, in order.
pub open spec fn keep_len2(segs: Seq<Seq<char>>) -> Seq<Seq<char>>
    decreases segs.len(),
{
    if segs.len() == 0 {
        Seq::<Seq<char>>::empty()
    } else if segs.last().len() == 2 {
        keep_len2(segs.drop_last()).push(segs.last())
    } else {
        keep_len2(segs.drop_last())
    }
}

/// Splits a comma-separated list of body keys, keeping only the
/// two-letter ones.
pub fn body_keys_str_to_keys(key_string: String) -> (r: Vec<String>)
    ensures
        r@.map_values(|t: String| t@) =~~= keep_len2(split_commas(key_string@)),
{
    let parts = split_on_commas(key_string.as_str());
    let ghost all = parts@.map_values(|t: String| t@);
    let mut out: Vec<String> = Vec::new();
    let mut i: usize = 0;
    while i < parts.len()
        invariant
            i <= parts@.len(),
            all == parts@.map_values(|t: String| t@),
            out@.map_values(|t: String| t@) =~~= keep_len2(all.subrange(0, i as int)),
        decreases parts@.len() - i,
    {
        let p = &parts[i];
        let ghost prev = out@;
        if p.as_str().unicode_len() == 2 {
            out.push(p.clone());
        }
        proof {
            assert(all.subrange(0, i + 1).drop_last() =~~= all.subrange(0, i as int));
            assert(all.subrange(0, i + 1).last() == all[i as int]);
            if all[i as int].len() == 2 {
                assert(out@.map_values(|t: String| t@) =~~= prev.map_values(|t: String| t@).push(
                    all[i as int],
                ));
            }
        }
        i = i + 1;
    }
    proof {
        assert(all.subrange(0, all.len() as int) =~~= all);
    }
    out
}

/// Two-letter keys that are not the ascendant marker `as`.
pub open spec fn keep_non_as(segs: Seq<Seq<char>>) -> Seq<Seq<char>>
    decreases segs.len(),
{
    if segs.len() == 0 {
        Seq::<Seq<char>>::empty()
    } else if segs.last().len() == 2 && segs.last() != "as"@ {
        keep_non_as(segs.drop_last()).push(segs.last())
    } else {
        keep_non_as(segs.drop_last())
    }
}

/// As [`body_keys_str_to_keys`], dropping the ascendant marker `as`; an
/// empty selection falls back to the given default keys.
pub fn body_keys_str_to_keys_or(key_string: String, default_keys: Vec<&str>) -> (r: Vec<String>)
    ensures
        keep_len2(split_commas(key_string@)).len() > 0 ==> r@.map_values(|t: String| t@)
            =~~= keep_non_as(keep_len2(split_commas(key_string@))),
        keep_len2(split_commas(key_string@)).len() == 0 ==> (r@.len() == default_keys@.len()
            && forall|k: int|
            0 <= k < r@.len() ==> (#[trigger] r@[k])@ == default_keys@[k]@),
{
    let keys = body_keys_str_to_keys(key_string);
    let ghost all = keys@.map_values(|t: String| t@);
    proof {
        lemma_keep_len2_all_len2(split_commas(key_string@));
    }
    if keys.len() > 0 {
        let mut out: Vec<String> = Vec::new();
        let mut i: usize = 0;
        while i < keys.len()
            invariant
                i <= keys@.len(),
                all == keys@.map_values(|t: String| t@),
                forall|k: int| 0 <= k < all.len() ==> (#[trigger] all[k]).len() == 2,
                out@.map_values(|t: String| t@) =~~= keep_non_as(all.subrange(0, i as int)),
            decreases keys@.len() - i,
        {
            let p = &keys[i];
            let ghost prev = out@;
            if p.as_str().unicode_len() == 2 && !crate::text::str_eq(p.as_str(), "as") {
                out.push(p.clone());
            }
            proof {
                assert(all.subrange(0, i + 1).drop_last() =~~= all.subrange(0, i as int));
                assert(all.subrange(0, i + 1).last() == all[i as int]);
                if all[i as int].len() == 2 && all[i as int] != "as"@ {
                    assert(out@.map_values(|t: String| t@) =~~= prev.map_values(
                        |t: String| t@,
                    ).push(all[i as int]));
                }
            }
            i = i + 1;
        }
        proof {
            assert(all.subrange(0, all.len() as int) =~~= all);
        }
        out
    } else {
        let mut out: Vec<String> = Vec::new();
        let mut i: usize = 0;
        while i < default_keys.len()
            invariant
                i <= default_keys@.len(),
                out@.len() == i,
                forall|k: int| 0 <= k < i ==> (#[trigger] out@[k])@ == default_keys@[k]@,
            decreases default_keys@.len() - i,
        {
            out.push(default_keys[i].to_owned());
            i = i + 1;
        }
        out
    }
}

/// Everything [`keep_len2`] keeps has exactly two characters.
proof fn lemma_keep_len2_all_len2(segs: Seq<Seq<char>>)
    ensures
        forall|k: int|
            0 <= k < keep_len2(segs).len() ==> (#[trigger] keep_len2(segs)[k]).len() == 2,
    decreases segs.len(),
{
    if segs.len() > 0 {
        lemma_keep_len2_all_len2(segs.drop_last());
        let kept = keep_len2(segs);
        let prior = keep_len2(segs.drop_last());
        assert forall|k: int| 0 <= k < kept.len() implies (#[trigger] kept[k]).len() == 2 by {
            if segs.last().len() == 2 {
                assert(kept == prior.push(segs.last()));
                if k < prior.len() {
                    assert(kept[k] == prior[k]);
                } else {
                    assert(kept[k] == segs.last());
                }
            } else {
                assert(kept == prior);
            }
        }
    }
}

/// The position of the first occurrence of `c` at or after `i`, or -1.
pub open spec fn find_char_from(s: Seq<char>, c: char, i: int) -> int
    decreases s.len() - i,
{
    if i < 0 || i >= s.len() {
        -1
    } else if s[i] == c {
        i
    } else {
        find_char_from(s, c, i + 1)
    }
}

/// Ten to a small power.
pub open spec fn pow10(n: int) -> int
    decreases n,
{
    if n <= 0 {
        1
    } else {
        10 * pow10(n - 1)
    }
}

/// The first six fractional digits read as micro-units: shorter runs are
/// scaled up, longer ones cut off at micro resolution.
pub open spec fn frac_micro(frac: Seq<char>) -> int {
    if frac.len() >= 6 {
        dec_value(frac.subrange(0, 6)) as int
    } else {
        dec_value(frac) * pow10(6 - frac.len())
    }
}

/// A coordinate in plain decimal notation (an optional leading minus, at
/// most nine integer digits, an optional fraction) read as micro-units.
/// Exponent notation is not a coordinate and is refused.
pub open spec fn parse_fixed_spec(s: Seq<char>) -> Option<int> {
    let neg = s.len() > 0 && s[0] == '-';
    let b = if neg { s.drop_first() } else { s };
    let d = find_char_from(b, '.', 0);
    if d == -1 {
        if 1 <= b.len() <= 9 && digits_only(b) {
            if neg {
                Some(-(dec_value(b) * 1_000_000) as int)
            } else {
                Some((dec_value(b) * 1_000_000) as int)
            }
        } else {
            None
        }
    } else {
        let intp = b.subrange(0, d);
        let frac = b.subrange(d + 1, b.len() as int);
        if b.len() >= 2 && d <= 9 && digits_only(intp) && digits_only(frac) {
            let v: int = dec_value(intp) * 1_000_000 + frac_micro(frac);
            if neg {
                Some(-v)
            } else {
                Some(v)
            }
        } else {
            None
        }
    }
}

/// Ten to a small power, executably.
fn pow10_exec(n: u64) -> (r: i64)
    requires
        n <= 6,
    ensures
        r == pow10(n as int),
        1 <= r <= 1_000_000,
{
    proof {
        assert(pow10(0) == 1);
        assert(pow10(1) == 10);
        assert(pow10(2) == 100);
        assert(pow10(3) == 1_000);
        assert(pow10(4) == 10_000);
        assert(pow10(5) == 100_000);
        assert(pow10(6) == 1_000_000);
    }
    if n == 0 { 1 }
    else if n == 1 { 10 }
    else if n == 2 { 100 }
    else if n == 3 { 1_000 }
    else if n == 4 { 10_000 }
    else if n == 5 { 100_000 }
    else { 1_000_000 }
}

/// Reads a decimal coordinate string into micro-units.
pub fn parse_fixed_micro(s: &str) -> (r: Option<i64>)
    ensures
        match r {
            Some(v) => parse_fixed_spec(s@) == Some(v as int),
            None => parse_fixed_spec(s@) == Option::<int>::None,
        },
{
    let n = s.unicode_len();
    if n == 0 {
        return None;
    }
    let neg = s.get_char(0) == '-';
    let body: &str = if neg {
        s.substring_char(1, n)
    } else {
        s
    };
    proof {
        if neg {
            assert(body@ =~= s@.drop_first());
        }
    }
    let bn = body.unicode_len();
    if bn == 0 {
        return None;
    }
    let mut i: usize = 0;
    let mut dot: usize = bn;
    while i < bn
        invariant
            i <= bn,
            bn == body@.len(),
            dot <= bn,
            dot == bn ==> find_char_from(body@, '.', 0) == find_char_from(body@, '.', i as int),
            dot < bn ==> find_char_from(body@, '.', 0) == dot as int && body@[dot as int] == '.',
        decreases bn - i,
    {
        if dot == bn {
            if body.get_char(i) == '.' {
                dot = i;
            }
        }
        i = i + 1;
    }
    if dot == bn {
        // no dot: a plain digit run
        proof {
            assert(find_char_from(body@, '.', bn as int) == -1);
        }
        if bn > 9 {
            return None;
        }
        match crate::text::parse_digits_u64(body, 999_999_999) {
            Some(v) => {
                let signed = (v as i64) * 1_000_000;
                if neg {
                    Some(-signed)
                } else {
                    Some(signed)
                }
            },
            None => {
                proof {
                    if digits_only(body@) {
                        crate::text::lemma_dec_value_digits_bound(body@);
                        crate::text::lemma_pow_ten_mono(body@.len() as int, 9);
                        crate::text::lemma_pow_ten_values();
                    }
                }
                None
            },
        }
    } else {
        if bn < 2 || dot > 9 {
            return None;
        }
        let intp = body.substring_char(0, dot);
        let frac = body.substring_char(dot + 1, bn);
        proof {
            assert(intp@ =~= body@.subrange(0, dot as int));
            assert(frac@ =~= body@.subrange(dot + 1, bn as int));
        }
        if !crate::validators::is_integer_str(intp) || !crate::validators::is_integer_str(frac) {
            return None;
        }
        let int_val: i64 = if dot == 0 {
            0
        } else {
            match crate::text::parse_digits_u64(intp, 999_999_999) {
                Some(v) => v as i64,
                None => {
                    proof {
                        crate::text::lemma_dec_value_digits_bound(intp@);
                        crate::text::lemma_pow_ten_mono(intp@.len() as int, 9);
                        crate::text::lemma_pow_ten_values();
                        assert(false);
                    }
                    0
                },
            }
        };
        let fl = frac.unicode_len();
        let take: usize = if fl > 6 { 6 } else { fl };
        let frac_used = frac.substring_char(0, take);
        proof {
            assert(frac_used@ =~= frac@.subrange(0, take as int));
            if fl <= 6 {
                assert(frac_used@ =~= frac@);
            }
        }
        let frac_val: i64 = if take == 0 {
            0
        } else {
            match crate::text::parse_digits_u64(frac_used, 999_999) {
                Some(v) => v as i64,
                None => {
                    proof {
                        crate::text::lemma_dec_value_digits_bound(frac_used@);
                        crate::text::lemma_pow_ten_mono(frac_used@.len() as int, 6);
                        crate::text::lemma_pow_ten_values();
                        assert(false);
                    }
                    0
                },
            }
        };
        let p = pow10_exec((6 - take) as u64);
        proof {
            assert(frac_val * p <= 999_999 * 1_000_000 && frac_val * p >= 0) by (nonlinear_arith)
                requires
                    0 <= frac_val <= 999_999,
                    1 <= p <= 1_000_000,
            {
            }
        }
        let scaled = frac_val * p;
        proof {
            assert(frac_micro(frac@) == scaled as int);
        }
        let v = int_val * 1_000_000 + scaled;
        if neg {
            Some(-v)
        } else {
            Some(v)
        }
    }
}

/// The coordinate values among the parsed segments, in order.
pub open spec fn parsed_coords(segs: Seq<Seq<char>>) -> Seq<int>
    decreases segs.len(),
{
    if segs.len() == 0 {
        Seq::<int>::empty()
    } else {
        let rest = parsed_coords(segs.drop_last());
        match parse_fixed_spec(segs.last()) {
            Some(v) => rest.push(v),
            None => rest,
        }
    }
}

/// Reads a `lat,lng(,alt)` query string into an observer position in
/// micro-units, ignoring malformed parts; fewer than two readable
/// coordinates yield nothing.
pub fn loc_string_to_geo(loc: &str) -> (r: Option<GeoPos>)
    ensures
        ({
            let ps = parsed_coords(split_commas(loc@));
            if ps.len() >= 2 {
                r == Some(GeoPos {
                    lat: ps[0] as i64,
                    lng: ps[1] as i64,
                    alt: if ps.len() > 2 { ps[2] as i64 } else { 0 },
                })
            } else {
                r is None
            }
        }),
{
    let parts = split_on_commas(loc);
    let ghost all = parts@.map_values(|t: String| t@);
    let mut vals: Vec<i64> = Vec::new();
    let mut i: usize = 0;
    while i < parts.len()
        invariant
            i <= parts@.len(),
            all == parts@.map_values(|t: String| t@),
            vals@.map_values(|v: i64| v as int) =~= parsed_coords(all.subrange(0, i as int)),
        decreases parts@.len() - i,
    {
        let ghost prev = vals@;
        match parse_fixed_micro(parts[i].as_str()) {
            Some(v) => {
                vals.push(v);
                proof {
                    assert(vals@.map_values(|v: i64| v as int) =~= prev.map_values(
                        |v: i64| v as int,
                    ).push(v as int));
                }
            },
            None => {},
        }
        proof {
            assert(all.subrange(0, i + 1).drop_last() =~= all.subrange(0, i as int));
            assert(all.subrange(0, i + 1).last() == all[i as int]);
        }
        i = i + 1;
    }
    proof {
        assert(all.subrange(0, all.len() as int) =~= all);
    }
    if vals.len() >= 2 {
        let alt = if vals.len() > 2 { vals[2] } else { 0 };
        Some(GeoPos::new(vals[0], vals[1], alt))
    } else {
        None
    }
}

/// The `XhYmZs` rendering of a time span: hours, then minutes and
/// seconds whenever the span has a fractional hour, zero-valued minute
/// fields included.
pub open spec fn interval_format_spec(ms: int) -> Seq<char> {
    let hrs = ms / 3_600_000;
    let rem = ms % 3_600_000;
    let mins = rem / 60_000;
    let secs = ms % 60_000 / 1_000;
    let hpart = crate::text::dec_digits(hrs as nat).push('h');
    let mpart = crate::text::dec_digits(mins as nat).push('m');
    let spart = crate::text::dec_digits(secs as nat).push('s');
    let sp = seq![' '];
    if hrs > 0 {
        if rem > 0 {
            if secs > 0 {
                hpart + sp + mpart + sp + spart
            } else {
                hpart + sp + mpart
            }
        } else {
            hpart
        }
    } else {
        if rem > 0 {
            if secs > 0 {
                mpart + sp + spart
            } else {
                mpart
            }
        } else {
            Seq::<char>::empty()
        }
    }
}

/// Formats a time span (milliseconds) as hours, minutes and seconds.
pub fn time_interval_format(increment: i64) -> (r: String)
    requires
        0 <= increment <= 1_000 * DAY_MS,
    ensures
        r@ == interval_format_spec(increment as int),
{
    let hrs = increment / 3_600_000;
    let rem = increment % 3_600_000;
    let mins = rem / 60_000;
    let secs = increment % 60_000 / 1_000;
    let mut out = String::new();
    if hrs > 0 {
        let mut h = crate::text::dec_string(hrs as u64);
        h.push('h');
        if rem > 0 {
            h.push(' ');
            let mut m = crate::text::dec_string(mins as u64);
            m.push('m');
            let joined = h.concat(m.as_str());
            if secs > 0 {
                let mut joined2 = joined.concat(" ");
                let mut sec_str = crate::text::dec_string(secs as u64);
                sec_str.push('s');
                out = joined2.concat(sec_str.as_str());
            } else {
                out = joined;
            }
        } else {
            out = h;
        }
    } else {
        if rem > 0 {
            let mut m = crate::text::dec_string(mins as u64);
            m.push('m');
            if secs > 0 {
                let mut m2 = m.concat(" ");
                let mut sec_str = crate::text::dec_string(secs as u64);
                sec_str.push('s');
                out = m2.concat(sec_str.as_str());
            } else {
                out = m;
            }
        }
    }
    proof {
        reveal_strlit(" ");
        assert(out@ =~= interval_format_spec(increment as int));
    }
    out
}

/// The clockwise separation from `lng2` round to `lng1`, in `[0°, 360°)`.
pub fn calc_angle(lng1: i64, lng2: i64) -> (r: i64)
    requires
        0 <= lng1 < 360_000_000,
        0 <= lng2 < 360_000_000,
    ensures
        r == (lng1 + 360_000_000 - lng2) % 360_000_000,
        0 <= r < 360_000_000,
{
    (lng1 + 360_000_000 - lng2) % 360_000_000
}

/// The sun-to-moon separation with the waxing flag and quarter number:
/// the angle form of [`crate::lunar::calc_sun_moon_angle`].
pub fn calc_sun_moon_angle(moon_lng: i64, sun_lng: i64) -> (r: (i64, bool, u8))
    requires
        0 <= moon_lng < 360_000_000,
        0 <= sun_lng < 360_000_000,
    ensures
        r.0 == (moon_lng - sun_lng + 360_000_000) % (360_000_000 as int),
        r.1 == (r.0 <= 180_000_000),
        r.2 == (r.0 as int) / 90_000_000 + 1,
{
    crate::lunar::calc_sun_moon_angle(moon_lng, sun_lng)
}

} // verus!
