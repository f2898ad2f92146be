//! Circle arithmetic on ecliptic longitudes (micro-degrees) and the
//! whole-sign house offsets derived from them.

use vstd::prelude::*;
use crate::models::DEG_360;
use crate::text::str_eq;

verus! {

/// Thirty degrees in micro-degrees: one zodiacal sign.
pub const DEG_30: i64 = 30_000_000;

/// The opposite point of the circle.
pub fn calc_opposite(lng: i64) -> (r: i64)
    requires
        0 <= lng < DEG_360,
    ensures
        r == (lng + 180_000_000) % (DEG_360 as int),
        0 <= r < DEG_360,
{
    (lng + 180_000_000) % DEG_360
}

/// Ketu runs opposite Rahu: its longitude is flipped, every other body's
/// stands as reported.
pub fn adjust_lng_by_body_key(key: &str, lng: i64) -> (r: i64)
    requires
        0 <= lng < DEG_360,
    ensures
        key@ == "ke"@ ==> r == (lng + 180_000_000) % (DEG_360 as int),
        key@ != "ke"@ ==> r == lng,
{
    if str_eq(key, "ke") {
        calc_opposite(lng)
    } else {
        lng
    }
}

/// Subtracts an offset on the circle, wrapping into `[0°, 360°)`.
pub fn subtract_360(lng: i64, offset: i64) -> (r: i64)
    requires
        0 <= lng < DEG_360,
        -DEG_360 <= offset <= DEG_360,
    ensures
        r == (lng + DEG_360 - offset) % (DEG_360 as int),
        0 <= r < DEG_360,
{
    (lng + DEG_360 - offset) % DEG_360
}

/// Wraps a longitude into `[0°, 360°)`.
pub fn normalize_360(lng: i64) -> (r: i64)
    requires
        -DEG_360 <= lng < DEG_360,
    ensures
        r == (lng + DEG_360) % (DEG_360 as int),
        0 <= r < DEG_360,
{
    (lng + DEG_360) % DEG_360
}

/// Wraps a value into `[0, base°)` for a positive base given in whole
/// degrees.
pub fn normalize_base(lng: i64, base: i16) -> (r: i64)
    requires
        1 <= base,
        -(base as int) * 1_000_000 <= lng < (base as int) * 1_000_000,
    ensures
        r == (lng + base * 1_000_000) % ((base as int) * 1_000_000),
        0 <= r < (base as int) * 1_000_000,
{
    let base_micro = (base as i64) * 1_000_000;
    (lng + base_micro) % base_micro
}

/// The twelve whole-sign house cusps from a sign-aligned start.
pub open spec fn whole_sign_offsets(start: int) -> Seq<int> {
    Seq::new(12, |i: int| (start + i * DEG_30) % (DEG_360 as int))
}

/// House cusps after a sidereal correction.
///
/// The whole-sign case anchors the first cusp at the start of the
/// ascendant's sign (the first position standing in for a missing
/// ascendant) and steps through the twelve signs; any other system keeps
/// its cusps and only subtracts the correction.
pub fn recalc_houses(
    positions: Vec<i64>,
    ayanamsha: i64,
    ascendant: Option<i64>,
    system: Option<char>,
) -> (r: Vec<i64>)
    requires
        -DEG_360 <= ayanamsha <= DEG_360,
        forall|k: int| 0 <= k < positions@.len() ==> 0 <= #[trigger] positions@[k] < DEG_360,
        match ascendant {
            Some(a) => 0 <= a < DEG_360,
            None => true,
        },
    ensures
        ({
            let is_whole = match system {
                Some(c) => c == 'W',
                None => true,
            };
            if is_whole {
                let asc_lng: int = match ascendant {
                    Some(a) => a as int,
                    None => if positions@.len() > 0 { positions@[0] as int } else { 0 },
                };
                let start = (asc_lng + DEG_360 - ayanamsha as int) % (DEG_360 as int) / (DEG_30 as int) * (DEG_30 as int);
                r@.map_values(|v: i64| v as int) == whole_sign_offsets(start)
            } else {
                r@.len() == positions@.len() && forall|k: int|
                    0 <= k < r@.len() ==> #[trigger] r@[k] == (positions@[k] + DEG_360
                        - ayanamsha) % (DEG_360 as int)
            }
        }),
{
    let is_whole = match system {
        Some(c) => c == 'W',
        None => true,
    };
    let mut offsets: Vec<i64> = Vec::new();
    if is_whole {
        let asc_lng: i64 = match ascendant {
            Some(a) => a,
            None => {
                if positions.len() > 0 {
                    positions[0]
                } else {
                    0
                }
            },
        };
        let start = subtract_360(asc_lng, ayanamsha) / DEG_30 * DEG_30;
        let mut i: usize = 0;
        while i < 12
            invariant
                i <= 12,
                0 <= start <= DEG_360,
                offsets@.len() == i,
                forall|k: int|
                    0 <= k < i ==> #[trigger] offsets@[k] == (start + k * DEG_30) % (
                    DEG_360 as int),
            decreases 12 - i,
        {
            let next_deg = (start + (i as i64) * DEG_30) % DEG_360;
            offsets.push(next_deg);
            i = i + 1;
        }
        proof {
            assert(offsets@.map_values(|v: i64| v as int) =~= whole_sign_offsets(start as int));
        }
    } else {
        let mut i: usize = 0;
        while i < positions.len()
            invariant
                i <= positions@.len(),
                -DEG_360 <= ayanamsha <= DEG_360,
                forall|k: int|
                    0 <= k < positions@.len() ==> 0 <= #[trigger] positions@[k] < DEG_360,
                offsets@.len() == i,
                forall|k: int|
                    0 <= k < i ==> #[trigger] offsets@[k] == (positions@[k] + DEG_360
                        - ayanamsha) % (DEG_360 as int),
            decreases positions@.len() - i,
        {
            offsets.push(subtract_360(positions[i], ayanamsha));
            i = i + 1;
        }
    }
    offsets
}

/// As [`recalc_houses`] with an explicit system letter and no ascendant.
pub fn recalc_houses_by_system(positions: Vec<i64>, ayanamsha: i64, system: char) -> (r: Vec<i64>)
    requires
        -DEG_360 <= ayanamsha <= DEG_360,
        forall|k: int| 0 <= k < positions@.len() ==> 0 <= #[trigger] positions@[k] < DEG_360,
    ensures
        system != 'W' ==> r@.len() == positions@.len(),
{
    recalc_houses(positions, ayanamsha, None, Some(system))
}

} // verus!
