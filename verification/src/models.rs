//! Shared data types.
//!
//! All quantities are fixed-point integers: instants on the Julian-day axis
//! in milliseconds ([`DAY_MS`] per day), angles, longitudes and altitudes in
//! micro-degrees ([`DEG_MICRO`] per degree).

use vstd::prelude::*;
use crate::traits::{AddKeyedItem, MatchVecKey};
use crate::text::str_eq;

verus! {

/// Milliseconds per day: the resolution of the Julian-day time axis.
pub const DAY_MS: i64 = 86_400_000;

/// Half a day in milliseconds.
pub const HALF_DAY_MS: i64 = 43_200_000;

/// Micro-degrees per degree: the resolution of every angle value.
pub const DEG_MICRO: i64 = 1_000_000;

/// 90° in micro-degrees.
pub const DEG_90: i64 = 90_000_000;

/// 180° in micro-degrees.
pub const DEG_180: i64 = 180_000_000;

/// 360° in micro-degrees.
pub const DEG_360: i64 = 360_000_000;

/// Upper bound on the instants the engine works with: one hundred thousand
/// years past the Julian-day epoch, comfortably beyond any supported
/// ephemeris range, yet small enough that day-scale interpolation
/// arithmetic stays within `i64`.
pub const MAX_JD_MS: i64 = 0xC20_0000_0000_0000;

/// An instant on the Julian-day axis, in whole milliseconds.
pub open spec fn valid_jd_ms(jd: i64) -> bool {
    0 <= jd <= MAX_JD_MS
}

/// An altitude above or below the horizon, in micro-degrees.
pub open spec fn valid_altitude(v: i64) -> bool {
    -DEG_90 <= v <= DEG_90
}

/// A keyed numeric value, e.g. one named transition instant.
#[derive(Clone, Debug)]
pub struct KeyNumValue {
    pub key: String,
    pub value: i64,
}

impl KeyNumValue {
    pub fn new(key: &str, value: i64) -> (r: KeyNumValue)
        ensures
            r.key@ == key@,
            r.value == value,
    {
        KeyNumValue { key: key.to_owned(), value }
    }
}

impl AddKeyedItem<KeyNumValue, i64> for Vec<KeyNumValue> {
    fn add(&mut self, key: &str, value: i64) -> Vec<KeyNumValue> {
        self.push(KeyNumValue::new(key, value));
        let mut copy: Vec<KeyNumValue> = Vec::new();
        let mut i: usize = 0;
        while i < self.len()
            invariant
                i <= self@.len(),
                copy@.len() == i,
            decreases self@.len() - i,
        {
            copy.push(self[i].clone());
            i = i + 1;
        }
        copy
    }
}

impl MatchVecKey<KeyNumValue> for Vec<KeyNumValue> {
    fn match_by_key(&self, key: &str) -> Option<KeyNumValue> {
        let mut i: usize = 0;
        while i < self.len()
            invariant
                i <= self@.len(),
            decreases self@.len() - i,
        {
            if str_eq(self[i].key.as_str(), key) {
                return Some(self[i].clone());
            }
            i = i + 1;
        }
        None
    }
}

/// A keyed numeric value with a small numeric identifier.
#[derive(Clone, Debug)]
pub struct KeyNumIdValue {
    pub key: String,
    pub num: u8,
    pub value: i64,
}

impl KeyNumIdValue {
    pub fn new(key: &str, num: u8, value: i64) -> (r: KeyNumIdValue)
        ensures
            r.key@ == key@,
            r.num == num,
            r.value == value,
    {
        KeyNumIdValue { key: key.to_owned(), num, value }
    }
}

/// A keyed string value.
#[derive(Clone, Debug)]
pub struct KeyStringValue {
    pub key: String,
    pub value: String,
}

impl KeyStringValue {
    pub fn new(key: &str, value: &str) -> (r: KeyStringValue)
        ensures
            r.key@ == key@,
            r.value@ == value@,
    {
        KeyStringValue { key: key.to_owned(), value: value.to_owned() }
    }
}

/// A named set of keyed string values.
#[derive(Clone, Debug)]
pub struct KeyStringValueSet {
    pub key: String,
    pub items: Vec<KeyStringValue>,
}

/// A named set of keyed numeric values.
#[derive(Clone, Debug)]
pub struct KeyNumValueSet {
    pub key: String,
    pub items: Vec<KeyNumValue>,
}

impl KeyNumValueSet {
    pub fn new(key: &str, items: Vec<KeyNumValue>) -> (r: KeyNumValueSet)
        ensures
            r.key@ == key@,
            r.items == items,
    {
        KeyNumValueSet { key: key.to_owned(), items }
    }
}

/// A numbered value.
#[derive(Clone, Debug)]
pub struct NumValue {
    pub num: u16,
    pub value: i64,
}

/// A keyed, numbered set of numbered values.
#[derive(Clone, Debug)]
pub struct NumValueKeySet {
    pub num: u16,
    pub key: String,
    pub values: Vec<NumValue>,
}

/// An ecliptic longitude/latitude pair in micro-degrees.
#[derive(Clone, Copy, Debug, PartialEq, Eq, Structural)]
pub struct LngLat {
    pub lng: i64,
    pub lat: i64,
}

impl LngLat {
    pub fn new(lng: i64, lat: i64) -> (r: LngLat)
        ensures
            r.lng == lng,
            r.lat == lat,
    {
        LngLat { lng, lat }
    }
}

/// A value that exposes an ecliptic longitude/latitude pair.
pub trait ToLngLat {
    fn to_lng_lat(&self) -> LngLat;
}

/// A longitude/latitude pair together with a body key.
#[derive(Clone, Debug)]
pub struct LngLatKey {
    pub lng: i64,
    pub lat: i64,
    pub key: String,
}

/// A value that exposes a keyed longitude/latitude pair.
pub trait ToLngLatKey {
    fn to_lng_lat_key(&self) -> LngLatKey;
}

/// How instants are rendered for the caller.
#[derive(Clone, Debug)]
pub enum TimeMode {
    Jd,
    Iso,
    Unix,
}

/// The reference frame of a body position.
#[derive(Clone, Copy, Debug)]
pub enum CoordinateSystem {
    Ecliptic,
    Equatorial,
    Dual,
    Horizontal,
}

impl CoordinateSystem {
    /// The spec-level key of each reference frame.
    pub open spec fn to_key_spec(&self) -> Seq<char> {
        match self {
            CoordinateSystem::Horizontal => "hr"@,
            CoordinateSystem::Dual => "dl"@,
            CoordinateSystem::Equatorial => "eq"@,
            CoordinateSystem::Ecliptic => "ec"@,
        }
    }

    pub fn to_key(&self) -> (r: String)
        ensures
            r@ == self.to_key_spec(),
    {
        match self {
            CoordinateSystem::Horizontal => "hr",
            CoordinateSystem::Dual => "dl",
            CoordinateSystem::Equatorial => "eq",
            CoordinateSystem::Ecliptic => "ec",
        }.to_owned()
    }
}

/// An observer location: latitude and longitude in micro-degrees, altitude
/// above sea level in micro-metres (the one micro scale throughout).
#[derive(Clone, Copy, Debug, PartialEq, Eq, Structural)]
pub struct GeoPos {
    pub lat: i64,
    pub lng: i64,
    pub alt: i64,
}

impl GeoPos {
    /// Latitude within ±90°, longitude within ±180°.
    pub open spec fn well_formed(&self) -> bool {
        &&& -DEG_90 <= self.lat <= DEG_90
        &&& -DEG_180 <= self.lng <= DEG_180
    }

    pub fn new(lat: i64, lng: i64, alt: i64) -> (r: GeoPos)
        ensures
            r.lat == lat,
            r.lng == lng,
            r.alt == alt,
    {
        GeoPos { lat, lng, alt }
    }

    pub fn simple(lat: i64, lng: i64) -> (r: GeoPos)
        ensures
            r.lat == lat,
            r.lng == lng,
            r.alt == 0,
    {
        GeoPos { lat, lng, alt: 0 }
    }
}

/// An ecliptic body position with longitudinal and latitudinal speeds
/// (micro-degrees per day).
#[derive(Clone, Debug)]
pub struct BodyPos {
    pub key: String,
    pub lng: i64,
    pub lat: i64,
    pub lng_speed: i64,
    pub lat_speed: i64,
    pub mode: String,
}

impl BodyPos {
    pub fn new(key: &str, mode: CoordinateSystem, lng: i64, lat: i64, lng_speed: i64, lat_speed: i64) -> (r: BodyPos)
        ensures
            r.key@ == key@,
            r.mode@ == mode.to_key_spec(),
            r.lng == lng,
            r.lat == lat,
            r.lng_speed == lng_speed,
            r.lat_speed == lat_speed,
    {
        BodyPos {
            key: key.to_owned(),
            mode: mode.to_key(),
            lng,
            lat,
            lng_speed,
            lat_speed,
        }
    }

    pub fn empty() -> (r: BodyPos)
        ensures
            r.key@ == Seq::<char>::empty(),
            r.mode@ == "ec"@,
            r.lng == 0,
            r.lat == 0,
            r.lng_speed == 0,
            r.lat_speed == 0,
    {
        BodyPos {
            key: String::new(),
            mode: "ec".to_owned(),
            lng: 0,
            lat: 0,
            lng_speed: 0,
            lat_speed: 0,
        }
    }
}

impl ToLngLat for BodyPos {
    fn to_lng_lat(&self) -> LngLat {
        LngLat { lng: self.lng, lat: self.lat }
    }
}

/// The daylight or night period a reference instant falls in.
#[derive(Clone, Copy, Debug)]
pub struct SunPeriod {
    pub jd: i64,
    pub start: i64,
    pub end: i64,
    pub night: bool,
}

impl SunPeriod {
    pub fn new(jd: i64, start: i64, end: i64, night: bool) -> (r: SunPeriod)
        ensures
            r.jd == jd,
            r.start == start,
            r.end == end,
            r.night == night,
    {
        SunPeriod { jd, start, end, night }
    }
}

} // verus!
