//! Small conversion traits shared across the crate.

use vstd::prelude::*;
use crate::models::GeoPos;

verus! {

/// Serves to match `&str` keys to enum types.
pub trait FromKey<T>: Sized {
    fn from_key(key: &str) -> T;
}

/// The inverse of [`FromKey`]: a short, stable key for a value.
pub trait ToKey<T> {
    fn to_key(&self) -> &str;
}

/// A date-like value rendered as an ISO-8601 date string.
pub trait ToISODateString {
    fn iso_date_string(&self) -> String;
}

/// Look up an item by its key in a keyed collection.
pub trait MatchVecKey<T> {
    fn match_by_key(&self, key: &str) -> Option<T>;
}

/// Append a keyed value to a keyed collection.
pub trait AddKeyedItem<T, U> {
    fn add(&mut self, key: &str, value: U) -> Vec<T>;
}

/// A time-zone-like value expressed as an offset in seconds.
pub trait ToOffsetSecs {
    fn offset_secs(&self) -> i32;
}

/// A value that carries an observer location.
pub trait ToGeo {
    fn geo(&self) -> GeoPos;
}

/// Mapping between celestial bodies and their numeric identifiers.
pub trait PlanetNum: Sized {
    fn to_num(&self) -> u16;

    fn from_num(num: u16) -> Self;
}

} // verus!
