//! Core calculations for celestial rise, set and meridian-transit times.
//!
//! Time is measured on the continuous Julian-day axis in whole milliseconds
//! (`86_400_000` per day) and angles in whole micro-degrees (`1_000_000` per
//! degree), so that every quantity the engine handles is an exact integer.
//! Positions and altitudes are supplied by an external position oracle; the
//! functions here consume those samples as plain values and are verified for
//! every value the oracle could hand back.

pub mod ayanamshas;
pub mod bodies;
pub mod constants;
pub mod converters;
pub mod help;
pub mod house_systems;
pub mod julian_date;
pub mod math_funcs;
pub mod models;
pub mod lunar;
pub mod numeric;
pub mod planet_stations;
pub mod rise_set;
pub mod text;
pub mod transitions;
pub mod traits;
pub mod validators;
