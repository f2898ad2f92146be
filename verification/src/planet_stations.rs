//! Markers for the stations of a planet's retrograde cycle.

use vstd::prelude::*;

verus! {

/// Where a sampled longitude/speed pair stands in a retrograde cycle.
#[derive(Clone, Copy, Debug, PartialEq, Eq, Structural)]
pub enum PlanetStation {
    RetroStart,
    RetroPeak,
    RetroEnd,
    Peak,
    Sample,
}

impl PlanetStation {
    /// The station of a numeric marker; anything else is a plain sample.
    pub fn new(num: u8) -> (r: PlanetStation)
        ensures
            num == 0 ==> r == PlanetStation::RetroStart,
            num == 1 ==> r == PlanetStation::RetroPeak,
            num == 2 ==> r == PlanetStation::RetroEnd,
            num == 3 ==> r == PlanetStation::Peak,
            num > 3 ==> r == PlanetStation::Sample,
    {
        match num {
            0 => PlanetStation::RetroStart,
            1 => PlanetStation::RetroPeak,
            2 => PlanetStation::RetroEnd,
            3 => PlanetStation::Peak,
            _ => PlanetStation::Sample,
        }
    }

    /// The spec-level label of each station.
    pub open spec fn as_string_spec(&self) -> Seq<char> {
        match self {
            PlanetStation::RetroStart => "retro-start"@,
            PlanetStation::RetroPeak => "retro-peak"@,
            PlanetStation::RetroEnd => "retro-end"@,
            PlanetStation::Peak => "peak"@,
            PlanetStation::Sample => "sample"@,
        }
    }

    pub fn as_string(&self) -> (r: String)
        ensures
            r@ == self.as_string_spec(),
    {
        match self {
            PlanetStation::RetroStart => "retro-start",
            PlanetStation::RetroPeak => "retro-peak",
            PlanetStation::RetroEnd => "retro-end",
            PlanetStation::Peak => "peak",
            PlanetStation::Sample => "sample",
        }.to_owned()
    }
}

} // verus!
