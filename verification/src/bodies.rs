//! Celestial body identifiers: the two-letter keys the interface speaks
//! and the ephemeris library's body numbers.
//!
//! Unknown keys deliberately read as Earth's placeholder body: existing
//! behaviour kept as it stands rather than silently corrected.

use vstd::prelude::*;
use crate::text::{simplify_key, str_eq};
use crate::traits::{FromKey, PlanetNum, ToKey};

verus! {

/// The bodies the engine works with.
#[derive(Clone, Copy, Debug, PartialEq, Eq, Structural)]
pub enum Body {
    Sun,
    Moon,
    Mercury,
    Venus,
    Earth,
    Mars,
    Jupiter,
    Saturn,
    Neptune,
    Uranus,
    Pluto,
    TrueNode,
    MeanNode,
    Kronos,
    Isis,
    Juno,
    Ceres,
    Chiron,
    SouthNode,
}

impl Body {
    /// The ephemeris library's body number.
    pub open spec fn num_spec(&self) -> int {
        match self {
            Body::Sun => 0,
            Body::Moon => 1,
            Body::Mercury => 2,
            Body::Venus => 3,
            Body::Mars => 4,
            Body::Jupiter => 5,
            Body::Saturn => 6,
            Body::Uranus => 7,
            Body::Neptune => 8,
            Body::Pluto => 9,
            Body::MeanNode => 10,
            Body::TrueNode => 11,
            Body::Earth => 14,
            Body::Chiron => 15,
            Body::Ceres => 17,
            Body::Juno => 19,
            Body::SouthNode => 24,
            Body::Kronos => 43,
            Body::Isis => 48,
        }
    }

    /// The two-letter key of each body; the lunar nodes share a pair of
    /// keys, and the south node reads back as `sn`.
    pub open spec fn to_key_spec(&self) -> Seq<char> {
        match self {
            Body::Sun => "su"@,
            Body::Moon => "mo"@,
            Body::Mercury => "me"@,
            Body::Venus => "ve"@,
            Body::Earth => "ea"@,
            Body::Mars => "ma"@,
            Body::Jupiter => "ju"@,
            Body::Saturn => "sa"@,
            Body::Neptune => "ne"@,
            Body::Uranus => "ur"@,
            Body::Pluto => "pl"@,
            Body::TrueNode => "ra"@,
            Body::MeanNode => "mn"@,
            Body::Kronos => "kr"@,
            Body::Isis => "is"@,
            Body::Juno => "jn"@,
            Body::Ceres => "ce"@,
            Body::Chiron => "ch"@,
            Body::SouthNode => "sn"@,
        }
    }

    /// The body a lower-cased key names; anything unknown reads as Earth.
    pub open spec fn from_key_spec(simple: Seq<char>) -> Body {
        if simple == "su"@ { Body::Sun }
        else if simple == "mo"@ { Body::Moon }
        else if simple == "me"@ { Body::Mercury }
        else if simple == "ve"@ { Body::Venus }
        else if simple == "ea"@ { Body::Earth }
        else if simple == "ma"@ { Body::Mars }
        else if simple == "ju"@ { Body::Jupiter }
        else if simple == "sa"@ { Body::Saturn }
        else if simple == "ne"@ { Body::Neptune }
        else if simple == "ur"@ { Body::Uranus }
        else if simple == "pl"@ { Body::Pluto }
        else if simple == "ke"@ || simple == "ra"@ { Body::TrueNode }
        else if simple == "mn"@ { Body::MeanNode }
        else if simple == "kr"@ { Body::Kronos }
        else if simple == "is"@ { Body::Isis }
        else if simple == "jn"@ { Body::Juno }
        else if simple == "ce"@ { Body::Ceres }
        else if simple == "ch"@ { Body::Chiron }
        else if simple == "sn"@ { Body::SouthNode }
        else { Body::Earth }
    }

    /// Resolves a raw body key, lower-casing it first.
    pub fn match_key(key: &str) -> (r: Body)
        ensures
            r == Body::from_key_spec(crate::text::simplified_key(key@)),
    {
        let simple = simplify_key(key);
        let s = simple.as_str();
        if str_eq(s, "su") { Body::Sun }
        else if str_eq(s, "mo") { Body::Moon }
        else if str_eq(s, "me") { Body::Mercury }
        else if str_eq(s, "ve") { Body::Venus }
        else if str_eq(s, "ea") { Body::Earth }
        else if str_eq(s, "ma") { Body::Mars }
        else if str_eq(s, "ju") { Body::Jupiter }
        else if str_eq(s, "sa") { Body::Saturn }
        else if str_eq(s, "ne") { Body::Neptune }
        else if str_eq(s, "ur") { Body::Uranus }
        else if str_eq(s, "pl") { Body::Pluto }
        else if str_eq(s, "ke") || str_eq(s, "ra") { Body::TrueNode }
        else if str_eq(s, "mn") { Body::MeanNode }
        else if str_eq(s, "kr") { Body::Kronos }
        else if str_eq(s, "is") { Body::Isis }
        else if str_eq(s, "jn") { Body::Juno }
        else if str_eq(s, "ce") { Body::Ceres }
        else if str_eq(s, "ch") { Body::Chiron }
        else if str_eq(s, "sn") { Body::SouthNode }
        else { Body::Earth }
    }

    pub fn key(&self) -> (r: &'static str)
        ensures
            r@ == self.to_key_spec(),
    {
        match self {
            Body::Sun => "su",
            Body::Moon => "mo",
            Body::Mercury => "me",
            Body::Venus => "ve",
            Body::Earth => "ea",
            Body::Mars => "ma",
            Body::Jupiter => "ju",
            Body::Saturn => "sa",
            Body::Neptune => "ne",
            Body::Uranus => "ur",
            Body::Pluto => "pl",
            Body::TrueNode => "ra",
            Body::MeanNode => "mn",
            Body::Kronos => "kr",
            Body::Isis => "is",
            Body::Juno => "jn",
            Body::Ceres => "ce",
            Body::Chiron => "ch",
            Body::SouthNode => "sn",
        }
    }

    fn body_num(&self) -> (r: u16)
        ensures
            r as int == self.num_spec(),
    {
        match self {
            Body::Sun => 0,
            Body::Moon => 1,
            Body::Mercury => 2,
            Body::Venus => 3,
            Body::Mars => 4,
            Body::Jupiter => 5,
            Body::Saturn => 6,
            Body::Uranus => 7,
            Body::Neptune => 8,
            Body::Pluto => 9,
            Body::MeanNode => 10,
            Body::TrueNode => 11,
            Body::Earth => 14,
            Body::Chiron => 15,
            Body::Ceres => 17,
            Body::Juno => 19,
            Body::SouthNode => 24,
            Body::Kronos => 43,
            Body::Isis => 48,
        }
    }
}

impl FromKey<Body> for Body {
    fn from_key(key: &str) -> Body {
        Body::match_key(key)
    }
}

impl ToKey<Body> for Body {
    fn to_key(&self) -> &str {
        self.key()
    }
}

impl PlanetNum for Body {
    fn to_num(&self) -> u16 {
        self.body_num()
    }

    fn from_num(num: u16) -> Body {
        Body::match_key(planet_num_to_graha_key(num))
    }
}

/// The spec-level key of a core body number; numbers outside the core
/// set yield the empty key.
pub open spec fn planet_num_key_spec(num: int) -> Seq<char> {
    if num == 0 { "su"@ }
    else if num == 1 { "mo"@ }
    else if num == 2 { "me"@ }
    else if num == 3 { "ve"@ }
    else if num == 4 { "ma"@ }
    else if num == 5 { "ju"@ }
    else if num == 6 { "sa"@ }
    else if num == 7 { "ur"@ }
    else if num == 8 { "ne"@ }
    else if num == 9 { "pl"@ }
    else if num == 11 { "ra"@ }
    else if num == 102 { "ke"@ }
    else { ""@ }
}

/// The two-letter key of a core body number.
pub fn planet_num_to_graha_key(num: u16) -> (r: &'static str)
    ensures
        r@ == planet_num_key_spec(num as int),
{
    match num {
        0 => "su",
        1 => "mo",
        2 => "me",
        3 => "ve",
        4 => "ma",
        5 => "ju",
        6 => "sa",
        7 => "ur",
        8 => "ne",
        9 => "pl",
        11 => "ra",
        102 => "ke",
        _ => "",
    }
}

} // verus!
