//! Sidereal offset (ayanamsha) identifiers: matching the many aliases a
//! query may use onto the closed set of supported modes.

use vstd::prelude::*;
use crate::text::{dec_value, digits_only, simplified_key, simplify_key, str_eq, parse_digits_u64};
use crate::traits::{FromKey, ToKey};

verus! {

/// The supported sidereal modes.
#[derive(Clone, Copy, Debug, PartialEq, Eq, Structural)]
pub enum Ayanamsha {
    Tropical,
    TrueCitra,
    Lahiri,
    Krishnamurti,
    Yukteshwar,
    Raman,
    ValensMoon,
    TrueMula,
    TrueRevati,
    TruePushya,
    TrueSheoran,
    Aldebaran15Tau,
    GalcentMulaWilhelm,
    GalcentCochrane,
    Hipparchos,
    Sassanian,
    Ushashashi,
    JnBhasin,
}

impl Ayanamsha {
    /// The ephemeris library's numeric identifier of each mode.
    pub open spec fn num_spec(&self) -> int {
        match self {
            Ayanamsha::Tropical => 0,
            Ayanamsha::TrueCitra => 27,
            Ayanamsha::Lahiri => 1,
            Ayanamsha::Krishnamurti => 5,
            Ayanamsha::Yukteshwar => 7,
            Ayanamsha::Raman => 3,
            Ayanamsha::ValensMoon => 42,
            Ayanamsha::TrueMula => 35,
            Ayanamsha::TrueRevati => 28,
            Ayanamsha::TruePushya => 29,
            Ayanamsha::TrueSheoran => 39,
            Ayanamsha::Aldebaran15Tau => 14,
            Ayanamsha::GalcentMulaWilhelm => 36,
            Ayanamsha::GalcentCochrane => 40,
            Ayanamsha::Hipparchos => 15,
            Ayanamsha::Sassanian => 16,
            Ayanamsha::Ushashashi => 4,
            Ayanamsha::JnBhasin => 8,
        }
    }

    /// The full name of each mode.
    pub open spec fn as_string_spec(&self) -> Seq<char> {
        match self {
            Ayanamsha::TrueCitra => "true_citra"@,
            Ayanamsha::Lahiri => "lahiri"@,
            Ayanamsha::Krishnamurti => "krishnamurti"@,
            Ayanamsha::Yukteshwar => "yukteshwar"@,
            Ayanamsha::Raman => "raman"@,
            Ayanamsha::ValensMoon => "valensmoon"@,
            Ayanamsha::TrueMula => "true_mula"@,
            Ayanamsha::TrueRevati => "true_revati"@,
            Ayanamsha::TruePushya => "true_pushya"@,
            Ayanamsha::TrueSheoran => "true_sheoran"@,
            Ayanamsha::Aldebaran15Tau => "aldebaran_15_tau"@,
            Ayanamsha::GalcentMulaWilhelm => "galcent_mula_wilhelm"@,
            Ayanamsha::GalcentCochrane => "galcent_cochrane"@,
            Ayanamsha::Hipparchos => "hipparchos"@,
            Ayanamsha::Sassanian => "sassanian"@,
            Ayanamsha::Ushashashi => "ushashashi"@,
            Ayanamsha::JnBhasin => "jnbhasin"@,
            Ayanamsha::Tropical => "tropical"@,
        }
    }

    pub fn as_string(&self) -> (r: String)
        ensures
            r@ == self.as_string_spec(),
    {
        match self {
            Ayanamsha::TrueCitra => "true_citra",
            Ayanamsha::Lahiri => "lahiri",
            Ayanamsha::Krishnamurti => "krishnamurti",
            Ayanamsha::Yukteshwar => "yukteshwar",
            Ayanamsha::Raman => "raman",
            Ayanamsha::ValensMoon => "valensmoon",
            Ayanamsha::TrueMula => "true_mula",
            Ayanamsha::TrueRevati => "true_revati",
            Ayanamsha::TruePushya => "true_pushya",
            Ayanamsha::TrueSheoran => "true_sheoran",
            Ayanamsha::Aldebaran15Tau => "aldebaran_15_tau",
            Ayanamsha::GalcentMulaWilhelm => "galcent_mula_wilhelm",
            Ayanamsha::GalcentCochrane => "galcent_cochrane",
            Ayanamsha::Hipparchos => "hipparchos",
            Ayanamsha::Sassanian => "sassanian",
            Ayanamsha::Ushashashi => "ushashashi",
            Ayanamsha::JnBhasin => "jnbhasin",
            Ayanamsha::Tropical => "tropical",
        }.to_owned()
    }

    pub fn as_i32(self) -> (r: i32)
        ensures
            r as int == self.num_spec(),
    {
        self.as_u8() as i32
    }

    pub fn as_u8(self) -> (r: u8)
        ensures
            r as int == self.num_spec(),
    {
        match self {
            Ayanamsha::Tropical => 0,
            Ayanamsha::TrueCitra => 27,
            Ayanamsha::Lahiri => 1,
            Ayanamsha::Krishnamurti => 5,
            Ayanamsha::Yukteshwar => 7,
            Ayanamsha::Raman => 3,
            Ayanamsha::ValensMoon => 42,
            Ayanamsha::TrueMula => 35,
            Ayanamsha::TrueRevati => 28,
            Ayanamsha::TruePushya => 29,
            Ayanamsha::TrueSheoran => 39,
            Ayanamsha::Aldebaran15Tau => 14,
            Ayanamsha::GalcentMulaWilhelm => 36,
            Ayanamsha::GalcentCochrane => 40,
            Ayanamsha::Hipparchos => 15,
            Ayanamsha::Sassanian => 16,
            Ayanamsha::Ushashashi => 4,
            Ayanamsha::JnBhasin => 8,
        }
    }

    /// The mode of a numeric identifier, unknown numbers reading as
    /// tropical.
    pub open spec fn from_num_spec(num: int) -> Ayanamsha {
        if num == 27 { Ayanamsha::TrueCitra }
        else if num == 1 { Ayanamsha::Lahiri }
        else if num == 5 { Ayanamsha::Krishnamurti }
        else if num == 7 { Ayanamsha::Yukteshwar }
        else if num == 3 { Ayanamsha::Raman }
        else if num == 42 { Ayanamsha::ValensMoon }
        else if num == 35 { Ayanamsha::TrueMula }
        else if num == 28 { Ayanamsha::TrueRevati }
        else if num == 29 { Ayanamsha::TruePushya }
        else if num == 39 { Ayanamsha::TrueSheoran }
        else if num == 14 { Ayanamsha::Aldebaran15Tau }
        else if num == 36 { Ayanamsha::GalcentMulaWilhelm }
        else if num == 40 { Ayanamsha::GalcentCochrane }
        else if num == 15 { Ayanamsha::Hipparchos }
        else if num == 16 { Ayanamsha::Sassanian }
        else if num == 4 { Ayanamsha::Ushashashi }
        else if num == 8 { Ayanamsha::JnBhasin }
        else { Ayanamsha::Tropical }
    }

    pub fn from_num(num: u8) -> (r: Ayanamsha)
        ensures
            r == Ayanamsha::from_num_spec(num as int),
    {
        match num {
            27 => Ayanamsha::TrueCitra,
            1 => Ayanamsha::Lahiri,
            5 => Ayanamsha::Krishnamurti,
            7 => Ayanamsha::Yukteshwar,
            3 => Ayanamsha::Raman,
            42 => Ayanamsha::ValensMoon,
            35 => Ayanamsha::TrueMula,
            28 => Ayanamsha::TrueRevati,
            29 => Ayanamsha::TruePushya,
            39 => Ayanamsha::TrueSheoran,
            14 => Ayanamsha::Aldebaran15Tau,
            36 => Ayanamsha::GalcentMulaWilhelm,
            40 => Ayanamsha::GalcentCochrane,
            15 => Ayanamsha::Hipparchos,
            16 => Ayanamsha::Sassanian,
            4 => Ayanamsha::Ushashashi,
            8 => Ayanamsha::JnBhasin,
            _ => Ayanamsha::Tropical,
        }
    }

    /// The mode of a normalised alias (lower-cased, underscores removed);
    /// anything unknown reads as tropical.
    pub open spec fn from_alias_spec(simple: Seq<char>) -> Ayanamsha {
        if simple == "tc"@ || simple == "truecitra"@ || simple == "citra"@ || simple == "chitra"@ {
            Ayanamsha::TrueCitra
        } else if simple == "lh"@ || simple == "lahiri"@ { Ayanamsha::Lahiri }
        else if simple == "kr"@ || simple == "krishnamurti"@ { Ayanamsha::Krishnamurti }
        else if simple == "yu"@ || simple == "yukteshwar"@ { Ayanamsha::Yukteshwar }
        else if simple == "ra"@ || simple == "raman"@ { Ayanamsha::Raman }
        else if simple == "vm"@ || simple == "valensmoon"@ { Ayanamsha::ValensMoon }
        else if simple == "tm"@ || simple == "truemula"@ { Ayanamsha::TrueMula }
        else if simple == "tr"@ || simple == "truerevati"@ { Ayanamsha::TrueRevati }
        else if simple == "tp"@ || simple == "truepushya"@ || simple == "pushya"@ { Ayanamsha::TruePushya }
        else if simple == "ts"@ || simple == "truesheoran"@ { Ayanamsha::TrueSheoran }
        else if simple == "at"@ || simple == "aldebaran15tau"@ { Ayanamsha::Aldebaran15Tau }
        else if simple == "gm"@ || simple == "galcenmulawilhelm"@ { Ayanamsha::GalcentMulaWilhelm }
        else if simple == "gc"@ || simple == "galcentcochrane"@ { Ayanamsha::GalcentCochrane }
        else if simple == "hi"@ || simple == "hipparchos"@ { Ayanamsha::Hipparchos }
        else if simple == "sa"@ || simple == "sassanian"@ { Ayanamsha::Sassanian }
        else if simple == "us"@ || simple == "ushashashi"@ { Ayanamsha::Ushashashi }
        else if simple == "jb"@ || simple == "jnbhasin"@ { Ayanamsha::JnBhasin }
        else { Ayanamsha::Tropical }
    }

    /// The mode a raw query key names: a small numeric identifier is
    /// looked up by number, anything else by its normalised alias.
    pub open spec fn from_key_spec(key: Seq<char>) -> Ayanamsha {
        let simple = simplified_key(key);
        let num: int = if digits_only(simple) && 0 < simple.len() && dec_value(simple) <= 255
            && dec_value(simple) < 43 {
            dec_value(simple) as int
        } else {
            0
        };
        if digits_only(simple) && num > 0 {
            Ayanamsha::from_num_spec(num)
        } else {
            Ayanamsha::from_alias_spec(simple)
        }
    }

    /// The short key of each mode; tropical, the default, has none.
    pub open spec fn short_key_spec(&self) -> Seq<char> {
        match self {
            Ayanamsha::TrueCitra => "tc"@,
            Ayanamsha::Lahiri => "lh"@,
            Ayanamsha::Krishnamurti => "kr"@,
            Ayanamsha::Yukteshwar => "yu"@,
            Ayanamsha::Raman => "ra"@,
            Ayanamsha::ValensMoon => "vm"@,
            Ayanamsha::TrueMula => "tm"@,
            Ayanamsha::TrueRevati => "tr"@,
            Ayanamsha::TruePushya => "tp"@,
            Ayanamsha::TrueSheoran => "ts"@,
            Ayanamsha::Aldebaran15Tau => "at"@,
            Ayanamsha::GalcentMulaWilhelm => "gm"@,
            Ayanamsha::GalcentCochrane => "gc"@,
            Ayanamsha::Hipparchos => "hi"@,
            Ayanamsha::Sassanian => "sa"@,
            Ayanamsha::Ushashashi => "us"@,
            Ayanamsha::JnBhasin => "jb"@,
            Ayanamsha::Tropical => ""@,
        }
    }

    pub fn short_key(&self) -> (r: &'static str)
        ensures
            r@ == self.short_key_spec(),
    {
        match self {
            Ayanamsha::TrueCitra => "tc",
            Ayanamsha::Lahiri => "lh",
            Ayanamsha::Krishnamurti => "kr",
            Ayanamsha::Yukteshwar => "yu",
            Ayanamsha::Raman => "ra",
            Ayanamsha::ValensMoon => "vm",
            Ayanamsha::TrueMula => "tm",
            Ayanamsha::TrueRevati => "tr",
            Ayanamsha::TruePushya => "tp",
            Ayanamsha::TrueSheoran => "ts",
            Ayanamsha::Aldebaran15Tau => "at",
            Ayanamsha::GalcentMulaWilhelm => "gm",
            Ayanamsha::GalcentCochrane => "gc",
            Ayanamsha::Hipparchos => "hi",
            Ayanamsha::Sassanian => "sa",
            Ayanamsha::Ushashashi => "us",
            Ayanamsha::JnBhasin => "jb",
            Ayanamsha::Tropical => "",
        }
    }

    /// Resolves a raw query key to its mode.
    pub fn match_key(key: &str) -> (r: Ayanamsha)
        ensures
            r == Ayanamsha::from_key_spec(key@),
    {
        let simple = simplify_key(key);
        let is_numeric = crate::validators::is_integer_str(simple.as_str());
        let mut num: u8 = 0;
        if is_numeric {
            match parse_digits_u64(simple.as_str(), 255) {
                Some(n) => {
                    if n < 43 {
                        num = n as u8;
                    }
                },
                None => {},
            }
        }
        if is_numeric && num > 0 {
            Ayanamsha::from_num(num)
        } else {
            Ayanamsha::from_alias(simple.as_str())
        }
    }

    /// Resolves an already normalised alias.
    fn from_alias(simple: &str) -> (r: Ayanamsha)
        ensures
            r == Ayanamsha::from_alias_spec(simple@),
    {
        if str_eq(simple, "tc") || str_eq(simple, "truecitra") || str_eq(simple, "citra")
            || str_eq(simple, "chitra") {
            Ayanamsha::TrueCitra
        } else if str_eq(simple, "lh") || str_eq(simple, "lahiri") { Ayanamsha::Lahiri }
        else if str_eq(simple, "kr") || str_eq(simple, "krishnamurti") { Ayanamsha::Krishnamurti }
        else if str_eq(simple, "yu") || str_eq(simple, "yukteshwar") { Ayanamsha::Yukteshwar }
        else if str_eq(simple, "ra") || str_eq(simple, "raman") { Ayanamsha::Raman }
        else if str_eq(simple, "vm") || str_eq(simple, "valensmoon") { Ayanamsha::ValensMoon }
        else if str_eq(simple, "tm") || str_eq(simple, "truemula") { Ayanamsha::TrueMula }
        else if str_eq(simple, "tr") || str_eq(simple, "truerevati") { Ayanamsha::TrueRevati }
        else if str_eq(simple, "tp") || str_eq(simple, "truepushya") || str_eq(simple, "pushya") {
            Ayanamsha::TruePushya
        } else if str_eq(simple, "ts") || str_eq(simple, "truesheoran") { Ayanamsha::TrueSheoran }
        else if str_eq(simple, "at") || str_eq(simple, "aldebaran15tau") { Ayanamsha::Aldebaran15Tau }
        else if str_eq(simple, "gm") || str_eq(simple, "galcenmulawilhelm") {
            Ayanamsha::GalcentMulaWilhelm
        } else if str_eq(simple, "gc") || str_eq(simple, "galcentcochrane") {
            Ayanamsha::GalcentCochrane
        } else if str_eq(simple, "hi") || str_eq(simple, "hipparchos") { Ayanamsha::Hipparchos }
        else if str_eq(simple, "sa") || str_eq(simple, "sassanian") { Ayanamsha::Sassanian }
        else if str_eq(simple, "us") || str_eq(simple, "ushashashi") { Ayanamsha::Ushashashi }
        else if str_eq(simple, "jb") || str_eq(simple, "jnbhasin") { Ayanamsha::JnBhasin }
        else { Ayanamsha::Tropical }
    }
}

impl FromKey<Ayanamsha> for Ayanamsha {
    fn from_key(key: &str) -> Ayanamsha {
        Ayanamsha::match_key(key)
    }
}

impl ToKey<Ayanamsha> for Ayanamsha {
    fn to_key(&self) -> &str {
        self.short_key()
    }
}

/// The full names of the supported sidereal modes, in their canonical
/// order.
pub fn all_ayanamsha_keys() -> (r: Vec<&'static str>)
    ensures
        r@.len() == 17,
        r@[0]@ == "true_citra"@,
        r@[1]@ == "lahiri"@,
        r@[2]@ == "krishnamurti"@,
        r@[3]@ == "yukteshwar"@,
        r@[4]@ == "raman"@,
        r@[5]@ == "valensmoon"@,
        r@[6]@ == "true_mula"@,
        r@[7]@ == "true_revati"@,
        r@[8]@ == "true_pushya"@,
        r@[9]@ == "true_sheoran"@,
        r@[10]@ == "aldebaran_15_tau"@,
        r@[11]@ == "galcent_mula_wilhelm"@,
        r@[12]@ == "galcent_cochrane"@,
        r@[13]@ == "hipparchos"@,
        r@[14]@ == "sassanian"@,
        r@[15]@ == "ushashashi"@,
        r@[16]@ == "jnbhasin"@,
{
    let mut keys: Vec<&'static str> = Vec::new();
    keys.push("true_citra");
    keys.push("lahiri");
    keys.push("krishnamurti");
    keys.push("yukteshwar");
    keys.push("raman");
    keys.push("valensmoon");
    keys.push("true_mula");
    keys.push("true_revati");
    keys.push("true_pushya");
    keys.push("true_sheoran");
    keys.push("aldebaran_15_tau");
    keys.push("galcent_mula_wilhelm");
    keys.push("galcent_cochrane");
    keys.push("hipparchos");
    keys.push("sassanian");
    keys.push("ushashashi");
    keys.push("jnbhasin");
    keys
}

/// The full name of the mode a query key names; only the part before the
/// first comma counts.
pub fn match_ayanamsha_key(key: &str) -> (r: String)
    ensures
        r@ == Ayanamsha::from_key_spec(
            key@.subrange(
                0,
                if crate::converters::find_char_from(key@, ',', 0) >= 0 {
                    crate::converters::find_char_from(key@, ',', 0)
                } else {
                    key@.len() as int
                },
            ),
        ).as_string_spec(),
{
    let n = key.unicode_len();
    let mut i: usize = 0;
    let mut cut: usize = n;
    while i < n
        invariant
            i <= n,
            n == key@.len(),
            cut <= n,
            cut == n ==> crate::converters::find_char_from(key@, ',', 0)
                == crate::converters::find_char_from(key@, ',', i as int),
            cut < n ==> crate::converters::find_char_from(key@, ',', 0) == cut as int
                && key@[cut as int] == ',',
        decreases n - i,
    {
        if cut == n {
            if key.get_char(i) == ',' {
                cut = i;
            }
        }
        i = i + 1;
    }
    let head = key.substring_char(0, cut);
    proof {
        assert(head@ =~= key@.subrange(0, cut as int));
        if cut == n {
            assert(crate::converters::find_char_from(key@, ',', n as int) == -1);
            assert(key@.subrange(0, n as int) =~= key@);
        }
    }
    Ayanamsha::match_key(head).as_string()
}

/// The numeric identifier of the mode a query key names.
pub fn match_ayanamsha_num(key: &str) -> (r: u8)
    ensures
        r as int == Ayanamsha::from_key_spec(key@).num_spec(),
{
    Ayanamsha::match_key(key).as_u8()
}

/// A mode summarised for listings: full name, short key and numeric
/// identifier.
#[derive(Clone, Debug)]
pub struct AynamshaInfo {
    pub name: String,
    pub key: String,
    pub num: u16,
}

impl AynamshaInfo {
    pub fn new(key: &str) -> (r: AynamshaInfo)
        ensures
            r.name@ == Ayanamsha::from_key_spec(key@).as_string_spec(),
            r.key@ == Ayanamsha::from_key_spec(key@).short_key_spec(),
            r.num as int == Ayanamsha::from_key_spec(key@).num_spec(),
    {
        let aya = Ayanamsha::match_key(key);
        let name = aya.as_string();
        let short = aya.short_key();
        let num = aya.as_u8() as u16;
        AynamshaInfo { name, key: short.to_owned(), num }
    }
}

} // verus!
