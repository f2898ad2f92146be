//! The supported house systems, keyed by their conventional letters.

use vstd::prelude::*;
use std::collections::HashMap;

verus! {

/// The house systems with their conventional letter keys.
pub fn house_systems() -> (r: Vec<(char, &'static str)>)
    ensures
        r@.len() == 24,
{
    let mut hs: Vec<(char, &'static str)> = Vec::new();
    hs.push(('A', "equal"));
    hs.push(('B', "Alcabitius"));
    hs.push(('C', "Campanus"));
    hs.push(('D', "equal (MC)"));
    hs.push(('E', "equal"));
    hs.push(('F', "Carter poli-equ."));
    hs.push(('G', "Gauquelin sectors"));
    hs.push(('H', "horizon/azimut"));
    hs.push(('I', "Sunshine"));
    hs.push(('J', "Sunshine/alt."));
    hs.push(('K', "Koch"));
    hs.push(('L', "Pullen SD"));
    hs.push(('M', "Morinus"));
    hs.push(('N', "equal/1=Aries"));
    hs.push(('O', "Porphyry"));
    hs.push(('Q', "Pullen SR"));
    hs.push(('R', "Regiomontanus"));
    hs.push(('S', "Sripati"));
    hs.push(('T', "Polich/Page"));
    hs.push(('U', "Krusinski-Pisa-Goelzer"));
    hs.push(('V', "equal/Vehlow"));
    hs.push(('W', "equal/ whole sign"));
    hs.push(('X', "axial rotation system/Meridian houses"));
    hs.push(('Y', "APC houses"));
    hs
}

/// The house systems as a letter-to-name map.
pub fn houses_as_key_map() -> HashMap<char, String> {
    let pairs = house_systems();
    let mut hm: HashMap<char, String> = HashMap::new();
    let mut i: usize = 0;
    while i < pairs.len()
        decreases pairs@.len() - i,
    {
        let (k, v) = pairs[i];
        hm.insert(k, v.to_owned());
        i = i + 1;
    }
    hm
}

} // verus!
