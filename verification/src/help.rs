//! Static descriptions of the service's endpoints and options, served as
//! plain key/value tables.

use vstd::prelude::*;
use std::collections::HashMap;

verus! {

/// Builds a description table from label/text pairs.
pub fn info_map(pairs: Vec<(&str, &str)>) -> HashMap<String, String> {
    let mut info: HashMap<String, String> = HashMap::new();
    let mut i: usize = 0;
    while i < pairs.len()
        decreases pairs@.len() - i,
    {
        let (k, v) = pairs[i];
        info.insert(k.to_owned(), v.to_owned());
        i = i + 1;
    }
    info
}

/// The service's endpoints with their query parameters.
pub fn endpoint_help() -> HashMap<String, HashMap<String, String>> {
    let mut help: HashMap<String, HashMap<String, String>> = HashMap::new();
    let mut jd_pairs: Vec<(&str, &str)> = Vec::new();
    jd_pairs.push(("description", "Julian day, unix time stamp and UTC date-time string"));
    jd_pairs.push((":dateref", "either ISO date string with optional time or julian day"));
    help.insert("GET /jd/:datetef".to_owned(), info_map(jd_pairs));

    let mut appendix_pairs: Vec<(&str, &str)> = Vec::new();
    appendix_pairs.push((
        "description",
        "Names, keys, numbers and attribiutes of celestial objects (grahas), houses amd ayanamshas",
    ));
    help.insert("GET /appendix".to_owned(), info_map(appendix_pairs));

    let mut position_pairs: Vec<(&str, &str)> = Vec::new();
    position_pairs.push(("description", "Longitudes of referenced celestial bodies and the ascendant"));
    position_pairs.push(("dt", "Date"));
    position_pairs.push(("loc", "lat,lng(,alt) coordinates"));
    position_pairs.push(("bodies", "comma-separated list of required bodies, all or core"));
    position_pairs.push(("topo", "0 = geocentric, 1 topocentric"));
    position_pairs.push(("eq", "0 = ecliptic, 1 equatorial"));
    position_pairs.push(("iso", "0 julian days (rise/set times), 1 ISO UTC datetime strings"));
    help.insert("GET /positions".to_owned(), info_map(position_pairs));

    let mut chart_pairs: Vec<(&str, &str)> = Vec::new();
    chart_pairs.push(("dt", "Date"));
    chart_pairs.push((
        "loc",
        "lat,lng(,alt) coordinates, e.g. &loc=45.336,13.278,50 or just &loc=45.336,13.278",
    ));
    chart_pairs.push(("bodies", "comma-separated list of required bodies, all or core"));
    chart_pairs.push(("topo", "0: geocentric, 1: topocentric"));
    chart_pairs.push((
        "eq",
        "0: ecliptic only, 1 equatorial only, 2: show equatorial and ecliptic, 3: show azimuth and altitide. 4: Also show other planetary phenomena",
    ));
    chart_pairs.push((
        "it",
        "1: show Indian time units with progression from sunrise to sunrise (sun periods) with longitudes, 0: do not show Indian time",
    ));
    chart_pairs.push((
        "retro",
        "1: show retrograde and peak stations of the main planets, 0: do not show planet stations.",
    ));
    chart_pairs.push(("ct", "include rise/set times for the referenced bodies"));
    chart_pairs.push((
        "mode",
        "Alignment and refraction options for rise / set times. See 'transition options' for all options.",
    ));
    chart_pairs.push((
        "trbs",
        "Comma-seprated list of body keys for rise-set times. If not specified, the keys in bodies will be used",
    ));
    chart_pairs.push((
        "hsys",
        "Comma-separated list of house system letters or `all` for all systems, default W (whole house system)",
    ));
    chart_pairs.push((
        "aya",
        "comma-separated list of available ayanamshas (see below). These are added as separate data-set and should be applied in a post processing stage via simple subtraction from the lng, ascendant or rectAscension values, which are always tropical (they may automatically applied in /positions)",
    ));
    chart_pairs.push(("iso", "0: julian days (transition times), 1: ISO UTC datetime strings"));
    help.insert("GET /chart-data".to_owned(), info_map(chart_pairs));

    let mut progress_pairs: Vec<(&str, &str)> = Vec::new();
    progress_pairs.push(("description", "Progress of celestial body positions"));
    progress_pairs.push(("dt", "start date"));
    progress_pairs.push((
        "loc",
        "lat,lng(,alt) coordinates, required for topocentric, e.g. &loc=45.336,13.278,50 or just &loc=45.336,13.278",
    ));
    progress_pairs.push(("bodies", "comma-separated list of required bodies, all or core"));
    progress_pairs.push(("days", "number of days, default 28, e.g. 366 will return a whole year"));
    progress_pairs.push(("pd", "number of samples per day, default 2, i.e. every 12 hours"));
    progress_pairs.push((
        "dspan",
        "number of days per sample, overrides pd above for longer spans, max 1000 samples",
    ));
    progress_pairs.push(("topo", "0 = geocentric, 1 topocentric"));
    progress_pairs.push(("eq", "0 = ecliptic only, 1 equatorial only"));
    help.insert("GET /progress".to_owned(), info_map(progress_pairs));

    let mut rise_pairs: Vec<(&str, &str)> = Vec::new();
    rise_pairs.push(("dt", "reference start date, default: current date"));
    rise_pairs.push(("loc", "current lat,lng(,alt) coordinates"));
    rise_pairs.push(("bodies", "comma-separated list of required bodies, all or core"));
    rise_pairs.push((
        "iso",
        "0 show all times as julian days, 1 show rise/set times as ISO UTC datetime strings",
    ));
    rise_pairs.push(("days", "Number of days from the start date"));
    rise_pairs.push((
        "mode",
        "Alignment and refraction options for rise / set times. See 'transition options' for all options.",
    ));
    help.insert("GET /rise-set-times".to_owned(), info_map(rise_pairs));

    let mut sun_pairs: Vec<(&str, &str)> = Vec::new();
    sun_pairs.push(("dateref", "current date-time"));
    sun_pairs.push(("loc", "current lat,lng(,alt) coordinates"));
    sun_pairs.push((
        "days",
        "Day span of rise/set times, default 28, e.g. 366 will return a whole year",
    ));
    sun_pairs.push(("iso", "0 = show julian days (default), 1 = show ISO datetime UTC"));
    sun_pairs.push((
        "full",
        "0 or 1 = show as daily rise sets based on solar time, 2 = show a sequence of rise/MC/set/IC times with min/max altitudes (as for /rise-set-times above)",
    ));
    sun_pairs.push((
        "mode",
        "Alignment and refraction options for rise / set times. See 'transition options' for all options.",
    ));
    help.insert("GET /sun-rise-set-times".to_owned(), info_map(sun_pairs));

    let mut pheno_pairs: Vec<(&str, &str)> = Vec::new();
    pheno_pairs.push(("dt", "current date-time"));
    pheno_pairs.push(("loc", "current lat,lng(,alt) coordinates"));
    pheno_pairs.push(("bodies", "comma-separated list of required bodies, all or core"));
    help.insert("GET /pheno".to_owned(), info_map(pheno_pairs));

    let mut houses_pairs: Vec<(&str, &str)> = Vec::new();
    houses_pairs.push(("dt", "current date-time"));
    houses_pairs.push(("loc", "current lat,lng(,alt) coordinates"));
    houses_pairs.push((
        "hsys",
        "Comma-separated list of house system letters or `all` for all systems, default W (whole house system)",
    ));
    houses_pairs.push(("aya", "Selected aynanamsha, only one allowed. 0 means tropical)"));
    help.insert("GET /houses".to_owned(), info_map(houses_pairs));

    help
}

/// The disc-alignment and refraction options of rise/set queries.
pub fn rise_set_option_help() -> HashMap<String, HashMap<String, String>> {
    let mut help: HashMap<String, HashMap<String, String>> = HashMap::new();
    let mut pairs: Vec<(&str, &str)> = Vec::new();
    pairs.push(("0", "None / unadjusted"));
    pairs.push(("1", "No Refraction only"));
    pairs.push(("2", "Centre disc + no refraction"));
    pairs.push(("3", "Centre disc only (default)"));
    pairs.push(("4", "Bottom disc + no refraction"));
    pairs.push(("5", "Bottom disc only"));
    pairs.push(("6", "Fixed disc + no refraction"));
    pairs.push(("7", "Fixed disc only"));
    help.insert("Rise / set times".to_owned(), info_map(pairs));
    help
}

} // verus!
