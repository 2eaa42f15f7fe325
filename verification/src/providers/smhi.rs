use vstd::prelude::*;
use crate::providers::wmo::{wmo_clear, wmo_cloudy, wmo_drizzle, wmo_fog, wmo_rain, wmo_snow};
use crate::providers::base::{date_in_window, date_in_window_chars};
use crate::text::{
    before_char, before_char_chars, chars_of, eq_chars, remove_char, remove_char_chars,
    replace_char, replace_char_chars, string_of,
};

verus! {

/// The SMHI provider.
#[derive(Clone, Copy, Debug)]
pub struct SmhiProvider;

impl SmhiProvider {
    /// The provider's display name.
    pub fn name(&self) -> (s: &'static str)
        ensures
            s@ == "SMHI"@,
    {
        "SMHI"
    }
}

/// The WMO weather code for an SMHI weather symbol (1 to 27).
pub open spec fn smhi_wmo(symbol: i32) -> i32 {
    if (1 <= symbol && symbol <= 2) {
        0
    } else if (3 <= symbol && symbol <= 4) {
        2
    } else if (5 <= symbol && symbol <= 6) {
        3
    } else if symbol == 7 {
        45
    } else if (8 <= symbol && symbol <= 10) {
        51
    } else if (18 <= symbol && symbol <= 20) {
        61
    } else if (21 <= symbol && symbol <= 24) {
        71
    } else {
        0
    }
}

/// The WMO weather code for an SMHI weather symbol (1 to 27).
pub fn smhi_symbol_to_wmo(symbol: i32) -> (w: i32)
    ensures
        w == smhi_wmo(symbol),
{
    if (1 <= symbol && symbol <= 2) {
        0
    } else if (3 <= symbol && symbol <= 4) {
        2
    } else if (5 <= symbol && symbol <= 6) {
        3
    } else if symbol == 7 {
        45
    } else if (8 <= symbol && symbol <= 10) {
        51
    } else if (18 <= symbol && symbol <= 20) {
        61
    } else if (21 <= symbol && symbol <= 24) {
        71
    } else {
        0
    }
}


/// The SMHI parameters that a point takes its values from.
#[derive(Clone, Copy, Debug, PartialEq, Eq, Structural)]
pub enum SmhiParam {
    /// `t`: air temperature.
    Temperature,
    /// `r`: relative humidity.
    Humidity,
    /// `ws`: wind speed, in metres per second.
    WindSpeed,
    /// `wd`: wind direction.
    WindDirection,
    /// `tcc_mean`: total cloud cover, in eighths.
    CloudCover,
    /// `pmean`: mean precipitation.
    Precipitation,
    /// `Wsymb2`: the weather symbol.
    Symbol,
}

/// The parameter that an SMHI parameter name stands for, if the points use it.
pub open spec fn smhi_param_named(name: Seq<char>) -> Option<SmhiParam> {
    if name == "t"@ {
        Some(SmhiParam::Temperature)
    } else if name == "r"@ {
        Some(SmhiParam::Humidity)
    } else if name == "ws"@ {
        Some(SmhiParam::WindSpeed)
    } else if name == "wd"@ {
        Some(SmhiParam::WindDirection)
    } else if name == "tcc_mean"@ {
        Some(SmhiParam::CloudCover)
    } else if name == "pmean"@ {
        Some(SmhiParam::Precipitation)
    } else if name == "Wsymb2"@ {
        Some(SmhiParam::Symbol)
    } else {
        None
    }
}

/// The parameter that an SMHI parameter name stands for.
pub fn smhi_param(name: &str) -> (r: Option<SmhiParam>)
    ensures
        r == smhi_param_named(name@),
{
    let n = chars_of(name);
    let names: Vec<&str> = vec!["t", "r", "ws", "wd", "tcc_mean", "pmean", "Wsymb2"];
    let params: Vec<SmhiParam> = vec![
        SmhiParam::Temperature,
        SmhiParam::Humidity,
        SmhiParam::WindSpeed,
        SmhiParam::WindDirection,
        SmhiParam::CloudCover,
        SmhiParam::Precipitation,
        SmhiParam::Symbol,
    ];
    proof {
        reveal_strlit("t");
        reveal_strlit("r");
        reveal_strlit("ws");
        reveal_strlit("wd");
        reveal_strlit("tcc_mean");
        reveal_strlit("pmean");
        reveal_strlit("Wsymb2");
    }
    let mut i: usize = 0;
    while i < names.len()
        invariant
            i <= names.len(),
            names@ == seq!["t", "r", "ws", "wd", "tcc_mean", "pmean", "Wsymb2"],
            params@ == seq![SmhiParam::Temperature, SmhiParam::Humidity, SmhiParam::WindSpeed, SmhiParam::WindDirection, SmhiParam::CloudCover, SmhiParam::Precipitation, SmhiParam::Symbol],
            n@ == name@,
            forall|j: int| 0 <= j < i ==> names@[j]@ != name@,
        decreases names.len() - i,
    {
        let c = chars_of(names[i]);
        if eq_chars(&c, &n) {
            return Some(params[i]);
        }
        i = i + 1;
    }
    None
}

/// An SMHI stamp with its zone letter removed and `T` turned into a space, as the date is
/// read from it.
pub open spec fn smhi_spaced(valid_time: Seq<char>) -> Seq<char> {
    replace_char(remove_char(valid_time, 'Z'), 'T', ' ')
}

/// The stamp of an SMHI point and whether the point falls in `[start, end]`: the stamp is the
/// spaced form with every space turned back into `T`, and the date is its text before the
/// first space.
pub fn smhi_stamp(valid_time: &str, start: &str, end: &str) -> (r: (String, bool))
    ensures
        r.0@ == replace_char(smhi_spaced(valid_time@), ' ', 'T'),
        r.1 == date_in_window(before_char(smhi_spaced(valid_time@), ' '), start@, end@),
{
    let v = chars_of(valid_time);
    let no_z = remove_char_chars(&v, 'Z');
    let spaced = replace_char_chars(&no_z, 'T', ' ');
    let date = before_char_chars(&spaced, ' ');
    let s = chars_of(start);
    let e = chars_of(end);
    let keep = date_in_window_chars(&date, &s, &e);
    let back = replace_char_chars(&spaced, ' ', 'T');
    (string_of(&back), keep)
}

/// SMHI's weather symbols land in the matching WMO groups: clear (1, 2) in clear sky,
/// cloud (3 to 6) in cloud, fog (7) in fog, rain showers (8 to 10) in drizzle, rain (18 to
/// 20) in rain and sleet (22 to 24) in snow.
pub proof fn law_smhi_groups(symbol: i32)
    ensures
        1 <= symbol <= 2 ==> wmo_clear(smhi_wmo(symbol)),
        3 <= symbol <= 6 ==> wmo_cloudy(smhi_wmo(symbol)),
        symbol == 7 ==> wmo_fog(smhi_wmo(symbol)),
        8 <= symbol <= 10 ==> wmo_drizzle(smhi_wmo(symbol)),
        18 <= symbol <= 20 ==> wmo_rain(smhi_wmo(symbol)),
        22 <= symbol <= 24 ==> wmo_snow(smhi_wmo(symbol)),
{
}


/// The name under which SMHI's forecast reports each parameter.
pub open spec fn smhi_param_text(p: SmhiParam) -> Seq<char> {
    match p {
        SmhiParam::Temperature => "t"@,
        SmhiParam::Humidity => "r"@,
        SmhiParam::WindSpeed => "ws"@,
        SmhiParam::WindDirection => "wd"@,
        SmhiParam::CloudCover => "tcc_mean"@,
        SmhiParam::Precipitation => "pmean"@,
        SmhiParam::Symbol => "Wsymb2"@,
    }
}

/// Each parameter's SMHI name reads back as that parameter, so different names never stand
/// for the same parameter.
pub proof fn law_smhi_params_read_back(p: SmhiParam)
    ensures
        smhi_param_named(smhi_param_text(p)) == Some(p),
{
    reveal_strlit("t");
    assert("t"@.len() == 1 && "t"@[0] == 't');
    reveal_strlit("r");
    assert("r"@.len() == 1 && "r"@[0] == 'r');
    reveal_strlit("ws");
    assert("ws"@.len() == 2 && "ws"@[1] == 's');
    reveal_strlit("wd");
    assert("wd"@.len() == 2 && "wd"@[1] == 'd');
    reveal_strlit("tcc_mean");
    assert("tcc_mean"@.len() == 8);
    reveal_strlit("pmean");
    assert("pmean"@.len() == 5);
    reveal_strlit("Wsymb2");
    assert("Wsymb2"@.len() == 6);
}

} // verus!
