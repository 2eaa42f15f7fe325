use vstd::prelude::*;
use crate::text::{chars_of, is_digit, split_whitespace_chars, string_of, words};

verus! {

/// The NWS provider.
#[derive(Clone, Copy, Debug)]
pub struct NwsProvider;

impl NwsProvider {
    /// The provider's display name.
    pub fn name(&self) -> (s: &'static str)
        ensures
            s@ == "NWS"@,
    {
        "NWS"
    }
}

/// The compass sector of an NWS wind direction, counted in sixteenths of a turn clockwise from north (the bearing is 22.5 degrees times the sector); unknown directions read as north.
pub open spec fn nws_sector(dir: Seq<char>) -> u32 {
    if dir == "N"@ {
        0
    } else if dir == "NNE"@ {
        1
    } else if dir == "NE"@ {
        2
    } else if dir == "ENE"@ {
        3
    } else if dir == "E"@ {
        4
    } else if dir == "ESE"@ {
        5
    } else if dir == "SE"@ {
        6
    } else if dir == "SSE"@ {
        7
    } else if dir == "S"@ {
        8
    } else if dir == "SSW"@ {
        9
    } else if dir == "SW"@ {
        10
    } else if dir == "WSW"@ {
        11
    } else if dir == "W"@ {
        12
    } else if dir == "WNW"@ {
        13
    } else if dir == "NW"@ {
        14
    } else if dir == "NNW"@ {
        15
    } else {
        0
    }
}

/// The compass sector of an NWS wind direction, counted in sixteenths of a turn clockwise from north (the bearing is 22.5 degrees times the sector); unknown directions read as north.
pub fn wind_direction_sector(dir: &str) -> (w: u32)
    ensures
        w == nws_sector(dir@),
{
    let v = crate::text::chars_of(dir);
    if crate::text::str_eq_chars("N", &v) {
        0
    } else if crate::text::str_eq_chars("NNE", &v) {
        1
    } else if crate::text::str_eq_chars("NE", &v) {
        2
    } else if crate::text::str_eq_chars("ENE", &v) {
        3
    } else if crate::text::str_eq_chars("E", &v) {
        4
    } else if crate::text::str_eq_chars("ESE", &v) {
        5
    } else if crate::text::str_eq_chars("SE", &v) {
        6
    } else if crate::text::str_eq_chars("SSE", &v) {
        7
    } else if crate::text::str_eq_chars("S", &v) {
        8
    } else if crate::text::str_eq_chars("SSW", &v) {
        9
    } else if crate::text::str_eq_chars("SW", &v) {
        10
    } else if crate::text::str_eq_chars("WSW", &v) {
        11
    } else if crate::text::str_eq_chars("W", &v) {
        12
    } else if crate::text::str_eq_chars("WNW", &v) {
        13
    } else if crate::text::str_eq_chars("NW", &v) {
        14
    } else if crate::text::str_eq_chars("NNW", &v) {
        15
    } else {
        0
    }
}


/// The speed figure of an NWS wind text such as `5 to 10 mph`: its digits and spaces kept,
/// the last word of what remains.
pub open spec fn speed_token(s: Seq<char>) -> Option<Seq<char>> {
    let kept = s.filter(|c: char| is_digit(c) || c == ' ');
    if words(kept).len() > 0 {
        Some(words(kept).last())
    } else {
        None
    }
}

/// The speed figure of an NWS wind text, in miles per hour, as digits.
pub fn wind_speed_token(s: &str) -> (r: Option<String>)
    ensures
        match speed_token(s@) {
            Some(t) => r matches Some(x) && x@ == t,
            None => r is None,
        },
{
    let v = chars_of(s);
    let mut kept: Vec<char> = Vec::new();
    let mut i: usize = 0;
    while i < v.len()
        invariant
            i <= v.len(),
            v@ == s@,
            kept@ == v@.take(i as int).filter(|c: char| is_digit(c) || c == ' '),
        decreases v.len() - i,
    {
        proof {
            assert(v@.take(i + 1).drop_last() =~= v@.take(i as int));
            reveal_with_fuel(Seq::filter, 1);
        }
        let c = v[i];
        if ('0' <= c && c <= '9') || c == ' ' {
            kept.push(c);
        }
        i = i + 1;
    }
    assert(v@.take(v.len() as int) =~= v@);
    let ws = split_whitespace_chars(&kept);
    if ws.len() > 0 {
        let last = &ws[ws.len() - 1];
        assert(ws@.map_values(|w: Vec<char>| w@)[ws.len() - 1] == last@);
        Some(string_of(last))
    } else {
        None
    }
}

} // verus!
