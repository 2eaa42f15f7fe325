use vstd::prelude::*;
use crate::providers::wmo::{wmo_clear, wmo_cloudy, wmo_drizzle, wmo_rain, wmo_snow, wmo_thunder};

verus! {

/// The Yandex provider.
#[derive(Clone, Copy, Debug)]
pub struct YandexProvider;

impl YandexProvider {
    /// The provider's display name.
    pub fn name(&self) -> (s: &'static str)
        ensures
            s@ == "Yandex"@,
    {
        "Yandex"
    }

    /// The error reported when no API key is configured for this provider.
    pub fn missing_key_message(&self) -> (s: &'static str)
        ensures
            s@ == "Yandex API key is missing. Configure it in config.json or set WEATHER_KEY_YANDEX."@,
    {
        "Yandex API key is missing. Configure it in config.json or set WEATHER_KEY_YANDEX."
    }
}

/// The WMO weather code for a Yandex condition name.
pub open spec fn yandex_condition_wmo(cond: Seq<char>) -> i32 {
    if cond == "clear"@ {
        0
    } else if cond == "partly-cloudy"@ {
        2
    } else if cond == "cloudy"@ || cond == "overcast"@ {
        3
    } else if cond == "drizzle"@ || cond == "light-rain"@ {
        51
    } else if cond == "rain"@ || cond == "heavy-rain"@ {
        63
    } else if cond == "showers"@ {
        80
    } else if cond == "snow"@ || cond == "snow-showers"@ {
        73
    } else if cond == "thunderstorm"@ || cond == "thunderstorm-with-rain"@ {
        95
    } else {
        0
    }
}

/// The WMO weather code for a Yandex condition name.
pub fn condition_to_wmo(cond: &str) -> (w: i32)
    ensures
        w == yandex_condition_wmo(cond@),
{
    let v = crate::text::chars_of(cond);
    if crate::text::str_eq_chars("clear", &v) {
        0
    } else if crate::text::str_eq_chars("partly-cloudy", &v) {
        2
    } else if crate::text::str_eq_chars("cloudy", &v) || crate::text::str_eq_chars("overcast", &v) {
        3
    } else if crate::text::str_eq_chars("drizzle", &v) || crate::text::str_eq_chars("light-rain", &v) {
        51
    } else if crate::text::str_eq_chars("rain", &v) || crate::text::str_eq_chars("heavy-rain", &v) {
        63
    } else if crate::text::str_eq_chars("showers", &v) {
        80
    } else if crate::text::str_eq_chars("snow", &v) || crate::text::str_eq_chars("snow-showers", &v) {
        73
    } else if crate::text::str_eq_chars("thunderstorm", &v) || crate::text::str_eq_chars("thunderstorm-with-rain", &v) {
        95
    } else {
        0
    }
}

/// The compass sector of a Yandex wind direction, counted in eighths of a turn clockwise from north (the bearing is 45 degrees times the sector); unknown directions read as north.
pub open spec fn yandex_sector(dir: Seq<char>) -> u32 {
    if dir == "n"@ {
        0
    } else if dir == "ne"@ {
        1
    } else if dir == "e"@ {
        2
    } else if dir == "se"@ {
        3
    } else if dir == "s"@ {
        4
    } else if dir == "sw"@ {
        5
    } else if dir == "w"@ {
        6
    } else if dir == "nw"@ {
        7
    } else {
        0
    }
}

/// The compass sector of a Yandex wind direction, counted in eighths of a turn clockwise from north (the bearing is 45 degrees times the sector); unknown directions read as north.
pub fn dir_to_sector(dir: &str) -> (w: u32)
    ensures
        w == yandex_sector(dir@),
{
    let v = crate::text::chars_of(dir);
    if crate::text::str_eq_chars("n", &v) {
        0
    } else if crate::text::str_eq_chars("ne", &v) {
        1
    } else if crate::text::str_eq_chars("e", &v) {
        2
    } else if crate::text::str_eq_chars("se", &v) {
        3
    } else if crate::text::str_eq_chars("s", &v) {
        4
    } else if crate::text::str_eq_chars("sw", &v) {
        5
    } else if crate::text::str_eq_chars("w", &v) {
        6
    } else if crate::text::str_eq_chars("nw", &v) {
        7
    } else {
        0
    }
}

/// Yandex's condition names land in the matching WMO groups: `clear` in clear sky, the cloudy
/// ones in cloud, `drizzle` and `light-rain` in drizzle, rain and showers in rain, snow in snow
/// and thunderstorms in thunderstorms.
pub proof fn law_yandex_groups(cond: Seq<char>)
    ensures
        cond == "clear"@ ==> wmo_clear(yandex_condition_wmo(cond)),
        cond == "partly-cloudy"@ || cond == "cloudy"@ || cond == "overcast"@ ==> wmo_cloudy(
            yandex_condition_wmo(cond),
        ),
        cond == "drizzle"@ || cond == "light-rain"@ ==> wmo_drizzle(yandex_condition_wmo(cond)),
        cond == "rain"@ || cond == "heavy-rain"@ || cond == "showers"@ ==> wmo_rain(
            yandex_condition_wmo(cond),
        ),
        cond == "snow"@ || cond == "snow-showers"@ ==> wmo_snow(yandex_condition_wmo(cond)),
        cond == "thunderstorm"@ || cond == "thunderstorm-with-rain"@ ==> wmo_thunder(
            yandex_condition_wmo(cond),
        ),
{
    reveal_strlit("clear");
    assert("clear"@.len() == 5 && "clear"@[0] == 'c');
    reveal_strlit("partly-cloudy");
    assert("partly-cloudy"@.len() == 13 && "partly-cloudy"@[0] == 'p');
    reveal_strlit("cloudy");
    assert("cloudy"@.len() == 6 && "cloudy"@[0] == 'c');
    reveal_strlit("overcast");
    assert("overcast"@.len() == 8 && "overcast"@[0] == 'o');
    reveal_strlit("drizzle");
    assert("drizzle"@.len() == 7 && "drizzle"@[0] == 'd');
    reveal_strlit("light-rain");
    assert("light-rain"@.len() == 10 && "light-rain"@[0] == 'l');
    reveal_strlit("rain");
    assert("rain"@.len() == 4 && "rain"@[0] == 'r');
    reveal_strlit("heavy-rain");
    assert("heavy-rain"@.len() == 10 && "heavy-rain"@[0] == 'h');
    reveal_strlit("showers");
    assert("showers"@.len() == 7 && "showers"@[0] == 's');
    reveal_strlit("snow");
    assert("snow"@.len() == 4 && "snow"@[0] == 's');
    reveal_strlit("snow-showers");
    assert("snow-showers"@.len() == 12 && "snow-showers"@[0] == 's');
    reveal_strlit("thunderstorm");
    assert("thunderstorm"@.len() == 12 && "thunderstorm"@[0] == 't');
    reveal_strlit("thunderstorm-with-rain");
    assert("thunderstorm-with-rain"@.len() == 22 && "thunderstorm-with-rain"@[0] == 't');
}

} // verus!
