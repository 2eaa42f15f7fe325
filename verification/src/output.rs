//! The text of the weather reports: condition names and icons, the ASCII art and banner
//! glyphs, compass points, the location and date lines, the hourly table's plan, the layouts'
//! frames and the error block.
use vstd::prelude::*;
use crate::providers::nws::nws_sector;
use crate::providers::yandex::yandex_sector;
use crate::providers::wmo::{wmo_clear, wmo_drizzle, wmo_fog, wmo_listed, wmo_rain, wmo_snow, wmo_thunder};
use vstd::string::StringExecFns;
use crate::dates::{format_year, parse_ymd, year_text, ymd_parse, CalendarDate};
use crate::cli::{law_mode_names_distinct, mode_name, Mode};
use vstd::string::StringSliceAdditionalSpecFns;
use vstd::utf8::encode_utf8;
use vstd::utf8::encode_utf8_valid_utf8;
use vstd::utf8::is_char_boundary;
use chrono::{Datelike, Timelike};
use crate::text::{
    chars_of, contains_chars, contains_seq, decimal, decimal_str, eq_chars, has_prefix, join, join_strs,
    lowercase, padded_decimal, remove_char, remove_char_chars, string_of, to_lowercase, views,
    zero_padded,
};

verus! {

/// The icon of a WMO weather code.
pub open spec fn weather_emoji(code: i32) -> Seq<char> {
    match code {
        0 => "☀️"@,
        1 => "🌤️"@,
        2 => "⛅"@,
        3 => "☁️"@,
        45 => "🌫️"@,
        48 => "🌫️"@,
        51 => "🌦️"@,
        53 => "🌦️"@,
        55 => "🌦️"@,
        56 => "🌦️"@,
        57 => "🌦️"@,
        61 => "🌧️"@,
        63 => "🌧️"@,
        65 => "🌧️"@,
        66 => "🌧️"@,
        67 => "🌧️"@,
        71 => "🌨️"@,
        73 => "🌨️"@,
        75 => "🌨️"@,
        77 => "🌨️"@,
        80 => "🌧️"@,
        81 => "🌧️"@,
        82 => "🌧️"@,
        85 => "🌨️"@,
        86 => "🌨️"@,
        95 => "⛈️"@,
        96 => "⛈️"@,
        99 => "⛈️"@,
        _ => "❓"@,
    }
}

/// The name of a WMO weather code's condition.
pub open spec fn weather_desc(code: i32) -> Seq<char> {
    match code {
        0 => "Clear"@,
        1 => "Mainly clear"@,
        2 => "Partly cloudy"@,
        3 => "Overcast"@,
        45 => "Fog"@,
        48 => "Depositing rime fog"@,
        51 => "Light drizzle"@,
        53 => "Moderate drizzle"@,
        55 => "Dense drizzle"@,
        56 => "Light freezing drizzle"@,
        57 => "Dense freezing drizzle"@,
        61 => "Slight rain"@,
        63 => "Moderate rain"@,
        65 => "Heavy rain"@,
        66 => "Light freezing rain"@,
        67 => "Heavy freezing rain"@,
        71 => "Slight snow"@,
        73 => "Moderate snow"@,
        75 => "Heavy snow"@,
        77 => "Snow grains"@,
        80 => "Slight rain showers"@,
        81 => "Moderate rain showers"@,
        82 => "Violent rain showers"@,
        85 => "Slight snow showers"@,
        86 => "Heavy snow showers"@,
        95 => "Thunderstorm"@,
        96 => "Thunderstorm with slight hail"@,
        99 => "Thunderstorm with heavy hail"@,
        _ => "Unknown"@,
    }
}

/// `s` ends with `w`.
pub open spec fn ends_with(s: Seq<char>, w: Seq<char>) -> bool {
    w.len() <= s.len() && s.skip(s.len() - w.len()) == w
}

/// Each WMO code that the reports know has a name of its own: two different known codes never
/// share a name, only code 0 is called `Clear`, only code 3 `Overcast`, and every code the
/// table does not list, and only such a code, is `Unknown`.
pub proof fn law_condition_names_distinct(c1: i32, c2: i32)
    ensures
        wmo_listed(c1) && wmo_listed(c2) && c1 != c2 ==> weather_desc(c1) != weather_desc(c2),
        weather_desc(c1) == "Clear"@ <==> c1 == 0,
        weather_desc(c1) == "Overcast"@ <==> c1 == 3,
        weather_desc(c1) == "Unknown"@ <==> !wmo_listed(c1),
{
    reveal_strlit("Clear");
    reveal_strlit("Mainly clear");
    reveal_strlit("Partly cloudy");
    reveal_strlit("Overcast");
    reveal_strlit("Fog");
    reveal_strlit("Depositing rime fog");
    reveal_strlit("Light drizzle");
    reveal_strlit("Moderate drizzle");
    reveal_strlit("Dense drizzle");
    reveal_strlit("Light freezing drizzle");
    reveal_strlit("Dense freezing drizzle");
    reveal_strlit("Slight rain");
    reveal_strlit("Moderate rain");
    reveal_strlit("Heavy rain");
    reveal_strlit("Light freezing rain");
    reveal_strlit("Heavy freezing rain");
    reveal_strlit("Slight snow");
    reveal_strlit("Moderate snow");
    reveal_strlit("Heavy snow");
    reveal_strlit("Snow grains");
    reveal_strlit("Slight rain showers");
    reveal_strlit("Moderate rain showers");
    reveal_strlit("Violent rain showers");
    reveal_strlit("Slight snow showers");
    reveal_strlit("Heavy snow showers");
    reveal_strlit("Thunderstorm");
    reveal_strlit("Thunderstorm with slight hail");
    reveal_strlit("Thunderstorm with heavy hail");
    reveal_strlit("Unknown");
    if weather_desc(c1) == weather_desc(c2) && c1 != c2 && wmo_listed(c1) && wmo_listed(c2) {
        assert(weather_desc(c1).len() == weather_desc(c2).len());
        assert(weather_desc(c1)[0] == weather_desc(c2)[0]);
        assert(weather_desc(c1)[9] == weather_desc(c2)[9]);
    }
    if weather_desc(c1) == "Clear"@ && c1 != 0 {
        assert(weather_desc(c1).len() == 5);
        assert(weather_desc(c1)[0] == 'C');
    }
    if weather_desc(c1) == "Overcast"@ && c1 != 3 {
        assert(weather_desc(c1).len() == 8);
        assert(weather_desc(c1)[0] == 'O');
    }
    if weather_desc(c1) == "Unknown"@ && wmo_listed(c1) {
        assert(weather_desc(c1).len() == 7);
        assert(weather_desc(c1)[0] == 'U');
    }
}

/// A code's name says its group: drizzle codes are named as drizzle, rain codes as rain or
/// rain showers, snow codes as snow, snow showers or snow grains, fog codes as fog,
/// thunderstorm codes as thunderstorms, and clear sky as `Clear`.
pub proof fn law_condition_names_follow_groups(c: i32)
    ensures
        wmo_listed(c) && wmo_drizzle(c) ==> ends_with(weather_desc(c), "drizzle"@),
        wmo_listed(c) && wmo_rain(c) ==> ends_with(weather_desc(c), "rain"@) || ends_with(
            weather_desc(c),
            "rain showers"@,
        ),
        wmo_listed(c) && wmo_snow(c) ==> ends_with(weather_desc(c), "snow"@) || ends_with(
            weather_desc(c),
            "snow showers"@,
        ) || weather_desc(c) == "Snow grains"@,
        wmo_fog(c) ==> ends_with(weather_desc(c), "fog"@) || weather_desc(c) == "Fog"@,
        wmo_listed(c) && wmo_thunder(c) ==> has_prefix(weather_desc(c), "Thunderstorm"@),
        wmo_clear(c) ==> weather_desc(c) == "Clear"@,
{
    reveal_strlit("Clear");
    reveal_strlit("Mainly clear");
    reveal_strlit("Partly cloudy");
    reveal_strlit("Overcast");
    reveal_strlit("Fog");
    reveal_strlit("Depositing rime fog");
    reveal_strlit("Light drizzle");
    reveal_strlit("Moderate drizzle");
    reveal_strlit("Dense drizzle");
    reveal_strlit("Light freezing drizzle");
    reveal_strlit("Dense freezing drizzle");
    reveal_strlit("Slight rain");
    reveal_strlit("Moderate rain");
    reveal_strlit("Heavy rain");
    reveal_strlit("Light freezing rain");
    reveal_strlit("Heavy freezing rain");
    reveal_strlit("Slight snow");
    reveal_strlit("Moderate snow");
    reveal_strlit("Heavy snow");
    reveal_strlit("Snow grains");
    reveal_strlit("Slight rain showers");
    reveal_strlit("Moderate rain showers");
    reveal_strlit("Violent rain showers");
    reveal_strlit("Slight snow showers");
    reveal_strlit("Heavy snow showers");
    reveal_strlit("Thunderstorm");
    reveal_strlit("Thunderstorm with slight hail");
    reveal_strlit("Thunderstorm with heavy hail");
    reveal_strlit("Unknown");
    reveal_strlit("drizzle");
    reveal_strlit("rain");
    reveal_strlit("rain showers");
    reveal_strlit("snow");
    reveal_strlit("snow showers");
    reveal_strlit("fog");
    assert("drizzle"@.len() == 7);
    assert("rain"@.len() == 4);
    assert("rain showers"@.len() == 12);
    assert("snow"@.len() == 4);
    assert("snow showers"@.len() == 12);
    assert("fog"@.len() == 3);
    assert("Thunderstorm"@.len() == 12);
    if wmo_listed(c) {
        assert(weather_desc(c).skip(weather_desc(c).len() - 7) =~= "drizzle"@ || !wmo_drizzle(c));
        if 61 <= c <= 67 {
            assert(weather_desc(c).skip(weather_desc(c).len() - 4) =~= "rain"@);
        } else if 80 <= c <= 82 {
            assert(weather_desc(c).skip(weather_desc(c).len() - 12) =~= "rain showers"@);
        }
        assert(weather_desc(c).skip(weather_desc(c).len() - 4) =~= "snow"@ || weather_desc(c).skip(
            weather_desc(c).len() - 12,
        ) =~= "snow showers"@ || weather_desc(c) == "Snow grains"@ || !wmo_snow(c));
        assert(weather_desc(c).skip(weather_desc(c).len() - 3) =~= "fog"@ || weather_desc(c)
            == "Fog"@ || !wmo_fog(c));
        assert(weather_desc(c).take(12) =~= "Thunderstorm"@ || !wmo_thunder(c));
    }
}

/// A code's icon says its group: every drizzle, rain, snow, fog and thunderstorm code shows
/// that group's icon, and the five icons differ, so rain is never shown as snow.
pub proof fn law_condition_icons_follow_groups(c: i32)
    ensures
        wmo_listed(c) && wmo_drizzle(c) ==> weather_emoji(c) == "🌦️"@,
        wmo_listed(c) && wmo_rain(c) ==> weather_emoji(c) == "🌧️"@,
        wmo_listed(c) && wmo_snow(c) ==> weather_emoji(c) == "🌨️"@,
        wmo_fog(c) ==> weather_emoji(c) == "🌫️"@,
        wmo_listed(c) && wmo_thunder(c) ==> weather_emoji(c) == "⛈️"@,
        wmo_clear(c) ==> weather_emoji(c) == "☀️"@,
        "🌦️"@ != "🌧️"@ && "🌧️"@ != "🌨️"@ && "🌨️"@ != "⛈️"@ && "🌧️"@ != "⛈️"@ && "🌦️"@
            != "🌨️"@ && "🌫️"@ != "🌧️"@ && "🌫️"@ != "🌨️"@,
{
    reveal_strlit("☀️");
    reveal_strlit("🌤️");
    reveal_strlit("⛅");
    reveal_strlit("☁️");
    reveal_strlit("🌫️");
    reveal_strlit("🌦️");
    reveal_strlit("🌧️");
    reveal_strlit("🌨️");
    reveal_strlit("⛈️");
    reveal_strlit("❓");
    assert("🌦️"@[0] != "🌧️"@[0]);
    assert("🌧️"@[0] != "🌨️"@[0]);
    assert("🌨️"@[0] != "⛈️"@[0]);
    assert("🌧️"@[0] != "⛈️"@[0]);
    assert("🌦️"@[0] != "🌨️"@[0]);
    assert("🌫️"@[0] != "🌧️"@[0]);
    assert("🌫️"@[0] != "🌨️"@[0]);
}

/// The icon and condition name of a WMO weather code; unknown codes get a question mark.
pub fn get_weather_info(code: i32) -> (r: (&'static str, &'static str))
    ensures
        r.0@ == weather_emoji(code),
        r.1@ == weather_desc(code),
{
    match code {
        0 => ("☀️", "Clear"),
        1 => ("🌤️", "Mainly clear"),
        2 => ("⛅", "Partly cloudy"),
        3 => ("☁️", "Overcast"),
        45 => ("🌫️", "Fog"),
        48 => ("🌫️", "Depositing rime fog"),
        51 => ("🌦️", "Light drizzle"),
        53 => ("🌦️", "Moderate drizzle"),
        55 => ("🌦️", "Dense drizzle"),
        56 => ("🌦️", "Light freezing drizzle"),
        57 => ("🌦️", "Dense freezing drizzle"),
        61 => ("🌧️", "Slight rain"),
        63 => ("🌧️", "Moderate rain"),
        65 => ("🌧️", "Heavy rain"),
        66 => ("🌧️", "Light freezing rain"),
        67 => ("🌧️", "Heavy freezing rain"),
        71 => ("🌨️", "Slight snow"),
        73 => ("🌨️", "Moderate snow"),
        75 => ("🌨️", "Heavy snow"),
        77 => ("🌨️", "Snow grains"),
        80 => ("🌧️", "Slight rain showers"),
        81 => ("🌧️", "Moderate rain showers"),
        82 => ("🌧️", "Violent rain showers"),
        85 => ("🌨️", "Slight snow showers"),
        86 => ("🌨️", "Heavy snow showers"),
        95 => ("⛈️", "Thunderstorm"),
        96 => ("⛈️", "Thunderstorm with slight hail"),
        99 => ("⛈️", "Thunderstorm with heavy hail"),
        _ => ("❓", "Unknown"),
    }
}

/// Line `line` (0 to 4) of the large banner glyph of `c`; blank for characters without one.
pub open spec fn large_glyph(c: char, line: usize) -> Seq<char> {
    match (c, line) {
        ('0', 0) => "  ███  "@,
        ('0', 1) => " ██ ██ "@,
        ('0', 2) => "██   ██"@,
        ('0', 3) => " ██ ██ "@,
        ('0', 4) => "  ███  "@,
        ('1', 0) => "   ██  "@,
        ('1', 1) => "  ███  "@,
        ('1', 2) => "   ██  "@,
        ('1', 3) => "   ██  "@,
        ('1', 4) => " █████ "@,
        ('2', 0) => "  ███  "@,
        ('2', 1) => " ██ ██ "@,
        ('2', 2) => "   ██  "@,
        ('2', 3) => "  ██   "@,
        ('2', 4) => " █████ "@,
        ('3', 0) => " ████  "@,
        ('3', 1) => "    ██ "@,
        ('3', 2) => "  ███  "@,
        ('3', 3) => "    ██ "@,
        ('3', 4) => " ████  "@,
        ('4', 0) => " ██  ██"@,
        ('4', 1) => " ██  ██"@,
        ('4', 2) => " ██████"@,
        ('4', 3) => "     ██"@,
        ('4', 4) => "     ██"@,
        ('5', 0) => " █████ "@,
        ('5', 1) => " ██    "@,
        ('5', 2) => " ████  "@,
        ('5', 3) => "    ██ "@,
        ('5', 4) => " ████  "@,
        ('6', 0) => "  ███  "@,
        ('6', 1) => " ██    "@,
        ('6', 2) => " ████  "@,
        ('6', 3) => " ██ ██ "@,
        ('6', 4) => "  ███  "@,
        ('7', 0) => " █████ "@,
        ('7', 1) => "    ██ "@,
        ('7', 2) => "   ██  "@,
        ('7', 3) => "  ██   "@,
        ('7', 4) => " ██    "@,
        ('8', 0) => "  ███  "@,
        ('8', 1) => " ██ ██ "@,
        ('8', 2) => "  ███  "@,
        ('8', 3) => " ██ ██ "@,
        ('8', 4) => "  ███  "@,
        ('9', 0) => "  ███  "@,
        ('9', 1) => " ██ ██ "@,
        ('9', 2) => "  ████ "@,
        ('9', 3) => "    ██ "@,
        ('9', 4) => "  ███  "@,
        ('-', 0) => "       "@,
        ('-', 1) => "       "@,
        ('-', 2) => " █████ "@,
        ('-', 3) => "       "@,
        ('-', 4) => "       "@,
        ('.', 0) => "       "@,
        ('.', 1) => "       "@,
        ('.', 2) => "       "@,
        ('.', 3) => "  ██   "@,
        ('.', 4) => "  ██   "@,
        ('C', 0) => "  ████ "@,
        ('C', 1) => " ██    "@,
        ('C', 2) => " ██    "@,
        ('C', 3) => " ██    "@,
        ('C', 4) => "  ████ "@,
        ('°', 0) => "  ██   "@,
        ('°', 1) => " ██ ██ "@,
        ('°', 2) => "  ██   "@,
        ('°', 3) => "       "@,
        ('°', 4) => "       "@,
        _ => "       "@,
    }
}

/// Line `line` of the large banner glyph of `c`.
pub fn get_large_char(c: char, line: usize) -> (r: &'static str)
    ensures
        r@ == large_glyph(c, line),
{
    match (c, line) {
        ('0', 0) => "  ███  ",
        ('0', 1) => " ██ ██ ",
        ('0', 2) => "██   ██",
        ('0', 3) => " ██ ██ ",
        ('0', 4) => "  ███  ",
        ('1', 0) => "   ██  ",
        ('1', 1) => "  ███  ",
        ('1', 2) => "   ██  ",
        ('1', 3) => "   ██  ",
        ('1', 4) => " █████ ",
        ('2', 0) => "  ███  ",
        ('2', 1) => " ██ ██ ",
        ('2', 2) => "   ██  ",
        ('2', 3) => "  ██   ",
        ('2', 4) => " █████ ",
        ('3', 0) => " ████  ",
        ('3', 1) => "    ██ ",
        ('3', 2) => "  ███  ",
        ('3', 3) => "    ██ ",
        ('3', 4) => " ████  ",
        ('4', 0) => " ██  ██",
        ('4', 1) => " ██  ██",
        ('4', 2) => " ██████",
        ('4', 3) => "     ██",
        ('4', 4) => "     ██",
        ('5', 0) => " █████ ",
        ('5', 1) => " ██    ",
        ('5', 2) => " ████  ",
        ('5', 3) => "    ██ ",
        ('5', 4) => " ████  ",
        ('6', 0) => "  ███  ",
        ('6', 1) => " ██    ",
        ('6', 2) => " ████  ",
        ('6', 3) => " ██ ██ ",
        ('6', 4) => "  ███  ",
        ('7', 0) => " █████ ",
        ('7', 1) => "    ██ ",
        ('7', 2) => "   ██  ",
        ('7', 3) => "  ██   ",
        ('7', 4) => " ██    ",
        ('8', 0) => "  ███  ",
        ('8', 1) => " ██ ██ ",
        ('8', 2) => "  ███  ",
        ('8', 3) => " ██ ██ ",
        ('8', 4) => "  ███  ",
        ('9', 0) => "  ███  ",
        ('9', 1) => " ██ ██ ",
        ('9', 2) => "  ████ ",
        ('9', 3) => "    ██ ",
        ('9', 4) => "  ███  ",
        ('-', 0) => "       ",
        ('-', 1) => "       ",
        ('-', 2) => " █████ ",
        ('-', 3) => "       ",
        ('-', 4) => "       ",
        ('.', 0) => "       ",
        ('.', 1) => "       ",
        ('.', 2) => "       ",
        ('.', 3) => "  ██   ",
        ('.', 4) => "  ██   ",
        ('C', 0) => "  ████ ",
        ('C', 1) => " ██    ",
        ('C', 2) => " ██    ",
        ('C', 3) => " ██    ",
        ('C', 4) => "  ████ ",
        ('°', 0) => "  ██   ",
        ('°', 1) => " ██ ██ ",
        ('°', 2) => "  ██   ",
        ('°', 3) => "       ",
        ('°', 4) => "       ",
        _ => "       ",
    }
}


/// The five lines of the ASCII picture of a WMO weather code: sun, clouds, rain, snow,
/// thunder, or a question mark for the rest.
pub open spec fn art_lines(code: i32) -> Seq<Seq<char>> {
    if code == 0 || code == 1 {
        seq!["   \\   /   "@, "    .-.    "@, " -- ( ) -- "@, "    '-'    "@, "   /   \\   "@]
    } else if code == 2 || code == 3 {
        seq!["   \\  /    "@, "  _ / /_   "@, " (   _  )  "@, "  '-' '-'  "@, "           "@]
    } else if (51 <= code && code <= 67) || (80 <= code && code <= 82) {
        seq!["    .-.    "@, "   (   )   "@, "  (_) (_)  "@, "   / / /   "@, "  / / /    "@]
    } else if (71 <= code && code <= 77) || (85 <= code && code <= 86) {
        seq!["    .-.    "@, "   (   )   "@, "  (_) (_)  "@, "  * * * *  "@, " * * * *   "@]
    } else if 95 <= code && code <= 99 {
        seq!["    .-.    "@, "   (   )   "@, "  (_) (_)  "@, "   ⚡  ⚡    "@, "    ⚡  ⚡   "@]
    } else {
        seq!["    .-.    "@, "   ( ? )   "@, "    '-'    "@, "           "@, "           "@]
    }
}

/// The picture of a code shows its group: rain and drizzle codes draw rain, snow codes
/// snowflakes, thunderstorm codes lightning and clear sky the sun, and these pictures
/// differ, so rain is never drawn as snow.
pub proof fn law_pictures_follow_groups(c: i32)
    ensures
        wmo_rain(c) || wmo_drizzle(c) ==> art_lines(c)[3] == "   / / /   "@,
        wmo_snow(c) ==> art_lines(c)[3] == "  * * * *  "@,
        wmo_thunder(c) ==> art_lines(c)[3] == "   ⚡  ⚡    "@,
        wmo_clear(c) ==> art_lines(c)[2] == " -- ( ) -- "@,
        "   / / /   "@ != "  * * * *  "@ && "   / / /   "@ != "   ⚡  ⚡    "@ && "  * * * *  "@
            != "   ⚡  ⚡    "@,
{
    reveal_strlit("   / / /   ");
    reveal_strlit("  * * * *  ");
    reveal_strlit("   ⚡  ⚡    ");
    assert("   / / /   "@[3] != "  * * * *  "@[3]);
    assert("   / / /   "@[3] != "   ⚡  ⚡    "@[3]);
    assert("  * * * *  "@[3] != "   ⚡  ⚡    "@[3]);
}

/// The ASCII picture of a WMO weather code, line by line.
pub fn get_ascii_art(code: i32) -> (r: Vec<&'static str>)
    ensures
        r@.map_values(|s: &'static str| s@) == art_lines(code),
{
    let r: Vec<&'static str> = if code == 0 || code == 1 {
        vec!["   \\   /   ", "    .-.    ", " -- ( ) -- ", "    '-'    ", "   /   \\   "]
    } else if code == 2 || code == 3 {
        vec!["   \\  /    ", "  _ / /_   ", " (   _  )  ", "  '-' '-'  ", "           "]
    } else if (51 <= code && code <= 67) || (80 <= code && code <= 82) {
        vec!["    .-.    ", "   (   )   ", "  (_) (_)  ", "   / / /   ", "  / / /    "]
    } else if (71 <= code && code <= 77) || (85 <= code && code <= 86) {
        vec!["    .-.    ", "   (   )   ", "  (_) (_)  ", "  * * * *  ", " * * * *   "]
    } else if 95 <= code && code <= 99 {
        vec!["    .-.    ", "   (   )   ", "  (_) (_)  ", "   ⚡  ⚡    ", "    ⚡  ⚡   "]
    } else {
        vec!["    .-.    ", "   ( ? )   ", "    '-'    ", "           ", "           "]
    };
    assert(r@.map_values(|s: &'static str| s@) =~= art_lines(code));
    r
}

/// The eight compass points, clockwise from north.
pub open spec fn compass_points() -> Seq<Seq<char>> {
    seq!["N"@, "NE"@, "E"@, "SE"@, "S"@, "SW"@, "W"@, "NW"@]
}

/// `s` with its ASCII capitals in lower case.
pub open spec fn ascii_lower(s: Seq<char>) -> Seq<char> {
    s.map_values(|c: char| if 'A' <= c && c <= 'Z' { ((c as u32) + 32) as char } else { c })
}

/// The eight compass points agree across the tables that use them: the report's point for
/// `i` steps of 45° is the NWS direction of sector `2 i` (of sixteen) and, in lower case, the
/// Yandex direction of sector `i` (of eight).
pub proof fn law_compass_points_agree(i: int)
    requires
        0 <= i < 8,
    ensures
        nws_sector(compass_points()[i]) == 2 * i,
        yandex_sector(ascii_lower(compass_points()[i])) == i,
{
    reveal_strlit("N");
    assert("N"@.len() == 1 && "N"@[0] == 'N');
    reveal_strlit("NNE");
    assert("NNE"@.len() == 3 && "NNE"@[0] == 'N' && "NNE"@[1] == 'N' && "NNE"@[2] == 'E');
    reveal_strlit("NE");
    assert("NE"@.len() == 2 && "NE"@[0] == 'N' && "NE"@[1] == 'E');
    reveal_strlit("ENE");
    assert("ENE"@.len() == 3 && "ENE"@[0] == 'E' && "ENE"@[1] == 'N' && "ENE"@[2] == 'E');
    reveal_strlit("E");
    assert("E"@.len() == 1 && "E"@[0] == 'E');
    reveal_strlit("ESE");
    assert("ESE"@.len() == 3 && "ESE"@[0] == 'E' && "ESE"@[1] == 'S' && "ESE"@[2] == 'E');
    reveal_strlit("SE");
    assert("SE"@.len() == 2 && "SE"@[0] == 'S' && "SE"@[1] == 'E');
    reveal_strlit("SSE");
    assert("SSE"@.len() == 3 && "SSE"@[0] == 'S' && "SSE"@[1] == 'S' && "SSE"@[2] == 'E');
    reveal_strlit("S");
    assert("S"@.len() == 1 && "S"@[0] == 'S');
    reveal_strlit("SSW");
    assert("SSW"@.len() == 3 && "SSW"@[0] == 'S' && "SSW"@[1] == 'S' && "SSW"@[2] == 'W');
    reveal_strlit("SW");
    assert("SW"@.len() == 2 && "SW"@[0] == 'S' && "SW"@[1] == 'W');
    reveal_strlit("WSW");
    assert("WSW"@.len() == 3 && "WSW"@[0] == 'W' && "WSW"@[1] == 'S' && "WSW"@[2] == 'W');
    reveal_strlit("W");
    assert("W"@.len() == 1 && "W"@[0] == 'W');
    reveal_strlit("WNW");
    assert("WNW"@.len() == 3 && "WNW"@[0] == 'W' && "WNW"@[1] == 'N' && "WNW"@[2] == 'W');
    reveal_strlit("NW");
    assert("NW"@.len() == 2 && "NW"@[0] == 'N' && "NW"@[1] == 'W');
    reveal_strlit("NNW");
    assert("NNW"@.len() == 3 && "NNW"@[0] == 'N' && "NNW"@[1] == 'N' && "NNW"@[2] == 'W');
    reveal_strlit("n");
    assert("n"@.len() == 1 && "n"@[0] == 'n');
    reveal_strlit("ne");
    assert("ne"@.len() == 2 && "ne"@[0] == 'n' && "ne"@[1] == 'e');
    reveal_strlit("e");
    assert("e"@.len() == 1 && "e"@[0] == 'e');
    reveal_strlit("se");
    assert("se"@.len() == 2 && "se"@[0] == 's' && "se"@[1] == 'e');
    reveal_strlit("s");
    assert("s"@.len() == 1 && "s"@[0] == 's');
    reveal_strlit("sw");
    assert("sw"@.len() == 2 && "sw"@[0] == 's' && "sw"@[1] == 'w');
    reveal_strlit("w");
    assert("w"@.len() == 1 && "w"@[0] == 'w');
    reveal_strlit("nw");
    assert("nw"@.len() == 2 && "nw"@[0] == 'n' && "nw"@[1] == 'w');
    let p = compass_points()[i];
    if i == 0 {
        assert(ascii_lower(p) =~= "n"@);
    } else if i == 1 {
        assert(ascii_lower(p) =~= "ne"@);
    } else if i == 2 {
        assert(ascii_lower(p) =~= "e"@);
    } else if i == 3 {
        assert(ascii_lower(p) =~= "se"@);
    } else if i == 4 {
        assert(ascii_lower(p) =~= "s"@);
    } else if i == 5 {
        assert(ascii_lower(p) =~= "sw"@);
    } else if i == 6 {
        assert(ascii_lower(p) =~= "w"@);
    } else {
        assert(ascii_lower(p) =~= "nw"@);
    }
}

/// The compass point of a wind direction that rounds to `steps` steps of 45°.
pub fn compass_point(steps: u64) -> (r: &'static str)
    ensures
        r@ == compass_points()[(steps % 8) as int],
{
    let v: Vec<&'static str> = vec!["N", "NE", "E", "SE", "S", "SW", "W", "NW"];
    assert(v@.map_values(|s: &'static str| s@) =~= compass_points());
    let r = v[(steps % 8) as usize];
    assert(v@.map_values(|s: &'static str| s@)[(steps % 8) as int] == r@);
    r
}

/// The parts of a place's heading that are not empty: name, region, country.
pub open spec fn place_parts(name: Seq<char>, admin1: Seq<char>, country: Seq<char>) -> Seq<Seq<char>> {
    (if name.len() > 0 { seq![name] } else { Seq::empty() }) + (if admin1.len() > 0 {
        seq![admin1]
    } else {
        Seq::empty()
    }) + (if country.len() > 0 { seq![country] } else { Seq::empty() })
}

/// The heading of a place: its non-empty name, region and country, separated by commas.
pub fn place_heading(name: &str, admin1: &str, country: &str) -> (r: String)
    ensures
        r@ == join(place_parts(name@, admin1@, country@), ", "@),
{
    let mut parts: Vec<String> = Vec::new();
    if !name.is_empty() {
        parts.push(name.to_owned());
    }
    if !admin1.is_empty() {
        parts.push(admin1.to_owned());
    }
    if !country.is_empty() {
        parts.push(country.to_owned());
    }
    assert(views(parts@) =~= place_parts(name@, admin1@, country@));
    proof {
        reveal_strlit(", ");
    }
    join_strs(&parts, ", ")
}

/// The English name of a month, as `%B` writes it.
pub open spec fn month_name(m: u32) -> Seq<char> {
    match m {
        1 => "January"@,
        2 => "February"@,
        3 => "March"@,
        4 => "April"@,
        5 => "May"@,
        6 => "June"@,
        7 => "July"@,
        8 => "August"@,
        9 => "September"@,
        10 => "October"@,
        11 => "November"@,
        _ => "December"@,
    }
}

/// Each month has a name of its own: two different months never share a name, and each name
/// starts with a capital letter.
pub proof fn law_month_names_distinct(m1: u32, m2: u32)
    ensures
        1 <= m1 <= 12 && 1 <= m2 <= 12 && m1 != m2 ==> month_name(m1) != month_name(m2),
        'A' <= month_name(m1)[0] <= 'Z',
{
    reveal_strlit("January");
    reveal_strlit("February");
    reveal_strlit("March");
    reveal_strlit("April");
    reveal_strlit("May");
    reveal_strlit("June");
    reveal_strlit("July");
    reveal_strlit("August");
    reveal_strlit("September");
    reveal_strlit("October");
    reveal_strlit("November");
    reveal_strlit("December");
    if 1 <= m1 <= 12 && 1 <= m2 <= 12 && m1 != m2 && month_name(m1) == month_name(m2) {
        assert(month_name(m1).len() == month_name(m2).len());
        assert(month_name(m1)[0] == month_name(m2)[0]);
        assert(month_name(m1)[2] == month_name(m2)[2]);
    }
}

/// The English name of a month (1 to 12).
pub fn month_name_of(m: u32) -> (r: &'static str)
    ensures
        r@ == month_name(m),
{
    match m {
        1 => "January",
        2 => "February",
        3 => "March",
        4 => "April",
        5 => "May",
        6 => "June",
        7 => "July",
        8 => "August",
        9 => "September",
        10 => "October",
        11 => "November",
        _ => "December",
    }
}

/// A date as `%B %d` writes it: month name and two-digit day.
pub open spec fn month_day_text(d: CalendarDate) -> Seq<char> {
    month_name(d.month) + " "@ + zero_padded(decimal(d.day as nat), 2)
}

/// A date as `%B %d, %Y` writes it.
pub open spec fn long_date_text(d: CalendarDate) -> Seq<char> {
    month_day_text(d) + ", "@ + year_text(d.year as int)
}

/// The date range of a report: one long date when both ends read as the same date, both
/// dates when they differ, and the raw texts joined by `to` when either does not read as a
/// date.
pub open spec fn range_text(start: Seq<char>, end: Seq<char>) -> Seq<char> {
    match (ymd_parse(start), ymd_parse(end)) {
        (Ok(s), Ok(e)) => if s == e {
            long_date_text(s)
        } else {
            month_day_text(s) + " - "@ + long_date_text(e)
        },
        _ => start + " to "@ + end,
    }
}

/// Writes a date as `%B %d`.
fn month_day_str(d: CalendarDate) -> (r: String)
    ensures
        r@ == month_day_text(d),
{
    let mut r = month_name_of(d.month).to_owned();
    r.append(" ");
    let dd = padded_decimal(d.day as u64, 2);
    r.append(dd.as_str());
    proof {
        reveal_strlit(" ");
    }
    r
}

/// Writes a date as `%B %d, %Y`.
fn long_date_str(d: CalendarDate) -> (r: String)
    ensures
        r@ == long_date_text(d),
{
    let mut r = month_day_str(d);
    r.append(", ");
    let y = format_year(d.year);
    r.append(y.as_str());
    proof {
        reveal_strlit(", ");
    }
    r
}

/// The date range of a report, from its first and last day's texts.
pub fn date_range_text(start: &str, end: &str) -> (r: String)
    ensures
        r@ == range_text(start@, end@),
{
    proof {
        reveal_strlit(" - ");
        reveal_strlit(" to ");
    }
    match (parse_ymd(start), parse_ymd(end)) {
        (Ok(s), Ok(e)) => {
            if s == e {
                long_date_str(s)
            } else {
                let mut r = month_day_str(s);
                r.append(" - ");
                let l = long_date_str(e);
                r.append(l.as_str());
                r
            }
        },
        _ => {
            let mut r = start.to_owned();
            r.append(" to ");
            r.append(end);
            r
        },
    }
}

/// The label of a report's kind of data.
pub open spec fn kind_label(data_type: Seq<char>) -> Seq<char> {
    if data_type == "historical"@ {
        "Historical Data"@
    } else if data_type == "mixed"@ {
        "Historical + Forecast"@
    } else {
        "Forecast"@
    }
}

/// The label of a report's kind of data, from the kind's name.
pub fn data_type_label(data_type: &str) -> (r: &'static str)
    ensures
        r@ == kind_label(data_type@),
{
    let d = chars_of(data_type);
    let h = chars_of("historical");
    let m = chars_of("mixed");
    proof {
        reveal_strlit("historical");
        reveal_strlit("mixed");
    }
    if eq_chars(&d, &h) {
        "Historical Data"
    } else if eq_chars(&d, &m) {
        "Historical + Forecast"
    } else {
        "Forecast"
    }
}

/// The line that heads a report with its date range and kind.
pub fn date_range_line(start: &str, end: &str, data_type: &str) -> (r: String)
    ensures
        r@ == "📅 \x1b[1m"@ + range_text(start@, end@) + "\x1b[0m ("@ + kind_label(data_type@) + ")"@,
{
    let mut r = "📅 \x1b[1m".to_owned();
    let t = date_range_text(start, end);
    r.append(t.as_str());
    r.append("\x1b[0m (");
    r.append(data_type_label(data_type));
    r.append(")");
    r
}


/// Whether an hourly table spans several days: its first and last stamps differ in their
/// first ten bytes, the date.
pub fn spans_days(first: &str, last: &str) -> (b: bool)
    requires
        is_char_boundary(first.spec_bytes(), 10),
        is_char_boundary(last.spec_bytes(), 10),
    ensures
        b == (first.spec_bytes().take(10) != last.spec_bytes().take(10)),
{
    proof {
        encode_utf8_valid_utf8(first@);
        encode_utf8_valid_utf8(last@);
    }
    let a = first.as_bytes();
    let b = last.as_bytes();
    let mut i: usize = 0;
    while i < 10
        invariant
            i <= 10,
            a@ == first.spec_bytes(),
            b@ == last.spec_bytes(),
            a@.len() >= 10,
            b@.len() >= 10,
            forall|k: int| 0 <= k < i ==> a@[k] == b@[k],
        decreases 10 - i,
    {
        if a[i] != b[i] {
            assert(first.spec_bytes().take(10)[i as int] != last.spec_bytes().take(10)[i as int]);
            return true;
        }
        i = i + 1;
    }
    assert(first.spec_bytes().take(10) =~= last.spec_bytes().take(10));
    false
}

/// What `NaiveDateTime::parse_from_str(s, "%Y-%m-%dT%H:%M")` reads from `s`: the day of
/// month, the hour and the minute, or nothing where it fails.
pub uninterp spec fn minute_stamp(s: Seq<char>) -> Option<(u32, u32, u32)>;

/// Calls `chrono::NaiveDateTime::parse_from_str(s, "%Y-%m-%dT%H:%M")` and reads the day of
/// month, hour and minute of the result. The contract names the result (`minute_stamp`) and
/// states the ranges that chrono's `day`, `hour` and `minute` document; the parsing rules are
/// not stated.
#[verifier::external_body]
pub(crate) fn parse_minute_stamp(s: &str) -> (r: Option<(u32, u32, u32)>)
    ensures
        r == minute_stamp(s@),
        r matches Some(t) ==> 1 <= t.0 <= 31 && t.1 < 24 && t.2 < 60,
{
    match chrono::NaiveDateTime::parse_from_str(s, "%Y-%m-%dT%H:%M") {
        Ok(dt) => Some((dt.date().day(), dt.time().hour(), dt.time().minute())),
        Err(_) => None,
    }
}

/// Two digits, as `{:02}` writes a number below 100.
pub open spec fn two(n: u32) -> Seq<char> {
    zero_padded(decimal(n as nat), 2)
}

/// The stamp as the table reads it: every `Z` removed, and `:00` added to a stamp of 13
/// bytes (its length as `str::len` reports it), which stops at the hour.
pub open spec fn table_stamp(time: Seq<char>) -> Seq<char> {
    let cleaned = remove_char(time, 'Z');
    if encode_utf8(cleaned).len() as usize == 13 {
        cleaned + ":00"@
    } else {
        cleaned
    }
}

/// The time column of a row: `DD HH:MM` over several days, `HH:MM` within one, and the raw
/// stamp when it does not read as a date and time.
pub open spec fn time_cell(time: Seq<char>, multi_day: bool) -> Seq<char> {
    match minute_stamp(table_stamp(time)) {
        Some((d, h, m)) => if multi_day {
            two(d) + " "@ + two(h) + ":"@ + two(m)
        } else {
            two(h) + ":"@ + two(m)
        },
        None => time,
    }
}

/// The time column of a row of the hourly table.
pub fn time_label(time: &str, multi_day: bool) -> (r: String)
    ensures
        r@ == time_cell(time@, multi_day),
{
    let tc = chars_of(time);
    let cleaned_chars = remove_char_chars(&tc, 'Z');
    let mut stamp = string_of(&cleaned_chars);
    proof {
        reveal_strlit(":00");
        reveal_strlit(" ");
        reveal_strlit(":");
    }
    assert(stamp@ == remove_char(time@, 'Z'));
    let n = stamp.as_str().len();
    if n == 13 {
        stamp.append(":00");
    }
    assert(stamp@ == table_stamp(time@));
    match parse_minute_stamp(stamp.as_str()) {
        Some((d, h, m)) => {
            let mut r = if multi_day {
                let mut p = padded_decimal(d as u64, 2);
                p.append(" ");
                p
            } else {
                String::new()
            };
            let hh = padded_decimal(h as u64, 2);
            r.append(hh.as_str());
            r.append(":");
            let mm = padded_decimal(m as u64, 2);
            r.append(mm.as_str());
            r
        },
        None => time.to_owned(),
    }
}

/// How many rows the table shows of `len` hours with room for `max_rows`, and whether some
/// are left out.
pub fn table_extent(len: usize, max_rows: usize) -> (r: (usize, bool))
    ensures
        r.0 == (if max_rows < len { max_rows } else { len }),
        r.1 == (len > max_rows),
{
    (if max_rows < len { max_rows } else { len }, len > max_rows)
}

/// The note under a table that leaves hours out.
pub fn more_hours_note(max_rows: usize, len: usize) -> (r: String)
    ensures
        r@ == "\x1b[2mShowing first "@ + decimal(max_rows as nat) + " of "@ + decimal(len as nat)
            + " hours. Use --all-hours to see all.\x1b[0m"@,
{
    let mut r = "\x1b[2mShowing first ".to_owned();
    let a = decimal_str(max_rows as u64);
    r.append(a.as_str());
    r.append(" of ");
    let b = decimal_str(len as u64);
    r.append(b.as_str());
    r.append(" hours. Use --all-hours to see all.\x1b[0m");
    r
}

/// The advice printed under an error, chosen from the error's lowercase text.
pub open spec fn advice_for(lower: Seq<char>) -> Seq<char> {
    if contains_seq(lower, "date must be in yyyy-mm-dd format"@) || contains_seq(lower, "date"@) {
        "Use the correct ISO format. Example: '--from-date 2026-05-21'"@
    } else if contains_seq(lower, "otomatik tespit edilemedi"@) || contains_seq(
        lower,
        "location query could not be resolved"@,
    ) || contains_seq(lower, "cihaz konumu"@) || contains_seq(lower, "no geocoding results"@)
        || contains_seq(lower, "girilmedi"@) {
        "The automatic geocoding system could not identify your location. Provide a city name directly. Example: 'weather Istanbul'"@
    } else if contains_seq(lower, "offline"@) || contains_seq(lower, "dns error"@) || contains_seq(
        lower,
        "connect"@,
    ) || contains_seq(lower, "timeout"@) || contains_seq(lower, "network"@) {
        "An internet connection error occurred. Check your network or run without network-dependent flags."@
    } else if contains_seq(lower, "api key"@) || contains_seq(lower, "unauthorized"@) {
        "An API key issue was encountered. Verify your configuration in '~/.config/weather_oz/config.json' or set the appropriate environment variables."@
    } else {
        "Please double check your command arguments or run 'weather --help' for details."@
    }
}

/// Whether `p` occurs in `s`.
fn has(s: &Vec<char>, p: &str) -> (b: bool)
    ensures
        b == contains_seq(s@, p@),
{
    let pc = chars_of(p);
    contains_chars(s, &pc)
}

/// The advice for an error message.
pub fn error_advice(error_msg: &str) -> (r: &'static str)
    ensures
        r@ == advice_for(lowercase(error_msg@)),
{
    let low = to_lowercase(error_msg);
    let l = chars_of(low.as_str());
    if has(&l, "date must be in yyyy-mm-dd format") || has(&l, "date") {
        "Use the correct ISO format. Example: '--from-date 2026-05-21'"
    } else if has(&l, "otomatik tespit edilemedi") || has(&l, "location query could not be resolved")
        || has(&l, "cihaz konumu") || has(&l, "no geocoding results") || has(&l, "girilmedi") {
        "The automatic geocoding system could not identify your location. Provide a city name directly. Example: 'weather Istanbul'"
    } else if has(&l, "offline") || has(&l, "dns error") || has(&l, "connect") || has(
        &l,
        "timeout",
    ) || has(&l, "network") {
        "An internet connection error occurred. Check your network or run without network-dependent flags."
    } else if has(&l, "api key") || has(&l, "unauthorized") {
        "An API key issue was encountered. Verify your configuration in '~/.config/weather_oz/config.json' or set the appropriate environment variables."
    } else {
        "Please double check your command arguments or run 'weather --help' for details."
    }
}

/// `s` padded with spaces on the right to `width` characters, as `{:<width$}` writes it.
pub open spec fn pad_right(s: Seq<char>, width: nat) -> Seq<char> {
    if s.len() >= width {
        s
    } else {
        s + Seq::new((width - s.len()) as nat, |i: int| ' ')
    }
}

/// `c` repeated `n` times.
pub open spec fn repeat_char(c: char, n: nat) -> Seq<char> {
    Seq::new(n, |i: int| c)
}

/// `s` padded with spaces on the right to `width` characters.
pub fn pad_right_str(s: &str, width: usize) -> (r: String)
    ensures
        r@ == pad_right(s@, width as nat),
{
    let v = chars_of(s);
    let mut r = s.to_owned();
    if v.len() < width {
        let mut i: usize = v.len();
        while i < width
            invariant
                v.len() <= i <= width,
                r@ == s@ + Seq::new((i - v.len()) as nat, |k: int| ' '),
            decreases width - i,
        {
            r.push(' ');
            i = i + 1;
            assert(r@ =~= s@ + Seq::new((i - v.len()) as nat, |k: int| ' '));
        }
    }
    r
}

/// `c` repeated `n` times, as a string.
pub fn repeat_str(c: char, n: usize) -> (r: String)
    ensures
        r@ == repeat_char(c, n as nat),
{
    let mut r = String::new();
    let mut i: usize = 0;
    while i < n
        invariant
            i <= n,
            r@ == repeat_char(c, i as nat),
        decreases n - i,
    {
        r.push(c);
        i = i + 1;
        assert(r@ =~= repeat_char(c, i as nat));
    }
    r
}

/// The error line of the error block.
pub open spec fn error_line(msg: Seq<char>) -> Seq<char> {
    "🚨 ERROR: "@ + msg
}

/// The advice line of the error block.
pub open spec fn advice_line(msg: Seq<char>) -> Seq<char> {
    "💡 SUGGESTION: "@ + advice_for(lowercase(msg))
}

/// The inner width of the error block: the longer of its two lines, and at least 60.
pub open spec fn block_width(msg: Seq<char>) -> nat {
    let a = error_line(msg).len();
    let b = advice_line(msg).len();
    let m = if a >= b { a } else { b };
    if m >= 60 { m } else { 60 }
}

/// The five lines of the framed error block that reports `msg` with its advice.
pub open spec fn error_block_lines(msg: Seq<char>) -> Seq<Seq<char>> {
    let w = block_width(msg);
    let bar = repeat_char('═', w + 2);
    seq![
        "\x1b[1;31m╔"@ + bar + "╗\x1b[0m"@,
        "\x1b[1;31m║\x1b[0m  \x1b[1;37m"@ + pad_right(error_line(msg), w) + "\x1b[0m  \x1b[1;31m║\x1b[0m"@,
        "\x1b[1;31m╠"@ + bar + "╣\x1b[0m"@,
        "\x1b[1;31m║\x1b[0m  \x1b[1;32m"@ + pad_right(advice_line(msg), w) + "\x1b[0m  \x1b[1;31m║\x1b[0m"@,
        "\x1b[1;31m╚"@ + bar + "╝\x1b[0m"@,
    ]
}

/// The framed error block for `msg`, line by line.
pub fn error_block(msg: &str) -> (r: Vec<String>)
    ensures
        views(r@) == error_block_lines(msg@),
{
    let mut err = "🚨 ERROR: ".to_owned();
    err.append(msg);
    let mut sugg = "💡 SUGGESTION: ".to_owned();
    sugg.append(error_advice(msg));
    let a = chars_of(err.as_str()).len();
    let b = chars_of(sugg.as_str()).len();
    let m = if a >= b { a } else { b };
    let w = if m >= 60 { m } else { 60 };
    assert(w == block_width(msg@));
    let mut bar = repeat_str('═', w);
    bar.push('═');
    bar.push('═');
    assert(bar@ =~= repeat_char('═', (w + 2) as nat));
    let mut l1 = "\x1b[1;31m╔".to_owned();
    l1.append(bar.as_str());
    l1.append("╗\x1b[0m");
    let mut l2 = "\x1b[1;31m║\x1b[0m  \x1b[1;37m".to_owned();
    let pe = pad_right_str(err.as_str(), w);
    l2.append(pe.as_str());
    l2.append("\x1b[0m  \x1b[1;31m║\x1b[0m");
    let mut l3 = "\x1b[1;31m╠".to_owned();
    l3.append(bar.as_str());
    l3.append("╣\x1b[0m");
    let mut l4 = "\x1b[1;31m║\x1b[0m  \x1b[1;32m".to_owned();
    let ps = pad_right_str(sugg.as_str(), w);
    l4.append(ps.as_str());
    l4.append("\x1b[0m  \x1b[1;31m║\x1b[0m");
    let mut l5 = "\x1b[1;31m╚".to_owned();
    l5.append(bar.as_str());
    l5.append("╝\x1b[0m");
    let r = vec![l1, l2, l3, l4, l5];
    assert(views(r@) =~= error_block_lines(msg@));
    r
}

/// The error block is a closed frame: its three bars and its two framed lines have the same
/// width, and that width is never below 60 characters inside the frame.
pub proof fn law_error_block_is_square(msg: Seq<char>)
    ensures
        block_width(msg) >= 60,
        pad_right(error_line(msg), block_width(msg)).len() == block_width(msg),
        pad_right(advice_line(msg), block_width(msg)).len() == block_width(msg),
        repeat_char('═', block_width(msg) + 2).len() == block_width(msg) + 2,
{
}


/// The layouts of a report.
#[derive(Clone, Copy, Debug, PartialEq, Eq, Structural)]
pub enum Layout {
    Compact,
    Inline,
    Json,
    Emoji,
    AsciiBanner,
    Sparkline,
    BorderedCard,
    Markdown,
    HtmlPreview,
    /// The location and date lines with the hourly table, for any other mode name.
    Table,
}

/// The layout that a lowercase mode name selects.
pub open spec fn layout_named(lower: Seq<char>) -> Layout {
    if lower == "compact"@ {
        Layout::Compact
    } else if lower == "inline"@ {
        Layout::Inline
    } else if lower == "json"@ {
        Layout::Json
    } else if lower == "emoji"@ {
        Layout::Emoji
    } else if lower == "ascii-banner"@ {
        Layout::AsciiBanner
    } else if lower == "sparkline"@ {
        Layout::Sparkline
    } else if lower == "bordered-card"@ {
        Layout::BorderedCard
    } else if lower == "markdown"@ {
        Layout::Markdown
    } else if lower == "html-preview"@ {
        Layout::HtmlPreview
    } else {
        Layout::Table
    }
}

/// The layout of each command-line mode: the hourly table for `default`, and the layout of
/// the same name for every other mode.
pub open spec fn mode_layout(m: Mode) -> Layout {
    match m {
        Mode::Default => Layout::Table,
        Mode::Compact => Layout::Compact,
        Mode::Inline => Layout::Inline,
        Mode::Json => Layout::Json,
        Mode::Emoji => Layout::Emoji,
        Mode::AsciiBanner => Layout::AsciiBanner,
        Mode::Sparkline => Layout::Sparkline,
        Mode::BorderedCard => Layout::BorderedCard,
        Mode::Markdown => Layout::Markdown,
        Mode::HtmlPreview => Layout::HtmlPreview,
    }
}

/// Every mode's name selects that mode's layout, and only `default` falls to the table.
pub proof fn law_mode_names_select_their_layouts(m: Mode)
    ensures
        layout_named(mode_name(m)) == mode_layout(m),
        layout_named(mode_name(m)) == Layout::Table <==> m == Mode::Default,
{
    reveal_strlit("default");
    reveal_strlit("compact");
    reveal_strlit("inline");
    reveal_strlit("json");
    reveal_strlit("emoji");
    reveal_strlit("ascii-banner");
    reveal_strlit("sparkline");
    reveal_strlit("bordered-card");
    reveal_strlit("markdown");
    reveal_strlit("html-preview");
    law_mode_names_distinct(m, Mode::Default);
    law_mode_names_distinct(m, Mode::Compact);
    law_mode_names_distinct(m, Mode::Inline);
    law_mode_names_distinct(m, Mode::Json);
    law_mode_names_distinct(m, Mode::Emoji);
    law_mode_names_distinct(m, Mode::AsciiBanner);
    law_mode_names_distinct(m, Mode::Sparkline);
    law_mode_names_distinct(m, Mode::BorderedCard);
    law_mode_names_distinct(m, Mode::Markdown);
    law_mode_names_distinct(m, Mode::HtmlPreview);
}

/// The layout that the mode name `mode` selects, compared in lowercase.
pub fn layout_for(mode: &str) -> (r: Layout)
    ensures
        r == layout_named(lowercase(mode@)),
{
    let low = to_lowercase(mode);
    let l = chars_of(low.as_str());
    let names: Vec<&str> = vec![
        "compact",
        "inline",
        "json",
        "emoji",
        "ascii-banner",
        "sparkline",
        "bordered-card",
        "markdown",
        "html-preview",
    ];
    let layouts: Vec<Layout> = vec![
        Layout::Compact,
        Layout::Inline,
        Layout::Json,
        Layout::Emoji,
        Layout::AsciiBanner,
        Layout::Sparkline,
        Layout::BorderedCard,
        Layout::Markdown,
        Layout::HtmlPreview,
    ];
    proof {
        reveal_strlit("compact");
        reveal_strlit("inline");
        reveal_strlit("json");
        reveal_strlit("emoji");
        reveal_strlit("ascii-banner");
        reveal_strlit("sparkline");
        reveal_strlit("bordered-card");
        reveal_strlit("markdown");
        reveal_strlit("html-preview");
    }
    let mut i: usize = 0;
    while i < names.len()
        invariant
            i <= names.len(),
            names.len() == 9,
            layouts.len() == 9,
            names@ == seq!["compact", "inline", "json", "emoji", "ascii-banner", "sparkline", "bordered-card", "markdown", "html-preview"],
            layouts@ == seq![Layout::Compact, Layout::Inline, Layout::Json, Layout::Emoji, Layout::AsciiBanner, Layout::Sparkline, Layout::BorderedCard, Layout::Markdown, Layout::HtmlPreview],
            l@ == lowercase(mode@),
            forall|j: int| 0 <= j < i ==> names@[j]@ != l@,
        decreases names.len() - i,
    {
        let n = chars_of(names[i]);
        if eq_chars(&n, &l) {
            return layouts[i];
        }
        i = i + 1;
    }
    Layout::Table
}

/// Line `line` of the large banner that spells `t`: the glyph lines of its characters, side
/// by side.
pub open spec fn banner_line(t: Seq<char>, line: usize) -> Seq<char>
    decreases t.len(),
{
    if t.len() == 0 {
        Seq::empty()
    } else {
        banner_line(t.drop_last(), line) + large_glyph(t.last(), line)
    }
}

/// The five lines of the large banner that spells `text`.
pub fn banner_lines(text: &str) -> (r: Vec<String>)
    ensures
        r.len() == 5,
        forall|l: int| 0 <= l < 5 ==> (#[trigger] r@[l])@ == banner_line(text@, l as usize),
{
    let t = chars_of(text);
    let mut r: Vec<String> = Vec::new();
    let mut line: usize = 0;
    while line < 5
        invariant
            line <= 5,
            t@ == text@,
            r.len() == line,
            forall|l: int| 0 <= l < line ==> (#[trigger] r@[l])@ == banner_line(text@, l as usize),
        decreases 5 - line,
    {
        let mut s = String::new();
        let mut i: usize = 0;
        while i < t.len()
            invariant
                i <= t.len(),
                s@ == banner_line(t@.take(i as int), line),
            decreases t.len() - i,
        {
            assert(t@.take(i + 1).drop_last() =~= t@.take(i as int));
            s.append(get_large_char(t[i], line));
            i = i + 1;
        }
        assert(t@.take(t.len() as int) =~= t@);
        r.push(s);
        line = line + 1;
    }
    r
}

/// The frame of the bordered card for a place: its heading line and its inner width.
pub open spec fn card_heading(name: Seq<char>, country: Seq<char>) -> Seq<char> {
    "║  Weather Card: "@ + name + ", "@ + country + "  ║"@
}

/// The frame lines and widths of the bordered card: the heading, the top, divider and bottom
/// bars, and the inner width, two characters less than the heading's.
pub struct CardFrame {
    pub heading: String,
    pub top: String,
    pub divider: String,
    pub bottom: String,
    pub width: usize,
}

/// The frame of the bordered card for a place.
pub fn card_frame(name: &str, country: &str) -> (r: CardFrame)
    ensures
        r.heading@ == card_heading(name@, country@),
        r.width == card_heading(name@, country@).len() - 2,
        r.top@ == "╔"@ + repeat_char('═', r.width as nat) + "╗"@,
        r.divider@ == "╠"@ + repeat_char('═', r.width as nat) + "╣"@,
        r.bottom@ == "╚"@ + repeat_char('═', r.width as nat) + "╝"@,
{
    let mut heading = "║  Weather Card: ".to_owned();
    heading.append(name);
    heading.append(", ");
    heading.append(country);
    heading.append("  ║");
    proof {
        reveal_strlit("║  Weather Card: ");
        reveal_strlit("  ║");
        reveal_strlit(", ");
    }
    let hc = chars_of(heading.as_str());
    let width = hc.len() - 2;
    let bar = repeat_str('═', width);
    let mut top = "╔".to_owned();
    top.append(bar.as_str());
    top.append("╗");
    let mut divider = "╠".to_owned();
    divider.append(bar.as_str());
    divider.append("╣");
    let mut bottom = "╚".to_owned();
    bottom.append(bar.as_str());
    bottom.append("╝");
    CardFrame { heading, top, divider, bottom, width }
}

/// The widths of the padding fields on the card's date, temperature, condition, wind and
/// humidity lines, for a card of inner width `width`, a condition name of `desc_len` bytes
/// and a compass point of `compass_len` bytes.
pub fn card_paddings(width: usize, desc_len: usize, compass_len: usize) -> (r: (usize, usize, usize, usize, usize))
    requires
        width >= 25,
        width >= 15 + desc_len,
        width >= 18 + compass_len,
    ensures
        r == ((width - 12) as usize, (width - 25) as usize, (width - 15 - desc_len) as usize, (width - 18
            - compass_len) as usize, (width - 15) as usize),
{
    (width - 12, width - 25, width - 15 - desc_len, width - 18 - compass_len, width - 15)
}

} // verus!
