use vstd::prelude::*;
use crate::providers::wmo::{wmo_clear, wmo_cloudy, wmo_drizzle, wmo_fog, wmo_rain, wmo_snow, wmo_thunder};

verus! {

/// The OpenWeatherMap provider.
#[derive(Clone, Copy, Debug)]
pub struct OpenWeatherMapProvider;

impl OpenWeatherMapProvider {
    /// The provider's display name.
    pub fn name(&self) -> (s: &'static str)
        ensures
            s@ == "OpenWeatherMap"@,
    {
        "OpenWeatherMap"
    }

    /// The error reported when no API key is configured for this provider.
    pub fn missing_key_message(&self) -> (s: &'static str)
        ensures
            s@ == "OpenWeatherMap API key is missing. Configure it in config.json or set WEATHER_KEY_OPENWEATHERMAP."@,
    {
        "OpenWeatherMap API key is missing. Configure it in config.json or set WEATHER_KEY_OPENWEATHERMAP."
    }
}

/// The WMO weather code for an OpenWeatherMap condition id.
pub open spec fn owm_wmo(code: i32) -> i32 {
    if (200 <= code && code <= 232) {
        95
    } else if (300 <= code && code <= 321) {
        51
    } else if (500 <= code && code <= 531) {
        63
    } else if (600 <= code && code <= 622) {
        73
    } else if (701 <= code && code <= 781) {
        45
    } else if code == 800 {
        0
    } else if (801 <= code && code <= 804) {
        3
    } else {
        0
    }
}

/// The WMO weather code for an OpenWeatherMap condition id.
pub fn owm_code_to_wmo(code: i32) -> (w: i32)
    ensures
        w == owm_wmo(code),
{
    if (200 <= code && code <= 232) {
        95
    } else if (300 <= code && code <= 321) {
        51
    } else if (500 <= code && code <= 531) {
        63
    } else if (600 <= code && code <= 622) {
        73
    } else if (701 <= code && code <= 781) {
        45
    } else if code == 800 {
        0
    } else if (801 <= code && code <= 804) {
        3
    } else {
        0
    }
}

/// OpenWeatherMap's condition groups land in the matching WMO groups: thunderstorm ids
/// (2xx) in thunderstorms, drizzle (3xx) in drizzle, rain (5xx) in rain and never in snow,
/// snow (6xx) in snow, atmosphere ids (7xx) in fog, 800 in clear sky and 801 to 804 in cloud.
pub proof fn law_owm_groups(code: i32)
    ensures
        200 <= code <= 232 ==> wmo_thunder(owm_wmo(code)),
        300 <= code <= 321 ==> wmo_drizzle(owm_wmo(code)),
        500 <= code <= 531 ==> wmo_rain(owm_wmo(code)) && !wmo_snow(owm_wmo(code)),
        600 <= code <= 622 ==> wmo_snow(owm_wmo(code)),
        701 <= code <= 781 ==> wmo_fog(owm_wmo(code)),
        code == 800 ==> wmo_clear(owm_wmo(code)),
        801 <= code <= 804 ==> wmo_cloudy(owm_wmo(code)),
{
}

} // verus!
