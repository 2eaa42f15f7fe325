use vstd::prelude::*;
use crate::providers::wmo::{wmo_clear, wmo_cloudy, wmo_fog, wmo_rain, wmo_snow, wmo_thunder};

verus! {

/// The Weatherbit provider.
#[derive(Clone, Copy, Debug)]
pub struct WeatherbitProvider;

impl WeatherbitProvider {
    /// The provider's display name.
    pub fn name(&self) -> (s: &'static str)
        ensures
            s@ == "Weatherbit"@,
    {
        "Weatherbit"
    }

    /// The error reported when no API key is configured for this provider.
    pub fn missing_key_message(&self) -> (s: &'static str)
        ensures
            s@ == "Weatherbit API key is missing. Configure it in config.json or set WEATHER_KEY_WEATHERBIT."@,
    {
        "Weatherbit API key is missing. Configure it in config.json or set WEATHER_KEY_WEATHERBIT."
    }
}

/// The WMO weather code for a Weatherbit weather code.
pub open spec fn weatherbit_wmo(code: i32) -> i32 {
    if (200 <= code && code <= 233) {
        95
    } else if (300 <= code && code <= 302) || (500 <= code && code <= 522) {
        63
    } else if (600 <= code && code <= 623) {
        73
    } else if (700 <= code && code <= 751) {
        45
    } else if code == 800 {
        0
    } else if (801 <= code && code <= 804) {
        3
    } else {
        0
    }
}

/// The WMO weather code for a Weatherbit weather code.
pub fn weatherbit_code_to_wmo(code: i32) -> (w: i32)
    ensures
        w == weatherbit_wmo(code),
{
    if (200 <= code && code <= 233) {
        95
    } else if (300 <= code && code <= 302) || (500 <= code && code <= 522) {
        63
    } else if (600 <= code && code <= 623) {
        73
    } else if (700 <= code && code <= 751) {
        45
    } else if code == 800 {
        0
    } else if (801 <= code && code <= 804) {
        3
    } else {
        0
    }
}


/// The number of hours asked of Weatherbit: a day's worth for each day wanted.
pub fn forecast_hours(days: u32) -> (r: u32)
    requires
        days * 24 <= u32::MAX,
    ensures
        r == days * 24,
{
    days * 24
}

/// Weatherbit's condition codes land in the matching WMO groups: thunderstorms (2xx) in
/// thunderstorms, drizzle and rain (300 to 302, 500 to 522) in rain, snow (6xx) in snow,
/// fog and haze (7xx) in fog, 800 in clear sky and 801 to 804 in cloud.
pub proof fn law_weatherbit_groups(code: i32)
    ensures
        200 <= code <= 233 ==> wmo_thunder(weatherbit_wmo(code)),
        300 <= code <= 302 || 500 <= code <= 522 ==> wmo_rain(weatherbit_wmo(code)),
        600 <= code <= 623 ==> wmo_snow(weatherbit_wmo(code)),
        700 <= code <= 751 ==> wmo_fog(weatherbit_wmo(code)),
        code == 800 ==> wmo_clear(weatherbit_wmo(code)),
        801 <= code <= 804 ==> wmo_cloudy(weatherbit_wmo(code)),
{
}

} // verus!
