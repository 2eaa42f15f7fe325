use vstd::prelude::*;
use crate::providers::wmo::{wmo_clear, wmo_cloudy, wmo_fog, wmo_rain, wmo_snow, wmo_thunder};

verus! {

/// The WeatherAPI provider.
#[derive(Clone, Copy, Debug)]
pub struct WeatherApiProvider;

impl WeatherApiProvider {
    /// The provider's display name.
    pub fn name(&self) -> (s: &'static str)
        ensures
            s@ == "WeatherAPI"@,
    {
        "WeatherAPI"
    }

    /// The error reported when no API key is configured for this provider.
    pub fn missing_key_message(&self) -> (s: &'static str)
        ensures
            s@ == "WeatherAPI key is missing. Configure it in config.json or set WEATHER_KEY_WEATHERAPI."@,
    {
        "WeatherAPI key is missing. Configure it in config.json or set WEATHER_KEY_WEATHERAPI."
    }
}

/// The WMO weather code for a WeatherAPI condition code.
pub open spec fn weatherapi_wmo(code: i32) -> i32 {
    if code == 1000 {
        0
    } else if code == 1003 {
        2
    } else if code == 1006 || code == 1009 {
        3
    } else if code == 1030 || code == 1135 {
        45
    } else if code == 1063 || (1180 <= code && code <= 1201) {
        61
    } else if code == 1066 || (1210 <= code && code <= 1225) {
        73
    } else if code == 1087 || (1273 <= code && code <= 1282) {
        95
    } else {
        0
    }
}

/// The WMO weather code for a WeatherAPI condition code.
pub fn weatherapi_code_to_wmo(code: i32) -> (w: i32)
    ensures
        w == weatherapi_wmo(code),
{
    if code == 1000 {
        0
    } else if code == 1003 {
        2
    } else if code == 1006 || code == 1009 {
        3
    } else if code == 1030 || code == 1135 {
        45
    } else if code == 1063 || (1180 <= code && code <= 1201) {
        61
    } else if code == 1066 || (1210 <= code && code <= 1225) {
        73
    } else if code == 1087 || (1273 <= code && code <= 1282) {
        95
    } else {
        0
    }
}


/// The number of days asked of WeatherAPI: those wanted, at most 14 (the free plan's limit).
pub fn forecast_days(days: u32) -> (r: u32)
    ensures
        r == (if days < 14 { days } else { 14 }),
{
    if days < 14 {
        days
    } else {
        14
    }
}

/// WeatherAPI's condition codes land in the matching WMO groups: 1000 (sunny) in clear sky,
/// 1003 to 1009 in cloud, mist and fog in fog, the rain codes in rain, the snow codes in snow
/// and the thunder codes in thunderstorms.
pub proof fn law_weatherapi_groups(code: i32)
    ensures
        code == 1000 ==> wmo_clear(weatherapi_wmo(code)),
        code == 1003 || code == 1006 || code == 1009 ==> wmo_cloudy(weatherapi_wmo(code)),
        code == 1030 || code == 1135 ==> wmo_fog(weatherapi_wmo(code)),
        code == 1063 || 1180 <= code <= 1201 ==> wmo_rain(weatherapi_wmo(code)),
        code == 1066 || 1210 <= code <= 1225 ==> wmo_snow(weatherapi_wmo(code)),
        code == 1087 || 1273 <= code <= 1282 ==> wmo_thunder(weatherapi_wmo(code)),
{
}

} // verus!
