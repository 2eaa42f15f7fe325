use vstd::prelude::*;
use crate::providers::wmo::{wmo_clear, wmo_cloudy, wmo_fog, wmo_rain, wmo_snow, wmo_thunder};

verus! {

/// The WeatherStack provider.
#[derive(Clone, Copy, Debug)]
pub struct WeatherStackProvider;

impl WeatherStackProvider {
    /// The provider's display name.
    pub fn name(&self) -> (s: &'static str)
        ensures
            s@ == "WeatherStack"@,
    {
        "WeatherStack"
    }

    /// The error reported when no API key is configured for this provider.
    pub fn missing_key_message(&self) -> (s: &'static str)
        ensures
            s@ == "WeatherStack API key is missing. Configure it in config.json or set WEATHER_KEY_WEATHERSTACK."@,
    {
        "WeatherStack API key is missing. Configure it in config.json or set WEATHER_KEY_WEATHERSTACK."
    }
}

/// The WMO weather code for a WeatherStack weather code.
pub open spec fn weatherstack_wmo(code: i32) -> i32 {
    if code == 113 {
        0
    } else if code == 116 {
        2
    } else if code == 119 || code == 122 {
        3
    } else if code == 143 || code == 248 {
        45
    } else if (293 <= code && code <= 308) {
        63
    } else if (323 <= code && code <= 338) {
        73
    } else if (386 <= code && code <= 395) {
        95
    } else {
        0
    }
}

/// The WMO weather code for a WeatherStack weather code.
pub fn weatherstack_code_to_wmo(code: i32) -> (w: i32)
    ensures
        w == weatherstack_wmo(code),
{
    if code == 113 {
        0
    } else if code == 116 {
        2
    } else if code == 119 || code == 122 {
        3
    } else if code == 143 || code == 248 {
        45
    } else if (293 <= code && code <= 308) {
        63
    } else if (323 <= code && code <= 338) {
        73
    } else if (386 <= code && code <= 395) {
        95
    } else {
        0
    }
}

/// WeatherStack's codes land in the matching WMO groups: 113 (sunny) in clear sky, 116 to 122
/// in cloud, mist and fog in fog, the rain codes in rain, the snow codes in snow and the
/// thunder codes in thunderstorms.
pub proof fn law_weatherstack_groups(code: i32)
    ensures
        code == 113 ==> wmo_clear(weatherstack_wmo(code)),
        code == 116 || code == 119 || code == 122 ==> wmo_cloudy(weatherstack_wmo(code)),
        code == 143 || code == 248 ==> wmo_fog(weatherstack_wmo(code)),
        293 <= code <= 308 ==> wmo_rain(weatherstack_wmo(code)),
        323 <= code <= 338 ==> wmo_snow(weatherstack_wmo(code)),
        386 <= code <= 395 ==> wmo_thunder(weatherstack_wmo(code)),
{
}

} // verus!
