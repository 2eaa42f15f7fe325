use vstd::prelude::*;
use crate::providers::wmo::{wmo_clear, wmo_cloudy, wmo_fog, wmo_rain, wmo_snow};

verus! {

/// The AccuWeather provider.
#[derive(Clone, Copy, Debug)]
pub struct AccuWeatherProvider;

impl AccuWeatherProvider {
    /// The provider's display name.
    pub fn name(&self) -> (s: &'static str)
        ensures
            s@ == "AccuWeather"@,
    {
        "AccuWeather"
    }

    /// The error reported when no API key is configured for this provider.
    pub fn missing_key_message(&self) -> (s: &'static str)
        ensures
            s@ == "AccuWeather API key is missing. Configure it in config.json or set WEATHER_KEY_ACCUWEATHER."@,
    {
        "AccuWeather API key is missing. Configure it in config.json or set WEATHER_KEY_ACCUWEATHER."
    }
}

/// The WMO weather code for an AccuWeather icon id.
pub open spec fn accu_wmo(icon: i32) -> i32 {
    if (1 <= icon && icon <= 5) {
        0
    } else if (6 <= icon && icon <= 10) {
        2
    } else if icon == 11 {
        45
    } else if (12 <= icon && icon <= 18) {
        63
    } else if (19 <= icon && icon <= 29) {
        73
    } else {
        0
    }
}

/// The WMO weather code for an AccuWeather icon id.
pub fn accu_icon_to_wmo(icon: i32) -> (w: i32)
    ensures
        w == accu_wmo(icon),
{
    if (1 <= icon && icon <= 5) {
        0
    } else if (6 <= icon && icon <= 10) {
        2
    } else if icon == 11 {
        45
    } else if (12 <= icon && icon <= 18) {
        63
    } else if (19 <= icon && icon <= 29) {
        73
    } else {
        0
    }
}

/// AccuWeather's icons land in the matching WMO groups: the sunny icons (1 to 5) in clear
/// sky, the cloudy ones (6 to 10) in cloud, fog (11) in fog, the rain icons (12 to 18) in rain
/// and the snow and ice icons (19 to 29) in snow.
pub proof fn law_accu_groups(icon: i32)
    ensures
        1 <= icon <= 5 ==> wmo_clear(accu_wmo(icon)),
        6 <= icon <= 10 ==> wmo_cloudy(accu_wmo(icon)),
        icon == 11 ==> wmo_fog(accu_wmo(icon)),
        12 <= icon <= 18 ==> wmo_rain(accu_wmo(icon)),
        19 <= icon <= 29 ==> wmo_snow(accu_wmo(icon)),
{
}

} // verus!
