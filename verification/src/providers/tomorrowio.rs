use vstd::prelude::*;
use crate::providers::wmo::{wmo_clear, wmo_cloudy, wmo_fog, wmo_rain, wmo_snow, wmo_thunder};

verus! {

/// The Tomorrow.io provider.
#[derive(Clone, Copy, Debug)]
pub struct TomorrowIoProvider;

impl TomorrowIoProvider {
    /// The provider's display name.
    pub fn name(&self) -> (s: &'static str)
        ensures
            s@ == "Tomorrow.io"@,
    {
        "Tomorrow.io"
    }

    /// The error reported when no API key is configured for this provider.
    pub fn missing_key_message(&self) -> (s: &'static str)
        ensures
            s@ == "Tomorrow.io API key is missing. Configure it in config.json or set WEATHER_KEY_TOMORROW_IO."@,
    {
        "Tomorrow.io API key is missing. Configure it in config.json or set WEATHER_KEY_TOMORROW_IO."
    }
}

/// The WMO weather code for a Tomorrow.io weather code.
pub open spec fn tomorrow_wmo(code: i32) -> i32 {
    if code == 1000 {
        0
    } else if (1100 <= code && code <= 1102) {
        2
    } else if code == 1001 {
        3
    } else if (2000 <= code && code <= 2100) {
        45
    } else if (4000 <= code && code <= 4201) {
        63
    } else if (5000 <= code && code <= 5101) {
        73
    } else if code == 8000 {
        95
    } else {
        0
    }
}

/// The WMO weather code for a Tomorrow.io weather code.
pub fn tomorrow_code_to_wmo(code: i32) -> (w: i32)
    ensures
        w == tomorrow_wmo(code),
{
    if code == 1000 {
        0
    } else if (1100 <= code && code <= 1102) {
        2
    } else if code == 1001 {
        3
    } else if (2000 <= code && code <= 2100) {
        45
    } else if (4000 <= code && code <= 4201) {
        63
    } else if (5000 <= code && code <= 5101) {
        73
    } else if code == 8000 {
        95
    } else {
        0
    }
}

/// Tomorrow.io's weather codes land in the matching WMO groups: 1000 (clear) in clear sky,
/// 1001 and 11xx in cloud, fog (2xxx) in fog, rain (4xxx) in rain, snow (5xxx) in snow and
/// 8000 in thunderstorms.
pub proof fn law_tomorrow_groups(code: i32)
    ensures
        code == 1000 ==> wmo_clear(tomorrow_wmo(code)),
        code == 1001 || 1100 <= code <= 1102 ==> wmo_cloudy(tomorrow_wmo(code)),
        2000 <= code <= 2100 ==> wmo_fog(tomorrow_wmo(code)),
        4000 <= code <= 4201 ==> wmo_rain(tomorrow_wmo(code)),
        5000 <= code <= 5101 ==> wmo_snow(tomorrow_wmo(code)),
        code == 8000 ==> wmo_thunder(tomorrow_wmo(code)),
{
}

} // verus!
