//! The groups of the WMO weather codes (WMO code table 4677, as Open-Meteo reports it) that
//! the providers' own condition codes are translated into.
use vstd::prelude::*;

verus! {

/// Clear sky.
pub open spec fn wmo_clear(c: i32) -> bool {
    c == 0
}

/// Mainly clear, partly cloudy or overcast.
pub open spec fn wmo_cloudy(c: i32) -> bool {
    1 <= c <= 3
}

/// Fog or depositing rime fog.
pub open spec fn wmo_fog(c: i32) -> bool {
    c == 45 || c == 48
}

/// Drizzle, freezing drizzle included.
pub open spec fn wmo_drizzle(c: i32) -> bool {
    51 <= c <= 57
}

/// Rain or rain showers, freezing rain included.
pub open spec fn wmo_rain(c: i32) -> bool {
    (61 <= c <= 67) || (80 <= c <= 82)
}

/// Snow, snow grains or snow showers.
pub open spec fn wmo_snow(c: i32) -> bool {
    (71 <= c <= 77) || (85 <= c <= 86)
}

/// Thunderstorm, with or without hail.
pub open spec fn wmo_thunder(c: i32) -> bool {
    95 <= c <= 99
}

/// The codes of the WMO table that the reports name.
pub open spec fn wmo_listed(c: i32) -> bool {
    c == 0 || c == 1 || c == 2 || c == 3 || c == 45 || c == 48 || c == 51 || c == 53 || c == 55
        || c == 56 || c == 57 || c == 61 || c == 63 || c == 65 || c == 66 || c == 67 || c == 71
        || c == 73 || c == 75 || c == 77 || c == 80 || c == 81 || c == 82 || c == 85 || c == 86
        || c == 95 || c == 96 || c == 99
}

} // verus!
