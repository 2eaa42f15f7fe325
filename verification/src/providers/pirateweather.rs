use vstd::prelude::*;
use crate::providers::wmo::{wmo_clear, wmo_cloudy, wmo_fog, wmo_rain, wmo_snow};

verus! {

/// The Pirate Weather provider.
#[derive(Clone, Copy, Debug)]
pub struct PirateWeatherProvider;

impl PirateWeatherProvider {
    /// The provider's display name.
    pub fn name(&self) -> (s: &'static str)
        ensures
            s@ == "Pirate Weather"@,
    {
        "Pirate Weather"
    }

    /// The error reported when no API key is configured for this provider.
    pub fn missing_key_message(&self) -> (s: &'static str)
        ensures
            s@ == "Pirate Weather API key is missing. Configure it in config.json or set WEATHER_KEY_PIRATE_WEATHER."@,
    {
        "Pirate Weather API key is missing. Configure it in config.json or set WEATHER_KEY_PIRATE_WEATHER."
    }
}

/// The WMO weather code for a Pirate Weather icon name.
pub open spec fn pirate_icon_wmo(icon: Seq<char>) -> i32 {
    if icon == "clear-day"@ || icon == "clear-night"@ {
        0
    } else if icon == "partly-cloudy-day"@ || icon == "partly-cloudy-night"@ {
        2
    } else if icon == "cloudy"@ {
        3
    } else if icon == "fog"@ {
        45
    } else if icon == "wind"@ {
        1
    } else if icon == "rain"@ {
        63
    } else if icon == "snow"@ {
        73
    } else if icon == "sleet"@ {
        77
    } else {
        0
    }
}

/// The WMO weather code for a Pirate Weather icon name.
pub fn icon_to_wmo(icon: &str) -> (w: i32)
    ensures
        w == pirate_icon_wmo(icon@),
{
    let v = crate::text::chars_of(icon);
    if crate::text::str_eq_chars("clear-day", &v) || crate::text::str_eq_chars("clear-night", &v) {
        0
    } else if crate::text::str_eq_chars("partly-cloudy-day", &v) || crate::text::str_eq_chars("partly-cloudy-night", &v) {
        2
    } else if crate::text::str_eq_chars("cloudy", &v) {
        3
    } else if crate::text::str_eq_chars("fog", &v) {
        45
    } else if crate::text::str_eq_chars("wind", &v) {
        1
    } else if crate::text::str_eq_chars("rain", &v) {
        63
    } else if crate::text::str_eq_chars("snow", &v) {
        73
    } else if crate::text::str_eq_chars("sleet", &v) {
        77
    } else {
        0
    }
}

/// The icon names land in the matching WMO groups: the clear icons in clear sky, the cloudy
/// and windy ones in cloud, `fog` in fog, `rain` in rain and never in snow, and `snow` and
/// `sleet` in snow.
pub proof fn law_pirate_icon_groups(icon: Seq<char>)
    ensures
        icon == "clear-day"@ || icon == "clear-night"@ ==> wmo_clear(pirate_icon_wmo(icon)),
        icon == "partly-cloudy-day"@ || icon == "partly-cloudy-night"@ || icon == "cloudy"@
            || icon == "wind"@ ==> wmo_cloudy(pirate_icon_wmo(icon)),
        icon == "fog"@ ==> wmo_fog(pirate_icon_wmo(icon)),
        icon == "rain"@ ==> wmo_rain(pirate_icon_wmo(icon)) && !wmo_snow(pirate_icon_wmo(icon)),
        icon == "snow"@ || icon == "sleet"@ ==> wmo_snow(pirate_icon_wmo(icon)),
{
    reveal_strlit("clear-day");
    assert("clear-day"@.len() == 9 && "clear-day"@[0] == 'c');
    reveal_strlit("clear-night");
    assert("clear-night"@.len() == 11 && "clear-night"@[0] == 'c');
    reveal_strlit("partly-cloudy-day");
    assert("partly-cloudy-day"@.len() == 17 && "partly-cloudy-day"@[0] == 'p');
    reveal_strlit("partly-cloudy-night");
    assert("partly-cloudy-night"@.len() == 19 && "partly-cloudy-night"@[0] == 'p');
    reveal_strlit("cloudy");
    assert("cloudy"@.len() == 6 && "cloudy"@[0] == 'c');
    reveal_strlit("fog");
    assert("fog"@.len() == 3 && "fog"@[0] == 'f');
    reveal_strlit("rain");
    assert("rain"@.len() == 4 && "rain"@[0] == 'r');
    reveal_strlit("snow");
    assert("snow"@.len() == 4 && "snow"@[0] == 's');
    reveal_strlit("sleet");
    assert("sleet"@.len() == 5 && "sleet"@[0] == 's');
    reveal_strlit("wind");
    assert("wind"@.len() == 4 && "wind"@[0] == 'w');
}

} // verus!
