//! The weather providers: their names, the keys they need, how their data is read, and the
//! race that picks among them.
pub mod base;
pub mod wmo;
pub mod blend;
pub mod race;
pub mod openmeteo;
pub mod metnorway;
pub mod wttr;
pub mod brightsky;
pub mod smhi;
pub mod fmi;
pub mod nws;
pub mod meteostat;
pub mod envcanada;
pub mod openweathermap;
pub mod weatherapi;
pub mod weatherbit;
pub mod tomorrowio;
pub mod visualcrossing;
pub mod weatherstack;
pub mod yandex;
pub mod accuweather;
pub mod pirateweather;

use vstd::prelude::*;

verus! {

/// The providers that can enter a weather race.
#[derive(Clone, Copy, Debug)]
pub enum WeatherProvider {
    OpenMeteo(openmeteo::OpenMeteoProvider),
    MetNorway(metnorway::MetNorwayProvider),
    Wttr(wttr::WttrProvider),
    BrightSky(brightsky::BrightSkyProvider),
    Smhi(smhi::SmhiProvider),
    Fmi(fmi::FmiProvider),
    Nws(nws::NwsProvider),
    Meteostat(meteostat::MeteostatProvider),
    EnvCanada(envcanada::EnvCanadaProvider),
    OpenWeatherMap(openweathermap::OpenWeatherMapProvider),
    WeatherApi(weatherapi::WeatherApiProvider),
    Weatherbit(weatherbit::WeatherbitProvider),
    TomorrowIo(tomorrowio::TomorrowIoProvider),
    VisualCrossing(visualcrossing::VisualCrossingProvider),
    WeatherStack(weatherstack::WeatherStackProvider),
    Yandex(yandex::YandexProvider),
    AccuWeather(accuweather::AccuWeatherProvider),
    PirateWeather(pirateweather::PirateWeatherProvider),
}

/// The display name of a provider.
pub open spec fn provider_name(p: WeatherProvider) -> Seq<char> {
    match p {
        WeatherProvider::OpenMeteo(_) => "Open-Meteo"@,
        WeatherProvider::MetNorway(_) => "MET Norway"@,
        WeatherProvider::Wttr(_) => "wttr.in"@,
        WeatherProvider::BrightSky(_) => "Bright Sky"@,
        WeatherProvider::Smhi(_) => "SMHI"@,
        WeatherProvider::Fmi(_) => "FMI (Finland)"@,
        WeatherProvider::Nws(_) => "NWS"@,
        WeatherProvider::Meteostat(_) => "Meteostat"@,
        WeatherProvider::EnvCanada(_) => "Environment Canada"@,
        WeatherProvider::OpenWeatherMap(_) => "OpenWeatherMap"@,
        WeatherProvider::WeatherApi(_) => "WeatherAPI"@,
        WeatherProvider::Weatherbit(_) => "Weatherbit"@,
        WeatherProvider::TomorrowIo(_) => "Tomorrow.io"@,
        WeatherProvider::VisualCrossing(_) => "Visual Crossing"@,
        WeatherProvider::WeatherStack(_) => "WeatherStack"@,
        WeatherProvider::Yandex(_) => "Yandex"@,
        WeatherProvider::AccuWeather(_) => "AccuWeather"@,
        WeatherProvider::PirateWeather(_) => "Pirate Weather"@,
    }
}

/// The name of the API key a provider needs, if it needs one.
pub open spec fn required_key(p: WeatherProvider) -> Option<Seq<char>> {
    match p {
        WeatherProvider::Meteostat(_) => Some("Meteostat"@),
        WeatherProvider::OpenWeatherMap(_) => Some("OpenWeatherMap"@),
        WeatherProvider::WeatherApi(_) => Some("WeatherAPI"@),
        WeatherProvider::Weatherbit(_) => Some("Weatherbit"@),
        WeatherProvider::TomorrowIo(_) => Some("Tomorrow.io"@),
        WeatherProvider::VisualCrossing(_) => Some("Visual Crossing"@),
        WeatherProvider::WeatherStack(_) => Some("WeatherStack"@),
        WeatherProvider::Yandex(_) => Some("Yandex"@),
        WeatherProvider::AccuWeather(_) => Some("AccuWeather"@),
        WeatherProvider::PirateWeather(_) => Some("Pirate Weather"@),
        _ => None,
    }
}

impl WeatherProvider {
    /// The display name of this provider.
    pub fn name(&self) -> (s: &'static str)
        ensures
            s@ == provider_name(*self),
    {
        match self {
            WeatherProvider::OpenMeteo(p) => p.name(),
            WeatherProvider::MetNorway(p) => p.name(),
            WeatherProvider::Wttr(p) => p.name(),
            WeatherProvider::BrightSky(p) => p.name(),
            WeatherProvider::Smhi(p) => p.name(),
            WeatherProvider::Fmi(p) => p.name(),
            WeatherProvider::Nws(p) => p.name(),
            WeatherProvider::Meteostat(p) => p.name(),
            WeatherProvider::EnvCanada(p) => p.name(),
            WeatherProvider::OpenWeatherMap(p) => p.name(),
            WeatherProvider::WeatherApi(p) => p.name(),
            WeatherProvider::Weatherbit(p) => p.name(),
            WeatherProvider::TomorrowIo(p) => p.name(),
            WeatherProvider::VisualCrossing(p) => p.name(),
            WeatherProvider::WeatherStack(p) => p.name(),
            WeatherProvider::Yandex(p) => p.name(),
            WeatherProvider::AccuWeather(p) => p.name(),
            WeatherProvider::PirateWeather(p) => p.name(),
        }
    }

    /// The name of the API key this provider needs, if it needs one.
    pub fn requires_key(&self) -> (k: Option<&'static str>)
        ensures
            k matches Some(s) ==> required_key(*self) == Some(s@),
            k is None <==> required_key(*self) is None,
    {
        match self {
            WeatherProvider::Meteostat(_) => Some("Meteostat"),
            WeatherProvider::OpenWeatherMap(_) => Some("OpenWeatherMap"),
            WeatherProvider::WeatherApi(_) => Some("WeatherAPI"),
            WeatherProvider::Weatherbit(_) => Some("Weatherbit"),
            WeatherProvider::TomorrowIo(_) => Some("Tomorrow.io"),
            WeatherProvider::VisualCrossing(_) => Some("Visual Crossing"),
            WeatherProvider::WeatherStack(_) => Some("WeatherStack"),
            WeatherProvider::Yandex(_) => Some("Yandex"),
            WeatherProvider::AccuWeather(_) => Some("AccuWeather"),
            WeatherProvider::PirateWeather(_) => Some("Pirate Weather"),
            _ => None,
        }
    }
}

/// A provider that needs an API key needs the one listed under its own name.
pub proof fn law_key_named_after_provider(p: WeatherProvider)
    ensures
        required_key(p) matches Some(k) ==> k == provider_name(p),
{
}

} // verus!
