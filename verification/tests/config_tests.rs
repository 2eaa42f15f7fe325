use weatheroz::shared::domain::config::{push_path, ApiKeys, AppConfig, ConfigEnv, JsonConfigService};
use weatheroz::providers::tomorrowio::TomorrowIoProvider;

fn no_env() -> ConfigEnv {
    ConfigEnv {
        default_location: None,
        temperature_unit: None,
        cache_ttl_minutes: None,
        forecast_days: None,
        minute_updates: None,
        enrich_data: None,
        vars: vec![],
    }
}

#[test]
fn default_configuration() {
    let c = AppConfig::default();
    assert_eq!(c.default_location, None);
    assert_eq!(c.temperature_unit, "celsius");
    assert_eq!(
        c.race_providers,
        Some(vec!["Open-Meteo".to_string(), "MET Norway".to_string(), "wttr.in".to_string()])
    );
    assert_eq!(c.fallback_providers, Some(vec!["Bright Sky".to_string()]));
    assert_eq!(c.cache_ttl_minutes, Some(15));
    assert_eq!(c.forecast_days, Some(7));
    assert_eq!(c.minute_updates, Some(false));
    assert_eq!(c.enrich_data, Some(false));
    assert!(c.api_keys.to_pairs().is_empty());
}

#[test]
fn environment_overrides_settings() {
    let mut c = AppConfig::default();
    let env = ConfigEnv {
        default_location: Some("Ankara".to_string()),
        temperature_unit: Some("fahrenheit".to_string()),
        cache_ttl_minutes: Some("30".to_string()),
        forecast_days: Some("not a number".to_string()),
        minute_updates: Some("1".to_string()),
        enrich_data: Some("yes".to_string()),
        vars: vec![
            ("WEATHER_KEY_OPENWEATHERMAP".to_string(), "k1".to_string()),
            ("HOME".to_string(), "/root".to_string()),
            ("WEATHER_KEY_VISUAL_CROSSING".to_string(), "k2".to_string()),
            ("WEATHER_KEY_WEATHER_KEY_X".to_string(), "k3".to_string()),
        ],
    };
    c.apply_env(&env);
    assert_eq!(c.default_location, Some("Ankara".to_string()));
    assert_eq!(c.temperature_unit, "fahrenheit");
    assert_eq!(c.cache_ttl_minutes, Some(30));
    assert_eq!(c.forecast_days, Some(7));
    assert_eq!(c.minute_updates, Some(true));
    assert_eq!(c.enrich_data, Some(false));
    assert_eq!(c.api_keys.get("OpenWeatherMap"), Some("k1".to_string()));
    assert_eq!(c.api_keys.get("Visual Crossing"), Some("k2".to_string()));
    assert_eq!(c.api_keys.get("OPENWEATHERMAP"), None);
    assert_eq!(c.api_keys.get("X"), Some("k3".to_string()));
    assert_eq!(c.api_keys.get("HOME"), None);
}

#[test]
fn an_empty_environment_changes_nothing() {
    let mut c = AppConfig::default();
    c.apply_env(&no_env());
    assert_eq!(c.cache_ttl_minutes, Some(15));
    assert_eq!(c.temperature_unit, "celsius");
}

#[test]
fn keys_are_replaced_and_read_back() {
    let mut keys = ApiKeys::new();
    keys.insert("A".to_string(), "1".to_string());
    keys.insert("B".to_string(), "2".to_string());
    keys.insert("A".to_string(), "3".to_string());
    assert_eq!(keys.get("A"), Some("3".to_string()));
    assert_eq!(keys.get("B"), Some("2".to_string()));
    assert!(keys.contains_key("B"));
    assert!(!keys.contains_key("C"));
    assert_eq!(
        keys.to_pairs(),
        vec![("A".to_string(), "3".to_string()), ("B".to_string(), "2".to_string())]
    );
}

#[test]
fn config_file_location() {
    let s = JsonConfigService::new(Some("/tmp/custom.json".to_string()), Some("/home/u".to_string()));
    assert_eq!(s.config_path(), "/tmp/custom.json");
    let s = JsonConfigService::new(None, Some("/home/u".to_string()));
    assert_eq!(s.config_path(), "/home/u/.config/weather_oz/config.json");
    let s = JsonConfigService::new(None, Some("/home/u/".to_string()));
    assert_eq!(s.config_path(), "/home/u/.config/weather_oz/config.json");
    let s = JsonConfigService::new(None, None);
    assert_eq!(s.config_path(), "./.config/weather_oz/config.json");
    assert_eq!(push_path("", "a"), "a");
}

#[test]
fn key_variables_named_by_missing_key_messages_reach_their_providers() {
    let mut env = no_env();
    env.vars = vec![
        ("WEATHER_KEY_TOMORROW_IO".to_string(), "t1".to_string()),
        ("WEATHER_KEY_PIRATE_WEATHER".to_string(), "p1".to_string()),
        ("WEATHER_KEY_WEATHERAPI".to_string(), "w1".to_string()),
        ("WEATHER_KEY_MY_SERVICE".to_string(), "m1".to_string()),
    ];
    let mut c = AppConfig::default();
    c.apply_env(&env);
    assert_eq!(c.api_keys.get("Tomorrow.io"), Some("t1".to_string()));
    assert_eq!(c.api_keys.get("Pirate Weather"), Some("p1".to_string()));
    assert_eq!(c.api_keys.get("WeatherAPI"), Some("w1".to_string()));
    assert_eq!(c.api_keys.get("Weatherbit"), None);
    assert_eq!(c.api_keys.get("MY-SERVICE"), Some("m1".to_string()));
    assert!(TomorrowIoProvider.missing_key_message().contains("WEATHER_KEY_TOMORROW_IO"));
}
