use weatheroz::dates::CalendarDate;
use weatheroz::providers::accuweather::AccuWeatherProvider;
use weatheroz::providers::base::{self, days_from, report_day_stamps, space_to_t, stamp_in_window, strip_zone_str};
use weatheroz::providers::brightsky::BrightSkyProvider;
use weatheroz::providers::metnorway::{entry_time, keeps_entry, symbol_code_to_wmo, MetNorwayProvider};
use weatheroz::providers::nws::{wind_direction_sector, wind_speed_token};
use weatheroz::providers::openmeteo::{
    day_flag_at, opt_at, try_plan_fetch, value_at, FetchPlan, HourlySeries, MinutelySeries,
    OpenMeteoProvider, OpenMeteoResponse,
};
use weatheroz::providers::smhi::{smhi_param, smhi_stamp, smhi_symbol_to_wmo, SmhiParam};
use weatheroz::providers::tomorrowio::TomorrowIoProvider;
use weatheroz::providers::weatherapi::forecast_days;
use weatheroz::providers::weatherbit::forecast_hours;
use weatheroz::providers::wttr::{expand_hours, wwo_code_to_wmo, WttrDay, WttrProvider};
use weatheroz::providers::WeatherProvider;

fn date(year: i32, month: u32, day: u32) -> CalendarDate {
    CalendarDate { year, month, day }
}

#[test]
fn test_openmeteo_url_builder() {
    let provider = OpenMeteoProvider;
    let url = provider.build_url(
        "https://api.open-meteo.com/v1/forecast",
        "41.0082",
        "28.9784",
        "2026-05-19",
        "2026-05-19",
        true,
        false,
    );
    assert!(url.contains("latitude=41.0082"));
    assert!(url.contains("longitude=28.9784"));
    assert!(url.contains("start_date=2026-05-19"));
    assert!(url.contains("end_date=2026-05-19"));
    assert!(url.contains("uv_index"));
}

#[test]
fn minute_resolution_asks_for_quarter_hours() {
    let url = OpenMeteoProvider.build_url("B", "1", "2", "s", "e", false, true);
    assert_eq!(
        url,
        "B?latitude=1&longitude=2&start_date=s&end_date=e&minutely_15=temperature_2m,precipitation,relative_humidity_2m,wind_speed_10m,wind_direction_10m,weather_code&timezone=auto"
    );
}

#[test]
fn test_wttr_interpolation_3h_to_1h() {
    let days = vec![WttrDay {
        date: Some("2026-05-19".to_string()),
        codes: vec![Some("113".to_string()), Some("116".to_string())],
    }];
    let temps = ["15", "14"];
    let slots = expand_hours(&days, "2026-05-19", "2026-05-19");
    assert_eq!(slots.len(), 24);

    let pt0 = &slots[0];
    assert_eq!(pt0.time, "2026-05-19T00:00");
    assert_eq!(temps[pt0.block].parse::<f64>().unwrap(), 15.0);
}

#[test]
fn wttr_blocks_cover_three_hours_and_the_last_the_rest() {
    let days = vec![
        WttrDay { date: None, codes: vec![Some("113".to_string())] },
        WttrDay { date: Some("2026-05-18".to_string()), codes: vec![Some("113".to_string())] },
        WttrDay {
            date: Some("2026-05-19".to_string()),
            codes: vec![Some("113".to_string()), Some("116".to_string()), None],
        },
        WttrDay { date: Some("2026-05-20".to_string()), codes: vec![] },
    ];
    let slots = expand_hours(&days, "2026-05-19", "2026-05-20");
    assert_eq!(slots.len(), 24);
    assert!(slots.iter().all(|s| s.day == 2));
    assert_eq!(slots[2].block, 0);
    assert_eq!(slots[3].block, 1);
    assert_eq!(slots[6].block, 2);
    assert_eq!(slots[23].block, 2);
    assert_eq!(slots[23].time, "2026-05-19T23:00");
    assert_eq!(slots[0].weather_code, 0);
    assert_eq!(slots[3].weather_code, 2);
    assert_eq!(slots[6].weather_code, 0);
    assert_eq!(wwo_code_to_wmo(395), 99);
}

#[test]
fn metnorway_symbols_map_by_condition_name() {
    assert_eq!(symbol_code_to_wmo("clearsky_day"), 0);
    assert_eq!(symbol_code_to_wmo("PartlyCloudy_night"), 2);
    assert_eq!(symbol_code_to_wmo("heavyrainshowersandthunder_day"), 95);
    assert_eq!(symbol_code_to_wmo("lightsnow"), 71);
    assert_eq!(symbol_code_to_wmo(""), 0);
    assert_eq!(symbol_code_to_wmo("unknown_day"), 0);
}

#[test]
fn metnorway_entries_filter_by_date() {
    assert!(keeps_entry("2026-05-19T00:00:00Z", "2026-05-19", "2026-05-19"));
    assert!(!keeps_entry("2026-05-20T00:00:00Z", "2026-05-19", "2026-05-19"));
    assert!(!keeps_entry("2026-05", "2026-05-19", "2026-05-19"));
    assert_eq!(entry_time("2026-05-19T00:00:00Z"), "2026-05-19T00:00:00");
    assert_eq!(MetNorwayProvider.name(), "MET Norway");
}

#[test]
fn nws_wind_texts() {
    assert_eq!(wind_speed_token("5 to 10 mph"), Some("10".to_string()));
    assert_eq!(wind_speed_token("15 mph"), Some("15".to_string()));
    assert_eq!(wind_speed_token("calm"), None);
    assert_eq!(wind_direction_sector("NNE"), 1);
    assert_eq!(wind_direction_sector("W"), 12);
    assert_eq!(wind_direction_sector("?"), 0);
}

#[test]
fn smhi_readings() {
    assert_eq!(smhi_param("Wsymb2"), Some(SmhiParam::Symbol));
    assert_eq!(smhi_param("tcc_mean"), Some(SmhiParam::CloudCover));
    assert_eq!(smhi_param("vis"), None);
    let (time, keep) = smhi_stamp("2026-05-19T12:00:00Z", "2026-05-19", "2026-05-19");
    assert_eq!(time, "2026-05-19T12:00:00");
    assert!(keep);
    let (_, keep) = smhi_stamp("2026-05-21T12:00:00Z", "2026-05-19", "2026-05-20");
    assert!(!keep);
    assert_eq!(smhi_symbol_to_wmo(7), 45);
    assert_eq!(smhi_symbol_to_wmo(19), 61);
}

#[test]
fn stamps_are_normalized() {
    assert_eq!(strip_zone_str("2026-05-19T12:00:00+02:00"), "2026-05-19T12:00:00");
    assert_eq!(strip_zone_str("2026-05-19T12:00Z"), "2026-05-19T12:00");
    assert_eq!(space_to_t("2026-05-19 12:00"), "2026-05-19T12:00");
    assert!(stamp_in_window("2026-05-19 12:00", ' ', "2026-05-19", "2026-05-19"));
    assert!(!stamp_in_window("2026-05-18T12:00", 'T', "2026-05-19", "2026-05-20"));
}

#[test]
fn synthetic_days_run_from_today() {
    let days = days_from(date(2026, 12, 30), 3).unwrap();
    assert_eq!(days, vec!["2026-12-30", "2026-12-31", "2027-01-01"]);
    assert_eq!(days_from(date(2026, 1, 1), 0).unwrap().len(), 0);
    let stamps = report_day_stamps("2026-05-19", date(2020, 1, 1));
    assert_eq!(stamps[0], "2026-05-19T00:00:00");
    assert_eq!(stamps[23], "2026-05-19T23:00:00");
    let stamps = report_day_stamps("not a date", date(2020, 1, 1));
    assert_eq!(stamps[5], "2020-01-01T05:00:00");
}

#[test]
fn request_limits() {
    assert_eq!(forecast_days(7), 7);
    assert_eq!(forecast_days(30), 14);
    assert_eq!(forecast_hours(3), 72);
}

#[test]
fn openmeteo_plans_by_date() {
    let today = date(2026, 5, 19);
    assert!(matches!(
        try_plan_fetch("2026-05-01", "2026-05-10", today),
        Some(Ok(FetchPlan::Archive))
    ));
    assert!(matches!(
        try_plan_fetch("2026-05-19", "2026-05-25", today),
        Some(Ok(FetchPlan::Forecast))
    ));
    match try_plan_fetch("2026-05-10", "2026-05-25", today) {
        Some(Ok(FetchPlan::Split { archive_end, forecast_start })) => {
            assert_eq!(archive_end, "2026-05-18");
            assert_eq!(forecast_start, "2026-05-19");
        }
        other => panic!("unexpected plan {:?}", other),
    }
    assert!(matches!(
        try_plan_fetch("2026-05-19", "2026-07-25", today),
        Some(Ok(FetchPlan::Split { .. }))
    ));
    assert!(matches!(try_plan_fetch("bad", "2026-05-25", today), Some(Err(_))));
}

fn hourly(times: &[&str], temps: &[f64]) -> HourlySeries<f64> {
    HourlySeries {
        time: times.iter().map(|t| t.to_string()).collect(),
        temperature_2m: Some(temps.iter().map(|t| Some(*t)).collect()),
        apparent_temperature: None,
        precipitation_probability: None,
        precipitation: None,
        relative_humidity_2m: None,
        wind_speed_10m: None,
        wind_direction_10m: None,
        cloud_cover: None,
        weather_code: None,
        uv_index: None,
        is_day: Some(vec![Some(1), None]),
        visibility: None,
        soil_temperature_0_to_10cm: None,
        soil_moisture_0_to_10cm: None,
    }
}

#[test]
fn openmeteo_merges_archive_then_forecast() {
    let archive = OpenMeteoResponse { hourly: Some(hourly(&["a1"], &[1.0])), minutely_15: None };
    let forecast = OpenMeteoResponse { hourly: Some(hourly(&["f1", "f2"], &[2.0, 3.0])), minutely_15: None };
    let merged = OpenMeteoProvider.merge_responses(archive, forecast);
    let h = merged.hourly.unwrap();
    assert_eq!(h.time, vec!["a1", "f1", "f2"]);
    assert_eq!(h.temperature_2m.unwrap(), vec![Some(1.0), Some(2.0), Some(3.0)]);
    assert_eq!(h.apparent_temperature.unwrap(), Vec::<Option<f64>>::new());
    assert!(merged.minutely_15.is_none());
}

#[test]
fn openmeteo_quarter_hours_win_the_merge() {
    let archive = OpenMeteoResponse { hourly: Some(hourly(&["a1"], &[1.0])), minutely_15: None };
    let forecast = OpenMeteoResponse {
        hourly: None,
        minutely_15: Some(MinutelySeries {
            time: vec!["q1".to_string()],
            temperature_2m: Some(vec![Some(4.0)]),
            precipitation: None,
            relative_humidity_2m: None,
            wind_speed_10m: None,
            wind_direction_10m: None,
            weather_code: None,
        }),
    };
    let merged = OpenMeteoProvider.merge_responses(archive, forecast);
    assert!(merged.hourly.is_none());
    let m = merged.minutely_15.unwrap();
    assert_eq!(m.time, vec!["q1"]);
    assert_eq!(m.temperature_2m.unwrap(), vec![Some(4.0)]);
}

#[test]
fn openmeteo_series_values() {
    let v = vec![Some(1.5), None];
    assert_eq!(value_at(&v, 0, 0.0), 1.5);
    assert_eq!(value_at(&v, 1, 0.0), 0.0);
    assert_eq!(value_at(&v, 7, 0.0), 0.0);
    assert_eq!(opt_at(&v, 0), Some(1.5));
    assert_eq!(opt_at(&v, 9), None);
    let days = vec![Some(1), Some(0), None];
    assert_eq!(day_flag_at(&days, 0), Some(true));
    assert_eq!(day_flag_at(&days, 1), Some(false));
    assert_eq!(day_flag_at(&days, 2), None);
}

#[test]
fn test_provider_implementations_exist() {
    assert_eq!(WeatherProvider::OpenMeteo(OpenMeteoProvider).name(), "Open-Meteo");
    assert_eq!(WeatherProvider::MetNorway(MetNorwayProvider).name(), "MET Norway");
    assert_eq!(WeatherProvider::Wttr(WttrProvider).name(), "wttr.in");
}

#[test]
fn keyed_providers_name_their_keys() {
    assert_eq!(WeatherProvider::TomorrowIo(TomorrowIoProvider).requires_key(), Some("Tomorrow.io"));
    assert_eq!(WeatherProvider::AccuWeather(AccuWeatherProvider).requires_key(), Some("AccuWeather"));
    assert_eq!(WeatherProvider::BrightSky(BrightSkyProvider).requires_key(), None);
    assert_eq!(
        TomorrowIoProvider.missing_key_message(),
        "Tomorrow.io API key is missing. Configure it in config.json or set WEATHER_KEY_TOMORROW_IO."
    );
}

#[test]
fn unix_times_become_utc_stamps_inside_the_window() {
    assert_eq!(
        base::utc_stamp_in_window(1_779_228_000, "2026-05-19", "2026-05-20"),
        Some("2026-05-19T22:00:00".to_string())
    );
    assert_eq!(base::utc_stamp_in_window(0, "1970-01-01", "1970-01-01"), Some("1970-01-01T00:00:00".to_string()));
    assert_eq!(base::utc_stamp_in_window(1_779_228_000, "2026-05-20", "2026-05-21"), None);
}
