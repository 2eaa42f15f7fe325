use weatheroz::cache_keys::{app_cache_file_path, make_cache_key, place_cache_path, weather_cache_path};
use weatheroz::cli::Mode;
use weatheroz::dates::{format_date, CalendarDate};
use weatheroz::orchestrator::{
    after_cache, after_race, cache_ttl_minutes, choose_mode, consults_cache, dashboard_query,
    data_kind, plan_dates, racers_line, table_rows, uses_dashboard, CacheFind, DataKind,
    LookupStep,
};

fn date(year: i32, month: u32, day: u32) -> CalendarDate {
    CalendarDate { year, month, day }
}

#[test]
fn dates_default_to_today() {
    let p = plan_dates(None, None, None, None, date(2026, 5, 21)).unwrap();
    assert_eq!(p.start_date, "2026-05-21");
    assert_eq!(p.end_date, "2026-05-21");
    assert_eq!(p.days, 7);
    let p = plan_dates(None, None, None, Some(3), date(2026, 5, 21)).unwrap();
    assert_eq!(p.end_date, "2026-05-21");
    assert_eq!(p.days, 3);
}

#[test]
fn dates_follow_the_flags() {
    let today = date(2026, 5, 21);
    let p = plan_dates(Some("2020-01-01".to_string()), None, None, None, today).unwrap();
    assert_eq!((p.start_date.as_str(), p.end_date.as_str()), ("2020-01-01", "2026-05-21"));
    let p = plan_dates(Some("2026-05-01".to_string()), None, Some(3), None, today).unwrap();
    assert_eq!(p.end_date, "2026-05-03");
    let p = plan_dates(None, None, Some(3), Some(9), today).unwrap();
    assert_eq!((p.end_date.as_str(), p.days), ("2026-05-23", 3));
    let p = plan_dates(None, Some("2026-06-01".to_string()), Some(3), None, today).unwrap();
    assert_eq!(p.end_date, "2026-06-01");
    let p = plan_dates(Some("bad".to_string()), None, Some(2), None, today).unwrap();
    assert_eq!((p.start_date.as_str(), p.end_date.as_str()), ("bad", "2026-05-22"));
    assert_eq!(format_date(date(12345, 1, 2)), "+12345-01-02");
    assert_eq!(format_date(date(-5, 1, 2)), "-0005-01-02");
}

#[test]
fn cache_decisions() {
    assert_eq!(cache_ttl_minutes(None, None), 15);
    assert_eq!(cache_ttl_minutes(Some(0), Some(30)), 0);
    assert!(!consults_cache(0));
    assert!(matches!(after_cache(CacheFind::Fresh), LookupStep::UseCache { offline: false }));
    assert!(matches!(after_cache(CacheFind::Stale), LookupStep::RunRace));
    assert!(matches!(after_race(None, CacheFind::Stale, 15), LookupStep::UseRace { store: true }));
    assert!(matches!(
        after_race(Some("down".to_string()), CacheFind::Stale, 15),
        LookupStep::UseCache { offline: true }
    ));
    match after_race(Some("down".to_string()), CacheFind::Absent, 15) {
        LookupStep::Fail(m) => assert_eq!(m, "down"),
        other => panic!("unexpected step {:?}", other),
    }
}

#[test]
fn a_zero_cache_lifetime_turns_the_cache_off() {
    assert!(!consults_cache(0));
    assert!(matches!(after_race(None, CacheFind::Absent, 0), LookupStep::UseRace { store: false }));
    match after_race(Some("down".to_string()), CacheFind::Stale, 0) {
        LookupStep::Fail(m) => assert_eq!(m, "down"),
        other => panic!("unexpected step {:?}", other),
    }
}

#[test]
fn report_kinds() {
    let today = date(2026, 5, 21);
    assert_eq!(data_kind(date(2025, 1, 1), date(2025, 1, 1), today), DataKind::Historical);
    assert_eq!(data_kind(date(2025, 1, 1), today, today), DataKind::Mixed);
    assert_eq!(data_kind(today, date(2026, 5, 28), today), DataKind::Forecast);
    assert_eq!(DataKind::Mixed.as_str(), "mixed");
}

#[test]
fn command_line_choices() {
    assert_eq!(choose_mode(Some(Mode::Compact), true), "compact");
    assert_eq!(choose_mode(None, true), "json");
    assert_eq!(choose_mode(None, false), "default");
    assert!(uses_dashboard(false, false, true));
    assert!(!uses_dashboard(true, false, true));
    assert_eq!(table_rows(true), 168);
    assert_eq!(table_rows(false), 24);
    assert_eq!(dashboard_query(&vec![]), "Otomatik Tespit");
    assert_eq!(dashboard_query(&vec!["New".to_string(), "York".to_string()]), "New York");
    assert_eq!(racers_line(date(2026, 5, 21), date(2026, 5, 21)), "Open-Meteo, MET Norway, wttr.in");
    assert_eq!(racers_line(date(2025, 5, 21), date(2026, 5, 21)), "Open-Meteo, wttr.in");
}

#[test]
fn cache_locations_and_keys() {
    assert_eq!(
        make_cache_key("41.0138", "28.9497", " 2026-05-21", "2026-05-21 "),
        "41.0138:28.9497:2026-05-21:2026-05-21"
    );
    assert_eq!(
        weather_cache_path(Some("/tmp/x/geo_cache.json".to_string()), None),
        "/tmp/x/weather_cache.json"
    );
    assert_eq!(weather_cache_path(Some("/tmp/x".to_string()), None), "/tmp/x/weather_cache.json");
    assert_eq!(
        weather_cache_path(None, Some("/home/u".to_string())),
        "/home/u/.cache/weather_oz/weather_cache.json"
    );
    assert_eq!(
        place_cache_path(None, Some("/home/u".to_string())),
        "/home/u/.cache/weatheroz/geo_cache.json"
    );
    assert_eq!(place_cache_path(Some("/c.json".to_string()), None), "/c.json");
    assert_eq!(
        app_cache_file_path(None, "weather.log"),
        "./.cache/weather_oz/weather.log"
    );
}
