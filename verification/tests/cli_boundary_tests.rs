use weatheroz::cli::{validate_date, validate_timezone, Mode};

#[test]
fn test_cli_date_validation_scenarios() {
    // 1. Correct dates
    assert!(validate_date("2026-05-21").is_ok());
    assert!(validate_date("2000-02-29").is_ok()); // Leap year

    // 2. Incorrect dates
    assert!(validate_date("2026-13-01").is_err()); // Month 13
    assert!(validate_date("2026-05-32").is_err()); // Day 32
    assert!(validate_date("2026/05/21").is_err()); // Wrong separator
    assert!(validate_date("2026-05").is_err()); // Missing day
    assert!(validate_date("invalid-date").is_err());
    assert!(validate_date("").is_err());
}

#[test]
fn date_error_names_the_expected_format() {
    assert_eq!(
        validate_date("2026-02-30").unwrap_err(),
        "Date must be in YYYY-MM-DD format"
    );
}

#[test]
fn known_time_zones_pass() {
    assert!(validate_timezone("Europe/Istanbul").is_ok());
    assert!(validate_timezone("UTC").is_ok());
}

#[test]
fn unknown_time_zone_is_reported() {
    assert_eq!(
        validate_timezone("Mars/Olympus").unwrap_err(),
        "Unknown IANA timezone: 'Mars/Olympus' (e.g. Europe/Istanbul)"
    );
}

#[test]
fn modes_have_kebab_case_names() {
    assert_eq!(Mode::AsciiBanner.as_str(), "ascii-banner");
    assert_eq!(Mode::BorderedCard.as_str(), "bordered-card");
    assert_eq!(Mode::HtmlPreview.as_str(), "html-preview");
    assert_eq!(Mode::Default.as_str(), "default");
}

#[test]
fn dates_read_into_calendar_dates() {
    assert_eq!(
        weatheroz::cli::read_date("2026-05-21"),
        Ok(weatheroz::dates::CalendarDate { year: 2026, month: 5, day: 21 })
    );
    assert_eq!(weatheroz::cli::read_date("2026-13-01"), Err("Date must be in YYYY-MM-DD format".to_string()));
    assert_eq!(weatheroz::cli::read_date("tomorrow"), Err("Date must be in YYYY-MM-DD format".to_string()));
}
