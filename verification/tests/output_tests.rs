use weatheroz::output::{
    banner_lines, card_frame, card_paddings, compass_point, data_type_label, date_range_line,
    date_range_text, error_advice, error_block, get_ascii_art, get_large_char, get_weather_info,
    layout_for, more_hours_note, pad_right_str, place_heading, spans_days, table_extent,
    time_label, Layout,
};

#[test]
fn weather_codes_have_icons_and_names() {
    assert_eq!(get_weather_info(0), ("☀️", "Clear"));
    assert_eq!(get_weather_info(63), ("🌧️", "Moderate rain"));
    assert_eq!(get_weather_info(99), ("⛈️", "Thunderstorm with heavy hail"));
    assert_eq!(get_weather_info(42), ("❓", "Unknown"));
}

#[test]
fn ascii_art_by_condition() {
    assert_eq!(get_ascii_art(1)[1], "    .-.    ");
    assert_eq!(get_ascii_art(81)[3], "   / / /   ");
    assert_eq!(get_ascii_art(86)[4], " * * * *   ");
    assert_eq!(get_ascii_art(44)[1], "   ( ? )   ");
    assert_eq!(get_ascii_art(3).len(), 5);
}

#[test]
fn banner_spells_the_temperature() {
    assert_eq!(get_large_char('1', 4), " █████ ");
    assert_eq!(get_large_char('x', 0), "       ");
    let lines = banner_lines("21°C");
    assert_eq!(lines.len(), 5);
    assert_eq!(lines[0], "  ███     ██    ██     ████ ");
}

#[test]
fn compass_points_wrap_around() {
    assert_eq!(compass_point(0), "N");
    assert_eq!(compass_point(3), "SE");
    assert_eq!(compass_point(8), "N");
    assert_eq!(compass_point(15), "NW");
}

#[test]
fn headings_skip_empty_parts() {
    assert_eq!(place_heading("Istanbul", "", "Turkey"), "Istanbul, Turkey");
    assert_eq!(place_heading("", "", ""), "");
}

#[test]
fn date_ranges_read_as_words() {
    assert_eq!(date_range_text("2026-05-21", "2026-05-21"), "May 21, 2026");
    assert_eq!(date_range_text("2026-05-21", "2026-06-02"), "May 21 - June 02, 2026");
    assert_eq!(date_range_text("soon", "later"), "soon to later");
    assert_eq!(data_type_label("historical"), "Historical Data");
    assert_eq!(data_type_label("mixed"), "Historical + Forecast");
    assert_eq!(data_type_label("forecast"), "Forecast");
    assert_eq!(
        date_range_line("2025-01-01", "2025-01-01", "historical"),
        "📅 \x1b[1mJanuary 01, 2025\x1b[0m (Historical Data)"
    );
}

#[test]
fn table_time_column() {
    assert_eq!(time_label("2026-05-21T09:00", false), "09:00");
    assert_eq!(time_label("2026-05-21T09:30Z", true), "21 09:30");
    assert_eq!(time_label("2026-05-21T09", false), "09:00");
    assert_eq!(time_label("garbage", false), "garbage");
    assert!(spans_days("2026-05-21T00:00", "2026-05-22T00:00"));
    assert!(!spans_days("2026-05-21T00:00", "2026-05-21T23:00"));
}

#[test]
fn table_extent_and_note() {
    assert_eq!(table_extent(48, 24), (24, true));
    assert_eq!(table_extent(10, 24), (10, false));
    assert_eq!(
        more_hours_note(24, 48),
        "\x1b[2mShowing first 24 of 48 hours. Use --all-hours to see all.\x1b[0m"
    );
}

#[test]
fn error_advice_matches_the_message() {
    assert_eq!(
        error_advice("Date must be in YYYY-MM-DD format"),
        "Use the correct ISO format. Example: '--from-date 2026-05-21'"
    );
    assert_eq!(
        error_advice("Missing API key 'X'"),
        "An API key issue was encountered. Verify your configuration in '~/.config/weather_oz/config.json' or set the appropriate environment variables."
    );
    assert_eq!(
        error_advice("DNS error: no route"),
        "An internet connection error occurred. Check your network or run without network-dependent flags."
    );
    assert_eq!(
        error_advice("Location not found: Xyzzzzz"),
        "Please double check your command arguments or run 'weather --help' for details."
    );
}

#[test]
fn error_block_is_framed() {
    let lines = error_block("boom");
    assert_eq!(lines.len(), 5);
    let bar = "═".repeat(95);
    assert_eq!(lines[0], format!("\x1b[1;31m╔{}╗\x1b[0m", bar));
    assert_eq!(lines[4], format!("\x1b[1;31m╚{}╝\x1b[0m", bar));
    assert!(lines[1].contains("🚨 ERROR: boom"));
    assert_eq!(pad_right_str("ab", 4), "ab  ");
    assert_eq!(pad_right_str("abc", 2), "abc");
}

#[test]
fn layouts_by_mode_name() {
    assert_eq!(layout_for("Sparkline"), Layout::Sparkline);
    assert_eq!(layout_for("html-preview"), Layout::HtmlPreview);
    assert_eq!(layout_for("default"), Layout::Table);
    assert_eq!(layout_for("whatever"), Layout::Table);
}

#[test]
fn bordered_card_frame() {
    let f = card_frame("Rome", "Italy");
    assert_eq!(f.heading, "║  Weather Card: Rome, Italy  ║");
    assert_eq!(f.width, 29);
    assert_eq!(f.top, format!("╔{}╗", "═".repeat(29)));
    assert_eq!(card_paddings(29, 5, 2), (17, 4, 9, 9, 14));
}
