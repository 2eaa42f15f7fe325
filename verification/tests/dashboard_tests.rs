use weatheroz::dashboard::{
    location_line, log_tone, log_update, progress_line, provider_cell, sorted_names, step_mark,
    Tone,
};

#[test]
fn location_line_shows_query_until_resolved() {
    assert_eq!(
        location_line(&None, "istanbul"),
        ("📍 Arama: \"istanbul\"".to_string(), Tone::Yellow)
    );
    assert_eq!(
        location_line(&Some("Istanbul, Turkey".to_string()), "istanbul"),
        ("📍 Konum: Istanbul, Turkey".to_string(), Tone::Green)
    );
}

#[test]
fn progress_bar_has_twenty_cells() {
    let (t, tone) = progress_line(50);
    assert_eq!(t, "\n📊 İlerleme: ▰▰▰▰▰▰▰▰▰▰▱▱▱▱▱▱▱▱▱▱ 50%\n");
    assert_eq!(tone, Tone::Yellow);
    assert_eq!(progress_line(100).1, Tone::Green);
    assert_eq!(progress_line(10).1, Tone::Blue);
    assert_eq!(progress_line(0).0, "\n📊 İlerleme: ▱▱▱▱▱▱▱▱▱▱▱▱▱▱▱▱▱▱▱▱ 0%\n");
}

#[test]
fn step_and_provider_marks() {
    assert_eq!(step_mark("completed").icon, "  ✅ ");
    assert_eq!(step_mark("running").tone, Tone::Yellow);
    assert_eq!(step_mark("pending").icon, "  🕒 ");
    let c = provider_cell("failed");
    assert_eq!(c.label, "❌ Başarısız");
    assert!(c.shows_time);
    assert!(!provider_cell("running").shows_time);
    assert_eq!(provider_cell("pending").label, "🕒 Beklemede");
}

#[test]
fn providers_are_listed_by_name() {
    let names = vec!["wttr.in".to_string(), "Open-Meteo".to_string(), "MET Norway".to_string()];
    assert_eq!(
        sorted_names(&names),
        vec!["MET Norway".to_string(), "Open-Meteo".to_string(), "wttr.in".to_string()]
    );
}

#[test]
fn log_lines_are_toned_and_unquoted() {
    assert_eq!(log_tone("⚠ wttr.in failed: timeout"), (Tone::Red, true));
    assert_eq!(log_tone("⚡ Cache Hit: 'x' loaded!"), (Tone::White, false));
    assert_eq!(log_tone("cache hit"), (Tone::Green, true));
    assert_eq!(log_update("\"hello\""), Some("hello".to_string()));
    assert_eq!(log_update("\"\""), None);
    assert_eq!(log_update("plain"), Some("plain".to_string()));
}
