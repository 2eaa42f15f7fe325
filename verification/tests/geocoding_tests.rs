use weatheroz::geocoding::{
    check_ip_answer, ip_place_name, normalize_query, place_cache_key, place_label_of, GeoAnswer,
    GeoSearch, GeoStep,
};

#[test]
fn test_normalize_query_stripping() {
    let result = normalize_query("Yeni Istanbul");
    assert!(result.contains(&"Istanbul".to_string()));
    assert!(
        result.contains(&"yeni istanbul".to_string())
            || result.contains(&"Yeni Istanbul".to_string())
    );
}

#[test]
fn test_normalize_query_ascii_folding() {
    let result = normalize_query("İstanbul");
    assert!(result.contains(&"Istanbul".to_string()));
}

#[test]
fn spellings_come_in_order_without_repeats() {
    let result = normalize_query("Yeni Istanbul");
    assert_eq!(result, vec!["Istanbul".to_string(), "Yeni Istanbul".to_string()]);
}

#[test]
fn commas_split_the_query_into_words() {
    let result = normalize_query("Central Park, NY");
    assert_eq!(
        result,
        vec![
            "Central Park, NY".to_string(),
            "Central".to_string(),
            "Park".to_string(),
            "NY".to_string()
        ]
    );
}

#[test]
fn a_lone_prefix_word_is_kept_as_the_query() {
    let result = normalize_query("North");
    assert_eq!(result, vec!["North".to_string()]);
}

#[test]
fn folded_spellings_follow_the_originals() {
    let result = normalize_query("Kadıköy");
    assert_eq!(result, vec!["Kadıköy".to_string(), "Kadikoy".to_string()]);
}

#[test]
fn cache_key_is_lowercase_and_trimmed() {
    assert_eq!(place_cache_key("  Istanbul "), "istanbul");
}

#[test]
fn search_tries_spellings_until_one_matches() {
    let mut search = GeoSearch::new("Yeni Istanbul");
    match search.start() {
        GeoStep::Ask(c) => assert_eq!(c, "Istanbul"),
        other => panic!("unexpected step {:?}", other),
    }
    match search.answer(GeoAnswer::NoMatch) {
        GeoStep::Ask(c) => assert_eq!(c, "Yeni Istanbul"),
        other => panic!("unexpected step {:?}", other),
    }
    assert!(matches!(search.answer(GeoAnswer::Found), GeoStep::Resolved));
}

#[test]
fn search_fails_when_no_spelling_matches() {
    let mut search = GeoSearch::new("Xyzzzzz");
    assert!(matches!(search.start(), GeoStep::Ask(_)));
    match search.answer(GeoAnswer::NoMatch) {
        GeoStep::Fail(m) => assert_eq!(m, "Location not found: Xyzzzzz"),
        other => panic!("unexpected step {:?}", other),
    }
}

#[test]
fn search_stops_at_a_failed_request() {
    let mut search = GeoSearch::new("Berlin");
    assert!(matches!(search.start(), GeoStep::Ask(_)));
    match search.answer(GeoAnswer::Failed("HTTP error 500".to_string())) {
        GeoStep::Fail(m) => assert_eq!(m, "HTTP error 500"),
        other => panic!("unexpected step {:?}", other),
    }
}

#[test]
fn ip_answer_checks() {
    assert!(check_ip_answer("success", true, true).is_ok());
    assert_eq!(
        check_ip_answer("fail", true, true).unwrap_err(),
        "IP Geolocation failed: status is fail"
    );
    assert_eq!(
        check_ip_answer("success", false, true).unwrap_err(),
        "Missing latitude in IP API response"
    );
    assert_eq!(
        check_ip_answer("success", true, false).unwrap_err(),
        "Missing longitude in IP API response"
    );
}

#[test]
fn ip_place_defaults_to_unknown_city() {
    assert_eq!(ip_place_name(None), "Unknown City");
    assert_eq!(ip_place_name(Some("Izmir".to_string())), "Izmir");
    assert_eq!(place_label_of("Izmir", "Turkey"), "Izmir, Turkey");
}
