use weatheroz::dates::CalendarDate;
use weatheroz::providers::blend::{blend_name, day_majority, group_by_time, majority_code, order_by_elapsed};
use weatheroz::providers::brightsky::BrightSkyProvider;
use weatheroz::providers::metnorway::MetNorwayProvider;
use weatheroz::providers::openmeteo::OpenMeteoProvider;
use weatheroz::providers::race::{
    after_fallback, after_primary, exclusion_of, no_eligible_error, race_is_historical,
    screen_group, split_groups, GroupAction, GroupEvent, GroupRace, TierStep,
};
use weatheroz::providers::tomorrowio::TomorrowIoProvider;
use weatheroz::providers::wttr::WttrProvider;
use weatheroz::providers::WeatherProvider;
use weatheroz::shared::domain::config::ApiKeys;

fn all_free() -> Vec<WeatherProvider> {
    vec![
        WeatherProvider::OpenMeteo(OpenMeteoProvider),
        WeatherProvider::MetNorway(MetNorwayProvider),
        WeatherProvider::Wttr(WttrProvider),
        WeatherProvider::BrightSky(BrightSkyProvider),
    ]
}

fn names(ps: &[WeatherProvider]) -> Vec<&'static str> {
    ps.iter().map(|p| p.name()).collect()
}

#[test]
fn groups_follow_the_race_lists() {
    let (main, fallback) = split_groups(
        &all_free(),
        &vec!["open-meteo".to_string(), "WTTR.IN".to_string()],
        &vec!["Bright Sky".to_string()],
    );
    assert_eq!(names(&main), vec!["Open-Meteo", "wttr.in"]);
    assert_eq!(names(&fallback), vec!["Bright Sky"]);
}

#[test]
fn an_unmatched_race_list_races_everyone() {
    let (main, fallback) = split_groups(&all_free(), &vec!["Nobody".to_string()], &vec![]);
    assert_eq!(main.len(), 4);
    assert!(fallback.is_empty());
}

#[test]
fn test_historical_date_excludes_metnorway() {
    let today = CalendarDate { year: 2026, month: 5, day: 19 };
    assert_eq!(race_is_historical("2025-01-01", today), Ok(true));
    let (eligible, out) = screen_group(&all_free(), true, &ApiKeys::new());
    assert_eq!(names(&eligible), vec!["Open-Meteo", "wttr.in", "Bright Sky"]);
    assert_eq!(
        out,
        vec![("MET Norway".to_string(), "Excluded for historical query".to_string())]
    );
}

#[test]
fn test_forecast_date_includes_metnorway() {
    let today = CalendarDate { year: 2026, month: 5, day: 19 };
    assert_eq!(race_is_historical("2026-05-20", today), Ok(false));
    let (eligible, out) = screen_group(&all_free(), false, &ApiKeys::new());
    assert_eq!(names(&eligible), vec!["Open-Meteo", "MET Norway", "wttr.in", "Bright Sky"]);
    assert!(out.is_empty());
}

#[test]
fn a_start_date_that_is_no_date_stops_the_race() {
    let today = CalendarDate { year: 2026, month: 5, day: 19 };
    assert!(race_is_historical("yesterday", today).is_err());
}

#[test]
fn test_provider_skipped_without_api_key() {
    let tomorrow = WeatherProvider::TomorrowIo(TomorrowIoProvider);
    let reason = exclusion_of(&tomorrow, false, &ApiKeys::new());
    assert_eq!(reason, Some("Missing API key 'Tomorrow.io'".to_string()));
}

#[test]
fn test_provider_executed_with_api_key() {
    let tomorrow = WeatherProvider::TomorrowIo(TomorrowIoProvider);
    let mut keys = ApiKeys::new();
    keys.insert("Tomorrow.io".to_string(), "dummy_key".to_string());
    assert_eq!(exclusion_of(&tomorrow, false, &keys), None);
}

#[test]
fn a_lone_provider_wins_at_its_first_success() {
    let mut race = GroupRace::new(vec!["Only".to_string()]);
    let a = race.step(GroupEvent::Completed { slot: 0, elapsed: 50, error: None });
    assert_eq!(a, GroupAction::Stop);
    assert!(race.is_over());
    assert_eq!(race.verdict(), Ok(vec![0]));
}

#[test]
fn test_race_fastest_provider_wins() {
    let mut race = GroupRace::new(vec!["Mock-Slow-1".to_string(), "Mock-Fast-2".to_string()]);
    let a = race.step(GroupEvent::Completed { slot: 1, elapsed: 50_000_000, error: None });
    assert_eq!(a, GroupAction::StartDeadline);
    let a = race.step(GroupEvent::DeadlineExpired);
    assert_eq!(a, GroupAction::Stop);
    assert_eq!(race.verdict(), Ok(vec![1]));
    assert_eq!(
        race.step(GroupEvent::Completed { slot: 0, elapsed: 300_000_000, error: None }),
        GroupAction::Stop
    );
}

#[test]
fn successes_within_the_window_are_blended_fastest_first() {
    let mut race = GroupRace::new(vec!["A".to_string(), "B".to_string(), "C".to_string()]);
    assert_eq!(
        race.step(GroupEvent::Completed { slot: 2, elapsed: 30, error: None }),
        GroupAction::StartDeadline
    );
    assert_eq!(
        race.step(GroupEvent::Completed { slot: 0, elapsed: 20, error: None }),
        GroupAction::Continue
    );
    assert_eq!(
        race.step(GroupEvent::Completed { slot: 1, elapsed: 0, error: Some("boom".to_string()) }),
        GroupAction::Continue
    );
    assert_eq!(race.step(GroupEvent::StreamEnded), GroupAction::Stop);
    assert_eq!(race.verdict(), Ok(vec![0, 2]));
}

#[test]
fn a_failure_leaves_the_race_running_for_a_later_success() {
    let mut race = GroupRace::new(vec!["Mock-Fail-V2".to_string(), "Mock-Success-V2".to_string()]);
    assert_eq!(
        race.step(GroupEvent::Completed { slot: 0, elapsed: 10, error: Some("mock failure".to_string()) }),
        GroupAction::Continue
    );
    assert!(!race.is_over());
    assert_eq!(
        race.step(GroupEvent::Completed { slot: 1, elapsed: 50, error: None }),
        GroupAction::StartDeadline
    );
    assert_eq!(race.step(GroupEvent::StreamEnded), GroupAction::Stop);
    assert_eq!(race.verdict(), Ok(vec![1]));
}

#[test]
fn a_group_without_success_lists_every_failure() {
    let mut race = GroupRace::new(vec!["Primary-Fail-1".to_string(), "Primary-Fail-2".to_string()]);
    race.step(GroupEvent::Completed { slot: 1, elapsed: 10, error: Some("timeout".to_string()) });
    race.step(GroupEvent::Completed { slot: 0, elapsed: 20, error: Some("HTTP 500".to_string()) });
    race.step(GroupEvent::StreamEnded);
    assert_eq!(
        race.verdict(),
        Err("All providers in group failed. Errors:\nPrimary-Fail-2: timeout\nPrimary-Fail-1: HTTP 500".to_string())
    );
    assert_eq!(no_eligible_error(), "No eligible providers in this race group.");
}

#[test]
fn test_primary_to_fallback_transition_on_failure() {
    assert!(matches!(after_primary(None, 0), TierStep::Finished));
    assert!(matches!(after_primary(Some("e".to_string()), 1), TierStep::RunFallback));
    match after_primary(Some("boom".to_string()), 0) {
        TierStep::Failed(m) => assert_eq!(
            m,
            "Primary race failed, and no fallback providers are configured. Error: boom"
        ),
        other => panic!("unexpected step {:?}", other),
    }
    assert_eq!(after_fallback("p", None), None);
}

#[test]
fn test_full_system_failure_bubbles_detailed_error() {
    let err = after_fallback("Primary-Fail-1 failed", Some("Fallback-Fail-2 failed".to_string())).unwrap();
    assert_eq!(
        err,
        "Both primary and fallback races failed.\nPrimary errors: Primary-Fail-1 failed\nFallback errors: Fallback-Fail-2 failed"
    );
    assert!(err.contains("failed"));
}

#[test]
fn blend_order_is_a_stable_sort_by_time() {
    assert_eq!(order_by_elapsed(&vec![30, 10, 20, 10]), vec![1, 3, 2, 0]);
    assert_eq!(order_by_elapsed(&vec![]), Vec::<usize>::new());
}

#[test]
fn points_group_by_time_in_order() {
    let times = vec![
        "2026-05-21T13:00".to_string(),
        "2026-05-21T12:00".to_string(),
        "2026-05-21T12:00".to_string(),
        "2026-05-21T13:00".to_string(),
        "2026-05-21T11:00".to_string(),
    ];
    let (keys, members) = group_by_time(&times);
    assert_eq!(keys, vec!["2026-05-21T11:00", "2026-05-21T12:00", "2026-05-21T13:00"]);
    assert_eq!(members, vec![vec![4], vec![1, 2], vec![0, 3]]);
}

#[test]
fn test_consensus_majority_vote_weather_codes() {
    assert_eq!(majority_code(&vec![61, 3, 61, 0]), 61);
    assert_eq!(majority_code(&vec![]), 0);
    let tie = majority_code(&vec![1, 2]);
    assert!(tie == 1 || tie == 2);
}

#[test]
fn day_flags_vote_with_ties_to_day() {
    assert_eq!(day_majority(&vec![Some(true), Some(false)]), Some(true));
    assert_eq!(day_majority(&vec![Some(false), Some(false), Some(true)]), Some(false));
    assert_eq!(day_majority(&vec![None, None]), None);
}

#[test]
fn blended_names() {
    assert_eq!(blend_name(&vec![]), "Empty");
    assert_eq!(blend_name(&vec!["Mock-Fast-2".to_string()]), "Mock-Fast-2");
    assert_eq!(
        blend_name(&vec!["Mock-1".to_string(), "Mock-2".to_string()]),
        "Consensus Blended (Mock-1, Mock-2)"
    );
}

#[test]
fn the_blend_order_ignores_the_arrival_order() {
    let arrived = [("A", 30u64), ("B", 10), ("C", 20)];
    let rearranged = [("C", 20u64), ("A", 30), ("B", 10)];
    let ordered = |rs: &[(&str, u64)]| -> Vec<String> {
        let keys: Vec<u64> = rs.iter().map(|r| r.1).collect();
        order_by_elapsed(&keys).into_iter().map(|i| rs[i].0.to_string()).collect()
    };
    let first = ordered(&arrived);
    assert_eq!(first, vec!["B", "C", "A"]);
    assert_eq!(ordered(&rearranged), first);
    assert_eq!(blend_name(&first), "Consensus Blended (B, C, A)");
}
