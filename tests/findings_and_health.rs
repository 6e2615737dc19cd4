use async_anticheat_api::findings::{
    aggregate_findings, distinct_players, sev_rank, upsert_finding, window_start, FindingIn,
};
use async_anticheat_api::health::{
    after_dispatch, after_probe, dispatch_record, health_url, ingest_url, modules_to_dispatch,
    DispatchOutcome, DispatchStatus, HealthState, ModuleHealth, ModuleRow,
};

fn finding(player: Option<u128>, detector: &str, severity: Option<&str>, title: &str) -> FindingIn {
    FindingIn {
        player_uuid: player,
        detector_name: detector.to_string(),
        detector_version: None,
        severity: severity.map(|s| s.to_string()),
        title: title.to_string(),
        description: None,
        evidence_s3_key: None,
        evidence_json: None,
    }
}

#[test]
fn severity_ranks() {
    assert_eq!(sev_rank("info"), 0);
    assert_eq!(sev_rank("low"), 1);
    assert_eq!(sev_rank("medium"), 2);
    assert_eq!(sev_rank("high"), 3);
    assert_eq!(sev_rank("critical"), 4);
    assert_eq!(sev_rank("bogus"), 0);
}

#[test]
fn aggregation_groups_and_keeps_strongest() {
    let mut a = finding(Some(1), " flight ", Some("low"), "low one");
    a.detector_version = Some("1".to_string());
    let b = finding(Some(1), "flight", Some("high"), " high one ");
    let c = finding(Some(1), "flight", Some("medium"), "medium one");
    let d = finding(Some(2), "flight", None, "other player");
    let dropped1 = finding(None, "flight", Some("critical"), "no player");
    let dropped2 = finding(Some(1), "  ", Some("critical"), "blank detector");
    let dropped3 = finding(Some(1), "flight", Some("critical"), "   ");
    let groups = aggregate_findings(&vec![a, b, c, d, dropped1, dropped2, dropped3]);
    assert_eq!(groups.len(), 2);
    assert_eq!(groups[0].player_uuid, 1);
    assert_eq!(groups[0].detector_name, "flight");
    assert_eq!(groups[0].count, 3);
    assert_eq!(groups[0].severity, "high");
    assert_eq!(groups[0].title, "high one");
    assert_eq!(groups[0].detector_version.as_deref(), Some("1"));
    assert_eq!(groups[1].player_uuid, 2);
    assert_eq!(groups[1].severity, "info");
    assert_eq!(groups[1].count, 1);
}

#[test]
fn equal_severity_later_entry_wins() {
    let a = finding(Some(1), "d", Some("low"), "first");
    let b = finding(Some(1), "d", Some("low"), "second");
    let groups = aggregate_findings(&vec![a, b]);
    assert_eq!(groups.len(), 1);
    assert_eq!(groups[0].title, "second");
    assert_eq!(groups[0].count, 2);
}

#[test]
fn findings_aggregation_across_two_submissions() {
    let window = window_start(1_700_000_015);
    assert_eq!(window, 1_700_000_000 - 1_700_000_000 % 60);
    let first = aggregate_findings(&vec![finding(Some(9), "reach", Some("low"), "low title")]);
    let row = upsert_finding(None, "s1", &first[0], window, 1_700_000_015);
    assert_eq!(row.occurrences, 1);
    assert_eq!(row.severity, "low");
    let second = aggregate_findings(&vec![finding(Some(9), "reach", Some("critical"), "critical title")]);
    let row = upsert_finding(Some(&row), "s1", &second[0], window, 1_700_000_040);
    assert_eq!(row.severity, "critical");
    assert_eq!(row.occurrences, 2);
    assert_eq!(row.title, "critical title");
    assert_eq!(row.first_seen_at, 1_700_000_015);
    assert_eq!(row.last_seen_at, 1_700_000_040);
    // A weaker later submission keeps the severity but still counts and retitles.
    let third = aggregate_findings(&vec![finding(Some(9), "reach", Some("low"), "late low")]);
    let row = upsert_finding(Some(&row), "s1", &third[0], window, 1_700_000_050);
    assert_eq!(row.severity, "critical");
    assert_eq!(row.occurrences, 3);
    assert_eq!(row.title, "late low");
}

#[test]
fn minute_window_floors() {
    assert_eq!(window_start(0), 0);
    assert_eq!(window_start(59), 0);
    assert_eq!(window_start(60), 60);
    assert_eq!(window_start(125), 120);
    assert_eq!(window_start(-1), -60);
    assert_eq!(window_start(-60), -60);
}

#[test]
fn distinct_players_in_first_order() {
    let fs = vec![
        finding(Some(3), "a", None, "t"),
        finding(None, "a", None, "t"),
        finding(Some(1), "a", None, "t"),
        finding(Some(3), "b", None, "t"),
    ];
    assert_eq!(distinct_players(&fs), vec![3u128, 1u128]);
}

#[test]
fn dispatcher_health_transition() {
    let mut h = ModuleHealth::unknown();
    for _ in 0..3 {
        assert!(!h.should_skip());
        h = after_dispatch(&h, DispatchOutcome::Responded(500));
    }
    assert!(h.should_skip());
    assert_eq!(h.state(), HealthState::Skipped);
    assert_eq!(h.consecutive_failures, 3);
    h = after_probe(&h, Some(200));
    assert!(!h.should_skip());
    assert_eq!(h.state(), HealthState::Healthy);
    assert_eq!(h.consecutive_failures, 0);
}

#[test]
fn degraded_below_three_failures() {
    let h = ModuleHealth::unknown().mark_failure().mark_failure();
    assert_eq!(h.state(), HealthState::Degraded);
    assert!(!h.should_skip());
    let h = after_probe(&h, None);
    assert_eq!(h.state(), HealthState::Skipped);
    let h = after_dispatch(&h, DispatchOutcome::TransformFailed);
    assert_eq!(h.consecutive_failures, 4);
    let h = after_dispatch(&h, DispatchOutcome::Responded(204));
    assert_eq!(h.state(), HealthState::Healthy);
}

#[test]
fn dispatch_audit_records() {
    assert_eq!(dispatch_record(DispatchOutcome::Responded(200)), (DispatchStatus::Sent, Some(200)));
    assert_eq!(dispatch_record(DispatchOutcome::Responded(500)), (DispatchStatus::Failed, Some(500)));
    assert_eq!(dispatch_record(DispatchOutcome::TransportFailed), (DispatchStatus::Failed, None));
    assert_eq!(dispatch_record(DispatchOutcome::TransformFailed), (DispatchStatus::Failed, None));
}

#[test]
fn module_urls_drop_trailing_slashes() {
    assert_eq!(ingest_url("http://127.0.0.1:4030//"), "http://127.0.0.1:4030/ingest");
    assert_eq!(health_url("http://m:1"), "http://m:1/health");
}

#[test]
fn skipped_and_disabled_modules_get_nothing() {
    let row = |name: &str, enabled: bool, ok: Option<bool>, failures: u32| ModuleRow {
        name: name.to_string(),
        base_url: "http://x".to_string(),
        enabled,
        transform: "raw_ndjson_gz".to_string(),
        health: ModuleHealth { last_healthcheck_ok: ok, consecutive_failures: failures },
    };
    let modules = vec![
        row("a", true, Some(true), 0),
        row("b", false, Some(true), 0),
        row("c", true, Some(false), 3),
        row("d", true, Some(false), 2),
        row("e", true, None, 5),
    ];
    assert_eq!(modules_to_dispatch(&modules), vec![0usize, 3, 4]);
}
