use async_anticheat_api::builtin_modules::{
    builtin_by_name, builtin_modules, builtin_modules_info, default_base_url, BuiltinTier,
};
use async_anticheat_api::cleanup::{file_expired, retention_cutoff, retention_seconds, tick_interval_seconds};
use async_anticheat_api::config::{parse_bool_setting, Config};
use async_anticheat_api::object_store::{format_date, sanitize_component, ObjectStore, UtcDate};
use async_anticheat_api::players::{batch_players, PacketIdentity};
use async_anticheat_api::webhooks::{
    discord_embed, group_notifications, is_discord_webhook, severity_color, severity_emoji, should_notify,
    FindingNotification, WebhookSettings,
};

#[test]
fn key_components_are_sanitized() {
    assert_eq!(sanitize_component("s1"), "s1");
    assert_eq!(sanitize_component("../../etc"), "etc");
    assert_eq!(sanitize_component("a/b\\c"), "abc");
    assert_eq!(sanitize_component(".hidden"), "hidden");
    assert_eq!(sanitize_component("a.b"), "a.b");
    assert_eq!(sanitize_component("../../.."), "");
}

#[test]
fn batch_key_is_deterministic() {
    let date = UtcDate { year: 2024, month: 3, day: 7 };
    let id: u128 = 1;
    let k1 = ObjectStore::batch_key("srv", "sess", id, &date);
    let k2 = ObjectStore::batch_key("srv", "sess", id, &date);
    assert_eq!(k1, k2);
    assert_eq!(
        k1.unwrap(),
        "events/srv/2024-03-07/sess/00000000-0000-0000-0000-000000000001.ndjson.gz"
    );
    assert_eq!(ObjectStore::batch_key("", "sess", id, &date), None);
    assert_eq!(ObjectStore::batch_key("srv", "/..", id, &date), None);
}

#[test]
fn dates_format_and_convert() {
    assert_eq!(format_date(&UtcDate { year: 987, month: 12, day: 31 }), "0987-12-31");
    assert_eq!(UtcDate::from_unix_seconds(0), Some(UtcDate { year: 1970, month: 1, day: 1 }));
    assert_eq!(
        UtcDate::from_unix_seconds(1_709_769_600),
        Some(UtcDate { year: 2024, month: 3, day: 7 })
    );
}

fn config(bucket: &str, endpoint: Option<&str>) -> Config {
    Config {
        host: "0.0.0.0".to_string(),
        port: 3002,
        database_url: String::new(),
        ingest_token: String::new(),
        module_callback_token: String::new(),
        dashboard_token: None,
        module_healthcheck_interval_seconds: 10,
        max_body_bytes: 10 * 1024 * 1024,
        object_store_cleanup_enabled: false,
        object_store_cleanup_dry_run: true,
        object_store_cleanup_interval_seconds: 3600,
        object_store_ttl_days: 7,
        object_store_ttl_seconds_override: None,
        batch_index_ttl_days: 7,
        batch_index_ttl_seconds_override: None,
        s3_bucket: bucket.to_string(),
        s3_region: "us-east-1".to_string(),
        s3_endpoint: endpoint.map(|e| e.to_string()),
        s3_access_key: None,
        s3_secret_key: None,
        local_store_dir: "./data/object_store".to_string(),
        cors_allow_origins: vec![],
        cors_permissive_dev: false,
    }
}

#[test]
fn store_backend_from_config() {
    match ObjectStore::from_config(&config("  ", None)) {
        ObjectStore::Local { root } => assert_eq!(root, "./data/object_store"),
        _ => panic!("expected local"),
    }
    match ObjectStore::from_config(&config("raw", Some("http://minio:9000"))) {
        ObjectStore::S3 { bucket, path_style, endpoint, .. } => {
            assert_eq!(bucket, "raw");
            assert!(path_style);
            assert_eq!(endpoint.as_deref(), Some("http://minio:9000"));
        }
        _ => panic!("expected s3"),
    }
    match ObjectStore::from_config(&config("raw", None)) {
        ObjectStore::S3 { path_style, .. } => assert!(!path_style),
        _ => panic!("expected s3"),
    }
}

#[test]
fn boolean_settings() {
    assert!(parse_bool_setting(Some(" YES "), false));
    assert!(parse_bool_setting(Some("on"), false));
    assert!(!parse_bool_setting(Some("Off"), true));
    assert!(!parse_bool_setting(Some("0"), true));
    assert!(parse_bool_setting(Some("maybe"), true));
    assert!(!parse_bool_setting(None, false));
}

#[test]
fn retention_periods() {
    assert_eq!(retention_seconds(Some(5), 7), 60);
    assert_eq!(retention_seconds(Some(3600), 7), 3600);
    assert_eq!(retention_seconds(None, 7), 7 * 86400);
    assert_eq!(retention_seconds(None, 0), 86400);
    assert_eq!(retention_seconds(None, i64::MAX), i64::MAX);
    assert_eq!(retention_cutoff(1_000_000, 86400), 1_000_000 - 86400);
    assert_eq!(retention_cutoff(i64::MIN + 5, 60), i64::MIN);
    assert!(file_expired(Some(10), 11));
    assert!(!file_expired(Some(11), 11));
    assert!(!file_expired(None, 11));
    assert_eq!(tick_interval_seconds(0), 1);
    assert_eq!(tick_interval_seconds(10), 10);
}

#[test]
fn builtin_catalogue() {
    assert_eq!(default_base_url(4030), "http://127.0.0.1:4030");
    assert_eq!(default_base_url(0), "http://127.0.0.1:0");
    let defs = builtin_modules();
    assert_eq!(defs.len(), 6);
    assert_eq!(defs[3].name, "Combat Advanced");
    assert_eq!(defs[3].checks.len(), 12);
    let info = builtin_modules_info();
    assert_eq!(info[5].default_base_url, "http://127.0.0.1:4035");
    let m = builtin_by_name("Player Core").unwrap();
    assert_eq!(m.default_port, 4034);
    assert_eq!(m.tier, BuiltinTier::Core);
    assert!(builtin_by_name("Nope").is_none());
}

fn settings(enabled: bool, url: Option<&str>, levels: &[&str]) -> WebhookSettings {
    WebhookSettings {
        webhook_url: url.map(|u| u.to_string()),
        webhook_enabled: enabled,
        webhook_severity_levels: levels.iter().map(|l| l.to_string()).collect(),
    }
}

#[test]
fn webhook_trigger_rule() {
    let s = settings(true, Some("https://x"), &["high", "critical"]);
    assert!(should_notify(&s, "critical"));
    assert!(!should_notify(&s, "low"));
    assert!(!should_notify(&settings(false, Some("https://x"), &["low"]), "low"));
    assert!(!should_notify(&settings(true, None, &["low"]), "low"));
}

#[test]
fn webhook_payload_rules() {
    assert_eq!(severity_color("critical"), 0xDC2626);
    assert_eq!(severity_color("high"), 0xF97316);
    assert_eq!(severity_color("medium"), 0xEAB308);
    assert_eq!(severity_color("low"), 0x6366F1);
    assert_eq!(severity_color("info"), 0x6B7280);
    assert_eq!(severity_emoji("critical"), "🚨");
    assert!(is_discord_webhook("https://discord.com/api/webhooks/1/abc"));
    assert!(is_discord_webhook("https://discordapp.com/api/webhooks/1/abc"));
    assert!(!is_discord_webhook("https://example.com/api/webhooks/1"));
}

fn note(detector: &str, severity: &str, occurrences: i64, title: &str) -> FindingNotification {
    FindingNotification {
        server_id: "s1".to_string(),
        player_uuid: None,
        player_name: None,
        detector_name: detector.to_string(),
        severity: severity.to_string(),
        title: title.to_string(),
        description: None,
        occurrences,
    }
}

#[test]
fn webhook_grouping_sums_occurrences() {
    let grouped = group_notifications(&vec![
        note("a", "high", 2, "first"),
        note("b", "high", 1, "b"),
        note("a", "high", 3, "second"),
        note("a", "low", 1, "low"),
    ]);
    assert_eq!(grouped.len(), 3);
    assert_eq!(grouped[0].occurrences, 5);
    assert_eq!(grouped[0].title, "first");
    assert_eq!(grouped[1].detector_name, "b");
    assert_eq!(grouped[2].severity, "low");
}

fn ident(uuid: Option<&str>, name: Option<&str>) -> Option<PacketIdentity> {
    Some(PacketIdentity { uuid: uuid.map(|u| u.to_string()), name: name.map(|n| n.to_string()) })
}

#[test]
fn batch_players_skip_metadata_and_invalid() {
    let u1 = "00000000-0000-0000-0000-000000000001";
    let lines = vec![
        ident(Some(u1), Some("meta")),
        ident(Some(u1), Some("p")),
        None,
        ident(Some("not-a-uuid"), Some("q")),
        ident(Some(u1), Some("")),
        ident(Some(u1), Some("p")),
        ident(Some("00000000000000000000000000000002"), Some("r")),
    ];
    let players = batch_players(&lines);
    assert_eq!(players, vec![(1u128, "p".to_string()), (2u128, "r".to_string())]);
}

#[test]
fn discord_embed_text() {
    let mut n = note("reach", "high", -3, "Too far");
    n.player_uuid = Some(1);
    let e = discord_embed(&n, None);
    assert_eq!(e.title, "⚠️ HIGH Detection");
    assert_eq!(e.description, "**reach**: Too far");
    assert_eq!(e.color, 0xF97316);
    assert_eq!(e.player, "00000000-0000-0000-0000-000000000001");
    assert_eq!(e.occurrences, "-3");
    assert_eq!(e.footer, "AsyncAnticheat • s1");
    n.player_name = Some("Steve".to_string());
    n.occurrences = 12;
    let e = discord_embed(&n, Some("Lobby"));
    assert_eq!(e.player, "Steve");
    assert_eq!(e.occurrences, "12");
    assert_eq!(e.footer, "AsyncAnticheat • Lobby");
    n.player_name = None;
    n.player_uuid = None;
    n.severity = "weird".to_string();
    let e = discord_embed(&n, None);
    assert_eq!(e.player, "Unknown");
    assert_eq!(e.title, "ℹ️ WEIRD Detection");
}
