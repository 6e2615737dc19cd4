use async_anticheat_api::config::{parse_list, Config, SettingValues};
use async_anticheat_api::numbers::{parse_i64, parse_unsigned};

fn unset() -> SettingValues {
    SettingValues {
        host: None,
        port: None,
        database_url: None,
        ingest_token: None,
        module_callback_token: None,
        dashboard_token: None,
        module_healthcheck_interval_seconds: None,
        max_body_bytes: None,
        object_store_cleanup_enabled: None,
        object_store_cleanup_dry_run: None,
        object_store_cleanup_interval_seconds: None,
        object_store_ttl_days: None,
        object_store_ttl_seconds: None,
        batch_index_ttl_days: None,
        batch_index_ttl_seconds: None,
        s3_bucket: None,
        s3_region: None,
        s3_endpoint: None,
        s3_access_key: None,
        s3_secret_key: None,
        local_store_dir: None,
        cors_allow_origins: None,
        cors_permissive_dev: None,
    }
}

fn some(s: &str) -> Option<String> {
    Some(s.to_string())
}

#[test]
fn defaults_when_unset() {
    let c = Config::from_values(&unset());
    assert_eq!(c.host, "0.0.0.0");
    assert_eq!(c.port, 3002);
    assert_eq!(c.module_healthcheck_interval_seconds, 10);
    assert_eq!(c.max_body_bytes, 10 * 1024 * 1024);
    assert!(!c.object_store_cleanup_enabled);
    assert!(c.object_store_cleanup_dry_run);
    assert_eq!(c.object_store_cleanup_interval_seconds, 3600);
    assert_eq!(c.object_store_ttl_days, 7);
    assert_eq!(c.batch_index_ttl_days, 7);
    assert_eq!(c.object_store_ttl_seconds_override, None);
    assert_eq!(c.s3_region, "us-east-1");
    assert_eq!(c.local_store_dir, "./data/object_store");
    assert!(c.cors_allow_origins.is_empty());
    assert!(c.dashboard_token.is_none());
}

#[test]
fn values_are_read() {
    let mut v = unset();
    v.port = some("8080");
    v.max_body_bytes = some("1024");
    v.object_store_cleanup_enabled = some("Yes");
    v.object_store_ttl_days = some("0");
    v.object_store_ttl_seconds = some("-5");
    v.batch_index_ttl_seconds = some("120");
    v.dashboard_token = some("   ");
    v.cors_allow_origins = some(" https://a.example , ,https://b.example,");
    v.module_healthcheck_interval_seconds = some("abc");
    let c = Config::from_values(&v);
    assert_eq!(c.port, 8080);
    assert_eq!(c.max_body_bytes, 1024);
    assert!(c.object_store_cleanup_enabled);
    assert_eq!(c.object_store_ttl_days, 1);
    assert_eq!(c.batch_index_ttl_days, 1);
    assert_eq!(c.object_store_ttl_seconds_override, None);
    assert_eq!(c.batch_index_ttl_seconds_override, Some(120));
    assert!(c.dashboard_token.is_none());
    assert_eq!(c.cors_allow_origins, vec!["https://a.example".to_string(), "https://b.example".to_string()]);
    assert_eq!(c.module_healthcheck_interval_seconds, 10);
    v.port = some("70000");
    v.batch_index_ttl_days = some("30");
    assert_eq!(Config::from_values(&v).port, 3002);
    assert_eq!(Config::from_values(&v).batch_index_ttl_days, 30);
}

#[test]
fn lists_split_on_commas() {
    assert!(parse_list("").is_empty());
    assert!(parse_list(" , ,").is_empty());
    assert_eq!(parse_list("a"), vec!["a".to_string()]);
    assert_eq!(parse_list(" a ,b,, c "), vec!["a".to_string(), "b".to_string(), "c".to_string()]);
}

#[test]
fn decimal_numbers() {
    assert_eq!(parse_unsigned("18446744073709551615", u64::MAX), Some(u64::MAX));
    assert_eq!(parse_unsigned("18446744073709551616", u64::MAX), None);
    assert_eq!(parse_unsigned("+7", 10), Some(7));
    assert_eq!(parse_unsigned("11", 10), None);
    assert_eq!(parse_unsigned(" 1", 10), None);
    assert_eq!(parse_i64("-9223372036854775808"), Some(i64::MIN));
    assert_eq!(parse_i64("9223372036854775807"), Some(i64::MAX));
    assert_eq!(parse_i64("9223372036854775808"), None);
    assert_eq!(parse_i64("-"), None);
    assert_eq!(parse_i64("+42"), Some(42));
    assert_eq!(parse_i64("-0"), Some(0));
}
