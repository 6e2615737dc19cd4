use async_anticheat_api::auth::{dashboard_authorized, shared_secret_authorized};
use async_anticheat_api::dashboard::FindingsQuery;
use async_anticheat_api::ping::{
    address_text, extract_host_port, parse_port, ping_target, plugin_online, unknown_server_status,
};

fn hp(h: &str, p: u16) -> Option<(String, u16)> {
    Some((h.to_string(), p))
}

#[test]
fn host_and_port_from_addresses() {
    assert_eq!(extract_host_port(""), None);
    assert_eq!(extract_host_port("   "), None);
    assert_eq!(extract_host_port("play.example.org"), hp("play.example.org", 25565));
    assert_eq!(extract_host_port(" http://1.2.3.4:25570/status?x=1 "), hp("1.2.3.4", 25570));
    assert_eq!(extract_host_port("https://mc.example.org"), hp("mc.example.org", 25565));
    assert_eq!(extract_host_port("[::1]:25566"), hp("::1", 25566));
    assert_eq!(extract_host_port("[::1]"), hp("::1", 25565));
    assert_eq!(extract_host_port("[]:80"), None);
    assert_eq!(extract_host_port("host:notaport"), hp("host", 25565));
    assert_eq!(extract_host_port("host: 80 "), hp("host", 80));
    assert_eq!(extract_host_port("host:70000"), hp("host", 25565));
    assert_eq!(extract_host_port(":80"), None);
    assert_eq!(extract_host_port("http:///x"), None);
}

#[test]
fn port_numbers() {
    assert_eq!(parse_port("25565"), Some(25565));
    assert_eq!(parse_port("+80"), Some(80));
    assert_eq!(parse_port("0"), Some(0));
    assert_eq!(parse_port("65535"), Some(65535));
    assert_eq!(parse_port("65536"), None);
    assert_eq!(parse_port("999999999999"), None);
    assert_eq!(parse_port(""), None);
    assert_eq!(parse_port("+"), None);
    assert_eq!(parse_port("8a"), None);
    assert_eq!(parse_port("-1"), None);
}

#[test]
fn shared_secret_checks() {
    assert!(shared_secret_authorized("Bearer s3cret", "s3cret"));
    assert!(!shared_secret_authorized("bearer s3cret", "s3cret"));
    assert!(!shared_secret_authorized("Bearer other", "s3cret"));
    assert!(!shared_secret_authorized("Bearer ", ""));
}

#[test]
fn dashboard_access() {
    assert!(dashboard_authorized("", None));
    assert!(dashboard_authorized("bearer  tok ", Some("tok")));
    assert!(!dashboard_authorized("Bearer nope", Some("tok")));
    assert!(!dashboard_authorized("", Some("tok")));
    assert!(!dashboard_authorized(" Bearer tok", Some("tok")));
}

#[test]
fn ping_targets() {
    assert_eq!(ping_target(Some("http://1.2.3.4:25570/"), "s1"), hp("1.2.3.4", 25570));
    assert_eq!(ping_target(None, "mc.example.org"), hp("mc.example.org", 25565));
    assert_eq!(ping_target(None, "550e8400-e29b-41d4-a716-446655440000"), None);
    assert_eq!(ping_target(Some("localhost:25565"), "s1"), None);
    assert_eq!(ping_target(Some("127.0.0.1"), "s1"), None);
    assert_eq!(ping_target(Some(""), "mc.example.org"), None);
    assert_eq!(address_text("h", 25565), "h:25565");
    assert!(plugin_online(29_999));
    assert!(!plugin_online(30_000));
    let s = unknown_server_status();
    assert_eq!(s.plugin_last_seen_ms, -1);
    assert!(!s.server_reachable);
}

#[test]
fn findings_paging() {
    let q = FindingsQuery { severity: None, player: None, limit: None, offset: None };
    assert_eq!(q.page_limit(), 50);
    assert_eq!(q.page_offset(), 0);
    let q = FindingsQuery { severity: None, player: None, limit: Some(500), offset: Some(20) };
    assert_eq!(q.page_limit(), 100);
    assert_eq!(q.page_offset(), 20);
    let q = FindingsQuery { severity: None, player: None, limit: Some(10), offset: None };
    assert_eq!(q.page_limit(), 10);
}
