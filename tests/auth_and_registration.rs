use async_anticheat_api::auth::{
    constant_time_eq, extract_server_address, is_local_ip, parse_bearer_token, sha256_hex,
    validate_token_hash,
};
use async_anticheat_api::error::ApiError;
use async_anticheat_api::ingest::{
    check_ingest_request, first_ingest_step, handshake_answer, ingest_accepted, ingest_batch_key,
    next_ingest_step, payload_bytes, waiting_for_registration, IngestStep,
};
use async_anticheat_api::object_store::UtcDate;
use async_anticheat_api::registration::{
    check_registration, heartbeat_record, RegistrationDecision, ServerRecord,
};

const HASH_T: &str = "e632b7095b0bf32c260fa4c539e9fd7b852d0de454e9be26f24d0d6f91d069d3";

#[test]
fn bearer_prefix_is_case_insensitive() {
    assert_eq!(parse_bearer_token("Bearer T"), Some("T".to_string()));
    assert_eq!(parse_bearer_token("  bEaReR   abc  "), Some("abc".to_string()));
    assert_eq!(parse_bearer_token("Bearer "), None);
    assert_eq!(parse_bearer_token(""), None);
    assert_eq!(parse_bearer_token("Basic abc"), None);
    assert_eq!(parse_bearer_token("Bearerabc"), None);
}

#[test]
fn token_hash_is_lower_hex_sha256() {
    assert_eq!(sha256_hex("T"), HASH_T);
    assert_eq!(
        sha256_hex(""),
        "e3b0c44298fc1c149afbf4c8996fb92427ae41e4649b934ca495991b7852b855"
    );
}

#[test]
fn constant_time_eq_compares_exactly() {
    assert!(constant_time_eq("abc", "abc"));
    assert!(!constant_time_eq("abc", "abd"));
    assert!(!constant_time_eq("abc", "abcd"));
    assert!(!constant_time_eq("", "a"));
    assert!(constant_time_eq("", ""));
    assert!(validate_token_hash(HASH_T, HASH_T));
    assert!(!validate_token_hash(HASH_T, "00"));
}

#[test]
fn local_addresses_are_recognised() {
    assert!(is_local_ip("127.0.0.1"));
    assert!(is_local_ip("::1"));
    assert!(is_local_ip("10.1.2.3"));
    assert!(is_local_ip("192.168.0.7"));
    assert!(is_local_ip("172.16.0.1"));
    assert!(is_local_ip("172.31.0.1"));
    // The textual rule covers 172.20. to 172.29. as well.
    assert!(is_local_ip("172.25.1.1"));
    assert!(!is_local_ip("172.32.0.1"));
    assert!(!is_local_ip("8.8.8.8"));
}

#[test]
fn server_address_precedence() {
    assert_eq!(
        extract_server_address(Some(" play.example.org:25570 "), Some("1.2.3.4"), None),
        Some("play.example.org:25570".to_string())
    );
    assert_eq!(
        extract_server_address(Some("  "), Some("1.2.3.4, 10.0.0.1"), Some("5.6.7.8")),
        Some("1.2.3.4:25565".to_string())
    );
    assert_eq!(
        extract_server_address(None, Some("10.0.0.1, 1.2.3.4"), Some("5.6.7.8")),
        Some("5.6.7.8:25565".to_string())
    );
    assert_eq!(extract_server_address(None, None, Some("127.0.0.1")), None);
    assert_eq!(extract_server_address(None, None, None), None);
}

fn record(hash: Option<&str>, registered: bool) -> ServerRecord {
    ServerRecord {
        server_id: "s1".to_string(),
        platform: None,
        first_seen_at: 100,
        last_seen_at: 100,
        auth_token_hash: hash.map(|h| h.to_string()),
        auth_token_first_seen_at: hash.map(|_| 100),
        owner_user_id: if registered { Some(7) } else { None },
        registered_at: if registered { Some(150) } else { None },
        callback_url: None,
    }
}

#[test]
fn first_ever_handshake_creates_pending_server() {
    let token = parse_bearer_token("Bearer T").unwrap();
    let hash = sha256_hex(&token);
    let (decision, rec) = check_registration(None, "s1", &hash, None, None, 1000);
    assert_eq!(decision, RegistrationDecision::Pending);
    let rec = rec.unwrap();
    assert_eq!(rec.auth_token_hash.as_deref(), Some(HASH_T));
    assert_eq!(rec.owner_user_id, None);
    assert_eq!(rec.server_id, "s1");
    let (code, body) = match handshake_answer(decision, "s1") {
        Ok(v) => v,
        Err(_) => panic!("handshake refused"),
    };
    assert_eq!(code, 409);
    assert!(body.ok);
    assert_eq!(body.status, "waiting_for_registration");
    assert_eq!(body.server_id, "s1");
}

#[test]
fn ingest_before_registration_is_pending() {
    let req = match check_ingest_request("s1", "sess1", 100, 10 * 1024 * 1024, "Bearer T") {
        Ok(r) => r,
        Err(_) => panic!("rejected"),
    };
    let hash = sha256_hex(&req.token);
    let existing = record(Some(HASH_T), false);
    let (decision, _) = check_registration(Some(&existing), "s1", &hash, None, None, 2000);
    assert_eq!(decision, RegistrationDecision::Pending);
    let body = waiting_for_registration("s1");
    assert!(body.ok);
    assert_eq!(body.status, "waiting_for_registration");
    assert_eq!(body.server_id, "s1");
}

#[test]
fn wrong_token_is_unauthorized_and_writes_nothing() {
    let existing = record(Some(HASH_T), true);
    let other = sha256_hex("U");
    let (decision, rec) = check_registration(Some(&existing), "s1", &other, Some("1.2.3.4:25565"), None, 3000);
    assert_eq!(decision, RegistrationDecision::Unauthorized);
    assert!(rec.is_none());
    assert!(matches!(handshake_answer(decision, "s1"), Err(ApiError::Unauthorized)));
}

#[test]
fn registered_server_proceeds_and_refreshes_last_seen() {
    let existing = record(Some(HASH_T), true);
    let (decision, rec) = check_registration(Some(&existing), "s1", HASH_T, Some("1.2.3.4:25565"), None, 3000);
    assert_eq!(decision, RegistrationDecision::Registered);
    let rec = rec.unwrap();
    assert_eq!(rec.last_seen_at, 3000);
    assert_eq!(rec.first_seen_at, 100);
    assert_eq!(rec.callback_url.as_deref(), Some("1.2.3.4:25565"));
    let (code, body) = match handshake_answer(decision, "s1") {
        Ok(v) => v,
        Err(_) => panic!("handshake refused"),
    };
    assert_eq!(code, 200);
    assert_eq!(body.status, "registered");
}

#[test]
fn first_token_is_stored_for_known_server() {
    let existing = record(None, false);
    let (decision, rec) = check_registration(Some(&existing), "s1", HASH_T, None, None, 500);
    assert_eq!(decision, RegistrationDecision::Pending);
    let rec = rec.unwrap();
    assert_eq!(rec.auth_token_hash.as_deref(), Some(HASH_T));
    assert_eq!(rec.auth_token_first_seen_at, Some(500));
}

#[test]
fn ingest_checks_run_in_order() {
    assert!(matches!(
        check_ingest_request(" ", "sess", 10, 100, ""),
        Err(ApiError::BadRequest(_))
    ));
    assert!(matches!(
        check_ingest_request("s1", "sess", 101, 100, "Bearer T"),
        Err(ApiError::BadRequest(_))
    ));
    assert!(matches!(
        check_ingest_request("s1", "sess", 100, 100, "Token T"),
        Err(ApiError::Unauthorized)
    ));
    let ok = match check_ingest_request(" s1 ", " sess1 ", 100, 100, "Bearer T") {
        Ok(r) => r,
        Err(_) => panic!("rejected"),
    };
    assert_eq!(ok.server_id, "s1");
    assert_eq!(ok.session_id, "sess1");
    assert_eq!(ok.token, "T");
}

#[test]
fn ingest_after_registration_reports_key() {
    let date = UtcDate::from_unix_seconds(1_700_000_000).unwrap();
    let id: u128 = 0x0123456789abcdef0123456789abcdef;
    let key = match ingest_batch_key("s1", "sess1", id, &date) {
        Ok(k) => k,
        Err(_) => panic!("no key"),
    };
    assert_eq!(key, "events/s1/2023-11-14/sess1/01234567-89ab-cdef-0123-456789abcdef.ndjson.gz");
    let body = ingest_accepted(id, key.clone());
    assert!(body.ok);
    assert_eq!(body.batch_id, id);
    assert_eq!(body.s3_key, key);
    assert!(matches!(ingest_batch_key("../..", "sess1", id, &date), Err(ApiError::BadRequest(_))));
}

#[test]
fn payload_size_is_capped() {
    assert_eq!(payload_bytes(100), 100);
    assert_eq!(payload_bytes(usize::MAX), i32::MAX);
}

#[test]
fn error_status_and_message() {
    assert_eq!(ApiError::Unauthorized.status_code(), 401);
    assert_eq!(ApiError::BadRequest("x".to_string()).status_code(), 400);
    assert_eq!(ApiError::Internal.status_code(), 500);
    assert_eq!(ApiError::BadRequest("x".to_string()).message(), "bad request: x");
    assert_eq!(ApiError::Internal.message(), "internal error");
}

#[test]
fn heartbeat_needs_the_stored_token() {
    assert!(matches!(heartbeat_record(None, HASH_T, 10), Err(ApiError::Unauthorized)));
    assert!(matches!(heartbeat_record(Some(&record(None, true)), HASH_T, 10), Err(ApiError::Unauthorized)));
    let other = sha256_hex("U");
    assert!(matches!(heartbeat_record(Some(&record(Some(HASH_T), true)), &other, 10), Err(ApiError::Unauthorized)));
    let rec = match heartbeat_record(Some(&record(Some(HASH_T), false)), HASH_T, 10) {
        Ok(r) => r,
        Err(_) => panic!("refused"),
    };
    assert_eq!(rec.last_seen_at, 10);
    assert_eq!(rec.first_seen_at, 100);
    assert_eq!(rec.auth_token_hash.as_deref(), Some(HASH_T));
}

#[test]
fn ingest_storage_steps_in_order() {
    let mut step = first_ingest_step();
    assert_eq!(step, IngestStep::SeedModules);
    step = next_ingest_step(step, true);
    assert_eq!(step, IngestStep::InsertIndex);
    assert_eq!(next_ingest_step(step, false), IngestStep::Failed);
    step = next_ingest_step(step, true);
    assert_eq!(step, IngestStep::WriteBlob);
    assert_eq!(next_ingest_step(step, false), IngestStep::Failed);
    step = next_ingest_step(step, true);
    assert_eq!(step, IngestStep::Done);
    assert_eq!(next_ingest_step(IngestStep::Failed, true), IngestStep::Failed);
}
