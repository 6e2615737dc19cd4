use async_anticheat_api::auth::sha256_hex;
use async_anticheat_api::error::ApiError;
use async_anticheat_api::observations::{check_observation_access, observation_type};
use async_anticheat_api::registration::ServerRecord;

fn server(hash: Option<String>, registered: bool) -> ServerRecord {
    ServerRecord {
        server_id: "s1".to_string(),
        platform: None,
        first_seen_at: 1,
        last_seen_at: 1,
        auth_token_hash: hash,
        auth_token_first_seen_at: None,
        owner_user_id: if registered { Some(1) } else { None },
        registered_at: if registered { Some(2) } else { None },
        callback_url: None,
    }
}

#[test]
fn observation_kinds_are_lower_cased() {
    assert_eq!(observation_type("Recording").ok(), Some("recording".to_string()));
    assert_eq!(observation_type("FALSE_POSITIVE").ok(), Some("false_positive".to_string()));
    assert_eq!(observation_type("undetected").ok(), Some("undetected".to_string()));
    assert!(matches!(observation_type("cheating"), Err(ApiError::BadRequest(_))));
}

#[test]
fn observation_access_rules() {
    let h = sha256_hex("T");
    assert!(matches!(check_observation_access(None, &h), Err(ApiError::BadRequest(_))));
    assert!(matches!(
        check_observation_access(Some(&server(None, true)), &h),
        Err(ApiError::Unauthorized)
    ));
    assert!(matches!(
        check_observation_access(Some(&server(Some(sha256_hex("U")), true)), &h),
        Err(ApiError::Unauthorized)
    ));
    assert!(matches!(
        check_observation_access(Some(&server(Some(h.clone()), false)), &h),
        Err(ApiError::BadRequest(_))
    ));
    assert!(check_observation_access(Some(&server(Some(h.clone()), true)), &h).is_ok());
}
