//! Cheat observations recorded in game: who may submit one, and which kinds exist.
use vstd::prelude::*;
use vstd::string::*;
use crate::auth::validate_token_hash;
use crate::error::ApiError;
use crate::registration::{is_registered, ServerRecord, ServerView};
use crate::text::str_equals;

verus! {

/// The lower-case form of a text, as `str::to_lowercase` gives it.
pub uninterp spec fn lower_of(s: Seq<char>) -> Seq<char>;

/// Relies on `str::to_lowercase`: the result depends on the characters alone.
#[verifier::external_body]
fn lowercase(s: &str) -> (r: String)
    ensures
        r@ == lower_of(s@),
{
    s.to_lowercase()
}

/// An observation submitted by a plugin; UUIDs as 128-bit numbers, times as
/// Unix seconds.
pub struct CreateObservation {
    pub observation_type: String,
    pub player_uuid: u128,
    pub player_name: Option<String>,
    pub cheat_type: Option<String>,
    pub label: Option<String>,
    pub started_at: i64,
    pub ended_at: Option<i64>,
    pub recorded_by_uuid: Option<u128>,
    pub recorded_by_name: Option<String>,
    pub session_id: Option<String>,
}

/// The answer to a stored observation.
pub struct CreateObservationResponse {
    pub ok: bool,
    pub observation_id: u128,
}

/// How an observation request fares against the stored server record.
pub enum ObservationAccess {
    /// No such server: 400.
    UnknownServer,
    /// No token stored, or a different one: 401.
    BadToken,
    /// Not linked to an account yet: 400.
    NotRegistered,
    Allowed,
}

pub open spec fn observation_access_of(existing: Option<ServerView>, token_hash: Seq<char>) -> ObservationAccess {
    match existing {
        None => ObservationAccess::UnknownServer,
        Some(s) => match s.auth_token_hash {
            None => ObservationAccess::BadToken,
            Some(h) => if h != token_hash {
                ObservationAccess::BadToken
            } else if !is_registered(s) {
                ObservationAccess::NotRegistered
            } else {
                ObservationAccess::Allowed
            },
        },
    }
}

/// Admits an observation only from a registered server whose stored token
/// hash matches (compared in constant time); unlike ingest, an unknown
/// server or one without a stored token is refused.
pub fn check_observation_access(existing: Option<&ServerRecord>, token_hash: &str) -> (r: Result<(), ApiError>)
    ensures
        (r is Ok) <==> observation_access_of(
            match existing {
                Some(s) => Some(s@),
                None => None,
            },
            token_hash@,
        ) is Allowed,
        (r matches Err(ApiError::Unauthorized)) <==> observation_access_of(
            match existing {
                Some(s) => Some(s@),
                None => None,
            },
            token_hash@,
        ) is BadToken,
        (r matches Err(ApiError::BadRequest(_))) <==> (observation_access_of(
            match existing {
                Some(s) => Some(s@),
                None => None,
            },
            token_hash@,
        ) is UnknownServer || observation_access_of(
            match existing {
                Some(s) => Some(s@),
                None => None,
            },
            token_hash@,
        ) is NotRegistered),
        !(r matches Err(ApiError::Internal)),
{
    match existing {
        None => Err(ApiError::BadRequest(String::from_str("server not found"))),
        Some(s) => match &s.auth_token_hash {
            None => Err(ApiError::Unauthorized),
            Some(h) => {
                if !validate_token_hash(token_hash, h.as_str()) {
                    Err(ApiError::Unauthorized)
                } else if s.owner_user_id.is_none() || s.registered_at.is_none() {
                    Err(ApiError::BadRequest(String::from_str("server not registered - please link it in the dashboard first")))
                } else {
                    Ok(())
                }
            },
        },
    }
}

/// The kinds of observation a plugin can submit.
pub open spec fn is_observation_kind(t: Seq<char>) -> bool {
    t == "recording"@ || t == "undetected"@ || t == "false_positive"@
}

/// The observation kind of a submitted type name, lower-cased; an unknown
/// kind is a 400.
pub fn observation_type(raw: &str) -> (r: Result<String, ApiError>)
    ensures
        r matches Ok(t) ==> t@ == lower_of(raw@) && is_observation_kind(lower_of(raw@)),
        r is Err ==> (r matches Err(ApiError::BadRequest(_))) && !is_observation_kind(lower_of(raw@)),
{
    let t = lowercase(raw);
    if str_equals(t.as_str(), "recording") || str_equals(t.as_str(), "undetected") || str_equals(
        t.as_str(),
        "false_positive",
    ) {
        Ok(t)
    } else {
        Err(ApiError::BadRequest(String::from_str("invalid observation_type (must be 'recording', 'undetected', or 'false_positive')")))
    }
}

} // verus!
