//! The registration check: a server record moves from unseen to pending to
//! registered, and requests pass only for registered servers whose token
//! matches the one first seen.
use vstd::prelude::*;
use vstd::string::*;
use crate::auth::validate_token_hash;
use crate::error::ApiError;
use crate::findings::{clone_opt, opt_str};

verus! {

/// What the service stores about a game server.
pub struct ServerRecord {
    pub server_id: String,
    pub platform: Option<String>,
    pub first_seen_at: i64,
    pub last_seen_at: i64,
    pub auth_token_hash: Option<String>,
    pub auth_token_first_seen_at: Option<i64>,
    pub owner_user_id: Option<u128>,
    pub registered_at: Option<i64>,
    pub callback_url: Option<String>,
}

/// A server record as plain values.
pub struct ServerView {
    pub server_id: Seq<char>,
    pub platform: Option<Seq<char>>,
    pub first_seen_at: int,
    pub last_seen_at: int,
    pub auth_token_hash: Option<Seq<char>>,
    pub auth_token_first_seen_at: Option<int>,
    pub owner_user_id: Option<u128>,
    pub registered_at: Option<int>,
    pub callback_url: Option<Seq<char>>,
}

pub open spec fn opt_int(o: Option<i64>) -> Option<int> {
    match o {
        Some(v) => Some(v as int),
        None => None,
    }
}

impl View for ServerRecord {
    type V = ServerView;

    open spec fn view(&self) -> ServerView {
        ServerView {
            server_id: self.server_id@,
            platform: opt_str(self.platform),
            first_seen_at: self.first_seen_at as int,
            last_seen_at: self.last_seen_at as int,
            auth_token_hash: opt_str(self.auth_token_hash),
            auth_token_first_seen_at: opt_int(self.auth_token_first_seen_at),
            owner_user_id: self.owner_user_id,
            registered_at: opt_int(self.registered_at),
            callback_url: opt_str(self.callback_url),
        }
    }
}

/// A server is registered once it has both an owner and a registration time.
pub open spec fn is_registered(s: ServerView) -> bool {
    s.owner_user_id is Some && s.registered_at is Some
}

/// How the registration check answers a request.
#[derive(Clone, Copy, PartialEq, Eq, Debug, Structural)]
pub enum RegistrationDecision {
    /// The token does not match the stored hash: 401, nothing written.
    Unauthorized,
    /// The server is not registered yet: 409 `waiting_for_registration`.
    Pending,
    /// The server is registered and the token matches: the handler proceeds.
    Registered,
}

/// Where the token is accepted: no hash stored yet, or the stored one matches.
pub open spec fn token_accepted(stored: Option<Seq<char>>, token_hash: Seq<char>) -> bool {
    match stored {
        None => true,
        Some(h) => h == token_hash,
    }
}

/// The registration answer for a stored record, or none.
pub open spec fn registration_decision(existing: Option<ServerView>, token_hash: Seq<char>) -> RegistrationDecision {
    match existing {
        None => RegistrationDecision::Pending,
        Some(s) => if !token_accepted(s.auth_token_hash, token_hash) {
            RegistrationDecision::Unauthorized
        } else if is_registered(s) {
            RegistrationDecision::Registered
        } else {
            RegistrationDecision::Pending
        },
    }
}

/// The record after the registration check ran at time `now`, or `None` where nothing is
/// written. A new server is stored pending, with the token's hash. A known
/// server whose token is accepted gets `last_seen_at` and (when given) its
/// address refreshed, and keeps the first token hash it was seen with.
pub open spec fn registration_record(
    existing: Option<ServerView>,
    server_id: Seq<char>,
    token_hash: Seq<char>,
    address: Option<Seq<char>>,
    platform: Option<Seq<char>>,
    now: int,
) -> Option<ServerView> {
    match existing {
        None => Some(
            ServerView {
                server_id,
                platform,
                first_seen_at: now,
                last_seen_at: now,
                auth_token_hash: Some(token_hash),
                auth_token_first_seen_at: Some(now),
                owner_user_id: None,
                registered_at: None,
                callback_url: address,
            },
        ),
        Some(s) => if !token_accepted(s.auth_token_hash, token_hash) {
            None
        } else {
            Some(
                ServerView {
                    last_seen_at: now,
                    callback_url: match address {
                        Some(a) => Some(a),
                        None => s.callback_url,
                    },
                    auth_token_hash: Some(token_hash),
                    auth_token_first_seen_at: match s.auth_token_first_seen_at {
                        Some(t) => Some(t),
                        None => if s.auth_token_hash is None {
                            Some(now)
                        } else {
                            None
                        },
                    },
                    ..s
                },
            )
        },
    }
}

/// Runs the registration check for a request that carries `token_hash`, at
/// time `now`. Returns the answer and the record to store, if any; the
/// token is checked in constant time before anything is written.
pub fn check_registration(
    existing: Option<&ServerRecord>,
    server_id: &str,
    token_hash: &str,
    address: Option<&str>,
    platform: Option<&str>,
    now: i64,
) -> (r: (RegistrationDecision, Option<ServerRecord>))
    ensures
        r.0 == registration_decision(
            match existing {
                Some(s) => Some(s@),
                None => None,
            },
            token_hash@,
        ),
        match r.1 {
            Some(rec) => registration_record(
                match existing {
                    Some(s) => Some(s@),
                    None => None,
                },
                server_id@,
                token_hash@,
                crate::auth::opt_view(address),
                crate::auth::opt_view(platform),
                now as int,
            ) == Some(rec@),
            None => registration_record(
                match existing {
                    Some(s) => Some(s@),
                    None => None,
                },
                server_id@,
                token_hash@,
                crate::auth::opt_view(address),
                crate::auth::opt_view(platform),
                now as int,
            ) is None,
        },
{
    let address_s: Option<String> = match address {
        Some(a) => Some(String::from_str(a)),
        None => None,
    };
    match existing {
        None => {
            let platform_s: Option<String> = match platform {
                Some(p) => Some(String::from_str(p)),
                None => None,
            };
            let rec = ServerRecord {
                server_id: String::from_str(server_id),
                platform: platform_s,
                first_seen_at: now,
                last_seen_at: now,
                auth_token_hash: Some(String::from_str(token_hash)),
                auth_token_first_seen_at: Some(now),
                owner_user_id: None,
                registered_at: None,
                callback_url: address_s,
            };
            (RegistrationDecision::Pending, Some(rec))
        },
        Some(s) => {
            if let Some(stored) = &s.auth_token_hash {
                if !validate_token_hash(token_hash, stored.as_str()) {
                    return (RegistrationDecision::Unauthorized, None);
                }
            }
            let first_seen = match s.auth_token_first_seen_at {
                Some(t) => Some(t),
                None => if s.auth_token_hash.is_none() {
                    Some(now)
                } else {
                    None
                },
            };
            let callback = match address_s {
                Some(a) => Some(a),
                None => clone_opt(&s.callback_url),
            };
            let rec = ServerRecord {
                server_id: s.server_id.clone(),
                platform: clone_opt(&s.platform),
                first_seen_at: s.first_seen_at,
                last_seen_at: now,
                auth_token_hash: Some(String::from_str(token_hash)),
                auth_token_first_seen_at: first_seen,
                owner_user_id: s.owner_user_id,
                registered_at: s.registered_at,
                callback_url: callback,
            };
            let decision = if s.owner_user_id.is_some() && s.registered_at.is_some() {
                RegistrationDecision::Registered
            } else {
                RegistrationDecision::Pending
            };
            (decision, Some(rec))
        },
    }
}

/// A request that the registration check refuses writes nothing, and `last_seen_at` only
/// moves for a token that was accepted; a request proceeds only for a
/// registered server whose stored token hash matches.
pub proof fn lemma_registration_guards_writes(
    existing: Option<ServerView>,
    server_id: Seq<char>,
    token_hash: Seq<char>,
    address: Option<Seq<char>>,
    platform: Option<Seq<char>>,
    now: int,
)
    ensures
        registration_decision(existing, token_hash) == RegistrationDecision::Unauthorized ==> registration_record(
            existing,
            server_id,
            token_hash,
            address,
            platform,
            now,
        ) is None,
        existing matches Some(s) ==> (registration_record(existing, server_id, token_hash, address, platform, now) matches Some(n)
            && n.last_seen_at != s.last_seen_at ==> token_accepted(s.auth_token_hash, token_hash)),
        registration_decision(existing, token_hash) == RegistrationDecision::Registered ==> (existing matches Some(
            s,
        ) && is_registered(s) && token_accepted(s.auth_token_hash, token_hash)),
        existing matches Some(s) ==> (s.auth_token_hash matches Some(h) ==> (registration_record(existing, server_id, token_hash, address, platform, now) matches Some(n) ==> n.auth_token_hash == Some(h))),
{
}

/// The record after a heartbeat at `now`: only a known server whose stored
/// token hash equals the request's is refreshed, and only `last_seen_at` moves.
pub open spec fn heartbeat_of(existing: Option<ServerView>, token_hash: Seq<char>, now: int) -> Option<ServerView> {
    match existing {
        Some(s) => if s.auth_token_hash == Some(token_hash) {
            Some(ServerView { last_seen_at: now, ..s })
        } else {
            None
        },
        None => None,
    }
}

/// Accepts a liveness heartbeat; an unknown server or a token that is not
/// the stored one is a 401 and nothing is written.
pub fn heartbeat_record(existing: Option<&ServerRecord>, token_hash: &str, now: i64) -> (r: Result<ServerRecord, ApiError>)
    ensures
        r matches Ok(rec) ==> heartbeat_of(
            match existing {
                Some(s) => Some(s@),
                None => None,
            },
            token_hash@,
            now as int,
        ) == Some(rec@),
        r is Err ==> (r matches Err(ApiError::Unauthorized)) && heartbeat_of(
            match existing {
                Some(s) => Some(s@),
                None => None,
            },
            token_hash@,
            now as int,
        ) is None,
{
    match existing {
        None => Err(ApiError::Unauthorized),
        Some(s) => match &s.auth_token_hash {
            None => Err(ApiError::Unauthorized),
            Some(h) => {
                if !validate_token_hash(token_hash, h.as_str()) {
                    return Err(ApiError::Unauthorized);
                }
                Ok(
                    ServerRecord {
                        server_id: s.server_id.clone(),
                        platform: clone_opt(&s.platform),
                        first_seen_at: s.first_seen_at,
                        last_seen_at: now,
                        auth_token_hash: Some(h.clone()),
                        auth_token_first_seen_at: s.auth_token_first_seen_at,
                        owner_user_id: s.owner_user_id,
                        registered_at: s.registered_at,
                        callback_url: clone_opt(&s.callback_url),
                    },
                )
            },
        },
    }
}

} // verus!
