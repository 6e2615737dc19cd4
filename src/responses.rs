//! Bodies of the service's JSON responses and requests, as plain data.
use vstd::prelude::*;

verus! {

/// `GET /health`.
pub struct HealthResponse {
    pub ok: bool,
}

/// `POST /handshake`: `status` is `registered` or `waiting_for_registration`.
pub struct HandshakeResponse {
    pub ok: bool,
    pub status: String,
    pub server_id: String,
}

/// `POST /heartbeat`.
pub struct HeartbeatResponse {
    pub ok: bool,
}

/// The 409 body for a server that is not linked to an account yet.
pub struct WaitingForRegistrationResponse {
    pub ok: bool,
    pub status: String,
    pub server_id: String,
}

/// `POST /ingest` on success; `batch_id` is the UUID as a 128-bit number.
pub struct IngestResponse {
    pub ok: bool,
    pub batch_id: u128,
    pub s3_key: String,
}

/// `POST /callbacks/findings`: how many aggregate rows were written.
pub struct PostFindingsResponse {
    pub ok: bool,
    pub inserted: usize,
}

/// `POST /callbacks/player-state`.
pub struct SetPlayerStateResponse {
    pub ok: bool,
}

/// `POST /callbacks/player-state/batch-set`: how many states were written.
pub struct BatchSetPlayerStatesResponse {
    pub ok: bool,
    pub updated: usize,
}

/// `POST /servers/:id/modules`.
pub struct UpsertModuleRequest {
    pub name: String,
    pub base_url: String,
    pub enabled: Option<bool>,
    pub transform: Option<String>,
}

/// Dashboard toggle of a module.
pub struct ToggleModuleRequest {
    pub enabled: bool,
}

/// Answer to a module toggle.
pub struct ToggleModuleResponse {
    pub ok: bool,
}

} // verus!
