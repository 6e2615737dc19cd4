//! The ordered checks of `POST /ingest` and `POST /handshake` before any
//! storage is touched, and the bodies they answer with.
use vstd::prelude::*;
use vstd::string::*;
use crate::auth::{bearer_token, parse_bearer_token};
use crate::error::ApiError;
use crate::registration::RegistrationDecision;
use crate::object_store::{batch_key_of, ObjectStore, UtcDate};
use crate::responses::{HandshakeResponse, IngestResponse, WaitingForRegistrationResponse};
use crate::text::{trim, trim_str};

verus! {

/// The identity and credential of an ingest request that passed the early checks.
pub struct IngestRequest {
    pub server_id: String,
    pub session_id: String,
    pub token: String,
}

/// Which early check an ingest request fails, if any, in the order they run:
/// a blank server or session id, then an oversized body, then a missing bearer.
pub enum IngestCheck {
    MissingIds,
    TooLarge,
    NoBearer,
    Passed,
}

pub open spec fn ingest_check(server_id: Seq<char>, session_id: Seq<char>, body_len: int, max_body_bytes: int, authorization: Seq<char>) -> IngestCheck {
    if trim(server_id).len() == 0 || trim(session_id).len() == 0 {
        IngestCheck::MissingIds
    } else if body_len > max_body_bytes {
        IngestCheck::TooLarge
    } else if bearer_token(authorization) is None {
        IngestCheck::NoBearer
    } else {
        IngestCheck::Passed
    }
}

/// Runs the checks that precede the registration check on an ingest request:
/// both identity headers present (400), body within the limit (400), a
/// bearer token (401). On success the ids come back trimmed.
pub fn check_ingest_request(
    server_id_header: &str,
    session_id_header: &str,
    body_len: usize,
    max_body_bytes: usize,
    authorization: &str,
) -> (r: Result<IngestRequest, ApiError>)
    ensures
        (r matches Err(ApiError::BadRequest(_))) <==> (ingest_check(server_id_header@, session_id_header@, body_len as int, max_body_bytes as int, authorization@) is MissingIds
            || ingest_check(server_id_header@, session_id_header@, body_len as int, max_body_bytes as int, authorization@) is TooLarge),
        (r matches Err(ApiError::Unauthorized)) <==> ingest_check(server_id_header@, session_id_header@, body_len as int, max_body_bytes as int, authorization@) is NoBearer,
        !(r matches Err(ApiError::Internal)),
        r matches Ok(req) ==> req.server_id@ == trim(server_id_header@) && req.session_id@ == trim(session_id_header@)
            && bearer_token(authorization@) == Some(req.token@),
{
    let server_id = trim_str(server_id_header);
    let session_id = trim_str(session_id_header);
    if server_id.unicode_len() == 0 || session_id.unicode_len() == 0 {
        return Err(ApiError::BadRequest(String::from_str("missing X-Server-Id or X-Session-Id")));
    }
    if body_len > max_body_bytes {
        return Err(ApiError::BadRequest(String::from_str("payload too large")));
    }
    match parse_bearer_token(authorization) {
        None => Err(ApiError::Unauthorized),
        Some(token) => Ok(
            IngestRequest {
                server_id: String::from_str(server_id),
                session_id: String::from_str(session_id),
                token,
            },
        ),
    }
}

/// The key under which an accepted batch is stored; a 400 when either id
/// sanitizes to nothing.
pub fn ingest_batch_key(server_id: &str, session_id: &str, batch_id: u128, date: &UtcDate) -> (r: Result<String, ApiError>)
    requires
        date.wf(),
    ensures
        r matches Ok(k) ==> batch_key_of(server_id@, session_id@, batch_id, *date) == Some(k@),
        r is Err ==> (r matches Err(ApiError::BadRequest(_))) && batch_key_of(server_id@, session_id@, batch_id, *date) is None,
{
    match ObjectStore::batch_key(server_id, session_id, batch_id, date) {
        Some(k) => Ok(k),
        None => Err(ApiError::BadRequest(String::from_str("Invalid server_id or session_id: sanitizes to empty string"))),
    }
}

/// The size recorded in the batch index: the body length, capped at `i32::MAX`.
pub fn payload_bytes(body_len: usize) -> (r: i32)
    ensures
        r as int == if body_len as int > i32::MAX as int { i32::MAX as int } else { body_len as int },
{
    if body_len > i32::MAX as usize {
        i32::MAX
    } else {
        body_len as i32
    }
}

/// The 409 body for a server that waits for registration.
pub fn waiting_for_registration(server_id: &str) -> (r: WaitingForRegistrationResponse)
    ensures
        r.ok,
        r.status@ == "waiting_for_registration"@,
        r.server_id@ == server_id@,
{
    WaitingForRegistrationResponse {
        ok: true,
        status: String::from_str("waiting_for_registration"),
        server_id: String::from_str(server_id),
    }
}

/// The 200 body of an ingested batch.
pub fn ingest_accepted(batch_id: u128, s3_key: String) -> (r: IngestResponse)
    ensures
        r.ok,
        r.batch_id == batch_id,
        r.s3_key@ == s3_key@,
{
    IngestResponse { ok: true, batch_id, s3_key }
}

/// The answer to a handshake once registration has been decided: 200 `registered`,
/// 409 `waiting_for_registration`, or 401.
pub fn handshake_answer(decision: RegistrationDecision, server_id: &str) -> (r: Result<(u16, HandshakeResponse), ApiError>)
    ensures
        decision == RegistrationDecision::Unauthorized <==> (r matches Err(ApiError::Unauthorized)),
        r is Err ==> decision == RegistrationDecision::Unauthorized,
        r matches Ok((code, body)) ==> body.ok && body.server_id@ == server_id@ && (
            if decision == RegistrationDecision::Registered {
                code == 200 && body.status@ == "registered"@
            } else {
                code == 409 && body.status@ == "waiting_for_registration"@
            }),
{
    match decision {
        RegistrationDecision::Unauthorized => Err(ApiError::Unauthorized),
        RegistrationDecision::Registered => Ok(
            (200, HandshakeResponse { ok: true, status: String::from_str("registered"), server_id: String::from_str(server_id) }),
        ),
        RegistrationDecision::Pending => Ok(
            (409, HandshakeResponse { ok: true, status: String::from_str("waiting_for_registration"), server_id: String::from_str(server_id) }),
        ),
    }
}

/// The storage work of an accepted batch, in the order it is done: seed the
/// built-in modules, reserve the batch index row, then write the blob.
#[derive(Clone, Copy, PartialEq, Eq, Debug, Structural)]
pub enum IngestStep {
    SeedModules,
    InsertIndex,
    WriteBlob,
    /// Everything was stored; the batch is handed to the background tasks.
    Done,
    /// A step failed; the request answers 500 and nothing further is written.
    Failed,
}

pub open spec fn ingest_step_after(step: IngestStep, succeeded: bool) -> IngestStep {
    if !succeeded {
        match step {
            IngestStep::Done => IngestStep::Done,
            _ => IngestStep::Failed,
        }
    } else {
        match step {
            IngestStep::SeedModules => IngestStep::InsertIndex,
            IngestStep::InsertIndex => IngestStep::WriteBlob,
            IngestStep::WriteBlob => IngestStep::Done,
            IngestStep::Done => IngestStep::Done,
            IngestStep::Failed => IngestStep::Failed,
        }
    }
}

/// The first storage step of an accepted batch.
pub fn first_ingest_step() -> (r: IngestStep)
    ensures
        r == IngestStep::SeedModules,
{
    IngestStep::SeedModules
}

/// The step that follows `step`, given whether it succeeded.
pub fn next_ingest_step(step: IngestStep, succeeded: bool) -> (r: IngestStep)
    ensures
        r == ingest_step_after(step, succeeded),
{
    if !succeeded {
        match step {
            IngestStep::Done => IngestStep::Done,
            _ => IngestStep::Failed,
        }
    } else {
        match step {
            IngestStep::SeedModules => IngestStep::InsertIndex,
            IngestStep::InsertIndex => IngestStep::WriteBlob,
            IngestStep::WriteBlob => IngestStep::Done,
            IngestStep::Done => IngestStep::Done,
            IngestStep::Failed => IngestStep::Failed,
        }
    }
}

/// The steps of a run from the first one, given the outcome of each.
pub open spec fn ingest_run(outcomes: Seq<bool>) -> Seq<IngestStep>
    decreases outcomes.len(),
{
    if outcomes.len() == 0 {
        seq![IngestStep::SeedModules]
    } else {
        let prev = ingest_run(outcomes.drop_last());
        prev.push(ingest_step_after(prev.last(), outcomes.last()))
    }
}

proof fn lemma_ingest_run_shape(outcomes: Seq<bool>)
    ensures
        ingest_run(outcomes).len() == outcomes.len() + 1,
        ingest_run(outcomes)[0] == IngestStep::SeedModules,
        forall|i: int|
            0 < i < ingest_run(outcomes).len() ==> #[trigger] ingest_run(outcomes)[i]
                == ingest_step_after(ingest_run(outcomes)[i - 1], outcomes[i - 1]),
    decreases outcomes.len(),
{
    if outcomes.len() > 0 {
        lemma_ingest_run_shape(outcomes.drop_last());
        let prev = ingest_run(outcomes.drop_last());
        assert forall|i: int| 0 < i < ingest_run(outcomes).len() implies #[trigger] ingest_run(outcomes)[i]
            == ingest_step_after(ingest_run(outcomes)[i - 1], outcomes[i - 1]) by {
            if i < prev.len() {
                assert(ingest_run(outcomes)[i] == prev[i]);
                assert(ingest_run(outcomes)[i - 1] == prev[i - 1]);
                assert(outcomes.drop_last()[i - 1] == outcomes[i - 1]);
            }
        }
    }
}

/// In every run, the blob is written only right after the batch index row
/// was written successfully, and the index row only after the module seeding
/// succeeded: no blob is ever stored without its index row.
pub proof fn lemma_index_before_blob(outcomes: Seq<bool>, i: int)
    requires
        0 <= i < ingest_run(outcomes).len(),
        ingest_run(outcomes)[i] == IngestStep::WriteBlob,
    ensures
        i == 2,
        ingest_run(outcomes)[1] == IngestStep::InsertIndex,
        outcomes[0] && outcomes[1],
{
    lemma_step_positions(outcomes, i);
    lemma_step_positions(outcomes, 1);
}

proof fn lemma_step_positions(outcomes: Seq<bool>, k: int)
    requires
        0 <= k < ingest_run(outcomes).len(),
    ensures
        (k == 0 <==> ingest_run(outcomes)[k] == IngestStep::SeedModules),
        ingest_run(outcomes)[k] == IngestStep::InsertIndex ==> k == 1 && outcomes[0],
        ingest_run(outcomes)[k] == IngestStep::WriteBlob ==> k == 2 && outcomes[1] && ingest_run(
            outcomes,
        )[1] == IngestStep::InsertIndex,
    decreases k,
{
    lemma_ingest_run_shape(outcomes);
    if k > 0 {
        lemma_step_positions(outcomes, k - 1);
        assert(ingest_run(outcomes)[k] == ingest_step_after(ingest_run(outcomes)[k - 1], outcomes[k - 1]));
    }
}

} // verus!
