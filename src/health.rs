//! Module health: the state that dispatch outcomes and health probes drive,
//! and the decisions the dispatcher takes from it.
use vstd::prelude::*;
use vstd::string::*;

verus! {

/// Failures in a row after which an unhealthy module is skipped.
pub const SKIP_AFTER_FAILURES: u32 = 3;

/// The health fields of a module row.
#[derive(Clone, Copy, PartialEq, Eq, Debug, Structural)]
pub struct ModuleHealth {
    pub last_healthcheck_ok: Option<bool>,
    pub consecutive_failures: u32,
}

/// The three states of the health machine.
#[derive(Clone, Copy, PartialEq, Eq, Debug, Structural)]
pub enum HealthState {
    Healthy,
    Degraded,
    Skipped,
}

/// Whether dispatch passes over a module in this state.
pub open spec fn is_skipped(h: ModuleHealth) -> bool {
    h.last_healthcheck_ok == Some(false) && h.consecutive_failures >= 3
}

/// The state after a successful dispatch or probe.
pub open spec fn succeeded(h: ModuleHealth) -> ModuleHealth {
    ModuleHealth { last_healthcheck_ok: Some(true), consecutive_failures: 0 }
}

/// The state after a failed dispatch or probe: one more failure in a row
/// (held at the largest count), marked unhealthy.
pub open spec fn failed(h: ModuleHealth) -> ModuleHealth {
    ModuleHealth {
        last_healthcheck_ok: Some(false),
        consecutive_failures: if h.consecutive_failures == u32::MAX {
            u32::MAX
        } else {
            (h.consecutive_failures + 1) as u32
        },
    }
}

impl ModuleHealth {
    /// A module that has not been probed yet.
    pub fn unknown() -> (r: ModuleHealth)
        ensures
            r.last_healthcheck_ok is None,
            r.consecutive_failures == 0,
    {
        ModuleHealth { last_healthcheck_ok: None, consecutive_failures: 0 }
    }

    /// Whether the dispatcher skips this module: unhealthy with at least three failures in a row.
    pub fn should_skip(&self) -> (r: bool)
        ensures
            r == is_skipped(*self),
    {
        self.last_healthcheck_ok == Some(false) && self.consecutive_failures >= SKIP_AFTER_FAILURES
    }

    /// The state after a success: healthy, no failures.
    pub fn mark_ok(&self) -> (r: ModuleHealth)
        ensures
            r == succeeded(*self),
    {
        ModuleHealth { last_healthcheck_ok: Some(true), consecutive_failures: 0 }
    }

    /// The state after a failure: unhealthy, one more failure in a row.
    pub fn mark_failure(&self) -> (r: ModuleHealth)
        ensures
            r == failed(*self),
    {
        ModuleHealth {
            last_healthcheck_ok: Some(false),
            consecutive_failures: self.consecutive_failures.saturating_add(1),
        }
    }

    /// The state after a probe or dispatch that did or did not succeed.
    pub fn mark_health(&self, ok: bool) -> (r: ModuleHealth)
        ensures
            r == (if ok {
                succeeded(*self)
            } else {
                failed(*self)
            }),
    {
        if ok {
            self.mark_ok()
        } else {
            self.mark_failure()
        }
    }

    /// Healthy (ok, no failures), skipped, or degraded otherwise.
    pub fn state(&self) -> (r: HealthState)
        ensures
            r == HealthState::Skipped <==> is_skipped(*self),
            r == HealthState::Healthy <==> (self.last_healthcheck_ok == Some(true)
                && self.consecutive_failures == 0),
    {
        if self.should_skip() {
            HealthState::Skipped
        } else if self.last_healthcheck_ok == Some(true) && self.consecutive_failures == 0 {
            HealthState::Healthy
        } else {
            HealthState::Degraded
        }
    }
}

/// A skipped module stays skipped through further failures, and one success
/// brings it back to dispatch, healthy.
pub proof fn lemma_skip_and_recover(h: ModuleHealth)
    requires
        is_skipped(h),
    ensures
        is_skipped(failed(h)),
        !is_skipped(succeeded(h)),
        succeeded(h).last_healthcheck_ok == Some(true),
        succeeded(h).consecutive_failures == 0,
{
}

/// From any state, three failures in a row make a module skipped.
pub proof fn lemma_three_failures_skip(h: ModuleHealth)
    ensures
        is_skipped(failed(failed(failed(h)))),
{
}

/// A module with fewer than three failures in a row is not skipped.
pub proof fn lemma_few_failures_dispatch(h: ModuleHealth)
    requires
        h.consecutive_failures < 3,
    ensures
        !is_skipped(h),
{
}

/// Whether an HTTP status is a success (2xx).
pub open spec fn is_success_status(status: u16) -> bool {
    200 <= status <= 299
}

pub fn status_is_success(status: u16) -> (r: bool)
    ensures
        r == is_success_status(status),
{
    200 <= status && status <= 299
}

/// How one dispatch to one module ended.
#[derive(Clone, Copy, PartialEq, Eq, Debug, Structural)]
pub enum DispatchOutcome {
    /// The transform named by the module failed; nothing was sent.
    TransformFailed,
    /// The request could not be made or got no response.
    TransportFailed,
    /// The module answered with this HTTP status.
    Responded(u16),
}

/// The audit status recorded for a dispatch.
#[derive(Clone, Copy, PartialEq, Eq, Debug, Structural)]
pub enum DispatchStatus {
    Sent,
    Failed,
}

/// A dispatch succeeded iff the module answered 2xx.
pub open spec fn outcome_ok(o: DispatchOutcome) -> bool {
    match o {
        DispatchOutcome::Responded(s) => is_success_status(s),
        _ => false,
    }
}

/// What the audit row of a dispatch records: its status and the HTTP status, if any.
pub fn dispatch_record(o: DispatchOutcome) -> (r: (DispatchStatus, Option<u16>))
    ensures
        (r.0 == DispatchStatus::Sent) == outcome_ok(o),
        r.1 == (match o {
            DispatchOutcome::Responded(s) => Some(s),
            _ => None,
        }),
{
    match o {
        DispatchOutcome::Responded(s) => {
            if status_is_success(s) {
                (DispatchStatus::Sent, Some(s))
            } else {
                (DispatchStatus::Failed, Some(s))
            }
        },
        _ => (DispatchStatus::Failed, None),
    }
}

/// The module's health after a dispatch ended with `o`.
pub fn after_dispatch(h: &ModuleHealth, o: DispatchOutcome) -> (r: ModuleHealth)
    ensures
        r == (if outcome_ok(o) {
            succeeded(*h)
        } else {
            failed(*h)
        }),
{
    let ok = match o {
        DispatchOutcome::Responded(s) => status_is_success(s),
        _ => false,
    };
    h.mark_health(ok)
}

/// The module's health after a probe answered with `status`, or got no
/// answer (`None`).
pub fn after_probe(h: &ModuleHealth, status: Option<u16>) -> (r: ModuleHealth)
    ensures
        r == (if status matches Some(s) && is_success_status(s) {
            succeeded(*h)
        } else {
            failed(*h)
        }),
{
    let ok = match status {
        Some(s) => status_is_success(s),
        None => false,
    };
    h.mark_health(ok)
}

/// `base` without trailing `/` characters.
pub open spec fn strip_trailing_slashes(s: Seq<char>) -> Seq<char>
    decreases s.len(),
{
    if s.len() > 0 && s.last() == '/' {
        strip_trailing_slashes(s.drop_last())
    } else {
        s
    }
}

/// The URL of `path` under a module's base URL.
pub open spec fn module_url(base: Seq<char>, path: Seq<char>) -> Seq<char> {
    strip_trailing_slashes(base) + path
}

fn join_url(base: &str, path: &str) -> (r: String)
    ensures
        r@ == module_url(base@, path@),
{
    let n = base.unicode_len();
    let mut j: usize = n;
    assert(base@.subrange(0, n as int) =~= base@);
    while j > 0 && base.get_char(j - 1) == '/'
        invariant
            n == base@.len(),
            j <= n,
            strip_trailing_slashes(base@) == strip_trailing_slashes(base@.subrange(0, j as int)),
        decreases j,
    {
        assert(base@.subrange(0, j as int).drop_last() =~= base@.subrange(0, j - 1));
        j = j - 1;
    }
    String::from_str(base.substring_char(0, j)).concat(path)
}

/// Where the dispatcher posts a batch for a module.
pub fn ingest_url(base_url: &str) -> (r: String)
    ensures
        r@ == module_url(base_url@, "/ingest"@),
{
    join_url(base_url, "/ingest")
}

/// Where the health loop probes a module.
pub fn health_url(base_url: &str) -> (r: String)
    ensures
        r@ == module_url(base_url@, "/health"@),
{
    join_url(base_url, "/health")
}

/// A module subscription as the dispatcher reads it.
pub struct ModuleRow {
    pub name: String,
    pub base_url: String,
    pub enabled: bool,
    pub transform: String,
    pub health: ModuleHealth,
}

/// Which modules receive a batch: the enabled ones that are not skipped,
/// in the order given.
pub fn modules_to_dispatch(modules: &Vec<ModuleRow>) -> (r: Vec<usize>)
    ensures
        forall|k: int| 0 <= k < r@.len() ==> r@[k] < modules@.len(),
        forall|k: int, l: int| 0 <= k < l < r@.len() ==> r@[k] < r@[l],
        forall|i: int|
            0 <= i < modules@.len() ==> (r@.contains(i as usize) <==> (modules@[i].enabled
                && !is_skipped(modules@[i].health))),
{
    let mut out: Vec<usize> = Vec::new();
    let mut i: usize = 0;
    while i < modules.len()
        invariant
            i <= modules.len(),
            forall|k: int| 0 <= k < out@.len() ==> #[trigger] out@[k] < i,
            forall|k: int, l: int| 0 <= k < l < out@.len() ==> out@[k] < out@[l],
            forall|t: int|
                0 <= t < i ==> (out@.contains(t as usize) <==> (modules@[t].enabled
                    && !is_skipped(modules@[t].health))),
        decreases modules.len() - i,
    {
        let ghost prev = out@;
        if modules[i].enabled && !modules[i].health.should_skip() {
            out.push(i);
            assert forall|t: int| 0 <= t < i implies (#[trigger] out@.contains(t as usize) <==> prev.contains(t as usize)) by {
                if out@.contains(t as usize) {
                    let k = choose|k: int| 0 <= k < out@.len() && out@[k] == t as usize;
                    if k < prev.len() {
                        assert(prev[k] == t as usize);
                    }
                }
                if prev.contains(t as usize) {
                    let k = choose|k: int| 0 <= k < prev.len() && prev[k] == t as usize;
                    assert(out@[k] == t as usize);
                }
            }
            assert(out@[out@.len() - 1] == i);
        } else {
            assert(!out@.contains(i));
        }
        i = i + 1;
    }
    out
}

} // verus!
