use vstd::arithmetic::div_mod::lemma_div_is_ordered;
use vstd::prelude::*;

verus! {

/// Immutable record of when the process started, shared read-only by every
/// request. The start is kept as milliseconds on the same clock that later
/// readings are taken from, so uptime is a plain subtraction.
pub struct AppState {
    pub started_at_ms: u64,
}

/// Whole seconds elapsed between the recorded start and a later reading of
/// the same clock.
pub open spec fn uptime_secs(started_at_ms: u64, now_ms: u64) -> int
    recommends
        started_at_ms <= now_ms,
{
    (now_ms - started_at_ms) / 1000
}

/// Body of the health endpoint: a fixed status and the uptime.
pub struct HealthResponse {
    pub status: String,
    pub uptime_sec: u64,
}

/// Body of the metrics endpoint: the service's fixed name, its build
/// version, and the uptime.
pub struct MetricsResponse {
    pub service: String,
    pub version: String,
    pub uptime_sec: u64,
}

impl AppState {
    pub fn new(started_at_ms: u64) -> (s: AppState)
        ensures
            s.started_at_ms == started_at_ms,
    {
        AppState { started_at_ms }
    }

    /// Uptime in whole seconds at the given clock reading. The clock must
    /// not have moved behind the recorded start; on such a reading the
    /// service treats the clock as broken and stops instead of answering.
    pub fn uptime_sec(&self, now_ms: u64) -> (u: u64)
        requires
            self.started_at_ms <= now_ms,
        ensures
            u == uptime_secs(self.started_at_ms, now_ms),
    {
        (now_ms - self.started_at_ms) / 1000
    }
}

/// The health reply: always status "ok", with the uptime in whole seconds.
pub fn health_reply(state: &AppState, now_ms: u64) -> (r: HealthResponse)
    requires
        state.started_at_ms <= now_ms,
    ensures
        r.status@ == "ok"@,
        r.uptime_sec == uptime_secs(state.started_at_ms, now_ms),
{
    HealthResponse { status: "ok".to_owned(), uptime_sec: state.uptime_sec(now_ms) }
}

/// The metrics reply: a fixed service name, the build version the caller
/// supplies, and the uptime in whole seconds.
pub fn metrics_reply(state: &AppState, now_ms: u64, version: String) -> (r: MetricsResponse)
    requires
        state.started_at_ms <= now_ms,
    ensures
        r.service@ == "adatari-ip-service"@,
        r.version == version,
        r.uptime_sec == uptime_secs(state.started_at_ms, now_ms),
{
    MetricsResponse {
        service: "adatari-ip-service".to_owned(),
        version,
        uptime_sec: state.uptime_sec(now_ms),
    }
}

/// Uptime never decreases as the clock advances: of two readings of the
/// same process, the later one reports at least as many seconds.
pub proof fn lemma_uptime_monotonic(started_at_ms: u64, earlier_ms: u64, later_ms: u64)
    requires
        started_at_ms <= earlier_ms <= later_ms,
    ensures
        0 <= uptime_secs(started_at_ms, earlier_ms) <= uptime_secs(started_at_ms, later_ms),
{
    lemma_div_is_ordered(
        earlier_ms - started_at_ms,
        later_ms - started_at_ms,
        1000,
    );
}

/// The service name reported by metrics is the same across any two calls
/// within one process lifetime.
pub proof fn lemma_metrics_service_stable(first: MetricsResponse, second: MetricsResponse)
    requires
        first.service@ == "adatari-ip-service"@,
        second.service@ == "adatari-ip-service"@,
    ensures
        first.service@ == second.service@,
{
}

} // verus!
