use vstd::prelude::*;

verus! {

/// Outcome of one health probe. Derived fresh on every probe, never cached.
#[derive(Clone, Copy, PartialEq, Eq, Structural, Debug)]
pub enum HealthStatus {
    Reachable,
    Unreachable,
}

/// The fixed local endpoint the prober queries.
pub fn health_url() -> (r: String)
    ensures
        r@ == "http://localhost:8080/api/health"@,
{
    String::from_str("http://localhost:8080/api/health")
}

/// Reduces the outcome of one request against the health endpoint to a
/// `HealthStatus`. The argument is `Some(b)` when a response arrived, with
/// `b` saying whether its status code was success-class, and `None` when the
/// transport failed (connection refused, timeout, reset). Every outcome maps
/// to a status; no outcome is an error.
pub fn classify_probe(status_success: Option<bool>) -> (h: HealthStatus)
    ensures
        h == HealthStatus::Reachable <==> status_success == Some(true),
{
    match status_success {
        Some(true) => HealthStatus::Reachable,
        _ => HealthStatus::Unreachable,
    }
}

/// The answer of a passive status query: `Ok("running")` when the daemon is
/// reachable, otherwise the failure message, exactly one of the two.
pub fn get_daemon_status(h: HealthStatus) -> (r: Result<String, String>)
    ensures
        h == HealthStatus::Reachable ==> (r matches Ok(s) && s@ == "running"@),
        h == HealthStatus::Unreachable ==> (r matches Err(e) && e@ == "Daemon is not running"@),
{
    match h {
        HealthStatus::Reachable => Ok(String::from_str("running")),
        HealthStatus::Unreachable => Err(String::from_str("Daemon is not running")),
    }
}

} // verus!
