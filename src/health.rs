use vstd::prelude::*;

use vstd::string::StringExecFns;

verus! {

/// Base address of the backend when nothing else is configured.
pub const DEFAULT_BASE_URL: &'static str = "http://localhost:3001";

/// Path of the liveness endpoint under the base address.
pub const HEALTH_PATH: &'static str = "/health";

/// Address probed for liveness under base address `base`.
pub fn health_url(base: &str) -> (r: String)
    ensures
        r@ == base@ + HEALTH_PATH@,
{
    let mut s = String::from_str(base);
    s.append(HEALTH_PATH);
    s
}

/// Result of one liveness probe; nothing about earlier probes is retained.
#[derive(Clone, Copy, Debug, PartialEq, Eq, Structural)]
pub enum HealthStatus {
    Reachable,
    Unreachable,
}

/// An HTTP status code counts as healthy when it is in the 2xx class.
pub open spec fn is_success_code(code: u16) -> bool {
    200 <= code && code <= 299
}

/// The health a probe outcome stands for: `None` is any transport failure
/// (refused connection, timeout, DNS error), `Some(code)` a response status.
pub open spec fn health_of(outcome: Option<u16>) -> HealthStatus {
    match outcome {
        Some(code) => if is_success_code(code) {
            HealthStatus::Reachable
        } else {
            HealthStatus::Unreachable
        },
        None => HealthStatus::Unreachable,
    }
}

/// Normalises a probe outcome to `Reachable` or `Unreachable`.
pub fn classify_probe(outcome: Option<u16>) -> (r: HealthStatus)
    ensures
        r == health_of(outcome),
{
    match outcome {
        Some(code) => if 200 <= code && code <= 299 {
            HealthStatus::Reachable
        } else {
            HealthStatus::Unreachable
        },
        None => HealthStatus::Unreachable,
    }
}

} // verus!
