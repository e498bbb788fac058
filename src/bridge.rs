use vstd::prelude::*;
use vstd::string::StringExecFns;
use crate::health::HealthStatus;
use crate::supervisor::{StartResult, StopResult};

verus! {

/// Text shown to the user for the outcome of a start.
pub open spec fn start_reply_text(result: StartResult) -> Seq<char> {
    match result {
        StartResult::Ready => "Backend ready"@,
        StartResult::AlreadyRunning => "Backend already running"@,
        StartResult::BackendNotFound => "Backend not found; expecting an externally managed server"@,
        StartResult::SpawnFailed(reason) => "Failed to start backend: "@ + reason@,
        StartResult::TimedOut => "Backend did not become ready in time"@,
    }
}

/// Reply of the start command: a message for every outcome, none an error.
pub fn start_reply(result: StartResult) -> (r: String)
    ensures
        r@ == start_reply_text(result),
{
    match result {
        StartResult::Ready => String::from_str("Backend ready"),
        StartResult::AlreadyRunning => String::from_str("Backend already running"),
        StartResult::BackendNotFound => String::from_str(
            "Backend not found; expecting an externally managed server",
        ),
        StartResult::SpawnFailed(reason) => {
            let mut s = String::from_str("Failed to start backend: ");
            s.append(reason.as_str());
            s
        },
        StartResult::TimedOut => String::from_str("Backend did not become ready in time"),
    }
}

/// Reply of the stop command: success when a process was stopped, the error
/// "Backend not running" when none was held.
pub fn stop_reply(result: StopResult) -> (r: Result<String, String>)
    ensures
        result == StopResult::Stopped ==> (r matches Ok(m) && m@ == "Backend stopped"@),
        result == StopResult::NotRunning ==> (r matches Err(m) && m@ == "Backend not running"@),
{
    match result {
        StopResult::Stopped => Ok(String::from_str("Backend stopped")),
        StopResult::NotRunning => Err(String::from_str("Backend not running")),
    }
}

/// Reply of the status command: whether the backend is reachable.
pub fn status_reply(status: HealthStatus) -> (r: bool)
    ensures
        r == (status == HealthStatus::Reachable),
{
    match status {
        HealthStatus::Reachable => true,
        HealthStatus::Unreachable => false,
    }
}

} // verus!
