use sidecar_supervisor::bridge::{start_reply, status_reply, stop_reply};
use sidecar_supervisor::health::HealthStatus;
use sidecar_supervisor::launch::{launch_environment, runtime_command};
use sidecar_supervisor::supervisor::{StartResult, StopResult};

#[test]
fn stop_replies() {
    assert_eq!(stop_reply(StopResult::Stopped), Ok("Backend stopped".to_string()));
    assert_eq!(stop_reply(StopResult::NotRunning), Err("Backend not running".to_string()));
}

#[test]
fn status_replies() {
    assert!(status_reply(HealthStatus::Reachable));
    assert!(!status_reply(HealthStatus::Unreachable));
}

#[test]
fn start_replies() {
    assert_eq!(start_reply(StartResult::Ready), "Backend ready");
    assert_eq!(start_reply(StartResult::AlreadyRunning), "Backend already running");
    assert_eq!(
        start_reply(StartResult::BackendNotFound),
        "Backend not found; expecting an externally managed server"
    );
    assert_eq!(
        start_reply(StartResult::SpawnFailed("no such file".to_string())),
        "Failed to start backend: no such file"
    );
    assert_eq!(start_reply(StartResult::TimedOut), "Backend did not become ready in time");
}

#[test]
fn launch_environment_fixes_mode_and_port() {
    let env = launch_environment();
    assert_eq!(
        env,
        vec![
            ("NODE_ENV".to_string(), "production".to_string()),
            ("PORT".to_string(), "3001".to_string()),
            ("FRONTEND_URL".to_string(), "http://localhost:3001".to_string()),
        ]
    );
}

#[test]
fn runtime_command_by_platform() {
    assert_eq!(runtime_command(false), "node");
    assert_eq!(runtime_command(true), "node.exe");
}
