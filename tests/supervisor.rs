use sidecar_supervisor::health::HealthStatus;
use sidecar_supervisor::locator::{BackendLocation, LocateResult};
use sidecar_supervisor::supervisor::{
    Stage, StartAction, StartEvent, StartResult, StopResult, Supervisor, MAX_POLL_ATTEMPTS,
};

fn location() -> BackendLocation {
    BackendLocation {
        command: "node".to_string(),
        working_dir: "/app/backend".to_string(),
        entry: "src/index.js".to_string(),
    }
}

/// What a scripted run did: its result, launches, seconds slept, probes made.
struct Trace {
    result: StartResult,
    spawns: u32,
    slept: u64,
    probes: u32,
}

/// Runs one start sequence. `healthy(n)` answers probe number `n`
/// (0 is the probe before any launch); `found` and `spawn_ok` script the
/// locator and the launch, whose handles are numbered from `next_pid`.
fn drive(
    sup: &mut Supervisor<u32>,
    healthy: &dyn Fn(u32) -> bool,
    found: bool,
    spawn_ok: bool,
    next_pid: u32,
) -> Trace {
    let mut trace = Trace { result: StartResult::Ready, spawns: 0, slept: 0, probes: 0 };
    let mut action = sup.begin_start();
    loop {
        let event = match action {
            StartAction::ProbeHealth => {
                let h = healthy(trace.probes);
                trace.probes += 1;
                StartEvent::Health(if h { HealthStatus::Reachable } else { HealthStatus::Unreachable })
            }
            StartAction::Locate => StartEvent::Located(if found {
                LocateResult::Found(location())
            } else {
                LocateResult::NotFound
            }),
            StartAction::Spawn(_) => {
                trace.spawns += 1;
                if spawn_ok {
                    StartEvent::Spawned(next_pid + trace.spawns - 1)
                } else {
                    StartEvent::SpawnError("program not found".to_string())
                }
            }
            StartAction::SleepThenProbe { seconds, .. } => {
                trace.slept += seconds;
                let h = healthy(trace.probes);
                trace.probes += 1;
                StartEvent::Health(if h { HealthStatus::Reachable } else { HealthStatus::Unreachable })
            }
            StartAction::Finish(r) => {
                trace.result = r;
                return trace;
            }
            StartAction::Ignored => panic!("event out of order"),
        };
        action = sup.on_event(event);
    }
}

#[test]
fn reachable_backend_is_not_launched_again() {
    let mut sup: Supervisor<u32> = Supervisor::new();
    let t = drive(&mut sup, &|_| true, true, true, 7);
    assert_eq!(t.result, StartResult::AlreadyRunning);
    assert_eq!(t.spawns, 0);
    assert_eq!(t.probes, 1);
    assert!(!sup.holds_child());
    assert_eq!(sup.stage(), Stage::Idle);
}

#[test]
fn not_found_then_stop_reports_not_running() {
    let mut sup: Supervisor<u32> = Supervisor::new();
    let t = drive(&mut sup, &|_| false, false, true, 7);
    assert_eq!(t.result, StartResult::BackendNotFound);
    assert_eq!(t.spawns, 0);
    let (r, handle) = sup.stop();
    assert_eq!(r, StopResult::NotRunning);
    assert_eq!(handle, None);
}

#[test]
fn launch_then_ready_on_third_probe() {
    let mut sup: Supervisor<u32> = Supervisor::new();
    let t = drive(&mut sup, &|n| n >= 3, true, true, 7);
    assert_eq!(t.result, StartResult::Ready);
    assert_eq!(t.spawns, 1);
    assert_eq!(t.slept, 3);
    assert!(sup.holds_child());
}

#[test]
fn launch_that_never_answers_times_out_after_thirty_seconds() {
    let mut sup: Supervisor<u32> = Supervisor::new();
    let t = drive(&mut sup, &|_| false, true, true, 7);
    assert_eq!(t.result, StartResult::TimedOut);
    assert_eq!(t.spawns, 1);
    assert_eq!(t.slept, 30);
    assert_eq!(t.probes, 1 + MAX_POLL_ATTEMPTS);
    // The process may still come up later: its handle stays held.
    assert!(sup.holds_child());
}

#[test]
fn spawn_failure_is_reported_with_reason() {
    let mut sup: Supervisor<u32> = Supervisor::new();
    let t = drive(&mut sup, &|_| false, true, false, 7);
    assert_eq!(t.result, StartResult::SpawnFailed("program not found".to_string()));
    assert!(!sup.holds_child());
    assert_eq!(sup.stage(), Stage::Idle);
}

#[test]
fn stop_twice_reports_stopped_then_not_running() {
    let mut sup: Supervisor<u32> = Supervisor::new();
    drive(&mut sup, &|n| n >= 1, true, true, 42);
    let (first, handle) = sup.stop();
    assert_eq!(first, StopResult::Stopped);
    assert_eq!(handle, Some(42));
    let (second, none) = sup.stop();
    assert_eq!(second, StopResult::NotRunning);
    assert_eq!(none, None);
}

#[test]
fn status_after_stop_uses_the_fresh_probe() {
    let mut sup: Supervisor<u32> = Supervisor::new();
    drive(&mut sup, &|n| n >= 1, true, true, 42);
    assert_eq!(sup.status(Some(200)), HealthStatus::Reachable);
    sup.stop();
    assert_eq!(sup.status(None), HealthStatus::Unreachable);
    assert_eq!(sup.status(Some(503)), HealthStatus::Unreachable);
    // A backend managed elsewhere is still reported.
    assert_eq!(sup.status(Some(200)), HealthStatus::Reachable);
}

#[test]
fn second_start_while_one_is_in_progress_is_short_circuited() {
    let mut sup: Supervisor<u32> = Supervisor::new();
    assert!(matches!(sup.begin_start(), StartAction::ProbeHealth));
    assert!(matches!(
        sup.on_event(StartEvent::Health(HealthStatus::Unreachable)),
        StartAction::Locate
    ));
    // A racing start observes the sequence in flight and launches nothing.
    assert!(matches!(
        sup.begin_start(),
        StartAction::Finish(StartResult::AlreadyRunning)
    ));
    assert_eq!(sup.stage(), Stage::Locating);
    assert!(matches!(
        sup.on_event(StartEvent::Located(LocateResult::Found(location()))),
        StartAction::Spawn(_)
    ));
    assert!(matches!(
        sup.on_event(StartEvent::Spawned(1)),
        StartAction::SleepThenProbe { seconds: 1, replaced: None }
    ));
    assert!(matches!(
        sup.begin_start(),
        StartAction::Finish(StartResult::AlreadyRunning)
    ));
    assert!(matches!(
        sup.on_event(StartEvent::Health(HealthStatus::Reachable)),
        StartAction::Finish(StartResult::Ready)
    ));
    assert_eq!(sup.stop(), (StopResult::Stopped, Some(1)));
}

#[test]
fn relaunch_hands_back_the_replaced_handle() {
    let mut sup: Supervisor<u32> = Supervisor::new();
    let t = drive(&mut sup, &|_| false, true, true, 5);
    assert_eq!(t.result, StartResult::TimedOut);
    sup.begin_start();
    sup.on_event(StartEvent::Health(HealthStatus::Unreachable));
    sup.on_event(StartEvent::Located(LocateResult::Found(location())));
    match sup.on_event(StartEvent::Spawned(6)) {
        StartAction::SleepThenProbe { replaced, .. } => assert_eq!(replaced, Some(5)),
        _ => panic!("expected a sleep"),
    }
    assert_eq!(sup.stop(), (StopResult::Stopped, Some(6)));
}

#[test]
fn events_out_of_order_are_ignored() {
    let mut sup: Supervisor<u32> = Supervisor::new();
    assert!(matches!(sup.on_event(StartEvent::Spawned(3)), StartAction::Ignored));
    assert!(!sup.holds_child());
    sup.begin_start();
    assert!(matches!(sup.on_event(StartEvent::Spawned(3)), StartAction::Ignored));
    assert_eq!(sup.stage(), Stage::Probing);
    assert!(!sup.holds_child());
}
