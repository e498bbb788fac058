use vstd::prelude::*;
use crate::health::{HealthStatus, health_of};
use crate::locator::LocateResult;
use crate::supervisor::{
    EventKind, Stage, StartAction, StartEvent, StartResult, StopResult, SupervisorView,
    MAX_POLL_ATTEMPTS, POLL_INTERVAL_SECS, after_begin, after_event, after_stop, next_stage,
    requests_spawn, status_of, step_action, stop_result,
};

verus! {

/// One call into the supervisor: a `begin_start`, or the delivery of an
/// event of the given kind through `on_event`.
#[derive(Clone, Copy, Debug, PartialEq, Eq, Structural)]
pub enum StartOp {
    Begin,
    Deliver(EventKind),
}

/// The stage after `op`.
pub open spec fn stage_after_op(st: Stage, op: StartOp) -> Stage {
    match op {
        StartOp::Begin => after_begin(SupervisorView::<()> { stage: st, slot: None }).stage,
        StartOp::Deliver(k) => next_stage(st, k),
    }
}

/// `op` asks for a launch.
pub open spec fn op_requests_spawn(st: Stage, op: StartOp) -> bool {
    match op {
        StartOp::Begin => false,
        StartOp::Deliver(k) => requests_spawn(st, k),
    }
}

/// Launches requested by the calls `ops`, made one after another from stage
/// `st`, until the start sequence in progress finishes (the stage is back
/// at `Idle`).
pub open spec fn launches_in_run(st: Stage, ops: Seq<StartOp>) -> nat
    decreases ops.len(),
{
    if ops.len() == 0 || st == Stage::Idle {
        0
    } else {
        (if op_requests_spawn(st, ops[0]) { 1nat } else { 0nat }) + launches_in_run(
            stage_after_op(st, ops[0]),
            ops.drop_first(),
        )
    }
}

/// However many starts race with a start sequence in progress, and whatever
/// events it is handed, it asks for at most one launch; none once it is
/// past locating. With the slot holding one handle at most, at most one
/// child is ever held.
pub proof fn lemma_at_most_one_launch(st: Stage, ops: Seq<StartOp>)
    ensures
        launches_in_run(st, ops) <= 1,
        !(st is Probing || st is Locating) ==> launches_in_run(st, ops) == 0,
    decreases ops.len(),
{
    if ops.len() > 0 && st != Stage::Idle {
        lemma_at_most_one_launch(stage_after_op(st, ops[0]), ops.drop_first());
    }
}

/// A backend that answers the first probe is never launched: the sequence
/// ends with `AlreadyRunning` and no later call of the run asks for a launch.
pub proof fn lemma_reachable_first_launches_nothing<H>(slot: Option<H>, ops: Seq<StartOp>)
    ensures
        step_action(Stage::Probing, slot, StartEvent::Health(HealthStatus::Reachable))
            == StartAction::<H>::Finish(StartResult::AlreadyRunning),
        launches_in_run(Stage::Probing, seq![StartOp::Deliver(EventKind::Reachable)] + ops) == 0,
{
    let all = seq![StartOp::Deliver(EventKind::Reachable)] + ops;
    assert(all[0] == StartOp::Deliver(EventKind::Reachable));
    assert(all.drop_first() =~= ops);
    assert(stage_after_op(Stage::Probing, all[0]) == Stage::Idle);
    assert(launches_in_run(Stage::Idle, ops) == 0);
}

/// Status right after a stop is the fresh probe's verdict; in particular a
/// failed probe reads `Unreachable` whatever the supervisor held before.
pub proof fn lemma_stop_then_status<H>(v: SupervisorView<H>, probe: Option<u16>)
    ensures
        status_of(after_stop(v), probe) == health_of(probe),
        probe is None ==> status_of(after_stop(v), probe)
            == HealthStatus::Unreachable,
{
}

/// The view after a start that finds the backend unreachable and then
/// finds no entry point.
pub open spec fn after_not_found<H>(v: SupervisorView<H>) -> SupervisorView<H> {
    after_event(
        after_event(after_begin(v), StartEvent::<H>::Health(HealthStatus::Unreachable)),
        StartEvent::<H>::Located(LocateResult::NotFound),
    )
}

/// On a fresh supervisor, a start that finds the backend unreachable and
/// no entry point ends with `BackendNotFound`, and a stop then reports
/// `NotRunning`.
pub proof fn lemma_not_found_then_stop<H>(v: SupervisorView<H>)
    requires
        v.stage == Stage::Idle,
        v.slot is None,
    ensures
        step_action(Stage::Probing, v.slot, StartEvent::<H>::Health(HealthStatus::Unreachable))
            == StartAction::<H>::Locate,
        step_action(Stage::Locating, v.slot, StartEvent::<H>::Located(LocateResult::NotFound))
            == StartAction::<H>::Finish(StartResult::BackendNotFound),
        after_begin(v).stage == Stage::Probing,
        after_event(after_begin(v), StartEvent::<H>::Health(HealthStatus::Unreachable)).stage
            == Stage::Locating,
        after_not_found(v).stage == Stage::Idle,
        stop_result(after_not_found(v).slot) == StopResult::NotRunning,
{
}

/// The stage after one more failed readiness probe.
pub open spec fn after_failed_probe(probes: u32) -> Stage {
    next_stage(Stage::Waiting { probes: probes }, EventKind::Unreachable)
}

/// What one more failed readiness probe asks for.
pub open spec fn action_on_failed_probe<H>(probes: u32) -> StartAction<H> {
    step_action(
        Stage::Waiting { probes: probes },
        None::<H>,
        StartEvent::<H>::Health(HealthStatus::Unreachable),
    )
}

/// After a launch, each failed probe but the last asks for another sleep
/// of one interval; the failed probe numbered `MAX_POLL_ATTEMPTS` ends the
/// sequence with `TimedOut`.
pub proof fn lemma_poll_budget<H>(probes: u32)
    requires
        probes < MAX_POLL_ATTEMPTS,
    ensures
        probes + 1 < MAX_POLL_ATTEMPTS ==> after_failed_probe(probes) == (Stage::Waiting {
            probes: (probes + 1) as u32,
        }),
        probes + 1 < MAX_POLL_ATTEMPTS ==> action_on_failed_probe::<H>(probes) == (
        StartAction::<H>::SleepThenProbe { seconds: POLL_INTERVAL_SECS, replaced: None }),
        probes + 1 == MAX_POLL_ATTEMPTS ==> action_on_failed_probe::<H>(probes)
            == StartAction::<H>::Finish(StartResult::TimedOut),
{
}

/// The stage after a launch followed by `n` failed readiness probes.
pub open spec fn stage_after_failed_probes(n: nat) -> Stage
    decreases n,
{
    if n == 0 {
        Stage::Waiting { probes: 0 }
    } else {
        next_stage(stage_after_failed_probes((n - 1) as nat), EventKind::Unreachable)
    }
}

/// A launched backend that never answers keeps the sequence waiting through
/// `MAX_POLL_ATTEMPTS - 1` failed probes, each followed by one more sleep,
/// and the failed probe numbered `MAX_POLL_ATTEMPTS` ends it: one sleep
/// after the launch and one after each failed probe but the last make
/// `MAX_POLL_ATTEMPTS` sleeps of `POLL_INTERVAL_SECS` in all.
pub proof fn lemma_times_out_after_budget(n: nat)
    requires
        n <= MAX_POLL_ATTEMPTS,
    ensures
        n < MAX_POLL_ATTEMPTS ==> stage_after_failed_probes(n) == (Stage::Waiting { probes: n as u32 }),
        n == MAX_POLL_ATTEMPTS ==> stage_after_failed_probes(n) == Stage::Idle,
    decreases n,
{
    if n > 0 {
        lemma_times_out_after_budget((n - 1) as nat);
    }
}

} // verus!
