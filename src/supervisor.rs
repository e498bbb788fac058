use vstd::prelude::*;
use crate::health::{HealthStatus, health_of, classify_probe};
use crate::locator::{BackendLocation, LocateResult};

verus! {

/// Seconds to wait before each readiness probe after a launch.
pub const POLL_INTERVAL_SECS: u64 = 1;

/// Readiness probes made after a launch before giving up.
pub const MAX_POLL_ATTEMPTS: u32 = 30;

/// Where a start sequence stands. `Idle` means no start is in progress.
#[derive(Clone, Copy, Debug, PartialEq, Eq, Structural)]
pub enum Stage {
    Idle,
    Probing,
    Locating,
    Spawning,
    Waiting { probes: u32 },
}

/// What happened, with its payload left out.
#[derive(Clone, Copy, Debug, PartialEq, Eq, Structural)]
pub enum EventKind {
    Reachable,
    Unreachable,
    Found,
    NotFound,
    Spawned,
    SpawnError,
}

/// The outcome of the work a start sequence asked for, handed back to it.
pub enum StartEvent<H> {
    /// A health probe came back.
    Health(HealthStatus),
    /// The backend locator finished.
    Located(LocateResult),
    /// The launch produced a process handle.
    Spawned(H),
    /// The launch failed, for the given reason.
    SpawnError(String),
}

#[derive(Debug, PartialEq, Eq)]
pub enum StartResult {
    Ready,
    AlreadyRunning,
    BackendNotFound,
    SpawnFailed(String),
    TimedOut,
}

/// The work a start sequence asks its driver to do next.
pub enum StartAction<H> {
    ProbeHealth,
    Locate,
    Spawn(BackendLocation),
    /// Sleep, then probe health. `replaced` is a handle that the new launch
    /// displaced from the slot; the driver disposes of it.
    SleepThenProbe { seconds: u64, replaced: Option<H> },
    Finish(StartResult),
    /// The event does not belong to the current stage; nothing changed.
    Ignored,
}

#[derive(Clone, Copy, Debug, PartialEq, Eq, Structural)]
pub enum StopResult {
    Stopped,
    NotRunning,
}

/// Owns the handle of the managed backend process, if any, and the progress
/// of the start sequence in flight, if any.
pub struct Supervisor<H> {
    slot: Option<H>,
    stage: Stage,
}

pub ghost struct SupervisorView<H> {
    pub stage: Stage,
    pub slot: Option<H>,
}

impl<H> View for Supervisor<H> {
    type V = SupervisorView<H>;

    closed spec fn view(&self) -> SupervisorView<H> {
        SupervisorView { stage: self.stage, slot: self.slot }
    }
}

pub open spec fn kind_of<H>(ev: StartEvent<H>) -> EventKind {
    match ev {
        StartEvent::Health(HealthStatus::Reachable) => EventKind::Reachable,
        StartEvent::Health(HealthStatus::Unreachable) => EventKind::Unreachable,
        StartEvent::Located(LocateResult::Found(_)) => EventKind::Found,
        StartEvent::Located(LocateResult::NotFound) => EventKind::NotFound,
        StartEvent::Spawned(_) => EventKind::Spawned,
        StartEvent::SpawnError(_) => EventKind::SpawnError,
    }
}

/// The stage after an event of kind `k` arrives in stage `st`.
pub open spec fn next_stage(st: Stage, k: EventKind) -> Stage {
    match st {
        Stage::Idle => Stage::Idle,
        Stage::Probing => match k {
            EventKind::Reachable => Stage::Idle,
            EventKind::Unreachable => Stage::Locating,
            _ => st,
        },
        Stage::Locating => match k {
            EventKind::Found => Stage::Spawning,
            EventKind::NotFound => Stage::Idle,
            _ => st,
        },
        Stage::Spawning => match k {
            EventKind::Spawned => Stage::Waiting { probes: 0 },
            EventKind::SpawnError => Stage::Idle,
            _ => st,
        },
        Stage::Waiting { probes } => match k {
            EventKind::Reachable => Stage::Idle,
            EventKind::Unreachable => if probes + 1 >= MAX_POLL_ATTEMPTS {
                Stage::Idle
            } else {
                Stage::Waiting { probes: (probes + 1) as u32 }
            },
            _ => st,
        },
    }
}

/// An event of kind `k` in stage `st` makes the sequence ask for a launch.
pub open spec fn requests_spawn(st: Stage, k: EventKind) -> bool {
    st == Stage::Locating && k == EventKind::Found
}

/// The handle slot after `ev` arrives: only a launch in the `Spawning`
/// stage fills it, replacing what was there.
pub open spec fn next_slot<H>(st: Stage, slot: Option<H>, ev: StartEvent<H>) -> Option<H> {
    match ev {
        StartEvent::Spawned(h) => if st == Stage::Spawning {
            Some(h)
        } else {
            slot
        },
        _ => slot,
    }
}

pub open spec fn after_event<H>(v: SupervisorView<H>, ev: StartEvent<H>) -> SupervisorView<H> {
    SupervisorView { stage: next_stage(v.stage, kind_of(ev)), slot: next_slot(v.stage, v.slot, ev) }
}

/// What the sequence asks for when `ev` arrives in stage `st` with `slot`.
pub open spec fn step_action<H>(st: Stage, slot: Option<H>, ev: StartEvent<H>) -> StartAction<H> {
    match st {
        Stage::Probing => match ev {
            StartEvent::Health(HealthStatus::Reachable) => StartAction::Finish(StartResult::AlreadyRunning),
            StartEvent::Health(HealthStatus::Unreachable) => StartAction::Locate,
            _ => StartAction::Ignored,
        },
        Stage::Locating => match ev {
            StartEvent::Located(LocateResult::Found(loc)) => StartAction::Spawn(loc),
            StartEvent::Located(LocateResult::NotFound) => StartAction::Finish(StartResult::BackendNotFound),
            _ => StartAction::Ignored,
        },
        Stage::Spawning => match ev {
            StartEvent::Spawned(_) => StartAction::SleepThenProbe { seconds: POLL_INTERVAL_SECS, replaced: slot },
            StartEvent::SpawnError(reason) => StartAction::Finish(StartResult::SpawnFailed(reason)),
            _ => StartAction::Ignored,
        },
        Stage::Waiting { probes } => match ev {
            StartEvent::Health(HealthStatus::Reachable) => StartAction::Finish(StartResult::Ready),
            StartEvent::Health(HealthStatus::Unreachable) => if probes + 1 >= MAX_POLL_ATTEMPTS {
                StartAction::Finish(StartResult::TimedOut)
            } else {
                StartAction::SleepThenProbe { seconds: POLL_INTERVAL_SECS, replaced: None }
            },
            _ => StartAction::Ignored,
        },
        Stage::Idle => StartAction::Ignored,
    }
}

/// The view after `begin_start`: a new sequence starts only from `Idle`.
pub open spec fn after_begin<H>(v: SupervisorView<H>) -> SupervisorView<H> {
    if v.stage == Stage::Idle {
        SupervisorView { stage: Stage::Probing, slot: v.slot }
    } else {
        v
    }
}

/// The view after `stop`: the slot is emptied, the stage kept.
pub open spec fn after_stop<H>(v: SupervisorView<H>) -> SupervisorView<H> {
    SupervisorView { stage: v.stage, slot: None }
}

pub open spec fn stop_result<H>(slot: Option<H>) -> StopResult {
    if slot is Some {
        StopResult::Stopped
    } else {
        StopResult::NotRunning
    }
}

/// Health as `status` reports it: always the fresh probe, never anything the
/// supervisor remembers.
pub open spec fn status_of<H>(v: SupervisorView<H>, probe: Option<u16>) -> HealthStatus {
    health_of(probe)
}

impl<H> Supervisor<H> {
    /// A supervisor with no process and no start in progress.
    pub fn new() -> (r: Supervisor<H>)
        ensures
            r@.stage == Stage::Idle,
            r@.slot is None,
    {
        Supervisor { slot: None, stage: Stage::Idle }
    }

    pub fn stage(&self) -> (r: Stage)
        ensures
            r == self@.stage,
    {
        self.stage
    }

    /// Whether a process handle is held.
    pub fn holds_child(&self) -> (r: bool)
        ensures
            r == self@.slot is Some,
    {
        self.slot.is_some()
    }

    /// Opens a start sequence. While another one is in progress this changes
    /// nothing and reports `AlreadyRunning`, so two racing starts never run
    /// two sequences.
    pub fn begin_start(&mut self) -> (r: StartAction<H>)
        ensures
            final(self)@ == after_begin(old(self)@),
            old(self)@.stage == Stage::Idle ==> r is ProbeHealth,
            old(self)@.stage != Stage::Idle ==> r == StartAction::<H>::Finish(StartResult::AlreadyRunning),
    {
        match self.stage {
            Stage::Idle => {
                self.stage = Stage::Probing;
                StartAction::ProbeHealth
            },
            _ => StartAction::Finish(StartResult::AlreadyRunning),
        }
    }

    /// Advances the start sequence by one event and says what to do next.
    pub fn on_event(&mut self, ev: StartEvent<H>) -> (r: StartAction<H>)
        ensures
            final(self)@ == after_event(old(self)@, ev),
            r == step_action(old(self)@.stage, old(self)@.slot, ev),
            r is Spawn <==> requests_spawn(old(self)@.stage, kind_of(ev)),
            r is Finish <==> (old(self)@.stage != Stage::Idle && final(self)@.stage == Stage::Idle),
    {
        match self.stage {
            Stage::Idle => StartAction::Ignored,
            Stage::Probing => match ev {
                StartEvent::Health(HealthStatus::Reachable) => {
                    self.stage = Stage::Idle;
                    StartAction::Finish(StartResult::AlreadyRunning)
                },
                StartEvent::Health(HealthStatus::Unreachable) => {
                    self.stage = Stage::Locating;
                    StartAction::Locate
                },
                _ => StartAction::Ignored,
            },
            Stage::Locating => match ev {
                StartEvent::Located(LocateResult::Found(loc)) => {
                    self.stage = Stage::Spawning;
                    StartAction::Spawn(loc)
                },
                StartEvent::Located(LocateResult::NotFound) => {
                    self.stage = Stage::Idle;
                    StartAction::Finish(StartResult::BackendNotFound)
                },
                _ => StartAction::Ignored,
            },
            Stage::Spawning => match ev {
                StartEvent::Spawned(h) => {
                    let replaced = self.slot.take();
                    self.slot = Some(h);
                    self.stage = Stage::Waiting { probes: 0 };
                    StartAction::SleepThenProbe { seconds: POLL_INTERVAL_SECS, replaced }
                },
                StartEvent::SpawnError(reason) => {
                    self.stage = Stage::Idle;
                    StartAction::Finish(StartResult::SpawnFailed(reason))
                },
                _ => StartAction::Ignored,
            },
            Stage::Waiting { probes } => match ev {
                StartEvent::Health(HealthStatus::Reachable) => {
                    self.stage = Stage::Idle;
                    StartAction::Finish(StartResult::Ready)
                },
                StartEvent::Health(HealthStatus::Unreachable) => {
                    if probes >= MAX_POLL_ATTEMPTS - 1 {
                        self.stage = Stage::Idle;
                        StartAction::Finish(StartResult::TimedOut)
                    } else {
                        self.stage = Stage::Waiting { probes: probes + 1 };
                        StartAction::SleepThenProbe { seconds: POLL_INTERVAL_SECS, replaced: None }
                    }
                },
                _ => StartAction::Ignored,
            },
        }
    }

    /// Reachability of the backend from `probe`, the outcome of a probe made
    /// for this call, whoever launched the backend.
    pub fn status(&self, probe: Option<u16>) -> (r: HealthStatus)
        ensures
            r == status_of(self@, probe),
    {
        classify_probe(probe)
    }

    /// Takes the held handle out of the slot, for the caller to terminate.
    /// A start sequence in progress is left as it is.
    pub fn stop(&mut self) -> (r: (StopResult, Option<H>))
        ensures
            r.0 == stop_result(old(self)@.slot),
            r.1 == old(self)@.slot,
            final(self)@ == after_stop(old(self)@),
    {
        let taken = self.slot.take();
        let result = if taken.is_some() {
            StopResult::Stopped
        } else {
            StopResult::NotRunning
        };
        (result, taken)
    }
}

} // verus!
