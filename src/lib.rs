//! Supervision of a backend server that runs as a separate process beside a
//! desktop application: finding its entry point, launching it, waiting for
//! its liveness endpoint, and stopping it.
//!
//! Everything here decides; nothing here performs I/O. The start sequence is
//! a state machine (`supervisor`) that asks its driver for one piece of work
//! at a time (probe, locate, launch, sleep) and is handed back the outcome.
use vstd::prelude::*;

pub mod bridge;
pub mod guarantees;
pub mod health;
pub mod launch;
pub mod locator;
pub mod supervisor;

verus! {

} // verus!
