//! A lightweight process-supervision core: declarative service definitions,
//! a per-service lifecycle state machine, dependency-aware launch scheduling,
//! and a registry that serialises control commands against supervision events.
//!
//! The library is pure logic: it decides, for every control command and every
//! process event, the next runtime state and the action the caller must
//! perform (launch, signal, schedule a restart). Performing those actions —
//! spawning processes, sockets, timers — is the embedding program's job.

pub mod codec;
pub mod dep;
pub mod laws;
pub mod registry;
pub mod strutil;
pub mod supervisor;
pub mod types;

use vstd::prelude::*;

verus! {

/// The smallest delay, in milliseconds, between two automatic restart
/// attempts of a failed service.
pub const MIN_BACKOFF_MS: u64 = 250;

/// The largest delay, in milliseconds, between two automatic restart
/// attempts; the backoff grows until it reaches this cap.
pub const MAX_BACKOFF_MS: u64 = 30000;

} // verus!
