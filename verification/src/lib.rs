//! In-process deferred and periodic notification timers.
//!
//! A caller asks to be notified once after a delay (`oneshot_ms`) or
//! repeatedly at a fixed interval (`periodic_ms`) and gets back the
//! receiving end of a channel that yields one `()` per firing. A single
//! background worker owns a deadline queue ordered by absolute fire
//! time, wakes at the earliest deadline or when a new request arrives,
//! fires due timers and re-arms periodic ones.
//!
//! All deadline arithmetic is done in milliseconds on a monotonic
//! clock, modelled here as plain `u64` timestamps.

use vstd::prelude::*;

mod api;
mod event;
mod queue;
mod sync;
mod worker;

pub use api::ScheduleError;
pub use api::Scheduler;
pub use api::oneshot_ms;
pub use api::periodic_ms;
pub use event::TimerEvent;
pub use event::TimerKey;
pub use event::TimerRequest;
pub use event::arm_request;
pub use event::deadline_after;
pub use event::request_valid;
pub use queue::DeadlineQueue;
pub use sync::MonotonicClock;
pub use sync::RecvOutcome;
pub use worker::CycleOutcome;
pub use worker::FireRecord;
pub use worker::drain_requests;
pub use worker::fire_due;
pub use worker::next_wait;
pub use worker::wait_for_request;
pub use worker::worker_cycle;

verus! {

/// Upper bound, in milliseconds, on how long the worker waits in one
/// wait-cycle when no deadline is due sooner (or the queue is empty).
pub const MAX_IDLE_WAIT_MS: u64 = 100000;

} // verus!
