//! The producer side: a handle to the scheduler and the calls that
//! create timers. A producer call packages a request and a fresh
//! notification channel, submits the request, and returns the
//! receiving end at once; all scheduling work happens on the worker.
//! Submitting the request is also what wakes the worker: its bounded
//! wait on the request conduit ends as soon as a request arrives.

use vstd::prelude::*;
use std::sync::mpsc::Receiver;
use std::sync::mpsc::Sender;
use crate::event::TimerRequest;
use crate::sync::notification_channel;
use crate::sync::request_channel;
use crate::sync::send_request;

verus! {

/// Why a producer call could not create a timer.
#[derive(Clone, Copy, PartialEq, Eq, Structural, Debug)]
pub enum ScheduleError {
    /// A periodic timer was asked for with a zero period.
    InvalidPeriod,
    /// The worker's receiving end of the request conduit is gone, so
    /// no request can be submitted any more.
    WorkerUnavailable,
}

/// The producer-side handle: the sending end of the request conduit.
/// Cheap to share behind a lock for the lifetime of the process.
pub struct Scheduler {
    adder: Sender<TimerRequest>,
}

impl Scheduler {
    /// Builds the handle together with the receiving end that the
    /// worker loop drains.
    pub fn new() -> (Scheduler, Receiver<TimerRequest>) {
        let (adder, source) = request_channel();
        (Scheduler { adder }, source)
    }
}

/// Builds the request exactly as asked: this is the value handed to
/// the submission call, so the worker arms a timer with this duration
/// and periodicity, notifying this sink.
fn build_request(duration_ms: u32, periodic: bool, sink: Sender<()>) -> (req: TimerRequest)
    ensures
        req.duration == duration_ms,
        req.periodic == periodic,
        req.completion_sink == sink,
{
    TimerRequest { duration: duration_ms, periodic, completion_sink: sink }
}

/// Packages a request and a fresh notification channel, submits the
/// request (which also wakes the worker), and returns the receiving
/// end without blocking. A zero-period periodic ask is rejected here,
/// before it can reach the worker. On success the ghost half of the
/// result is the very request that was handed to the submission call:
/// it carries the asked-for duration and periodicity, with the fresh
/// channel's sending end.
fn add_request(sched: &Scheduler, duration_ms: u32, periodic: bool) -> (r: Result<
    (Receiver<()>, Ghost<TimerRequest>),
    ScheduleError,
>)
    ensures
        (periodic && duration_ms == 0) <==> (r matches Err(e) && e
            == ScheduleError::InvalidPeriod),
        !(periodic && duration_ms == 0) ==> (r is Ok || (r matches Err(e) && e
            == ScheduleError::WorkerUnavailable)),
        (r matches Ok(p) ==> p.1@.duration == duration_ms && p.1@.periodic == periodic
            && p.1@.valid()),
{
    if periodic && duration_ms == 0 {
        return Err(ScheduleError::InvalidPeriod);
    }
    let (sender, receiver) = notification_channel();
    let req = build_request(duration_ms, periodic, sender);
    let ghost sent = req;
    if send_request(&sched.adder, req) {
        Ok((receiver, Ghost(sent)))
    } else {
        Err(ScheduleError::WorkerUnavailable)
    }
}

/// Asks for a single notification `ms` milliseconds from now. Never
/// blocks; every duration (zero included) is accepted, so the only
/// possible failure is a dead worker. On success the ghost half of the
/// result records what was submitted: a one-shot request for exactly
/// `ms` milliseconds.
pub fn oneshot_ms(sched: &Scheduler, ms: u32) -> (r: Result<
    (Receiver<()>, Ghost<TimerRequest>),
    ScheduleError,
>)
    ensures
        r is Ok || (r matches Err(e) && e == ScheduleError::WorkerUnavailable),
        (r matches Ok(p) ==> p.1@.duration == ms && !p.1@.periodic),
{
    add_request(sched, ms, false)
}

/// Asks for a notification every `ms` milliseconds, the first one `ms`
/// milliseconds from now. Never blocks; a zero period is rejected with
/// `InvalidPeriod`, and otherwise the only possible failure is a dead
/// worker. On success the ghost half of the result records what was
/// submitted: a periodic request with exactly the period `ms`.
pub fn periodic_ms(sched: &Scheduler, ms: u32) -> (r: Result<
    (Receiver<()>, Ghost<TimerRequest>),
    ScheduleError,
>)
    ensures
        (r matches Err(e) && e == ScheduleError::InvalidPeriod) <==> ms == 0,
        ms != 0 ==> (r is Ok || (r matches Err(e) && e == ScheduleError::WorkerUnavailable)),
        (r matches Ok(p) ==> p.1@.duration == ms && p.1@.periodic),
{
    add_request(sched, ms, true)
}

} // verus!
