//! Trusted boundary around `std::sync::mpsc` channels and the
//! monotonic clock. Everything observable about channel traffic and
//! clock readings depends on state outside the verifier's view (the
//! peer end of a channel, the passage of time), so these items promise
//! nothing about which outcome occurs; the verified callers handle
//! every outcome.

use vstd::prelude::*;
use std::sync::mpsc::Receiver;
use std::sync::mpsc::RecvTimeoutError;
use std::sync::mpsc::Sender;
use std::sync::mpsc::channel;
use std::time::Duration;
use std::time::Instant;
use time::ext::InstantExt;
use crate::event::TimerRequest;

verus! {

#[verifier::external_type_specification]
#[verifier::external_body]
#[verifier::reject_recursive_types(T)]
pub struct ExSender<T>(Sender<T>);

#[verifier::external_type_specification]
#[verifier::external_body]
#[verifier::reject_recursive_types(T)]
pub struct ExReceiver<T>(Receiver<T>);

#[verifier::external_type_specification]
#[verifier::external_body]
pub struct ExInstant(Instant);

/// Outcome of one bounded wait on the request channel.
pub enum RecvOutcome {
    /// A new request arrived; its arrival is the wake-up.
    Got(TimerRequest),
    /// The timeout elapsed with nothing new.
    TimedOut,
    /// Every sending handle has been dropped: no request can ever
    /// arrive again.
    Closed,
}

/// Relies on `std::sync::mpsc::channel`: builds a fresh notification
/// channel pair. Which receiver pairs with which sender is not visible
/// to the verifier.
#[verifier::external_body]
pub(crate) fn notification_channel() -> (Sender<()>, Receiver<()>) {
    channel()
}

/// Relies on `std::sync::mpsc::channel`: builds the request conduit
/// from producers to the worker.
#[verifier::external_body]
pub(crate) fn request_channel() -> (Sender<TimerRequest>, Receiver<TimerRequest>) {
    channel()
}

/// Relies on `std::sync::mpsc::Sender::send`: succeeds unless the
/// receiving end has been dropped; whether it has is outside the
/// verifier's view.
#[verifier::external_body]
pub(crate) fn send_notification(sink: &Sender<()>) -> bool {
    sink.send(()).is_ok()
}

/// Relies on `std::sync::mpsc::Sender::send`: hands one request to the
/// worker; fails only if the worker's receiving end is gone.
#[verifier::external_body]
pub(crate) fn send_request(adder: &Sender<TimerRequest>, req: TimerRequest) -> bool {
    adder.send(req).is_ok()
}

/// Relies on `std::sync::mpsc::Receiver::try_recv`: returns a pending
/// request without blocking, or `None` when none is waiting or the
/// channel is closed.
#[verifier::external_body]
pub(crate) fn try_recv_request(source: &Receiver<TimerRequest>) -> Option<TimerRequest> {
    source.try_recv().ok()
}

/// Relies on `std::sync::mpsc::Receiver::recv_timeout`: blocks for at
/// most `ms` milliseconds, ending early when a request arrives or when
/// the channel closes.
#[verifier::external_body]
pub(crate) fn recv_request_timeout(source: &Receiver<TimerRequest>, ms: u64) -> RecvOutcome {
    match source.recv_timeout(Duration::from_millis(ms)) {
        Ok(req) => RecvOutcome::Got(req),
        Err(RecvTimeoutError::Timeout) => RecvOutcome::TimedOut,
        Err(RecvTimeoutError::Disconnected) => RecvOutcome::Closed,
    }
}

/// A monotonic clock pinned to its creation instant; the worker
/// measures all deadlines in milliseconds since this origin. No
/// contract can pin a clock reading down, so callers' logic is
/// verified for every value the readings may take.
pub struct MonotonicClock {
    start: Instant,
}

impl MonotonicClock {
    pub fn new() -> MonotonicClock {
        MonotonicClock { start: instant_now() }
    }

    /// Milliseconds elapsed since this clock was created.
    pub fn now_ms(&self) -> u64 {
        let later = instant_now();
        millis_between(&self.start, &later)
    }
}

/// Relies on `std::time::Instant::now`: a reading of the monotonic
/// clock. When the call is made is outside the verifier's view, so
/// nothing is promised of it.
#[verifier::external_body]
pub(crate) fn instant_now() -> Instant {
    Instant::now()
}

/// Relies on `time::ext::InstantExt::signed_duration_since`: the
/// milliseconds from `earlier` to `later`. Which instants the caller
/// read is outside the verifier's view, so nothing is promised of the
/// value.
#[verifier::external_body]
pub(crate) fn millis_between(earlier: &Instant, later: &Instant) -> u64 {
    let since = InstantExt::signed_duration_since(later, *earlier);
    u64::try_from(since.whole_milliseconds()).unwrap_or(u64::MAX)
}

} // verus!
