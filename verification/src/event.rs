//! Timer events, timer requests and deadline arithmetic.

use vstd::prelude::*;
use std::sync::mpsc::Sender;

verus! {

/// The deadline `delay` milliseconds after `now`, saturating at
/// `u64::MAX` (a u64 count of milliseconds outlasts any process, so the
/// saturated case is unreachable in practice but still pinned down).
pub open spec fn arm_when(now: u64, delay: u64) -> u64 {
    if now + delay <= u64::MAX {
        (now + delay) as u64
    } else {
        u64::MAX
    }
}

/// Computes `arm_when` at run time.
pub fn deadline_after(now: u64, delay: u64) -> (r: u64)
    ensures
        r == arm_when(now, delay),
{
    if delay <= u64::MAX - now {
        now + delay
    } else {
        u64::MAX
    }
}

/// One scheduled firing, owned by the worker's deadline queue.
pub struct TimerEvent {
    /// Absolute monotonic timestamp, in milliseconds, at which the
    /// event is due.
    pub when: u64,
    /// Recurrence interval in milliseconds; `Some` for a periodic
    /// timer, `None` for a one-shot.
    pub period: Option<u32>,
    /// Sending end of the consumer's notification channel, owned by
    /// this event until it fires or is discarded.
    pub completion_sink: Sender<()>,
}

/// The scheduling data of an event, without its notification channel:
/// what the fire log records about each fired event.
#[derive(Clone, Copy, PartialEq, Eq, Debug)]
pub struct TimerKey {
    pub when: u64,
    pub period: Option<u32>,
}

impl TimerEvent {
    /// A periodic event must carry a positive period: re-arming with a
    /// zero period would never move its deadline forward.
    pub open spec fn valid(self) -> bool {
        match self.period {
            Some(p) => p > 0,
            None => true,
        }
    }

    pub open spec fn key(self) -> TimerKey {
        TimerKey { when: self.when, period: self.period }
    }

    /// The scheduling data of this event, for the fire log.
    pub fn key_data(&self) -> (k: TimerKey)
        ensures
            k == self.key(),
    {
        TimerKey { when: self.when, period: self.period }
    }
}

/// The key a delivered periodic firing is re-armed under: due one
/// period after the deadline that fired, with the same period. On a
/// key without a period (a one-shot's) this is the identity; one-shots
/// are never re-armed.
pub open spec fn rearmed_key(k: TimerKey) -> TimerKey {
    match k.period {
        Some(p) => TimerKey { when: arm_when(k.when, p as u64), period: k.period },
        None => k,
    }
}

/// The deadline key a timer reaches after `n` consecutive re-arms.
pub open spec fn nth_rearm(k: TimerKey, n: nat) -> TimerKey
    decreases n,
{
    if n == 0 {
        k
    } else {
        rearmed_key(nth_rearm(k, (n - 1) as nat))
    }
}

/// A periodic timer's successive deadlines form a strictly increasing
/// arithmetic sequence: after `n` delivered firings the deadline lies
/// exactly `n` periods past the original one, and each consecutive gap
/// is exactly one period. Jitter in observing a notification can only
/// add delay; no firing is ever scheduled early. (Stated while the
/// deadlines stay below the u64 ceiling, where they would saturate.)
pub proof fn lemma_periodic_schedule(k: TimerKey, p: u32, n: nat)
    requires
        k.period == Some(p),
        p > 0,
        k.when + n * p <= u64::MAX,
    ensures
        nth_rearm(k, n).period == Some(p),
        nth_rearm(k, n).when == k.when + n * p,
        n > 0 ==> nth_rearm(k, n).when == nth_rearm(k, (n - 1) as nat).when + p,
        n > 0 ==> nth_rearm(k, n).when > nth_rearm(k, (n - 1) as nat).when,
    decreases n,
{
    if n > 0 {
        let m = (n - 1) as nat;
        assert(m * p + p == n * p && m * p <= n * p) by (nonlinear_arith)
            requires
                n >= 1 && m == n - 1,
        ;
        lemma_periodic_schedule(k, p, m);
        let prev = nth_rearm(k, m);
        assert(arm_when(prev.when, p as u64) == prev.when + p);
    } else {
        assert(n * p == 0) by (nonlinear_arith)
            requires
                n == 0,
        ;
    }
}

/// Two one-shot timers armed at the same instant keep their duration
/// order: the shorter delay gets the strictly earlier deadline, and
/// the fire loop pops deadlines in ascending order, so the shorter
/// one's notification is handed out strictly before the longer one's.
pub proof fn lemma_shorter_delay_fires_first(now: u64, d1: u64, d2: u64)
    requires
        d1 < d2,
        now + d2 <= u64::MAX,
    ensures
        arm_when(now, d1) < arm_when(now, d2),
{
}

/// An event freshly armed against `now`: its deadline lies the
/// requested duration past `now`, and a periodic event recurs at the
/// same interval it was armed with.
pub open spec fn armed_at(e: TimerEvent, now: u64) -> bool {
    match e.period {
        Some(p) => p > 0 && e.when == arm_when(now, p as u64),
        None => exists|d: u32| e.when == #[trigger] arm_when(now, d as u64),
    }
}

/// A new-timer ask, carried from a producer call to the worker and
/// consumed exactly once when converted into a `TimerEvent`.
pub struct TimerRequest {
    /// Requested offset, in milliseconds, from "now" at the time the
    /// worker drains the request.
    pub duration: u32,
    /// Whether the timer recurs every `duration` milliseconds.
    pub periodic: bool,
    /// Sending end handed on to the future `TimerEvent`.
    pub completion_sink: Sender<()>,
}

impl TimerRequest {
    /// A periodic request must ask for a positive interval.
    pub open spec fn valid(self) -> bool {
        self.periodic ==> self.duration > 0
    }
}

/// Run-time check of `TimerRequest::valid`.
pub fn request_valid(req: &TimerRequest) -> (r: bool)
    ensures
        r == req.valid(),
{
    !req.periodic || req.duration > 0
}

/// The event a request turns into when armed against `now`: due
/// `duration` milliseconds from `now`, recurring iff the request asked
/// for it, notifying the request's own channel.
pub open spec fn armed_event(req: TimerRequest, now: u64) -> TimerEvent {
    TimerEvent {
        when: arm_when(now, req.duration as u64),
        period: if req.periodic {
            Some(req.duration)
        } else {
            None
        },
        completion_sink: req.completion_sink,
    }
}

/// Converts a drained request into exactly `armed_event(req, now)`.
pub fn arm_request(req: TimerRequest, now: u64) -> (evt: TimerEvent)
    requires
        req.valid(),
    ensures
        evt == armed_event(req, now),
        evt.valid(),
{
    let when = deadline_after(now, req.duration as u64);
    let period = if req.periodic { Some(req.duration) } else { None };
    TimerEvent { when, period, completion_sink: req.completion_sink }
}

} // verus!
