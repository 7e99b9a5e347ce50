use std::sync::mpsc::channel;

use schedule_recv::DeadlineQueue;
use schedule_recv::MonotonicClock;
use schedule_recv::ScheduleError;
use schedule_recv::Scheduler;
use schedule_recv::TimerEvent;
use schedule_recv::TimerRequest;
use schedule_recv::arm_request;
use schedule_recv::deadline_after;
use schedule_recv::drain_requests;
use schedule_recv::fire_due;
use schedule_recv::next_wait;
use schedule_recv::oneshot_ms;
use schedule_recv::periodic_ms;
use schedule_recv::request_valid;
use schedule_recv::wait_for_request;
use schedule_recv::worker_cycle;

#[test]
fn it_works() {}

#[test]
fn deadline_arithmetic() {
    assert_eq!(deadline_after(1000, 50), 1050);
    assert_eq!(deadline_after(0, 0), 0);
    assert_eq!(deadline_after(u64::MAX - 10, 100), u64::MAX);
    assert_eq!(deadline_after(u64::MAX, 0), u64::MAX);
}

#[test]
fn request_validity() {
    let (tx, _rx) = channel();
    let periodic_zero = TimerRequest { duration: 0, periodic: true, completion_sink: tx };
    assert!(!request_valid(&periodic_zero));
    let (tx, _rx) = channel();
    let oneshot_zero = TimerRequest { duration: 0, periodic: false, completion_sink: tx };
    assert!(request_valid(&oneshot_zero));
}

#[test]
fn arming_a_request() {
    let (tx, _rx) = channel();
    let req = TimerRequest { duration: 50, periodic: false, completion_sink: tx };
    let evt = arm_request(req, 1000);
    assert_eq!(evt.when, 1050);
    assert_eq!(evt.period, None);

    let (tx, _rx) = channel();
    let req = TimerRequest { duration: 100, periodic: true, completion_sink: tx };
    let evt = arm_request(req, 1000);
    assert_eq!(evt.when, 1100);
    assert_eq!(evt.period, Some(100));
}

fn oneshot_event(when: u64) -> (TimerEvent, std::sync::mpsc::Receiver<()>) {
    let (tx, rx) = channel();
    (TimerEvent { when, period: None, completion_sink: tx }, rx)
}

fn periodic_event(when: u64, period: u32) -> (TimerEvent, std::sync::mpsc::Receiver<()>) {
    let (tx, rx) = channel();
    (TimerEvent { when, period: Some(period), completion_sink: tx }, rx)
}

#[test]
fn queue_orders_by_deadline() {
    let mut q = DeadlineQueue::new();
    let (e3, _r3) = oneshot_event(300);
    let (e1, _r1) = oneshot_event(100);
    let (e2, _r2) = oneshot_event(200);
    q.insert(e3);
    q.insert(e1);
    q.insert(e2);
    assert_eq!(q.len(), 3);
    assert_eq!(q.peek_min_when(), Some(100));
    assert_eq!(q.pop_min().unwrap().when, 100);
    assert_eq!(q.pop_min().unwrap().when, 200);
    assert_eq!(q.pop_min().unwrap().when, 300);
    assert!(q.pop_min().is_none());
}

#[test]
fn queue_keeps_tied_deadlines() {
    let mut q = DeadlineQueue::new();
    let (a, _ra) = oneshot_event(100);
    let (b, _rb) = oneshot_event(100);
    q.insert(a);
    q.insert(b);
    assert_eq!(q.len(), 2);
    assert_eq!(q.pop_min().unwrap().when, 100);
    assert_eq!(q.pop_min().unwrap().when, 100);
}

#[test]
fn oneshot_fires_exactly_once() {
    let mut q = DeadlineQueue::new();
    let (evt, rx) = oneshot_event(1050);
    q.insert(evt);

    // not yet due
    let log = fire_due(&mut q, 1049);
    assert!(log.is_empty());
    assert_eq!(q.len(), 1);

    // a deadline fires the moment it is reached
    let log = fire_due(&mut q, 1050);
    assert_eq!(log.len(), 1);
    assert_eq!(log[0].key.when, 1050);
    assert_eq!(log[0].key.period, None);
    assert!(log[0].delivered);
    assert_eq!(q.len(), 0);
    assert_eq!(rx.try_recv(), Ok(()));

    // nothing further on that handle, ever
    let log = fire_due(&mut q, 10_000);
    assert!(log.is_empty());
    assert!(rx.try_recv().is_err());
}

#[test]
fn periodic_gaps_are_one_period() {
    let mut q = DeadlineQueue::new();
    let (evt, rx) = periodic_event(1100, 100);
    q.insert(evt);

    let log = fire_due(&mut q, 1100);
    assert_eq!(log.len(), 1);
    assert_eq!(log[0].key.when, 1100);
    assert_eq!(q.peek_min_when(), Some(1200));
    assert_eq!(rx.try_recv(), Ok(()));

    let log = fire_due(&mut q, 1200);
    assert_eq!(log.len(), 1);
    assert_eq!(log[0].key.when, 1200);
    assert_eq!(q.peek_min_when(), Some(1300));
    assert_eq!(rx.try_recv(), Ok(()));

    let log = fire_due(&mut q, 1300);
    assert_eq!(log[0].key.when, 1300);
    assert_eq!(q.peek_min_when(), Some(1400));
    assert_eq!(rx.try_recv(), Ok(()));
    assert!(rx.try_recv().is_err());
}

#[test]
fn overdue_periodic_catches_up() {
    let mut q = DeadlineQueue::new();
    let (evt, rx) = periodic_event(100, 30);
    q.insert(evt);

    // deadlines 100, 130, 160 have passed at 190, and 190 is reached
    let log = fire_due(&mut q, 190);
    assert_eq!(log.len(), 4);
    let whens: Vec<u64> = log.iter().map(|r| r.key.when).collect();
    assert_eq!(whens, vec![100, 130, 160, 190]);
    assert_eq!(q.peek_min_when(), Some(220));
    for _ in 0..4 {
        assert_eq!(rx.try_recv(), Ok(()));
    }
    assert!(rx.try_recv().is_err());
}

#[test]
fn shorter_oneshot_fires_first() {
    let mut q = DeadlineQueue::new();
    let (slow, slow_rx) = oneshot_event(1200);
    let (fast, fast_rx) = oneshot_event(1100);
    q.insert(slow);
    q.insert(fast);

    let log = fire_due(&mut q, 1300);
    assert_eq!(log.len(), 2);
    assert_eq!(log[0].key.when, 1100);
    assert_eq!(log[1].key.when, 1200);
    assert_eq!(fast_rx.try_recv(), Ok(()));
    assert_eq!(slow_rx.try_recv(), Ok(()));
}

#[test]
fn abandoned_periodic_is_discarded() {
    let mut q = DeadlineQueue::new();
    let (evt, rx) = periodic_event(1100, 100);
    q.insert(evt);
    drop(rx);

    let log = fire_due(&mut q, 1100);
    assert_eq!(log.len(), 1);
    assert_eq!(log[0].key.when, 1100);
    assert!(!log[0].delivered);
    // even though periodic, the timer is gone: the queue is back to
    // its pre-creation size after one natural firing cycle
    assert_eq!(q.len(), 0);
    let log = fire_due(&mut q, 10_000);
    assert!(log.is_empty());
}

#[test]
fn many_producers_each_get_one_notification() {
    let (sched, source) = Scheduler::new();
    let mut handles = Vec::new();
    for i in 0..100u32 {
        handles.push(oneshot_ms(&sched, i).unwrap().0);
    }

    let mut q = DeadlineQueue::new();
    let drained = drain_requests(&mut q, &source, 0);
    assert!(drained);
    assert_eq!(q.len(), 100);

    let log = fire_due(&mut q, 1000);
    assert_eq!(log.len(), 100);
    assert_eq!(q.len(), 0);
    for rx in &handles {
        assert_eq!(rx.try_recv(), Ok(()));
        assert!(rx.try_recv().is_err());
    }
}

#[test]
fn wait_computation() {
    let mut q = DeadlineQueue::new();
    // idle: exactly one maximum-idle wait per cycle, no busy polling
    assert_eq!(next_wait(&q, 300), 100_000);

    let (evt, _rx) = oneshot_event(500);
    q.insert(evt);
    assert_eq!(next_wait(&q, 300), 200);
    assert_eq!(next_wait(&q, 500), 0);
    assert_eq!(next_wait(&q, 600), 0);

    let (far, _far_rx) = oneshot_event(1_000_000);
    let mut q2 = DeadlineQueue::new();
    q2.insert(far);
    assert_eq!(next_wait(&q2, 0), 100_000);
}

#[test]
fn zero_period_is_rejected() {
    let (sched, _source) = Scheduler::new();
    let r = periodic_ms(&sched, 0);
    assert!(matches!(r.err(), Some(ScheduleError::InvalidPeriod)));
    // a zero-delay one-shot is fine
    assert!(oneshot_ms(&sched, 0).is_ok());
}

#[test]
fn dead_worker_is_reported() {
    let (sched, source) = Scheduler::new();
    drop(source);
    let r = oneshot_ms(&sched, 10);
    assert!(matches!(r.err(), Some(ScheduleError::WorkerUnavailable)));
    let r = periodic_ms(&sched, 10);
    assert!(matches!(r.err(), Some(ScheduleError::WorkerUnavailable)));
}

#[test]
fn full_worker_cycles() {
    let (sched, source) = Scheduler::new();
    let rx = oneshot_ms(&sched, 0).unwrap().0;

    let mut q = DeadlineQueue::new();
    // a zero-delay request drained this cycle is due at `now` and
    // fires in the same iteration: it never starves
    let out = worker_cycle(&mut q, &source, None, 5);
    assert_eq!(out.log.len(), 1);
    assert_eq!(out.log[0].key.when, 5);
    assert!(out.log[0].delivered);
    assert!(out.drained);
    assert_eq!(rx.try_recv(), Ok(()));
    assert_eq!(out.wait, 100_000);
}

#[test]
fn carried_request_is_armed() {
    let (_sched, source) = Scheduler::new();
    let (tx, rx) = channel();
    let req = TimerRequest { duration: 7, periodic: false, completion_sink: tx };

    let mut q = DeadlineQueue::new();
    let out = worker_cycle(&mut q, &source, Some(req), 100);
    assert!(out.log.is_empty());
    assert_eq!(out.wait, 7);

    let out = worker_cycle(&mut q, &source, None, 107);
    assert_eq!(out.log.len(), 1);
    assert_eq!(out.log[0].key.when, 107);
    assert_eq!(rx.try_recv(), Ok(()));
}

// Runs the worker loop inline (the same drive that the background
// thread uses: one verified cycle, then a bounded wait on the request
// conduit) until `fired` log entries have accumulated or `deadline_ms`
// of real time have passed.
fn run_worker_until(
    source: &std::sync::mpsc::Receiver<TimerRequest>,
    clock: &MonotonicClock,
    fired: usize,
    deadline_ms: u64,
) -> Vec<schedule_recv::FireRecord> {
    let mut q = DeadlineQueue::new();
    let mut carried: Option<TimerRequest> = None;
    let mut all = Vec::new();
    while all.len() < fired && clock.now_ms() < deadline_ms {
        let now = clock.now_ms();
        let out = worker_cycle(&mut q, source, carried.take(), now);
        all.extend(out.log);
        if all.len() >= fired {
            break;
        }
        carried = match wait_for_request(source, out.wait.min(50)) {
            schedule_recv::RecvOutcome::Got(req) => Some(req),
            _ => None,
        };
    }
    all
}

#[test]
fn oneshot_is_observed_no_earlier_than_asked() {
    let clock = MonotonicClock::new();
    let (sched, source) = Scheduler::new();
    let t0 = clock.now_ms();
    let rx = oneshot_ms(&sched, 50).unwrap().0;

    let log = run_worker_until(&source, &clock, 1, 10_000);
    let t1 = clock.now_ms();
    assert_eq!(log.len(), 1);
    assert!(log[0].delivered);
    assert_eq!(rx.try_recv(), Ok(()));
    assert!(t1 - t0 >= 50);
    assert!(t1 - t0 < 5_000);
    assert!(rx.try_recv().is_err());
}

#[test]
fn periodic_notifications_arrive_each_period() {
    let clock = MonotonicClock::new();
    let (sched, source) = Scheduler::new();
    let rx = periodic_ms(&sched, 100).unwrap().0;

    let log = run_worker_until(&source, &clock, 3, 10_000);
    assert!(log.len() >= 3);
    for pair in log.windows(2) {
        // successive deadlines lie exactly one period apart, so no
        // notification can come early
        assert_eq!(pair[1].key.when - pair[0].key.when, 100);
    }
    for _ in 0..3 {
        assert_eq!(rx.try_recv(), Ok(()));
    }
}

#[test]
fn wait_ends_for_each_reason() {
    let (sched, source) = Scheduler::new();
    let _rx = oneshot_ms(&sched, 3).unwrap();
    // a pending request ends the wait at once: the wake signal
    assert!(matches!(wait_for_request(&source, 10_000), schedule_recv::RecvOutcome::Got(_)));
    // nothing pending: the timeout elapses
    assert!(matches!(wait_for_request(&source, 10), schedule_recv::RecvOutcome::TimedOut));
    // every producer handle gone: the wait reports closure at once
    drop(sched);
    assert!(matches!(wait_for_request(&source, 10_000), schedule_recv::RecvOutcome::Closed));
}

#[test]
fn clock_runs_forward() {
    let clock = MonotonicClock::new();
    let a = clock.now_ms();
    let b = clock.now_ms();
    assert!(b >= a);
}
