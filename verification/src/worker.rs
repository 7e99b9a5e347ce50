//! The scheduler worker's logic: drain new requests, fire due events,
//! compute the next wait. The caller (the background thread) runs these
//! in a loop and performs the single blocking wait between cycles.

use vstd::prelude::*;
use vstd::multiset::Multiset;
use vstd::multiset::group_multiset_axioms;
use std::sync::mpsc::Receiver;
use std::sync::mpsc::Sender;
use crate::MAX_IDLE_WAIT_MS;
use crate::event::TimerEvent;
use crate::event::TimerKey;
use crate::event::TimerRequest;
use crate::event::arm_request;
use crate::event::armed_at;
use crate::event::armed_event;
use crate::event::rearmed_key;
use crate::event::request_valid;
use crate::queue::DeadlineQueue;
use crate::sync::RecvOutcome;
use crate::sync::recv_request_timeout;
use crate::sync::send_notification;
use crate::sync::try_recv_request;

verus! {

/// One entry of the fire log: the deadline data of a fired event and
/// whether its notification was delivered.
#[derive(Clone, Copy, PartialEq, Eq, Debug)]
pub struct FireRecord {
    pub key: TimerKey,
    pub delivered: bool,
}

/// The scheduling keys of the queued events, as a multiset.
pub open spec fn queue_keys(s: Seq<TimerEvent>) -> Multiset<TimerKey>
    decreases s.len(),
{
    if s.len() == 0 {
        Multiset::empty()
    } else {
        queue_keys(s.drop_first()).insert(s[0].key())
    }
}

/// The notification channels held by the queued events, as a multiset.
pub open spec fn queue_sinks(s: Seq<TimerEvent>) -> Multiset<Sender<()>>
    decreases s.len(),
{
    if s.len() == 0 {
        Multiset::empty()
    } else {
        queue_sinks(s.drop_first()).insert(s[0].completion_sink)
    }
}

/// The firing work one event still owes at `now`: zero once its
/// deadline lies in the future, else how far the deadline has been
/// passed, plus one so that an event due exactly at `now` still
/// counts.
pub open spec fn lateness(e: TimerEvent, now: u64) -> nat {
    if e.when <= now {
        (now - e.when + 1) as nat
    } else {
        0
    }
}

/// Total overdue time of the queued events: the termination measure of
/// the fire loop.
pub open spec fn total_lateness(s: Seq<TimerEvent>, now: u64) -> nat
    decreases s.len(),
{
    if s.len() == 0 {
        0
    } else {
        lateness(s[0], now) + total_lateness(s.drop_first(), now)
    }
}

/// The keys recorded as fired, as a multiset.
pub open spec fn fired_keys(log: Seq<FireRecord>) -> Multiset<TimerKey>
    decreases log.len(),
{
    if log.len() == 0 {
        Multiset::empty()
    } else {
        fired_keys(log.drop_last()).insert(log.last().key)
    }
}

/// Whether a fired event is re-armed: its notification was delivered,
/// it is periodic, and its next deadline still advances — which it
/// always does until the deadline saturates at the u64 ceiling, where
/// the event is discarded instead of firing forever in place.
pub open spec fn rearms(r: FireRecord) -> bool {
    r.delivered && r.key.period is Some && rearmed_key(r.key).when > r.key.when
}

/// The keys of the re-armed replacements: one per re-arming firing,
/// due one period after the deadline that fired.
pub open spec fn rearm_keys(log: Seq<FireRecord>) -> Multiset<TimerKey>
    decreases log.len(),
{
    if log.len() == 0 {
        Multiset::empty()
    } else if rearms(log.last()) {
        rearm_keys(log.drop_last()).insert(rearmed_key(log.last().key))
    } else {
        rearm_keys(log.drop_last())
    }
}

proof fn lemma_queue_keys_insert(s: Seq<TimerEvent>, i: int, v: TimerEvent)
    requires
        0 <= i <= s.len(),
    ensures
        queue_keys(s.insert(i, v)) == queue_keys(s).insert(v.key()),
    decreases i,
{
    broadcast use group_multiset_axioms;

    let t = s.insert(i, v);
    if i == 0 {
        assert(t.drop_first() =~= s);
        assert(t[0] == v);
    } else {
        assert(t[0] == s[0]);
        assert(t.drop_first() =~= s.drop_first().insert(i - 1, v));
        lemma_queue_keys_insert(s.drop_first(), i - 1, v);
        assert(queue_keys(s.drop_first()).insert(v.key()).insert(s[0].key()) =~= queue_keys(
            s.drop_first(),
        ).insert(s[0].key()).insert(v.key()));
    }
}

proof fn lemma_queue_sinks_insert(s: Seq<TimerEvent>, i: int, v: TimerEvent)
    requires
        0 <= i <= s.len(),
    ensures
        queue_sinks(s.insert(i, v)) == queue_sinks(s).insert(v.completion_sink),
    decreases i,
{
    broadcast use group_multiset_axioms;

    let t = s.insert(i, v);
    if i == 0 {
        assert(t.drop_first() =~= s);
        assert(t[0] == v);
    } else {
        assert(t[0] == s[0]);
        assert(t.drop_first() =~= s.drop_first().insert(i - 1, v));
        lemma_queue_sinks_insert(s.drop_first(), i - 1, v);
        assert(queue_sinks(s.drop_first()).insert(v.completion_sink).insert(s[0].completion_sink)
            =~= queue_sinks(s.drop_first()).insert(s[0].completion_sink).insert(
            v.completion_sink,
        ));
    }
}

proof fn lemma_total_lateness_insert(s: Seq<TimerEvent>, i: int, v: TimerEvent, now: u64)
    requires
        0 <= i <= s.len(),
    ensures
        total_lateness(s.insert(i, v), now) == total_lateness(s, now) + lateness(v, now),
    decreases i,
{
    let t = s.insert(i, v);
    if i == 0 {
        assert(t.drop_first() =~= s);
        assert(t[0] == v);
    } else {
        assert(t[0] == s[0]);
        assert(t.drop_first() =~= s.drop_first().insert(i - 1, v));
        lemma_total_lateness_insert(s.drop_first(), i - 1, v, now);
    }
}

/// Fires every due event: repeatedly pops the earliest deadline while
/// it lies at or before `now` — an event due exactly at `now`,
/// including one drained this very cycle with a zero delay, fires in
/// the same iteration, so no event ever starves — attempts delivery
/// through the event's notification channel, and re-arms a delivered
/// periodic event one period after the deadline that just fired (so a
/// long overdue periodic event catches up, firing once per missed
/// period in the same call). An event whose delivery fails — its
/// consumer dropped the receiving end — is discarded permanently, even
/// if periodic. Returns the fire log, in firing order.
///
/// The conservation clause pins the whole reshuffle down: the final
/// keys plus the fired keys are exactly the initial keys plus the
/// re-armed keys, so nothing is lost, invented or fired early.
#[verifier::rlimit(50)]
pub fn fire_due(q: &mut DeadlineQueue, now: u64) -> (log: Vec<FireRecord>)
    requires
        old(q).wf(),
    ensures
        final(q).wf(),
        forall|i: int| 0 <= i < final(q)@.len() ==> now < #[trigger] final(q)@[i].when,
        forall|i: int| 0 <= i < log@.len() ==> (#[trigger] log@[i]).key.when <= now,
        forall|i: int, j: int|
            0 <= i <= j < log@.len() ==> #[trigger] log@[i].key.when <= #[trigger] log@[j].key.when,
        queue_keys(final(q)@).add(fired_keys(log@)) == queue_keys(old(q)@).add(rearm_keys(log@)),
        forall|e: TimerEvent|
            e.when > now ==> final(q)@.to_multiset().count(e) >= old(q)@.to_multiset().count(e),
        queue_sinks(final(q)@).subset_of(queue_sinks(old(q)@)),
{
    broadcast use group_multiset_axioms;

    let mut log: Vec<FireRecord> = Vec::new();
    let mut more = true;
    while more
        invariant
            q.wf(),
            !more ==> (q@.len() == 0 || q@[0].when > now),
            queue_keys(q@).add(fired_keys(log@)) == queue_keys(old(q)@).add(rearm_keys(log@)),
            forall|i: int| 0 <= i < log@.len() ==> (#[trigger] log@[i]).key.when <= now,
            forall|i: int, j: int|
                0 <= i <= j < log@.len() ==> #[trigger] log@[i].key.when
                    <= #[trigger] log@[j].key.when,
            forall|i: int, j: int|
                0 <= i < log@.len() && 0 <= j < q@.len() ==> #[trigger] log@[i].key.when
                    <= #[trigger] q@[j].when,
            forall|e: TimerEvent|
                e.when > now ==> q@.to_multiset().count(e) >= old(q)@.to_multiset().count(e),
            queue_sinks(q@).subset_of(queue_sinks(old(q)@)),
        decreases total_lateness(q@, now) + (if more { 1int } else { 0int }),
    {
        let mut due = false;
        match q.peek_min_when() {
            None => {},
            Some(w) => {
                if w <= now {
                    due = true;
                }
            },
        }
        if !due {
            more = false;
        } else {
            let ghost q_pre = q@;
            let ghost log_pre = log@;
            match q.pop_min() {
                None => {
                    proof {
                        assert(false);
                    }
                },
                Some(evt) => {
                    proof {
                        assert(q_pre.remove(0) =~= q_pre.drop_first());
                        assert(queue_keys(q_pre) == queue_keys(q@).insert(evt.key()));
                        assert(queue_sinks(q_pre) == queue_sinks(q@).insert(evt.completion_sink));
                        assert(total_lateness(q_pre, now) == lateness(evt, now) + total_lateness(
                            q@,
                            now,
                        ));
                        assert((q_pre[0]).valid());
                    }
                    let ok = send_notification(&evt.completion_sink);
                    let rec = FireRecord { key: evt.key_data(), delivered: ok };
                    log.push(rec);
                    proof {
                        assert(log@.drop_last() =~= log_pre);
                        assert(log@.last() == rec);
                        assert(fired_keys(log@) == fired_keys(log_pre).insert(evt.key()));
                        // the new record's deadline is at or above every earlier one:
                        // the popped event was the queue minimum, and every earlier
                        // record lay at or below all queued deadlines
                        assert forall|i: int, j: int| 0 <= i <= j < log@.len() implies #[trigger] log@[i].key.when
                            <= #[trigger] log@[j].key.when by {
                            if j == log@.len() - 1 && i < j {
                                assert(log_pre[i].key.when <= q_pre[0].when);
                            }
                        }
                        assert forall|e: TimerEvent| e.when > now implies q@.to_multiset().count(e)
                            >= old(q)@.to_multiset().count(e) by {
                            assert(q@.to_multiset() == q_pre.to_multiset().remove(evt));
                            assert(e != evt);
                        }
                    }
                    let period = if ok {
                        evt.period
                    } else {
                        None
                    };
                    let mut rearmed = false;
                    if let Some(p) = period {
                        let new_when = crate::event::deadline_after(evt.when, p as u64);
                        if new_when > evt.when {
                            let ghost q_mid = q@;
                            let mut evt2 = evt;
                            evt2.when = new_when;
                            proof {
                                assert(rearms(rec));
                                assert(evt2.key() == rearmed_key(rec.key));
                                assert(rearm_keys(log@) == rearm_keys(log_pre).insert(
                                    rearmed_key(rec.key),
                                ));
                                assert(lateness(evt2, now) < lateness(evt, now));
                            }
                            q.insert(evt2);
                            proof {
                                let i = choose|i: int|
                                    0 <= i <= q_mid.len() && q@ == #[trigger] q_mid.insert(
                                        i,
                                        evt2,
                                    );
                                lemma_queue_keys_insert(q_mid, i, evt2);
                                lemma_queue_sinks_insert(q_mid, i, evt2);
                                lemma_total_lateness_insert(q_mid, i, evt2, now);
                                let lhs = queue_keys(q@).add(fired_keys(log@));
                                let rhs = queue_keys(old(q)@).add(rearm_keys(log@));
                                assert forall|x: TimerKey| lhs.count(x) == rhs.count(x) by {
                                    assert(queue_keys(q_pre).add(fired_keys(log_pre)).count(x)
                                        == queue_keys(old(q)@).add(rearm_keys(log_pre)).count(x));
                                    assert(queue_keys(q_pre).count(x) == queue_keys(q_mid).count(x)
                                        + Multiset::singleton(evt.key()).count(x));
                                    assert(queue_keys(q@).count(x) == queue_keys(q_mid).count(x)
                                        + Multiset::singleton(evt2.key()).count(x));
                                    assert(fired_keys(log@).count(x) == fired_keys(
                                        log_pre,
                                    ).count(x) + Multiset::singleton(rec.key).count(x));
                                    assert(rearm_keys(log@).count(x) == rearm_keys(
                                        log_pre,
                                    ).count(x) + Multiset::singleton(
                                        rearmed_key(rec.key),
                                    ).count(x));
                                }
                                assert(lhs =~= rhs);
                                assert(queue_sinks(q@) =~= queue_sinks(q_pre));
                            }
                            rearmed = true;
                        }
                    }
                    if !rearmed {
                        proof {
                            assert(!rearms(rec));
                            assert(rearm_keys(log@) == rearm_keys(log_pre));
                            assert(queue_keys(q@).add(fired_keys(log@)) =~= queue_keys(
                                old(q)@,
                            ).add(rearm_keys(log@)));
                            assert forall|v: Sender<()>| queue_sinks(q@).count(v)
                                <= queue_sinks(old(q)@).count(v) by {
                                assert(queue_sinks(q_pre).count(v) <= queue_sinks(
                                    old(q)@,
                                ).count(v));
                            }
                        }
                    }
                },
            }
        }
    }
    log
}

/// How long the worker should wait before its next cycle: until the
/// earliest pending deadline, but never negative and never longer than
/// `MAX_IDLE_WAIT_MS`, which is also used when nothing is pending.
pub open spec fn next_wait_spec(s: Seq<TimerEvent>, now: u64) -> u64 {
    if s.len() == 0 {
        MAX_IDLE_WAIT_MS
    } else if s[0].when <= now {
        0
    } else if s[0].when - now >= MAX_IDLE_WAIT_MS {
        MAX_IDLE_WAIT_MS
    } else {
        (s[0].when - now) as u64
    }
}

/// Computes `next_wait_spec` at run time. With zero pending timers the
/// worker waits a full `MAX_IDLE_WAIT_MS` per cycle, so an idle worker
/// runs at most one wait-cycle per maximum-idle-wait interval.
pub fn next_wait(q: &DeadlineQueue, now: u64) -> (wait: u64)
    requires
        q.wf(),
    ensures
        wait == next_wait_spec(q@, now),
        wait <= MAX_IDLE_WAIT_MS,
{
    match q.peek_min_when() {
        None => MAX_IDLE_WAIT_MS,
        Some(w) => {
            if w <= now {
                0
            } else {
                let d = w - now;
                if d >= MAX_IDLE_WAIT_MS {
                    MAX_IDLE_WAIT_MS
                } else {
                    d
                }
            }
        },
    }
}

/// Pulls every request currently waiting in the channel, without
/// blocking, and inserts each as an event armed against `now`. A
/// periodic request with a zero period is discarded: the producer API
/// rejects such a request, so it can only arrive through a conduit fed
/// by something other than this crate's producers. Returns whether the
/// channel was drained to quiescence; `false` means the per-cycle
/// budget ran out first (unreachable in practice) and the caller should
/// not wait before its next cycle.
pub fn drain_requests(q: &mut DeadlineQueue, source: &Receiver<TimerRequest>, now: u64) -> (drained:
    bool)
    requires
        old(q).wf(),
    ensures
        final(q).wf(),
        old(q)@.to_multiset().subset_of(final(q)@.to_multiset()),
        forall|e: TimerEvent|
            final(q)@.to_multiset().count(e) > old(q)@.to_multiset().count(e) ==> armed_at(e, now),
{
    broadcast use group_multiset_axioms;

    let mut budget: usize = usize::MAX;
    let mut more = true;
    while more && budget > 0
        invariant
            q.wf(),
            old(q)@.to_multiset().subset_of(q@.to_multiset()),
            forall|e: TimerEvent|
                q@.to_multiset().count(e) > old(q)@.to_multiset().count(e) ==> armed_at(e, now),
        decreases budget + (if more { 1int } else { 0int }),
    {
        match try_recv_request(source) {
            None => {
                more = false;
            },
            Some(req) => {
                if request_valid(&req) {
                    let ghost pre = q@.to_multiset();
                    let evt = arm_request(req, now);
                    assert(armed_at(evt, now)) by {
                        if !req.periodic {
                            assert(evt.when == crate::event::arm_when(
                                now,
                                req.duration as u64,
                            ));
                        }
                    }
                    q.insert(evt);
                    assert forall|e: TimerEvent|
                        q@.to_multiset().count(e) > old(q)@.to_multiset().count(
                            e,
                        ) implies armed_at(e, now) by {
                        if e != evt {
                            assert(q@.to_multiset().count(e) == pre.count(e));
                        }
                    }
                }
                budget = budget - 1;
            },
        }
    }
    !more
}

/// The key multiset carries exactly one key per queued event, so
/// statements about key counts are statements about queue size.
pub proof fn lemma_queue_keys_len(s: Seq<TimerEvent>)
    ensures
        queue_keys(s).len() == s.len(),
    decreases s.len(),
{
    broadcast use group_multiset_axioms;

    if s.len() > 0 {
        lemma_queue_keys_len(s.drop_first());
    }
}

proof fn lemma_rearms_are_periodic(log: Seq<FireRecord>, k: TimerKey)
    requires
        k.period is None,
    ensures
        rearm_keys(log).count(k) == 0,
    decreases log.len(),
{
    broadcast use group_multiset_axioms;

    if log.len() > 0 {
        lemma_rearms_are_periodic(log.drop_last(), k);
        if rearms(log.last()) {
            assert(rearmed_key(log.last().key).period is Some);
        }
    }
}

/// A one-shot timer fires at most once and is then gone for good.
/// Over any fire log satisfying `fire_due`'s conservation clause, a
/// key without a period is never among the re-armed keys, so the
/// queue's count of it drops by exactly the number of times it fired:
/// one queued one-shot yields at most one notification, and none
/// follow once it is gone.
pub proof fn lemma_oneshot_fires_at_most_once(
    before: Multiset<TimerKey>,
    after: Multiset<TimerKey>,
    log: Seq<FireRecord>,
    k: TimerKey,
)
    requires
        after.add(fired_keys(log)) == before.add(rearm_keys(log)),
        k.period is None,
    ensures
        after.count(k) + fired_keys(log).count(k) == before.count(k),
        fired_keys(log).count(k) <= before.count(k),
{
    broadcast use group_multiset_axioms;

    lemma_rearms_are_periodic(log, k);
    assert(rearm_keys(log).count(k) == 0);
    assert(after.add(fired_keys(log)).count(k) == after.count(k) + fired_keys(log).count(k));
    assert(before.add(rearm_keys(log)).count(k) == before.count(k) + rearm_keys(log).count(k));
    assert(after.add(fired_keys(log)).count(k) == before.add(rearm_keys(log)).count(k));
}

proof fn lemma_no_delivery_no_rearm(log: Seq<FireRecord>)
    requires
        forall|i: int| 0 <= i < log.len() ==> !(#[trigger] log[i]).delivered,
    ensures
        rearm_keys(log) == Multiset::<TimerKey>::empty(),
    decreases log.len(),
{
    if log.len() > 0 {
        assert(!log[log.len() - 1].delivered);
        lemma_no_delivery_no_rearm(log.drop_last());
    }
}

/// An abandoned timer causes no background growth. When none of the
/// fired events could be delivered — every consumer had dropped its
/// receiving end — nothing is re-armed, so the queue shrinks by
/// exactly the number of firings: after at most one more natural
/// firing cycle an abandoned timer's slot is gone, periodic or not.
pub proof fn lemma_abandoned_timers_leave(
    before: Multiset<TimerKey>,
    after: Multiset<TimerKey>,
    log: Seq<FireRecord>,
)
    requires
        after.add(fired_keys(log)) == before.add(rearm_keys(log)),
        forall|i: int| 0 <= i < log.len() ==> !(#[trigger] log[i]).delivered,
    ensures
        after.len() + fired_keys(log).len() == before.len(),
{
    broadcast use group_multiset_axioms;

    lemma_no_delivery_no_rearm(log);
    assert(before.add(rearm_keys(log)) =~= before);
}

/// What one worker cycle decided.
pub struct CycleOutcome {
    /// How long to wait before the next cycle.
    pub wait: u64,
    /// The events fired this cycle, in firing order.
    pub log: Vec<FireRecord>,
    /// Whether the request channel was drained to quiescence; when it
    /// was not (the per-cycle budget ran out), `wait` is zero so the
    /// next cycle starts at once.
    pub drained: bool,
    /// The queue as it stood between draining and firing: the contract
    /// relates the initial queue to it (arming) and it to the final
    /// queue (firing), so the whole cycle is pinned down.
    pub mid: Ghost<Seq<TimerEvent>>,
}

/// One full cycle of the worker: arm the request the last wait may
/// have handed over, drain everything else waiting in the channel,
/// fire all due events, and compute how long to wait before the next
/// cycle. The caller performs that single blocking wait and hands any
/// request it yielded into the next cycle.
///
/// The contract carries its parts' guarantees through the composition,
/// over the intermediate queue `r.mid`: every initial event reaches
/// `r.mid`, everything added to it is armed against `now` — the
/// carried request, when valid, among them — and from `r.mid` the fire
/// step obeys key conservation, keeps every not-yet-due event
/// untouched, and never duplicates a notification channel.
pub fn worker_cycle(
    q: &mut DeadlineQueue,
    source: &Receiver<TimerRequest>,
    carried: Option<TimerRequest>,
    now: u64,
) -> (r: CycleOutcome)
    requires
        old(q).wf(),
    ensures
        final(q).wf(),
        forall|i: int| 0 <= i < final(q)@.len() ==> now < #[trigger] final(q)@[i].when,
        r.drained ==> r.wait == next_wait_spec(final(q)@, now),
        !r.drained ==> r.wait == 0,
        r.wait <= MAX_IDLE_WAIT_MS,
        forall|i: int| 0 <= i < r.log@.len() ==> (#[trigger] r.log@[i]).key.when <= now,
        forall|i: int, j: int|
            0 <= i <= j < r.log@.len() ==> #[trigger] r.log@[i].key.when
                <= #[trigger] r.log@[j].key.when,
        old(q)@.to_multiset().subset_of(r.mid@.to_multiset()),
        forall|e: TimerEvent|
            r.mid@.to_multiset().count(e) > old(q)@.to_multiset().count(e) ==> armed_at(e, now),
        (match carried {
            Some(req) => req.valid() ==> r.mid@.to_multiset().count(armed_event(req, now))
                >= old(q)@.to_multiset().count(armed_event(req, now)) + 1,
            None => true,
        }),
        queue_keys(final(q)@).add(fired_keys(r.log@)) == queue_keys(r.mid@).add(
            rearm_keys(r.log@),
        ),
        forall|e: TimerEvent|
            e.when > now ==> final(q)@.to_multiset().count(e) >= r.mid@.to_multiset().count(e),
        queue_sinks(final(q)@).subset_of(queue_sinks(r.mid@)),
{
    broadcast use group_multiset_axioms;

    let ghost q0 = q@;
    let ghost mut carried_evt: Option<TimerEvent> = None;
    match carried {
        Some(req) => {
            if request_valid(&req) {
                let evt = arm_request(req, now);
                proof {
                    if !req.periodic {
                        assert(evt.when == crate::event::arm_when(now, req.duration as u64));
                    }
                    assert(armed_at(evt, now));
                    carried_evt = Some(evt);
                }
                q.insert(evt);
            }
        },
        None => {},
    }
    let ghost q_armed = q@;
    let drained = drain_requests(q, source, now);
    let ghost mid = q@;
    proof {
        assert forall|e: TimerEvent|
            mid.to_multiset().count(e) > q0.to_multiset().count(e) implies armed_at(e, now) by {
            if mid.to_multiset().count(e) <= q_armed.to_multiset().count(e) {
                match carried_evt {
                    Some(evt) => {
                        assert(q_armed.to_multiset() == q0.to_multiset().insert(evt));
                        assert(e == evt);
                    },
                    None => {},
                }
            }
        }
    }
    let log = fire_due(q, now);
    let wait = if drained {
        next_wait(q, now)
    } else {
        0
    };
    CycleOutcome { wait, log, drained, mid: Ghost(mid) }
}

/// The worker's single suspension point: one bounded wait on the
/// request conduit. It ends when `wait_ms` elapses, when a new request
/// arrives — submitting a request is the producers' wake signal, so a
/// possibly-earlier deadline is never slept past — or when every
/// producer handle is gone. Which of these happens depends on the
/// producers and the clock, so nothing is promised of the outcome; the
/// next cycle handles each.
pub fn wait_for_request(source: &Receiver<TimerRequest>, wait_ms: u64) -> RecvOutcome {
    recv_request_timeout(source, wait_ms)
}

} // verus!
