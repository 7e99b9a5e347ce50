//! The deadline queue: the worker's ordered container of pending timer
//! events, keyed by ascending absolute fire time. Only the worker ever
//! reads or writes it.

use vstd::prelude::*;
use vstd::seq_lib::group_to_multiset_ensures;
use crate::event::TimerEvent;

verus! {

/// Events of `s`, earliest deadline first.
pub open spec fn sorted_by_when(s: Seq<TimerEvent>) -> bool {
    forall|i: int, j: int|
        0 <= i <= j < s.len() ==> #[trigger] s[i].when <= #[trigger] s[j].when
}

/// Every event of `s` is valid (periodic events carry a positive
/// period).
pub open spec fn all_valid(s: Seq<TimerEvent>) -> bool {
    forall|i: int| 0 <= i < s.len() ==> (#[trigger] s[i]).valid()
}

/// Pending timer events, kept sorted by deadline. An event that ties an
/// existing deadline is placed after it; the order among equal
/// deadlines carries no guarantee.
pub struct DeadlineQueue {
    events: Vec<TimerEvent>,
}

impl View for DeadlineQueue {
    type V = Seq<TimerEvent>;

    closed spec fn view(&self) -> Seq<TimerEvent> {
        self.events@
    }
}

impl DeadlineQueue {
    /// Well-formed: sorted by deadline ascending, every event valid.
    pub open spec fn wf(&self) -> bool {
        sorted_by_when(self@) && all_valid(self@)
    }

    pub fn new() -> (q: DeadlineQueue)
        ensures
            q@ == Seq::<TimerEvent>::empty(),
            q.wf(),
    {
        DeadlineQueue { events: Vec::new() }
    }

    pub fn len(&self) -> (n: usize)
        ensures
            n == self@.len(),
    {
        self.events.len()
    }

    /// The earliest pending deadline, or `None` when nothing is
    /// pending.
    pub fn peek_min_when(&self) -> (r: Option<u64>)
        requires
            self.wf(),
        ensures
            (match r {
                Some(w) => {
                    &&& self@.len() > 0
                    &&& w == self@[0].when
                    &&& forall|i: int| 0 <= i < self@.len() ==> w <= #[trigger] self@[i].when
                },
                None => self@.len() == 0,
            }),
    {
        if self.events.len() == 0 {
            None
        } else {
            Some(self.events[0].when)
        }
    }

    /// Inserts an event at its place in deadline order.
    pub fn insert(&mut self, evt: TimerEvent)
        requires
            old(self).wf(),
            evt.valid(),
        ensures
            final(self).wf(),
            final(self)@.len() == old(self)@.len() + 1,
            (exists|i: int|
                0 <= i <= old(self)@.len() && final(self)@ == #[trigger] old(self)@.insert(
                    i,
                    evt,
                )),
            final(self)@.to_multiset() == old(self)@.to_multiset().insert(evt),
    {
        broadcast use group_to_multiset_ensures;

        let mut i: usize = 0;
        while i < self.events.len() && self.events[i].when <= evt.when
            invariant
                i <= self.events.len(),
                self.events@ == old(self)@,
                forall|k: int| 0 <= k < i ==> #[trigger] self.events@[k].when <= evt.when,
            decreases self.events.len() - i,
        {
            i = i + 1;
        }
        assert(forall|k: int|
            i <= k < self.events@.len() ==> evt.when <= #[trigger] self.events@[k].when);
        self.events.insert(i, evt);
        assert(self.events@ == old(self)@.insert(i as int, evt));
        assert(sorted_by_when(self.events@)) by {
            let s0 = old(self)@;
            let s1 = self.events@;
            assert forall|a: int, b: int| 0 <= a <= b < s1.len() implies #[trigger] s1[a].when
                <= #[trigger] s1[b].when by {
                if a < i && b < i {
                    assert(s1[a] == s0[a] && s1[b] == s0[b]);
                } else if a < i && b == i {
                    assert(s1[a] == s0[a] && s1[b] == evt);
                } else if a < i && b > i {
                    assert(s1[a] == s0[a] && s1[b] == s0[b - 1]);
                } else if a == i && b == i {
                } else if a == i && b > i {
                    assert(s1[a] == evt && s1[b] == s0[b - 1]);
                } else {
                    assert(s1[a] == s0[a - 1] && s1[b] == s0[b - 1]);
                }
            }
        }
    }

    /// Removes and returns the event with the earliest deadline.
    pub fn pop_min(&mut self) -> (r: Option<TimerEvent>)
        requires
            old(self).wf(),
        ensures
            final(self).wf(),
            (match r {
                Some(evt) => {
                    &&& old(self)@.len() > 0
                    &&& evt == old(self)@[0]
                    &&& final(self)@ == old(self)@.remove(0)
                    &&& old(self)@.to_multiset() == final(self)@.to_multiset().insert(evt)
                    &&& final(self)@.to_multiset() == old(self)@.to_multiset().remove(evt)
                    &&& forall|i: int|
                        0 <= i < final(self)@.len() ==> evt.when <= #[trigger] final(self)@[i].when
                },
                None => old(self)@.len() == 0 && final(self)@ == old(self)@,
            }),
    {
        broadcast use group_to_multiset_ensures;

        if self.events.len() == 0 {
            None
        } else {
            let evt = self.events.remove(0);
            proof {
                let s0 = old(self)@;
                let s1 = self.events@;
                assert(s1 == s0.remove(0));
                assert(s1.to_multiset() == s0.to_multiset().remove(s0[0]));
                assert(s0.contains(s0[0]));
                assert(s0.to_multiset().count(s0[0]) > 0);
                assert(s0.to_multiset() =~= s1.to_multiset().insert(s0[0]));
                assert forall|a: int, b: int| 0 <= a <= b < s1.len() implies #[trigger] s1[a].when
                    <= #[trigger] s1[b].when by {
                    assert(s1[a] == s0[a + 1] && s1[b] == s0[b + 1]);
                }
                assert(all_valid(s1)) by {
                    assert forall|a: int| 0 <= a < s1.len() implies (#[trigger] s1[a]).valid() by {
                        assert(s1[a] == s0[a + 1]);
                    }
                }
            }
            Some(evt)
        }
    }
}

} // verus!
