//! Pending timers of a window, earliest deadline first.

use vstd::prelude::*;
use crate::time::Instant;
use crate::window::TimerToken;

verus! {

/// A timer that has been asked for and has not fired yet.
#[derive(Clone, Copy, Debug, PartialEq, Eq, Structural)]
pub struct Timer {
    pub deadline: Instant,
    pub token: TimerToken,
}

impl Timer {
    /// The timer with the given deadline and token.
    pub fn new(deadline: Instant, token: TimerToken) -> (t: Timer)
        ensures
            t.deadline == deadline,
            t.token == token,
    {
        Timer { deadline, token }
    }

    /// When the timer is due.
    pub fn deadline(&self) -> (d: Instant)
        ensures
            d == self.deadline,
    {
        self.deadline
    }

    /// The token to hand back when the timer fires.
    pub fn token(&self) -> (t: TimerToken)
        ensures
            t == self.token,
    {
        self.token
    }
}

/// Whether the deadlines of `timers` never decrease.
pub open spec fn sorted(timers: Seq<Timer>) -> bool {
    forall|i: int, j: int| 0 <= i <= j < timers.len() ==> timers[i].deadline.nanos <= timers[j].deadline.nanos
}

/// The number of timers of `timers` that are due at `now`.
pub open spec fn due_count(timers: Seq<Timer>, now: Instant) -> nat
    decreases timers.len(),
{
    if timers.len() == 0 {
        0
    } else {
        due_count(timers.drop_last(), now) + if timers.last().deadline.nanos <= now.nanos {
            1nat
        } else {
            0nat
        }
    }
}

/// In a sorted sequence the timers due at `now` are exactly the first
/// `due_count` ones.
pub proof fn lemma_due_prefix(timers: Seq<Timer>, now: Instant)
    requires
        sorted(timers),
    ensures
        due_count(timers, now) <= timers.len(),
        forall|i: int| 0 <= i < due_count(timers, now) ==> (#[trigger] timers[i]).deadline.nanos <= now.nanos,
        forall|i: int| due_count(timers, now) <= i < timers.len() ==> (#[trigger] timers[i]).deadline.nanos > now.nanos,
    decreases timers.len(),
{
    if timers.len() > 0 {
        let init = timers.drop_last();
        assert(sorted(init)) by {
            assert forall|i: int, j: int| 0 <= i <= j < init.len() implies init[i].deadline.nanos <= init[j].deadline.nanos by {
                assert(init[i] == timers[i] && init[j] == timers[j]);
            }
        }
        lemma_due_prefix(init, now);
        let n = due_count(init, now);
        assert forall|i: int| 0 <= i < due_count(timers, now) implies (#[trigger] timers[i]).deadline.nanos <= now.nanos by {
            if i < init.len() {
                assert(timers[i] == init[i]);
                if i >= n {
                    // the last one is due, and nothing before it is later
                    assert(timers[i].deadline.nanos <= timers[timers.len() - 1].deadline.nanos);
                }
            }
        }
        assert forall|i: int| due_count(timers, now) <= i < timers.len() implies (#[trigger] timers[i]).deadline.nanos > now.nanos by {
            if i < init.len() {
                assert(timers[i] == init[i]);
            }
        }
    }
}

/// The timers of a window in the order in which they fire: by deadline, and
/// among equal deadlines in the order in which they were asked for.
#[derive(Clone, Debug, PartialEq, Eq)]
pub struct TimerQueue {
    timers: Vec<Timer>,
}

impl View for TimerQueue {
    type V = Seq<Timer>;

    closed spec fn view(&self) -> Seq<Timer> {
        self.timers@
    }
}

impl TimerQueue {
    /// The deadlines never decrease along the queue.
    pub open spec fn wf(&self) -> bool {
        sorted(self@)
    }

    /// The place of a new timer with deadline `deadline`: behind every timer
    /// that is due no later.
    pub open spec fn insertion_index(timers: Seq<Timer>, deadline: Instant) -> int {
        due_count(timers, deadline) as int
    }

    /// The queue without timers.
    pub fn new() -> (q: TimerQueue)
        ensures
            q@ == Seq::<Timer>::empty(),
            q.wf(),
    {
        TimerQueue { timers: Vec::new() }
    }

    /// Whether the deadlines never decrease along the queue.
    pub fn is_well_formed(&self) -> (b: bool)
        ensures
            b == self.wf(),
    {
        let mut i: usize = 1;
        while i < self.timers.len()
            invariant
                1 <= i,
                forall|a: int, b: int|
                    0 <= a <= b < i && b < self.timers@.len() ==> self.timers@[a].deadline.nanos
                        <= self.timers@[b].deadline.nanos,
            decreases self.timers.len() - i,
        {
            if self.timers[i - 1].deadline.nanos > self.timers[i].deadline.nanos {
                return false;
            }
            proof {
                assert forall|a: int, b: int|
                    0 <= a <= b < i + 1 && b < self.timers@.len() implies self.timers@[a].deadline.nanos
                        <= self.timers@[b].deadline.nanos by {
                    if b == i && a < i {
                        assert(self.timers@[a].deadline.nanos <= self.timers@[i - 1].deadline.nanos);
                    }
                }
            }
            i += 1;
        }
        true
    }

    /// The number of pending timers.
    pub fn len(&self) -> (n: usize)
        ensures
            n == self@.len(),
    {
        self.timers.len()
    }

    /// The timer that fires first, if there is one.
    pub fn peek(&self) -> (t: Option<Timer>)
        ensures
            self@.len() == 0 ==> t is None,
            self@.len() > 0 ==> t == Some(self@[0]),
            self.wf() ==> forall|i: int| 0 <= i < self@.len() ==> t->Some_0.deadline.nanos <= (#[trigger] self@[i]).deadline.nanos,
    {
        if self.timers.len() == 0 {
            None
        } else {
            Some(self.timers[0])
        }
    }

    /// Adds `timer` behind every pending timer that is due no later.
    pub fn push(&mut self, timer: Timer)
        requires
            old(self).wf(),
        ensures
            final(self).wf(),
            final(self)@ == old(self)@.insert(TimerQueue::insertion_index(old(self)@, timer.deadline), timer),
            0 <= TimerQueue::insertion_index(old(self)@, timer.deadline) <= old(self)@.len(),
            final(self)@.len() == old(self)@.len() + 1,
            final(self)@.to_multiset() =~= old(self)@.to_multiset().insert(timer),
    {
        let ghost before = self.timers@;
        proof {
            lemma_due_prefix(before, timer.deadline);
        }
        let mut i: usize = self.timers.len();
        while i > 0 && self.timers[i - 1].deadline.nanos > timer.deadline.nanos
            invariant
                0 <= i <= self.timers.len(),
                self.timers@ == before,
                sorted(before),
                forall|k: int| i <= k < before.len() ==> (#[trigger] before[k]).deadline.nanos > timer.deadline.nanos,
            decreases i,
        {
            i -= 1;
        }
        proof {
            let n = due_count(before, timer.deadline) as int;
            if i < n {
                assert(before[i as int].deadline.nanos > timer.deadline.nanos);
            }
            if i > n {
                assert(before[i - 1].deadline.nanos > timer.deadline.nanos);
            }
            assert(i == n);
        }
        self.timers.insert(i, timer);
        proof {
            let after = self.timers@;
            assert forall|a: int, b: int| 0 <= a <= b < after.len() implies after[a].deadline.nanos <= after[b].deadline.nanos by {
                let ka = if a < i { a } else { a - 1 };
                let kb = if b < i { b } else { b - 1 };
                if a != i && b != i {
                    assert(after[a] == before[ka] && after[b] == before[kb]);
                } else if a == i && b != i {
                    assert(after[b] == before[kb]);
                } else if a != i && b == i {
                    assert(after[a] == before[ka]);
                }
            }
            vstd::seq_lib::to_multiset_insert(before, i as int, timer);
        }
    }

    /// Removes the timers that are due at `now` and returns them in firing
    /// order; every later timer stays.
    pub fn pop_expired(&mut self, now: Instant) -> (fired: Vec<Timer>)
        requires
            old(self).wf(),
        ensures
            final(self).wf(),
            fired@ + final(self)@ == old(self)@,
            fired@.len() == due_count(old(self)@, now),
            sorted(fired@),
            forall|i: int| 0 <= i < fired@.len() ==> (#[trigger] fired@[i]).deadline.nanos <= now.nanos,
            forall|i: int| 0 <= i < final(self)@.len() ==> (#[trigger] final(self)@[i]).deadline.nanos > now.nanos,
    {
        let ghost before = self.timers@;
        proof {
            lemma_due_prefix(before, now);
        }
        let mut n: usize = 0;
        while n < self.timers.len() && self.timers[n].deadline.nanos <= now.nanos
            invariant
                0 <= n <= self.timers.len(),
                self.timers@ == before,
                forall|k: int| 0 <= k < n ==> (#[trigger] before[k]).deadline.nanos <= now.nanos,
            decreases self.timers.len() - n,
        {
            n += 1;
        }
        proof {
            let d = due_count(before, now) as int;
            if n < d {
                assert(before[n as int].deadline.nanos <= now.nanos);
            }
            if n > d {
                assert(before[d].deadline.nanos <= now.nanos);
            }
            assert(n == d);
        }
        let rest = self.timers.split_off(n);
        let mut fired = rest;
        std::mem::swap(&mut self.timers, &mut fired);
        proof {
            assert(fired@ == before.subrange(0, n as int));
            assert(self.timers@ == before.subrange(n as int, before.len() as int));
            assert(fired@ + self.timers@ =~= before);
        }
        fired
    }
}

} // verus!
