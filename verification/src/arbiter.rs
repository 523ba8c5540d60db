//! Access arbiter: exclusive leases on the single serial resource, with
//! intent announcement and contention detection.
//!
//! Each connection owns one access handle. A handle is `Idle`, `Requesting`
//! (it announced intent and is waiting for the lease) or `Holding` (it owns
//! the lease). The contention counter equals the number of `Requesting`
//! handles at all times; a holder polls it to learn that someone is waiting.
//! The waiting itself (the lock, the wakeups) is the runtime's job; this type
//! is the shared state whose transitions the runtime performs one at a time.

use vstd::prelude::*;

verus! {

#[derive(Clone, Copy, Debug, PartialEq, Eq, Structural)]
pub enum HandleMode {
    /// Neither announced nor holding.
    Idle,
    /// Announced intent, waiting for the lease.
    Requesting,
    /// Holds the exclusive lease.
    Holding,
}

/// How many entries of `s` are in mode `m`.
pub open spec fn count_mode(s: Seq<HandleMode>, m: HandleMode) -> nat
    decreases s.len(),
{
    if s.len() == 0 {
        0
    } else {
        count_mode(s.drop_last(), m) + (if s.last() == m {
            1nat
        } else {
            0nat
        })
    }
}

/// Updating one entry changes the count by the difference the entry makes.
pub proof fn lemma_count_mode_update(s: Seq<HandleMode>, i: int, v: HandleMode, m: HandleMode)
    requires
        0 <= i < s.len(),
    ensures
        count_mode(s.update(i, v), m) + (if s[i] == m {
            1nat
        } else {
            0nat
        }) == count_mode(s, m) + (if v == m {
            1nat
        } else {
            0nat
        }),
    decreases s.len(),
{
    let t = s.update(i, v);
    if i == s.len() - 1 {
        assert(t.drop_last() =~= s.drop_last());
    } else {
        assert(t.drop_last() =~= s.drop_last().update(i, v));
        lemma_count_mode_update(s.drop_last(), i, v, m);
    }
}

/// Appending one entry adds its contribution to the count.
pub proof fn lemma_count_mode_push(s: Seq<HandleMode>, v: HandleMode, m: HandleMode)
    ensures
        count_mode(s.push(v), m) == count_mode(s, m) + (if v == m {
            1nat
        } else {
            0nat
        }),
{
    assert(s.push(v).drop_last() =~= s);
}

/// An entry in mode `m` makes the count positive.
pub proof fn lemma_count_mode_at_least_one(s: Seq<HandleMode>, i: int, m: HandleMode)
    requires
        0 <= i < s.len(),
        s[i] == m,
    ensures
        count_mode(s, m) >= 1,
    decreases s.len(),
{
    if i < s.len() - 1 {
        lemma_count_mode_at_least_one(s.drop_last(), i, m);
    }
}

/// Two distinct entries in mode `m` make the count at least two.
pub proof fn lemma_count_mode_two(s: Seq<HandleMode>, i: int, j: int, m: HandleMode)
    requires
        0 <= i < s.len(),
        0 <= j < s.len(),
        i != j,
        s[i] == m,
        s[j] == m,
    ensures
        count_mode(s, m) >= 2,
    decreases s.len(),
{
    if i < s.len() - 1 && j < s.len() - 1 {
        lemma_count_mode_two(s.drop_last(), i, j, m);
    } else if i == s.len() - 1 {
        lemma_count_mode_at_least_one(s.drop_last(), j, m);
    } else {
        lemma_count_mode_at_least_one(s.drop_last(), i, m);
    }
}

/// The shared arbitration state: one mode per registered handle, plus the
/// contention counter.
pub struct Arbiter {
    handles: Vec<HandleMode>,
    count: u32,
}

impl Arbiter {
    /// The mode of every registered handle, by handle number.
    pub closed spec fn modes(self) -> Seq<HandleMode> {
        self.handles@
    }

    /// The contention counter: how many handles have announced intent.
    pub closed spec fn counter(self) -> nat {
        self.count as nat
    }

    pub open spec fn valid_handle(self, h: int) -> bool {
        0 <= h < self.modes().len()
    }

    pub open spec fn mode_of(self, h: int) -> HandleMode {
        self.modes()[h]
    }

    /// The arbitration invariant: the counter equals the number of announced
    /// handles (so it can never go negative, and never leaks), and at most one
    /// handle holds the lease.
    pub open spec fn wf(self) -> bool {
        &&& self.counter() == count_mode(self.modes(), HandleMode::Requesting)
        &&& count_mode(self.modes(), HandleMode::Holding) <= 1
    }

    /// Whether a `contended()` wait would resolve: someone has announced.
    pub open spec fn is_contended(self) -> bool {
        self.counter() > 0
    }

    /// Whether some handle currently holds the lease.
    pub open spec fn lease_held(self) -> bool {
        count_mode(self.modes(), HandleMode::Holding) == 1
    }

    pub fn new() -> (a: Arbiter)
        ensures
            a.wf(),
            a.modes().len() == 0,
            a.counter() == 0,
    {
        Arbiter { handles: Vec::new(), count: 0 }
    }

    /// Register a fresh handle (a connection was accepted and cloned one).
    /// Returns its handle number.
    pub fn register(&mut self) -> (h: usize)
        requires
            old(self).wf(),
        ensures
            final(self).wf(),
            h == old(self).modes().len(),
            final(self).modes() == old(self).modes().push(HandleMode::Idle),
            final(self).modes() == apply_op(old(self).modes(), ArbiterOp::Register),
            final(self).counter() == old(self).counter(),
    {
        proof {
            lemma_count_mode_push(self.handles@, HandleMode::Idle, HandleMode::Requesting);
            lemma_count_mode_push(self.handles@, HandleMode::Idle, HandleMode::Holding);
        }
        let h = self.handles.len();
        self.handles.push(HandleMode::Idle);
        h
    }

    /// Announce intent: the first half of an acquisition. Increments the
    /// contention counter and marks the handle as requesting; the runtime then
    /// wakes every task waiting in `contended`.
    pub fn announce(&mut self, h: usize)
        requires
            old(self).wf(),
            old(self).valid_handle(h as int),
            old(self).mode_of(h as int) == HandleMode::Idle,
            old(self).counter() < u32::MAX,
        ensures
            final(self).wf(),
            final(self).modes() == old(self).modes().update(h as int, HandleMode::Requesting),
            final(self).modes() == apply_op(old(self).modes(), ArbiterOp::Announce(h as int)),
            final(self).counter() == old(self).counter() + 1,
            final(self).is_contended(),
    {
        proof {
            lemma_count_mode_update(
                self.handles@,
                h as int,
                HandleMode::Requesting,
                HandleMode::Requesting,
            );
            lemma_count_mode_update(
                self.handles@,
                h as int,
                HandleMode::Requesting,
                HandleMode::Holding,
            );
        }
        self.handles.set(h, HandleMode::Requesting);
        self.count = self.count + 1;
    }

    /// Complete an acquisition: the underlying exclusive primitive granted the
    /// lease to `h`. Decrements the counter and clears the requesting mark.
    /// Only possible while no one holds the lease, so the decrement can never
    /// underflow: a requesting handle always has its increment outstanding.
    pub fn grant(&mut self, h: usize)
        requires
            old(self).wf(),
            old(self).valid_handle(h as int),
            old(self).mode_of(h as int) == HandleMode::Requesting,
            !old(self).lease_held(),
        ensures
            final(self).wf(),
            final(self).modes() == old(self).modes().update(h as int, HandleMode::Holding),
            final(self).modes() == apply_op(old(self).modes(), ArbiterOp::Grant(h as int)),
            final(self).counter() == old(self).counter() - 1,
            final(self).lease_held(),
    {
        proof {
            lemma_count_mode_at_least_one(self.handles@, h as int, HandleMode::Requesting);
            lemma_count_mode_update(
                self.handles@,
                h as int,
                HandleMode::Holding,
                HandleMode::Requesting,
            );
            lemma_count_mode_update(
                self.handles@,
                h as int,
                HandleMode::Holding,
                HandleMode::Holding,
            );
        }
        self.handles.set(h, HandleMode::Holding);
        self.count = self.count - 1;
    }

    /// Release the lease: the holder drops it, by any exit path. The counter
    /// is untouched; the resource becomes available to the next acquirer.
    pub fn release(&mut self, h: usize)
        requires
            old(self).wf(),
            old(self).valid_handle(h as int),
            old(self).mode_of(h as int) == HandleMode::Holding,
        ensures
            final(self).wf(),
            final(self).modes() == old(self).modes().update(h as int, HandleMode::Idle),
            final(self).modes() == apply_op(old(self).modes(), ArbiterOp::Release(h as int)),
            final(self).counter() == old(self).counter(),
            !final(self).lease_held(),
    {
        proof {
            lemma_count_mode_at_least_one(self.handles@, h as int, HandleMode::Holding);
            lemma_count_mode_update(
                self.handles@,
                h as int,
                HandleMode::Idle,
                HandleMode::Requesting,
            );
            lemma_count_mode_update(self.handles@, h as int, HandleMode::Idle, HandleMode::Holding);
        }
        self.handles.set(h, HandleMode::Idle);
    }

    /// Defensive decrement: a task was abandoned while its acquisition was in
    /// flight. Undoes the announcement so the counter does not leak.
    pub fn abandon(&mut self, h: usize)
        requires
            old(self).wf(),
            old(self).valid_handle(h as int),
            old(self).mode_of(h as int) == HandleMode::Requesting,
        ensures
            final(self).wf(),
            final(self).modes() == old(self).modes().update(h as int, HandleMode::Idle),
            final(self).modes() == apply_op(old(self).modes(), ArbiterOp::Abandon(h as int)),
            final(self).counter() == old(self).counter() - 1,
    {
        proof {
            lemma_count_mode_at_least_one(self.handles@, h as int, HandleMode::Requesting);
            lemma_count_mode_update(
                self.handles@,
                h as int,
                HandleMode::Idle,
                HandleMode::Requesting,
            );
            lemma_count_mode_update(self.handles@, h as int, HandleMode::Idle, HandleMode::Holding);
        }
        self.handles.set(h, HandleMode::Idle);
        self.count = self.count - 1;
    }

    /// The condition a `contended` wait resolves on: at least one handle is
    /// currently announced. The runtime must subscribe to the wake mechanism
    /// before evaluating this, and suspend only if it was false.
    pub fn contended(&self) -> (r: bool)
        ensures
            r == self.is_contended(),
    {
        self.count > 0
    }

    pub fn mode(&self, h: usize) -> (m: HandleMode)
        requires
            self.valid_handle(h as int),
        ensures
            m == self.mode_of(h as int),
    {
        self.handles[h]
    }

    /// The current value of the contention counter.
    pub fn pending_requests(&self) -> (n: u32)
        ensures
            n == self.counter(),
    {
        self.count
    }

    pub fn num_handles(&self) -> (n: usize)
        ensures
            n == self.modes().len(),
    {
        self.handles.len()
    }
}

/// One arbitration transition, as seen at the shared state. The runtime
/// performs these one at a time; each executable method of `Arbiter` makes
/// exactly one of them.
pub enum ArbiterOp {
    /// A fresh handle is registered.
    Register,
    /// Handle announces intent.
    Announce(int),
    /// The exclusive primitive grants the lease to a waiting handle.
    Grant(int),
    /// The holder releases the lease.
    Release(int),
    /// An in-flight acquisition is abandoned.
    Abandon(int),
}

/// When a transition is possible: announcing needs an idle handle, granting
/// a requesting handle while nobody holds, releasing the holder, abandoning
/// a requesting handle.
pub open spec fn op_enabled(modes: Seq<HandleMode>, op: ArbiterOp) -> bool {
    match op {
        ArbiterOp::Register => true,
        ArbiterOp::Announce(h) => 0 <= h < modes.len() && modes[h] == HandleMode::Idle,
        ArbiterOp::Grant(h) => 0 <= h < modes.len() && modes[h] == HandleMode::Requesting
            && count_mode(modes, HandleMode::Holding) == 0,
        ArbiterOp::Release(h) => 0 <= h < modes.len() && modes[h] == HandleMode::Holding,
        ArbiterOp::Abandon(h) => 0 <= h < modes.len() && modes[h] == HandleMode::Requesting,
    }
}

/// The state after a transition.
pub open spec fn apply_op(modes: Seq<HandleMode>, op: ArbiterOp) -> Seq<HandleMode> {
    match op {
        ArbiterOp::Register => modes.push(HandleMode::Idle),
        ArbiterOp::Announce(h) => modes.update(h, HandleMode::Requesting),
        ArbiterOp::Grant(h) => modes.update(h, HandleMode::Holding),
        ArbiterOp::Release(h) => modes.update(h, HandleMode::Idle),
        ArbiterOp::Abandon(h) => modes.update(h, HandleMode::Idle),
    }
}

/// The state reached from startup by a sequence of transitions, each applied
/// only when enabled (a disabled transition cannot happen and changes
/// nothing).
pub open spec fn run_ops(ops: Seq<ArbiterOp>) -> Seq<HandleMode>
    decreases ops.len(),
{
    if ops.len() == 0 {
        Seq::empty()
    } else {
        let prev = run_ops(ops.drop_last());
        if op_enabled(prev, ops.last()) {
            apply_op(prev, ops.last())
        } else {
            prev
        }
    }
}

/// Law: for all time, at most one lease exists. Whatever sequence of
/// arbitration transitions has happened since startup, at most one handle is
/// in the holding mode, because a grant is only enabled while no handle
/// holds.
pub proof fn lemma_at_most_one_lease_for_all_time(ops: Seq<ArbiterOp>)
    ensures
        count_mode(run_ops(ops), HandleMode::Holding) <= 1,
    decreases ops.len(),
{
    if ops.len() > 0 {
        lemma_at_most_one_lease_for_all_time(ops.drop_last());
        let prev = run_ops(ops.drop_last());
        let op = ops.last();
        if op_enabled(prev, op) {
            match op {
                ArbiterOp::Register => {
                    lemma_count_mode_push(prev, HandleMode::Idle, HandleMode::Holding);
                },
                ArbiterOp::Announce(h) => {
                    lemma_count_mode_update(prev, h, HandleMode::Requesting, HandleMode::Holding);
                },
                ArbiterOp::Grant(h) => {
                    lemma_count_mode_update(prev, h, HandleMode::Holding, HandleMode::Holding);
                },
                ArbiterOp::Release(h) => {
                    lemma_count_mode_update(prev, h, HandleMode::Idle, HandleMode::Holding);
                },
                ArbiterOp::Abandon(h) => {
                    lemma_count_mode_update(prev, h, HandleMode::Idle, HandleMode::Holding);
                },
            }
        }
    }
}

/// Law: at most one lease exists at any instant. In any well-formed state,
/// two holding handles are the same handle.
pub proof fn lemma_at_most_one_lease(a: Arbiter, i: int, j: int)
    requires
        a.wf(),
        a.valid_handle(i),
        a.valid_handle(j),
        a.mode_of(i) == HandleMode::Holding,
        a.mode_of(j) == HandleMode::Holding,
    ensures
        i == j,
{
    if i != j {
        lemma_count_mode_two(a.modes(), i, j, HandleMode::Holding);
    }
}

/// Law: the contention counter never goes negative and never leaks — in any
/// well-formed state it equals exactly the number of handles whose
/// announcement is outstanding, including after an in-flight acquisition was
/// abandoned and took its defensive decrement.
pub proof fn lemma_counter_matches_announcements(a: Arbiter)
    requires
        a.wf(),
    ensures
        a.counter() == count_mode(a.modes(), HandleMode::Requesting),
        a.counter() >= 0,
{
}

/// Law: handing off an idle lease. If `a` holds the lease and `b` has
/// announced, then after `a` releases nobody holds the lease, `b` is still
/// announced, and granting to `b` is enabled; no third handle can take the
/// lease before some grant happens, because a grant needs an announcement.
pub proof fn lemma_release_enables_waiter(s: Seq<HandleMode>, a: int, b: int)
    requires
        count_mode(s, HandleMode::Holding) <= 1,
        0 <= a < s.len(),
        0 <= b < s.len(),
        s[a] == HandleMode::Holding,
        s[b] == HandleMode::Requesting,
    ensures
        count_mode(s.update(a, HandleMode::Idle), HandleMode::Holding) == 0,
        s.update(a, HandleMode::Idle)[b] == HandleMode::Requesting,
        count_mode(s.update(a, HandleMode::Idle), HandleMode::Requesting) >= 1,
{
    lemma_count_mode_at_least_one(s, a, HandleMode::Holding);
    lemma_count_mode_update(s, a, HandleMode::Idle, HandleMode::Holding);
    lemma_count_mode_update(s, a, HandleMode::Idle, HandleMode::Requesting);
    lemma_count_mode_at_least_one(
        s.update(a, HandleMode::Idle),
        b,
        HandleMode::Requesting,
    );
}

} // verus!
