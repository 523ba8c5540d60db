//! Connection supervisor: accept loop bookkeeping, task lifecycle, shutdown
//! draining.
//!
//! The supervisor spawns one session task per accepted connection and keeps
//! an unordered collection of the in-flight tasks, plus one sentinel task
//! that completes only once cancellation has fired. The sentinel keeps the
//! collection non-empty until shutdown is actually requested, so the
//! supervisor can treat "the collection ran dry" as "shutdown happened and
//! every session has since finished" and return successfully. Whether a
//! session task failing abnormally brings the whole supervisor down is an
//! explicit policy, not a default.

use vstd::prelude::*;

verus! {

/// What to do when a session task ends in failure.
#[derive(Clone, Copy, Debug, PartialEq, Eq, Structural)]
pub enum FailurePolicy {
    /// A failed session task is fatal to the whole supervisor.
    Escalate,
    /// A failed session task is logged and the supervisor continues.
    LogOnly,
}

/// How a finished supervisor ended.
#[derive(Clone, Copy, Debug, PartialEq, Eq, Structural)]
pub enum SupervisorOutcome {
    /// Cancellation fired and every tracked task finished: success.
    Drained,
    /// A session task failed and the policy escalates: failure.
    ChildFailed,
}

pub struct Supervisor {
    policy: FailurePolicy,
    live_tasks: usize,
    sentinel_live: bool,
    cancel_seen: bool,
    outcome: Option<SupervisorOutcome>,
}

impl Supervisor {
    pub closed spec fn policy(self) -> FailurePolicy {
        self.policy
    }

    /// Tracked tasks still in flight: session tasks plus the sentinel.
    pub closed spec fn live_tasks(self) -> nat {
        self.live_tasks as nat
    }

    pub closed spec fn sentinel_live(self) -> bool {
        self.sentinel_live
    }

    /// Whether the cancellation signal has been observed to fire.
    pub closed spec fn cancel_seen(self) -> bool {
        self.cancel_seen
    }

    pub closed spec fn outcome(self) -> Option<SupervisorOutcome> {
        self.outcome
    }

    pub open spec fn is_running(self) -> bool {
        self.outcome() is None
    }

    /// Supervisor invariant: the sentinel is a tracked task; it completes
    /// only after cancellation fired; and while the supervisor runs, the
    /// tracked collection is never empty. Draining means everything
    /// finished, which needs cancellation first.
    pub open spec fn wf(self) -> bool {
        &&& self.sentinel_live() ==> self.live_tasks() >= 1
        &&& !self.cancel_seen() ==> self.sentinel_live()
        &&& self.is_running() ==> self.live_tasks() >= 1
        &&& self.outcome() == Some(SupervisorOutcome::Drained) ==> (self.live_tasks() == 0
            && self.cancel_seen() && !self.sentinel_live())
    }

    /// A fresh supervisor, tracking only the sentinel.
    pub fn new(policy: FailurePolicy) -> (s: Supervisor)
        ensures
            s.wf(),
            s.policy() == policy,
            s.is_running(),
            s.live_tasks() == 1,
            s.sentinel_live(),
            !s.cancel_seen(),
    {
        Supervisor {
            policy,
            live_tasks: 1,
            sentinel_live: true,
            cancel_seen: false,
            outcome: None,
        }
    }

    /// A connection was accepted and its session task spawned.
    pub fn on_accept(&mut self)
        requires
            old(self).wf(),
            old(self).is_running(),
            old(self).live_tasks() < usize::MAX,
        ensures
            final(self).wf(),
            final(self).is_running(),
            final(self).live_tasks() == old(self).live_tasks() + 1,
            final(self).sentinel_live() == old(self).sentinel_live(),
            final(self).cancel_seen() == old(self).cancel_seen(),
            final(self).policy() == old(self).policy(),
    {
        self.live_tasks = self.live_tasks + 1;
    }

    /// Accepting failed. Not fatal: the failure is logged and the loop
    /// continues, with the state exactly as it was.
    pub fn on_accept_error(&mut self)
        requires
            old(self).wf(),
            old(self).is_running(),
        ensures
            *final(self) == *old(self),
    {
    }

    /// The cancellation signal fired; the sentinel task is now free to
    /// complete.
    pub fn on_cancel_observed(&mut self)
        requires
            old(self).wf(),
        ensures
            final(self).wf(),
            final(self).cancel_seen(),
            final(self).live_tasks() == old(self).live_tasks(),
            final(self).sentinel_live() == old(self).sentinel_live(),
            final(self).outcome() == old(self).outcome(),
            final(self).policy() == old(self).policy(),
    {
        self.cancel_seen = true;
    }

    /// A session task finished. On failure the configured policy decides:
    /// escalate (the supervisor finishes as failed) or log and continue. The
    /// supervisor finishes successfully exactly when the last tracked task
    /// is gone, which can only happen after the sentinel completed.
    pub fn on_session_finished(&mut self, failed: bool)
        requires
            old(self).wf(),
            old(self).is_running(),
            old(self).live_tasks() > if old(self).sentinel_live() {
                1nat
            } else {
                0nat
            },
        ensures
            final(self).wf(),
            final(self).live_tasks() == old(self).live_tasks() - 1,
            final(self).sentinel_live() == old(self).sentinel_live(),
            final(self).cancel_seen() == old(self).cancel_seen(),
            final(self).policy() == old(self).policy(),
            (failed && old(self).policy() == FailurePolicy::Escalate) ==> final(self).outcome()
                == Some(SupervisorOutcome::ChildFailed),
            !(failed && old(self).policy() == FailurePolicy::Escalate) ==> (if final(self).live_tasks() == 0 {
                final(self).outcome() == Some(SupervisorOutcome::Drained)
            } else {
                final(self).is_running()
            }),
    {
        self.live_tasks = self.live_tasks - 1;
        if failed && matches!(self.policy, FailurePolicy::Escalate) {
            self.outcome = Some(SupervisorOutcome::ChildFailed);
        } else if self.live_tasks == 0 {
            self.outcome = Some(SupervisorOutcome::Drained);
        }
    }

    /// The sentinel task finished, which it does only after cancellation
    /// fired. If it was the last tracked task, the supervisor has fully
    /// drained and finishes successfully.
    pub fn on_sentinel_finished(&mut self)
        requires
            old(self).wf(),
            old(self).is_running(),
            old(self).sentinel_live(),
            old(self).cancel_seen(),
        ensures
            final(self).wf(),
            final(self).live_tasks() == old(self).live_tasks() - 1,
            !final(self).sentinel_live(),
            final(self).cancel_seen(),
            final(self).policy() == old(self).policy(),
            final(self).live_tasks() == 0 ==> final(self).outcome() == Some(
                SupervisorOutcome::Drained,
            ),
            final(self).live_tasks() > 0 ==> final(self).is_running(),
    {
        self.live_tasks = self.live_tasks - 1;
        self.sentinel_live = false;
        if self.live_tasks == 0 {
            self.outcome = Some(SupervisorOutcome::Drained);
        }
    }

    pub fn running(&self) -> (r: bool)
        ensures
            r == self.is_running(),
    {
        self.outcome.is_none()
    }

    pub fn result(&self) -> (r: Option<SupervisorOutcome>)
        ensures
            r == self.outcome(),
    {
        self.outcome
    }

    pub fn sentinel_pending(&self) -> (r: bool)
        ensures
            r == self.sentinel_live(),
    {
        self.sentinel_live
    }

    pub fn tracked_count(&self) -> (n: usize)
        ensures
            n == self.live_tasks(),
    {
        self.live_tasks
    }
}

/// Law: the tracked collection is never observed empty before shutdown was
/// requested — until cancellation fires the sentinel is still tracked, so a
/// running supervisor cannot mistake a momentarily connection-free server
/// for a drained one.
pub proof fn lemma_sentinel_guards_drain(s: Supervisor)
    requires
        s.wf(),
        !s.cancel_seen(),
    ensures
        s.sentinel_live(),
        s.live_tasks() >= 1,
        s.outcome() != Some(SupervisorOutcome::Drained),
{
}

} // verus!
