//! One-shot broadcast cancellation signal.
//!
//! The process-wide shutdown trigger is modelled as a latch that fires at most
//! once: the first trigger flips it, every later trigger is a no-op. Waking the
//! suspended tasks is the runtime's job; this type is the state they all read.

use vstd::prelude::*;

verus! {

#[derive(Clone, Copy, Debug, PartialEq, Eq, Structural)]
pub struct CancellationSignal {
    fired: bool,
}

impl CancellationSignal {
    /// Whether the signal has fired.
    pub closed spec fn is_fired(self) -> bool {
        self.fired
    }

    /// The state of the signal after one trigger, whatever it held before.
    pub closed spec fn spec_triggered(self) -> CancellationSignal {
        CancellationSignal { fired: true }
    }

    pub fn new() -> (s: CancellationSignal)
        ensures
            !s.is_fired(),
    {
        CancellationSignal { fired: false }
    }

    /// Fire the signal. The first call flips it; any later call leaves the
    /// state exactly as it was.
    pub fn trigger(&mut self)
        ensures
            *final(self) == old(self).spec_triggered(),
            final(self).is_fired(),
    {
        self.fired = true;
    }

    pub fn fired(&self) -> (r: bool)
        ensures
            r == self.is_fired(),
    {
        self.fired
    }
}

/// Law: triggering the signal more than once has the same observable effect as
/// triggering it once — a second trigger does not change the state at all.
pub proof fn lemma_trigger_idempotent(s: CancellationSignal)
    ensures
        s.spec_triggered().spec_triggered() == s.spec_triggered(),
        s.spec_triggered().is_fired(),
{
}

} // verus!
