//! Completion signals: the one piece of genuine ordering logic in the
//! presentation loop. A `Signal` stands for previously submitted work; it can
//! be waited on, combined with another signal, and queried for readiness.

use vstd::prelude::*;

verus! {

/// A completion signal for submitted frame work. `ready` means the work the
/// signal stands for has already finished, so waiting on it cannot block.
#[derive(Clone, Copy, Debug)]
pub struct Signal {
    pub ready: bool,
}

impl Signal {
    /// The already-completed sentinel: waiting on it is immediately satisfied.
    pub fn completed() -> (s: Signal)
        ensures
            s.ready,
    {
        Signal { ready: true }
    }

    /// A signal for work that has been submitted but has not yet finished.
    pub fn pending() -> (s: Signal)
        ensures
            !s.ready,
    {
        Signal { ready: false }
    }

    /// Combine two signals into one that completes when both complete.
    pub fn join(self, other: Signal) -> (s: Signal)
        ensures
            s.ready == (self.ready && other.ready),
    {
        Signal {
            ready: self.ready && other.ready,
        }
    }

    /// Whether the work behind this signal has already finished.
    pub fn is_ready(&self) -> (b: bool)
        ensures
            b == self.ready,
    {
        self.ready
    }

    /// Block until the work behind this signal finishes. On a signal that is
    /// already ready this is a no-op: it returns at once and changes nothing.
    pub fn wait(&mut self)
        ensures
            final(self).ready,
            old(self).ready ==> *final(self) == *old(self),
    {
        self.ready = true;
    }
}

} // verus!
