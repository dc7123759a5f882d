//! The shutdown signal: a one-way flag that every task observes.

use vstd::prelude::*;

verus! {

/// The flag after a call of `signal`, and whether that call was the one
/// that set it. The flag is set whatever it was before.
pub open spec fn signal_next(set: bool) -> (bool, bool) {
    (true, !set)
}

/// A broadcast-once flag. It starts cleared, is set by `signal`, and is
/// never cleared again. There is one flag per run: the type cannot be
/// copied or cloned, so no task can hold a flag of its own that the signal
/// does not reach.
#[derive(Debug)]
pub struct ShutdownSignal {
    signaled: bool,
}

impl ShutdownSignal {
    /// Whether the signal has been given.
    pub closed spec fn is_set(&self) -> bool {
        self.signaled
    }

    /// A signal that has not been given yet.
    pub fn new() -> (s: Self)
        ensures
            !s.is_set(),
    {
        ShutdownSignal { signaled: false }
    }

    /// Gives the signal. Returns `true` for the one call that set the flag,
    /// `false` for every later one, which changes nothing.
    pub fn signal(&mut self) -> (first: bool)
        ensures
            (final(self).is_set(), first) == signal_next(old(self).is_set()),
    {
        let first = !self.signaled;
        self.signaled = true;
        first
    }

    /// Reads the flag.
    pub fn is_signaled(&self) -> (b: bool)
        ensures
            b == self.is_set(),
    {
        self.signaled
    }
}

/// Signalling is idempotent: a second call leaves the flag as the first
/// one left it and reports that it set nothing, whatever the flag was
/// before the first.
pub proof fn lemma_signal_idempotent(set: bool)
    ensures
        signal_next(signal_next(set).0) == (signal_next(set).0, false),
        signal_next(set).0,
{
}

/// Of two calls in a row exactly one can report that it set the flag, and
/// only when the flag was clear before both.
pub proof fn lemma_signal_sets_once(set: bool)
    ensures
        signal_next(set).1 == !set,
        !signal_next(signal_next(set).0).1,
{
}

} // verus!
