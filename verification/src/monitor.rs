//! The error circuit breaker: it stops the run when too many errors come
//! in between two checks.
//!
//! The breaker is windowed: at each check it looks at the errors counted
//! since the check before, not at the total of the run, so it can trip at
//! any point of a long run and one early burst does not doom the rest.

use crate::shutdown::ShutdownSignal;
use crate::wait::Waited;
use vstd::prelude::*;

verus! {

/// Seconds between two checks.
pub const CHECK_INTERVAL_SECS: u64 = 5;

/// The threshold used where the settings give none.
pub const DEFAULT_ERROR_THRESHOLD: usize = 50;

/// What a breaker holds, as plain values.
pub struct BreakerView {
    /// Errors in one window above which the breaker trips.
    pub threshold: nat,
    /// The error total at the last check.
    pub last_total: nat,
    /// Whether the breaker has tripped.
    pub tripped: bool,
}

/// What the breaker does next.
#[derive(Clone, Copy, Debug, PartialEq, Eq, Structural)]
pub enum BreakerAction {
    /// Wait for `secs` seconds, or for shutdown, then read the error
    /// counter and come back with the outcome.
    Wait { secs: u64 },
    /// The breaker tripped on `errors` errors in the window: shutdown has
    /// been signalled; report it and return.
    Trip { errors: usize },
    /// Return: the run is shutting down.
    Stop,
}

/// The errors of the window that ends at a check reading `total`.
pub open spec fn window_errors(last_total: nat, total: nat) -> nat {
    if total >= last_total {
        (total - last_total) as nat
    } else {
        0
    }
}

/// The breaker after its wait has ended, and what it does next. A check
/// trips when the window's errors exceed the threshold. A breaker that
/// has tripped, or that is told of shutdown, stops and changes nothing.
pub open spec fn breaker_next(breaker: BreakerView, waited: Waited<usize>) -> (
    BreakerView,
    BreakerAction,
) {
    if breaker.tripped {
        (breaker, BreakerAction::Stop)
    } else {
        match waited {
            Waited::Shutdown => (breaker, BreakerAction::Stop),
            Waited::Completed(total) => {
                let errors = window_errors(breaker.last_total, total as nat);
                if errors > breaker.threshold {
                    (
                        BreakerView { tripped: true, last_total: total as nat, ..breaker },
                        BreakerAction::Trip { errors: errors as usize },
                    )
                } else {
                    (
                        BreakerView { last_total: total as nat, ..breaker },
                        BreakerAction::Wait { secs: CHECK_INTERVAL_SECS },
                    )
                }
            },
        }
    }
}

/// What a breaker does when it is spawned.
pub open spec fn breaker_start(breaker: BreakerView) -> BreakerAction {
    if breaker.tripped {
        BreakerAction::Stop
    } else {
        BreakerAction::Wait { secs: CHECK_INTERVAL_SECS }
    }
}

/// The circuit breaker of a run.
#[derive(Debug)]
pub struct CircuitBreaker {
    threshold: usize,
    last_total: usize,
    tripped: bool,
}

impl View for CircuitBreaker {
    type V = BreakerView;

    closed spec fn view(&self) -> BreakerView {
        BreakerView {
            threshold: self.threshold as nat,
            last_total: self.last_total as nat,
            tripped: self.tripped,
        }
    }
}

impl CircuitBreaker {
    /// A breaker that has seen no error and has not tripped.
    pub fn new(threshold: usize) -> (breaker: Self)
        ensures
            breaker@ == (BreakerView { threshold: threshold as nat, last_total: 0, tripped: false }),
    {
        CircuitBreaker { threshold, last_total: 0, tripped: false }
    }

    /// Whether the breaker has tripped.
    pub fn has_tripped(&self) -> (tripped: bool)
        ensures
            tripped == self@.tripped,
    {
        self.tripped
    }

    /// The first turn of the breaker, taken when it is spawned: it waits a
    /// full interval before its first check. A breaker that has tripped
    /// stops.
    pub fn start(&self) -> (action: BreakerAction)
        ensures
            action == breaker_start(self@),
    {
        if self.tripped {
            BreakerAction::Stop
        } else {
            BreakerAction::Wait { secs: CHECK_INTERVAL_SECS }
        }
    }

    /// One turn of the breaker, taken when its wait has ended; `waited`
    /// carries the error total read after a full interval. When the breaker
    /// trips it gives the shutdown signal; otherwise it leaves the signal
    /// alone.
    pub fn step(&mut self, waited: Waited<usize>, signal: &mut ShutdownSignal) -> (action:
        BreakerAction)
        ensures
            final(self)@ == breaker_next(old(self)@, waited).0,
            action == breaker_next(old(self)@, waited).1,
            final(signal).is_set() == (old(signal).is_set() || action is Trip),
    {
        if self.tripped {
            return BreakerAction::Stop;
        }
        match waited {
            Waited::Shutdown => BreakerAction::Stop,
            Waited::Completed(total) => {
                let errors = if total >= self.last_total {
                    total - self.last_total
                } else {
                    0
                };
                self.last_total = total;
                if errors > self.threshold {
                    self.tripped = true;
                    signal.signal();
                    BreakerAction::Trip { errors }
                } else {
                    BreakerAction::Wait { secs: CHECK_INTERVAL_SECS }
                }
            },
        }
    }
}

/// A check trips exactly when the errors since the last check exceed the
/// threshold, and a breaker that has not tripped before then trips.
pub proof fn lemma_trips_iff_over_threshold(breaker: BreakerView, total: usize)
    requires
        !breaker.tripped,
    ensures
        breaker_next(breaker, Waited::Completed(total)).1 is Trip <==> window_errors(
            breaker.last_total,
            total as nat,
        ) > breaker.threshold,
        breaker_next(breaker, Waited::Completed(total)).0.tripped <==> window_errors(
            breaker.last_total,
            total as nat,
        ) > breaker.threshold,
{
}

/// A breaker trips at most once: once it has tripped, every later turn
/// stops without tripping again and without changing the breaker.
pub proof fn lemma_trips_once(breaker: BreakerView, first: Waited<usize>, later: Waited<usize>)
    ensures
        breaker_next(breaker, first).1 is Trip ==> breaker_next(
            breaker_next(breaker, first).0,
            later,
        ) == (breaker_next(breaker, first).0, BreakerAction::Stop),
{
}

} // verus!
