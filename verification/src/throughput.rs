//! The target rate of the producers, and the task that raises it.

use crate::wait::Waited;
use vstd::prelude::*;

verus! {

/// By how much the target rate is multiplied at each increase.
pub const INCREASE_FACTOR: u64 = 2;

/// Seconds between two increases.
pub const INCREASE_INTERVAL_SECS: u64 = 30;

/// Microseconds in a second.
pub const MICROS_PER_SECOND: u64 = 1_000_000;

/// The rate after one increase: multiplied by the factor, and held at the
/// largest `u64` once the product passes it.
pub open spec fn raised(rate: nat) -> nat {
    if rate * INCREASE_FACTOR <= u64::MAX {
        rate * (INCREASE_FACTOR as nat)
    } else {
        u64::MAX as nat
    }
}

/// The pause between two sends of one producer at `rate` messages per
/// second, in whole microseconds.
pub open spec fn pacing_delay(rate: nat) -> nat
    recommends
        rate >= 1,
{
    MICROS_PER_SECOND as nat / rate
}

/// A target rate in messages per second. It is never zero. There is one
/// target per run: the type cannot be copied or cloned, so an increase
/// reaches every reader.
#[derive(Debug)]
pub struct TargetThroughput {
    rate: u64,
}

impl View for TargetThroughput {
    type V = nat;

    closed spec fn view(&self) -> nat {
        self.rate as nat
    }
}

impl TargetThroughput {
    #[verifier::type_invariant]
    spec fn positive(self) -> bool {
        self.rate >= 1
    }

    /// A target of `rate` messages per second; `None` for a rate of zero.
    pub fn new(rate: u64) -> (target: Option<Self>)
        ensures
            rate == 0 <==> target.is_none(),
            target.is_some() ==> target.unwrap()@ == rate,
    {
        if rate == 0 {
            None
        } else {
            Some(TargetThroughput { rate })
        }
    }

    /// Reads the rate. It is at least one at every read.
    pub fn get(&self) -> (rate: u64)
        ensures
            rate == self@,
            rate >= 1,
    {
        proof {
            use_type_invariant(self);
        }
        self.rate
    }

    /// Raises the rate by the factor.
    pub fn increase(&mut self)
        ensures
            final(self)@ == raised(old(self)@),
            final(self)@ >= old(self)@,
    {
        proof {
            use_type_invariant(&*self);
        }
        self.rate = match self.rate.checked_mul(INCREASE_FACTOR) {
            Some(product) => product,
            None => u64::MAX,
        };
    }

    /// The pause between two sends at this rate, in microseconds.
    pub fn delay_micros(&self) -> (micros: u64)
        ensures
            micros == pacing_delay(self@),
            micros <= MICROS_PER_SECOND,
    {
        proof {
            use_type_invariant(self);
        }
        MICROS_PER_SECOND / self.rate
    }
}

/// What the rate controller does next.
#[derive(Clone, Copy, Debug, PartialEq, Eq, Structural)]
pub enum ControllerAction {
    /// Wait for `secs` seconds, or for shutdown, and come back with the
    /// outcome.
    Wait { secs: u64 },
    /// Return: the run is shutting down.
    Stop,
}

/// The first turn of the rate controller, taken when it is spawned: it
/// waits a full interval before the first increase.
pub fn rate_controller_start() -> (action: ControllerAction)
    ensures
        action == (ControllerAction::Wait { secs: INCREASE_INTERVAL_SECS }),
{
    ControllerAction::Wait { secs: INCREASE_INTERVAL_SECS }
}

/// One turn of the rate controller, taken when its wait has ended. After a
/// full interval the rate is raised and the controller waits again; on
/// shutdown the rate stays and the controller stops.
pub fn rate_controller_step(throughput: &mut TargetThroughput, waited: Waited<()>) -> (action:
    ControllerAction)
    ensures
        waited is Completed ==> final(throughput)@ == raised(old(throughput)@) && action == (
        ControllerAction::Wait { secs: INCREASE_INTERVAL_SECS }),
        waited is Shutdown ==> final(throughput)@ == old(throughput)@ && action
            == ControllerAction::Stop,
{
    match waited {
        Waited::Completed(_) => {
            throughput.increase();
            ControllerAction::Wait { secs: INCREASE_INTERVAL_SECS }
        },
        Waited::Shutdown => ControllerAction::Stop,
    }
}

/// The rate after `cycles` increases in a row.
pub open spec fn raised_times(rate: nat, cycles: nat) -> nat
    decreases cycles,
{
    if cycles == 0 {
        rate
    } else {
        raised(raised_times(rate, (cycles - 1) as nat))
    }
}

/// However many times a rate of at least one is raised, it stays at least
/// one: it never falls, and it never passes the largest `u64`.
pub proof fn lemma_rate_stays_positive(rate: nat, cycles: nat)
    requires
        1 <= rate <= u64::MAX,
    ensures
        raised_times(rate, cycles) >= 1,
        raised_times(rate, cycles) >= rate,
        raised_times(rate, cycles) <= u64::MAX,
    decreases cycles,
{
    if cycles > 0 {
        lemma_rate_stays_positive(rate, (cycles - 1) as nat);
    }
}

/// The pause computed from a rate of at least one is never longer than a
/// second, and a higher rate never gives a longer pause.
pub proof fn lemma_delay_bounds(slower: nat, faster: nat)
    requires
        1 <= slower <= faster,
    ensures
        pacing_delay(slower) <= MICROS_PER_SECOND,
        pacing_delay(faster) <= pacing_delay(slower),
{
    assert(pacing_delay(slower) <= MICROS_PER_SECOND) by (nonlinear_arith)
        requires
            slower >= 1,
            pacing_delay(slower) == 1_000_000nat / slower,
            MICROS_PER_SECOND == 1_000_000,
    ;
    vstd::arithmetic::div_mod::lemma_div_is_ordered_by_denominator(
        1_000_000,
        slower as int,
        faster as int,
    );
}

} // verus!
