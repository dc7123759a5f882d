//! The consumer worker: receive a message, check it, count the outcome,
//! repeat, until the run shuts down.

use crate::error::BenchmarkError;
use crate::metrics::{Metrics, MetricsView};
use crate::wait::Waited;
use std::str::Utf8Error;
use vstd::prelude::*;
use vstd::utf8::valid_utf8;

verus! {

/// What a receive that ran to its end brought.
#[derive(Debug)]
pub enum Received {
    /// A message with a payload.
    Payload(Vec<u8>),
    /// A message without a payload.
    Empty,
    /// The broker client reported an error.
    Failed,
}

/// What a received message counts as.
#[derive(Clone, Copy, Debug, PartialEq, Eq, Structural)]
pub enum Verdict {
    /// A message whose payload can be decoded.
    Consumed,
    /// A receive error, or a payload that cannot be decoded.
    Error,
    /// A message without a payload: it counts as neither.
    Nothing,
}

/// Where a consumer stands in its loop.
#[derive(Clone, Copy, Debug, PartialEq, Eq, Structural)]
pub enum ConsumerPhase {
    /// Created, nothing received yet.
    Ready,
    /// A receive is under way.
    Receiving,
    /// The worker has returned.
    Stopped,
}

/// What a consumer is told when something it waited for has ended.
#[derive(Debug)]
pub enum ConsumerEvent {
    /// The worker was spawned.
    Started,
    /// The wait for the receive ended.
    ReceiveFinished(Waited<Received>),
}

/// What a consumer does next.
#[derive(Clone, Copy, Debug, PartialEq, Eq, Structural)]
pub enum ConsumerAction {
    /// Receive one message, racing against shutdown.
    Receive,
    /// Return.
    Stop,
    /// Nothing: the event was not the one awaited, keep waiting.
    Ignore,
}

/// `std::str::from_utf8`: succeeds exactly on well-formed UTF-8.
#[verifier::external_body]
fn utf8_check(bytes: &[u8]) -> (checked: Result<(), Utf8Error>)
    ensures
        checked.is_ok() == valid_utf8(bytes@),
{
    match std::str::from_utf8(bytes) {
        Ok(_) => Ok(()),
        Err(error) => Err(error),
    }
}

/// Checks that a payload can be decoded: it must be well-formed UTF-8.
pub fn check_payload(bytes: &[u8]) -> (checked: Result<(), BenchmarkError>)
    ensures
        checked.is_ok() == valid_utf8(bytes@),
        checked.is_err() ==> checked.unwrap_err() is InvalidUtf8,
{
    match utf8_check(bytes) {
        Ok(()) => Ok(()),
        Err(error) => Err(BenchmarkError::from(error)),
    }
}

/// What `received` counts as: a payload counts as consumed when it is
/// well-formed UTF-8 and as an error when it is not.
pub open spec fn verdict_of(received: Received) -> Verdict {
    match received {
        Received::Payload(bytes) => if valid_utf8(bytes@) {
            Verdict::Consumed
        } else {
            Verdict::Error
        },
        Received::Empty => Verdict::Nothing,
        Received::Failed => Verdict::Error,
    }
}

/// Judges what a receive brought.
pub fn judge(received: &Received) -> (verdict: Verdict)
    ensures
        verdict == verdict_of(*received),
{
    match received {
        Received::Payload(bytes) => match check_payload(bytes.as_slice()) {
            Ok(()) => Verdict::Consumed,
            Err(_) => Verdict::Error,
        },
        Received::Empty => Verdict::Nothing,
        Received::Failed => Verdict::Error,
    }
}

/// The phase after `event` and the action to take. An event that the phase
/// does not await changes nothing. A consumer does not pause: after each
/// message it receives again.
pub open spec fn consumer_next(phase: ConsumerPhase, event: ConsumerEvent) -> (
    ConsumerPhase,
    ConsumerAction,
) {
    match (phase, event) {
        (ConsumerPhase::Stopped, _) => (ConsumerPhase::Stopped, ConsumerAction::Stop),
        (ConsumerPhase::Ready, ConsumerEvent::Started) => (
            ConsumerPhase::Receiving,
            ConsumerAction::Receive,
        ),
        (ConsumerPhase::Receiving, ConsumerEvent::ReceiveFinished(Waited::Completed(_))) => (
            ConsumerPhase::Receiving,
            ConsumerAction::Receive,
        ),
        (ConsumerPhase::Receiving, ConsumerEvent::ReceiveFinished(Waited::Shutdown)) => (
            ConsumerPhase::Stopped,
            ConsumerAction::Stop,
        ),
        _ => (phase, ConsumerAction::Ignore),
    }
}

/// The counters after a verdict.
pub open spec fn counted(verdict: Verdict, counts: MetricsView) -> MetricsView {
    match verdict {
        Verdict::Consumed => counts.count_consumed(),
        Verdict::Error => counts.count_error(),
        Verdict::Nothing => counts,
    }
}

/// The counters after `event`: a receive that ran to its end counts as its
/// verdict says; nothing else counts.
pub open spec fn consumer_counts(
    phase: ConsumerPhase,
    event: ConsumerEvent,
    counts: MetricsView,
) -> MetricsView {
    match (phase, event) {
        (
            ConsumerPhase::Receiving,
            ConsumerEvent::ReceiveFinished(Waited::Completed(received)),
        ) => counted(verdict_of(received), counts),
        _ => counts,
    }
}

/// One consumer.
#[derive(Debug)]
pub struct ConsumerWorker {
    id: usize,
    phase: ConsumerPhase,
}

impl ConsumerWorker {
    /// The number of the worker.
    pub closed spec fn id(&self) -> usize {
        self.id
    }

    /// Where the worker stands.
    pub closed spec fn phase(&self) -> ConsumerPhase {
        self.phase
    }

    /// Consumer `id`, ready to start.
    pub fn new(id: usize) -> (worker: Self)
        ensures
            worker.id() == id,
            worker.phase() == ConsumerPhase::Ready,
    {
        ConsumerWorker { id, phase: ConsumerPhase::Ready }
    }

    /// Reads the number of the worker.
    pub fn worker_id(&self) -> (id: usize)
        ensures
            id == self.id(),
    {
        self.id
    }

    /// Reads the phase.
    pub fn current_phase(&self) -> (phase: ConsumerPhase)
        ensures
            phase == self.phase(),
    {
        self.phase
    }

    /// One turn of the worker, taken when something it waited for has
    /// ended.
    pub fn step(&mut self, event: ConsumerEvent, metrics: &mut Metrics) -> (action:
        ConsumerAction)
        ensures
            final(self).id() == old(self).id(),
            final(self).phase() == consumer_next(old(self).phase(), event).0,
            action == consumer_next(old(self).phase(), event).1,
            final(metrics)@ == consumer_counts(old(self).phase(), event, old(metrics)@),
    {
        match self.phase {
            ConsumerPhase::Stopped => ConsumerAction::Stop,
            ConsumerPhase::Ready => match event {
                ConsumerEvent::Started => {
                    self.phase = ConsumerPhase::Receiving;
                    ConsumerAction::Receive
                },
                _ => ConsumerAction::Ignore,
            },
            ConsumerPhase::Receiving => match event {
                ConsumerEvent::ReceiveFinished(Waited::Completed(received)) => {
                    match judge(&received) {
                        Verdict::Consumed => metrics.increment_consumed(),
                        Verdict::Error => metrics.increment_errors(),
                        Verdict::Nothing => {},
                    }
                    ConsumerAction::Receive
                },
                ConsumerEvent::ReceiveFinished(Waited::Shutdown) => {
                    self.phase = ConsumerPhase::Stopped;
                    ConsumerAction::Stop
                },
                _ => ConsumerAction::Ignore,
            },
        }
    }
}

/// A message that is counted is counted once: as consumed or as an error,
/// by one, with the other two counters left alone. The counter that moves
/// must be below the largest `usize`, where it stays.
pub proof fn lemma_receive_counted_once(received: Received, counts: MetricsView)
    requires
        counts.consumed < usize::MAX,
        counts.errors < usize::MAX,
    ensures
        verdict_of(received) == Verdict::Consumed ==> consumer_counts(
            ConsumerPhase::Receiving,
            ConsumerEvent::ReceiveFinished(Waited::Completed(received)),
            counts,
        ) == (MetricsView { consumed: counts.consumed + 1, ..counts }),
        verdict_of(received) == Verdict::Error ==> consumer_counts(
            ConsumerPhase::Receiving,
            ConsumerEvent::ReceiveFinished(Waited::Completed(received)),
            counts,
        ) == (MetricsView { errors: counts.errors + 1, ..counts }),
        verdict_of(received) == Verdict::Nothing ==> consumer_counts(
            ConsumerPhase::Receiving,
            ConsumerEvent::ReceiveFinished(Waited::Completed(received)),
            counts,
        ) == counts,
{
}

/// A consumer whose receive is ended by the shutdown signal stops at once
/// and counts nothing for it.
pub proof fn lemma_consumer_stops_on_shutdown(counts: MetricsView)
    ensures
        consumer_next(
            ConsumerPhase::Receiving,
            ConsumerEvent::ReceiveFinished(Waited::Shutdown),
        ) == (ConsumerPhase::Stopped, ConsumerAction::Stop),
        consumer_counts(
            ConsumerPhase::Receiving,
            ConsumerEvent::ReceiveFinished(Waited::Shutdown),
            counts,
        ) == counts,
{
}

/// A stopped consumer stays stopped and counts nothing, whatever it is
/// told.
pub proof fn lemma_consumer_stopped_for_good(event: ConsumerEvent, counts: MetricsView)
    ensures
        consumer_next(ConsumerPhase::Stopped, event) == (
            ConsumerPhase::Stopped,
            ConsumerAction::Stop,
        ),
        consumer_counts(ConsumerPhase::Stopped, event, counts) == counts,
{
}

} // verus!
