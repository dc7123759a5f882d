//! The producer worker: send a message, count the outcome, pause, repeat,
//! until the run shuts down.

use crate::config::Config;
use crate::metrics::{Metrics, MetricsView};
use crate::payload::{
    base64_len,
    base64_text,
    json_text,
    message_key,
    message_key_text,
    message_members,
    padding_text,
    stamped_message,
    zero_bytes,
};
use crate::throughput::{pacing_delay, TargetThroughput, MICROS_PER_SECOND};
use crate::wait::Waited;
use vstd::prelude::*;

verus! {

/// Seconds after which a send is given up by the broker client.
pub const SEND_TIMEOUT_SECS: u64 = 1;

/// How a send that ran to its end came out.
#[derive(Clone, Copy, Debug, PartialEq, Eq, Structural)]
pub enum SendOutcome {
    /// The broker acknowledged the message.
    Delivered,
    /// The send timed out or the broker rejected it.
    Failed,
}

/// Where a producer stands in its loop.
#[derive(Clone, Copy, Debug, PartialEq, Eq, Structural)]
pub enum ProducerPhase {
    /// Created, nothing sent yet.
    Ready,
    /// A send is under way; `delay_micros` is the pause that follows it.
    Sending { delay_micros: u64 },
    /// The pause between two sends is under way.
    Pacing,
    /// The worker has returned.
    Stopped,
}

/// What a producer is told when something it waited for has ended.
#[derive(Debug)]
pub enum ProducerEvent {
    /// The worker was spawned.
    Started,
    /// The wait for the send ended.
    SendFinished(Waited<SendOutcome>),
    /// The wait for the pause ended.
    PauseFinished(Waited<()>),
}

/// The kind of thing a producer does next.
#[derive(Clone, Copy, Debug, PartialEq, Eq, Structural)]
pub enum ProducerStep {
    /// Submit a message, racing against shutdown.
    Send,
    /// Sleep for `micros` microseconds, racing against shutdown.
    Pause { micros: u64 },
    /// Return.
    Stop,
    /// Nothing: the event was not the one awaited, keep waiting.
    Ignore,
}

/// A message to submit.
#[derive(Debug)]
pub struct Message {
    /// The topic to submit it to.
    pub topic: String,
    pub key: String,
    pub body: String,
}

/// What a producer does next, with what it needs for it.
#[derive(Debug)]
pub enum ProducerAction {
    Send { message: Message, timeout_secs: u64 },
    Pause { micros: u64 },
    Stop,
    Ignore,
}

impl ProducerAction {
    /// The kind of the action.
    pub open spec fn step(self) -> ProducerStep {
        match self {
            ProducerAction::Send { .. } => ProducerStep::Send,
            ProducerAction::Pause { micros } => ProducerStep::Pause { micros },
            ProducerAction::Stop => ProducerStep::Stop,
            ProducerAction::Ignore => ProducerStep::Ignore,
        }
    }
}

/// The phase in which an iteration begins at `rate` messages per second:
/// the pause is fixed from the rate read now, then a message is sent.
pub open spec fn sending_at(rate: nat) -> ProducerPhase {
    ProducerPhase::Sending { delay_micros: pacing_delay(rate) as u64 }
}

/// The phase after `event` and the kind of action to take. An event that
/// the phase does not await changes nothing.
pub open spec fn producer_next(phase: ProducerPhase, event: ProducerEvent, rate: nat) -> (
    ProducerPhase,
    ProducerStep,
) {
    match (phase, event) {
        (ProducerPhase::Stopped, _) => (ProducerPhase::Stopped, ProducerStep::Stop),
        (ProducerPhase::Ready, ProducerEvent::Started) => (sending_at(rate), ProducerStep::Send),
        (
            ProducerPhase::Sending { delay_micros },
            ProducerEvent::SendFinished(Waited::Completed(_)),
        ) => (ProducerPhase::Pacing, ProducerStep::Pause { micros: delay_micros }),
        (ProducerPhase::Sending { .. }, ProducerEvent::SendFinished(Waited::Shutdown)) => (
            ProducerPhase::Stopped,
            ProducerStep::Stop,
        ),
        (ProducerPhase::Pacing, ProducerEvent::PauseFinished(Waited::Completed(_))) => (
            sending_at(rate),
            ProducerStep::Send,
        ),
        (ProducerPhase::Pacing, ProducerEvent::PauseFinished(Waited::Shutdown)) => (
            ProducerPhase::Stopped,
            ProducerStep::Stop,
        ),
        _ => (phase, ProducerStep::Ignore),
    }
}

/// The counters after `event`: a send that ran to its end counts once, as
/// produced or as an error; nothing else counts.
pub open spec fn producer_counts(
    phase: ProducerPhase,
    event: ProducerEvent,
    counts: MetricsView,
) -> MetricsView {
    match (phase, event) {
        (
            ProducerPhase::Sending { .. },
            ProducerEvent::SendFinished(Waited::Completed(SendOutcome::Delivered)),
        ) => counts.count_produced(),
        (
            ProducerPhase::Sending { .. },
            ProducerEvent::SendFinished(Waited::Completed(SendOutcome::Failed)),
        ) => counts.count_error(),
        _ => counts,
    }
}

/// One producer.
#[derive(Debug)]
pub struct ProducerWorker {
    id: usize,
    topic: String,
    padding: String,
    phase: ProducerPhase,
}

impl ProducerWorker {
    /// The number of the worker.
    pub closed spec fn id(&self) -> usize {
        self.id
    }

    /// The topic that the worker sends to.
    pub closed spec fn topic(&self) -> Seq<char> {
        self.topic@
    }

    /// The padding that every message of the worker carries.
    pub closed spec fn padding(&self) -> Seq<char> {
        self.padding@
    }

    /// Where the worker stands.
    pub closed spec fn phase(&self) -> ProducerPhase {
        self.phase
    }

    /// Whether `message` is one that producer `id` sends to `topic` with
    /// `padding`: it goes to that topic, the key is the producer's, and the
    /// body holds its number, the padding and some time text.
    pub open spec fn is_message_of(
        message: Message,
        id: usize,
        topic: Seq<char>,
        padding: Seq<char>,
    ) -> bool {
        &&& message.topic@ == topic
        &&& message.key@ == message_key_text(id)
        &&& exists|ts: Seq<char>| message.body@ == json_text(message_members(ts, id, padding))
    }

    /// Producer `id` of a run with settings `cfg`: it sends to the topic
    /// of the settings, with messages padded by as many zero bytes as they
    /// say. `None` when the padding's text would be longer than a `usize`
    /// can say.
    pub fn new(id: usize, cfg: &Config) -> (worker: Option<Self>)
        ensures
            base64_len(cfg.msg_size as nat) > usize::MAX <==> worker.is_none(),
            worker.is_some() ==> {
                &&& worker.unwrap().id() == id
                &&& worker.unwrap().topic() == cfg.topic@
                &&& worker.unwrap().padding() == base64_text(zero_bytes(cfg.msg_size))
                &&& worker.unwrap().phase() == ProducerPhase::Ready
            },
    {
        match padding_text(cfg.msg_size) {
            Some(padding) => Some(
                ProducerWorker {
                    id,
                    topic: cfg.topic.clone(),
                    padding,
                    phase: ProducerPhase::Ready,
                },
            ),
            None => None,
        }
    }

    /// Reads the phase.
    pub fn current_phase(&self) -> (phase: ProducerPhase)
        ensures
            phase == self.phase(),
    {
        self.phase
    }

    /// The next message of this worker, stamped with the current time.
    fn next_message(&self) -> (message: Message)
        ensures
            Self::is_message_of(message, self.id(), self.topic(), self.padding()),
    {
        let key = message_key(self.id);
        let body = stamped_message(self.id, self.padding.as_str());
        Message { topic: self.topic.clone(), key, body }
    }

    /// One turn of the worker, taken when something it waited for has
    /// ended. `throughput` is the target rate as read now; it is used only
    /// when an iteration begins.
    pub fn step(
        &mut self,
        event: ProducerEvent,
        throughput: &TargetThroughput,
        metrics: &mut Metrics,
    ) -> (action: ProducerAction)
        ensures
            final(self).id() == old(self).id(),
            final(self).topic() == old(self).topic(),
            final(self).padding() == old(self).padding(),
            final(self).phase() == producer_next(old(self).phase(), event, throughput@).0,
            action.step() == producer_next(old(self).phase(), event, throughput@).1,
            final(metrics)@ == producer_counts(old(self).phase(), event, old(metrics)@),
            action matches ProducerAction::Send { message, timeout_secs } ==> timeout_secs
                == SEND_TIMEOUT_SECS && Self::is_message_of(
                message,
                old(self).id(),
                old(self).topic(),
                old(self).padding(),
            ),
    {
        match self.phase {
            ProducerPhase::Stopped => ProducerAction::Stop,
            ProducerPhase::Ready => match event {
                ProducerEvent::Started => self.begin_iteration(throughput),
                _ => ProducerAction::Ignore,
            },
            ProducerPhase::Sending { delay_micros } => match event {
                ProducerEvent::SendFinished(Waited::Completed(outcome)) => {
                    match outcome {
                        SendOutcome::Delivered => metrics.increment_produced(),
                        SendOutcome::Failed => metrics.increment_errors(),
                    }
                    self.phase = ProducerPhase::Pacing;
                    ProducerAction::Pause { micros: delay_micros }
                },
                ProducerEvent::SendFinished(Waited::Shutdown) => {
                    self.phase = ProducerPhase::Stopped;
                    ProducerAction::Stop
                },
                _ => ProducerAction::Ignore,
            },
            ProducerPhase::Pacing => match event {
                ProducerEvent::PauseFinished(Waited::Completed(_)) => self.begin_iteration(
                    throughput,
                ),
                ProducerEvent::PauseFinished(Waited::Shutdown) => {
                    self.phase = ProducerPhase::Stopped;
                    ProducerAction::Stop
                },
                _ => ProducerAction::Ignore,
            },
        }
    }

    /// Begins an iteration: fixes the pause from the rate and hands out the
    /// message to send.
    fn begin_iteration(&mut self, throughput: &TargetThroughput) -> (action: ProducerAction)
        ensures
            final(self).id() == old(self).id(),
            final(self).topic() == old(self).topic(),
            final(self).padding() == old(self).padding(),
            final(self).phase() == sending_at(throughput@),
            action matches ProducerAction::Send { message, timeout_secs } && timeout_secs
                == SEND_TIMEOUT_SECS && Self::is_message_of(
                message,
                old(self).id(),
                old(self).topic(),
                old(self).padding(),
            ),
    {
        let delay_micros = throughput.delay_micros();
        let message = self.next_message();
        self.phase = ProducerPhase::Sending { delay_micros };
        ProducerAction::Send { message, timeout_secs: SEND_TIMEOUT_SECS }
    }
}

/// A send that ran to its end is counted once: a delivered message adds
/// one to the produced counter and leaves the other two; a failed send adds
/// one to the error counter and leaves the other two. The counter that
/// moves must be below the largest `usize`, where it stays.
pub proof fn lemma_send_counted_once(delay_micros: u64, outcome: SendOutcome, counts: MetricsView)
    requires
        counts.produced < usize::MAX,
        counts.errors < usize::MAX,
    ensures
        outcome == SendOutcome::Delivered ==> producer_counts(
            ProducerPhase::Sending { delay_micros },
            ProducerEvent::SendFinished(Waited::Completed(outcome)),
            counts,
        ) == (MetricsView { produced: counts.produced + 1, ..counts }),
        outcome == SendOutcome::Failed ==> producer_counts(
            ProducerPhase::Sending { delay_micros },
            ProducerEvent::SendFinished(Waited::Completed(outcome)),
            counts,
        ) == (MetricsView { errors: counts.errors + 1, ..counts }),
{
}

/// A producer whose wait is ended by the shutdown signal stops at once and
/// counts nothing for what it abandoned, whether it was sending or pausing.
pub proof fn lemma_producer_stops_on_shutdown(delay_micros: u64, rate: nat, counts: MetricsView)
    ensures
        producer_next(
            ProducerPhase::Sending { delay_micros },
            ProducerEvent::SendFinished(Waited::Shutdown),
            rate,
        ) == (ProducerPhase::Stopped, ProducerStep::Stop),
        producer_next(
            ProducerPhase::Pacing,
            ProducerEvent::PauseFinished(Waited::Shutdown),
            rate,
        ) == (ProducerPhase::Stopped, ProducerStep::Stop),
        producer_counts(
            ProducerPhase::Sending { delay_micros },
            ProducerEvent::SendFinished(Waited::Shutdown),
            counts,
        ) == counts,
        producer_counts(
            ProducerPhase::Pacing,
            ProducerEvent::PauseFinished(Waited::Shutdown),
            counts,
        ) == counts,
{
}

/// A stopped producer stays stopped and counts nothing, whatever it is
/// told.
pub proof fn lemma_producer_stopped_for_good(event: ProducerEvent, rate: nat, counts: MetricsView)
    ensures
        producer_next(ProducerPhase::Stopped, event, rate) == (
            ProducerPhase::Stopped,
            ProducerStep::Stop,
        ),
        producer_counts(ProducerPhase::Stopped, event, counts) == counts,
{
}

/// No counter ever goes down in a turn of a producer, and the consumed
/// counter does not move.
pub proof fn lemma_producer_counts_monotone(
    phase: ProducerPhase,
    event: ProducerEvent,
    counts: MetricsView,
)
    ensures
        producer_counts(phase, event, counts).produced >= counts.produced,
        producer_counts(phase, event, counts).errors >= counts.errors,
        producer_counts(phase, event, counts).consumed == counts.consumed,
{
}

/// What a producer has come to after a sequence of events.
pub struct ProducerTrace {
    pub phase: ProducerPhase,
    /// What it has counted, from counters at zero.
    pub counts: MetricsView,
    /// The sum of the pauses it has asked for, in microseconds.
    pub paused_micros: nat,
}

/// A producer after `events`, at a target rate that stays at `rate`.
pub open spec fn trace_after(events: Seq<ProducerEvent>, rate: nat) -> ProducerTrace
    decreases events.len(),
{
    if events.len() == 0 {
        ProducerTrace {
            phase: ProducerPhase::Ready,
            counts: MetricsView { produced: 0, consumed: 0, errors: 0 },
            paused_micros: 0,
        }
    } else {
        let before = trace_after(events.drop_last(), rate);
        let next = producer_next(before.phase, events.last(), rate);
        ProducerTrace {
            phase: next.0,
            counts: producer_counts(before.phase, events.last(), before.counts),
            paused_micros: before.paused_micros + match next.1 {
                ProducerStep::Pause { micros } => micros as nat,
                _ => 0,
            },
        }
    }
}

/// The event with number `i` of a producer whose sends are all delivered
/// and whose pauses all run to their end: a send ends, a pause ends, in
/// turn.
pub open spec fn steady_event(i: int) -> ProducerEvent {
    if i % 2 == 0 {
        ProducerEvent::SendFinished(Waited::Completed(SendOutcome::Delivered))
    } else {
        ProducerEvent::PauseFinished(Waited::Completed(()))
    }
}

/// The start of a producer and the first `turns` events of such a run.
pub open spec fn steady_run(turns: nat) -> Seq<ProducerEvent> {
    seq![ProducerEvent::Started] + Seq::new(turns, |i: int| steady_event(i))
}

/// With every send delivered and no shutdown, a producer at a steady rate
/// counts one produced message per send and nothing else, and pauses
/// between two sends for exactly the delay of the rate: when it begins its
/// send number `sends` (from zero) it has counted `sends` messages and
/// paused `sends` times the delay.
pub proof fn lemma_steady_run(sends: nat, rate: nat)
    requires
        rate >= 1,
        sends < usize::MAX,
    ensures
        trace_after(steady_run(2 * sends), rate) == (ProducerTrace {
            phase: sending_at(rate),
            counts: MetricsView { produced: sends, consumed: 0, errors: 0 },
            paused_micros: sends * pacing_delay(rate),
        }),
        trace_after(steady_run(2 * sends + 1), rate) == (ProducerTrace {
            phase: ProducerPhase::Pacing,
            counts: MetricsView { produced: sends + 1, consumed: 0, errors: 0 },
            paused_micros: (sends + 1) * pacing_delay(rate),
        }),
    decreases sends,
{
    let delay = pacing_delay(rate);
    crate::throughput::lemma_delay_bounds(rate, rate);
    assert(delay as u64 as nat == delay);
    let even = steady_run(2 * sends);
    if sends == 0 {
        assert(even.drop_last() =~= Seq::<ProducerEvent>::empty());
        assert(even.last() == ProducerEvent::Started);
        assert(trace_after(even.drop_last(), rate).phase == ProducerPhase::Ready);
        assert(0 * delay == 0);
    } else {
        lemma_steady_run((sends - 1) as nat, rate);
        assert(even.drop_last() =~= steady_run((2 * (sends - 1) + 1) as nat));
        assert(even.last() == steady_event(2 * sends - 1));
        assert(((sends - 1) + 1) * delay == sends * delay);
    }
    let odd = steady_run(2 * sends + 1);
    assert(odd.drop_last() =~= even);
    assert(odd.last() == steady_event(2 * sends as int));
    assert((sends + 1) * delay == sends * delay + delay) by (nonlinear_arith);
}

/// How many sends a steady producer has begun by `micros` microseconds
/// after its start, when sends take no time: one at the start and one
/// after each full delay.
pub open spec fn sends_begun_by(micros: nat, delay: nat) -> nat
    recommends
        delay >= 1,
{
    micros / delay + 1
}

/// In every window of `window` microseconds a steady producer begins as
/// many sends as delays fit into the window, or one more; and exactly as
/// many where the delay divides the window.
pub proof fn lemma_sends_in_window(start: nat, window: nat, delay: nat)
    requires
        delay >= 1,
    ensures
        sends_begun_by(start + window, delay) - sends_begun_by(start, delay) >= window / delay,
        sends_begun_by(start + window, delay) - sends_begun_by(start, delay) <= window / delay + 1,
        window % delay == 0 ==> sends_begun_by(start + window, delay) - sends_begun_by(
            start,
            delay,
        ) == window / delay,
{
    let d = delay as int;
    let s = start as int;
    let w = window as int;
    vstd::arithmetic::div_mod::lemma_fundamental_div_mod(s, d);
    vstd::arithmetic::div_mod::lemma_fundamental_div_mod(w, d);
    vstd::arithmetic::div_mod::lemma_fundamental_div_mod(s + w, d);
    vstd::arithmetic::div_mod::lemma_mod_bound(s, d);
    vstd::arithmetic::div_mod::lemma_mod_bound(w, d);
    vstd::arithmetic::div_mod::lemma_mod_bound(s + w, d);
    let qs = s / d;
    let qw = w / d;
    let qt = (s + w) / d;
    let rs = s % d;
    let rw = w % d;
    let rt = (s + w) % d;
    assert(d * qt + rt == d * qs + rs + d * qw + rw);
    assert(qt >= qs + qw && qt <= qs + qw + 1 && (rw == 0 ==> qt == qs + qw)) by (nonlinear_arith)
        requires
            d >= 1,
            d * qt + rt == d * qs + rs + d * qw + rw,
            0 <= rs < d,
            0 <= rw < d,
            0 <= rt < d,
    ;
}

/// At a steady rate of at most a million messages per second that divides
/// a million, a producer whose sends are delivered at once begins exactly
/// `rate` sends in every window of one second. At ten messages per second
/// that is ten in every second.
pub proof fn lemma_sends_per_second(start: nat, rate: nat)
    requires
        1 <= rate <= MICROS_PER_SECOND,
        MICROS_PER_SECOND as nat % rate == 0,
    ensures
        pacing_delay(rate) >= 1,
        sends_begun_by(start + MICROS_PER_SECOND as nat, pacing_delay(rate)) - sends_begun_by(
            start,
            pacing_delay(rate),
        ) == rate,
{
    let million = MICROS_PER_SECOND as int;
    let r = rate as int;
    let delay = pacing_delay(rate) as int;
    vstd::arithmetic::div_mod::lemma_fundamental_div_mod(million, r);
    assert(million == r * delay);
    assert(delay >= 1) by (nonlinear_arith)
        requires
            million == r * delay,
            million == 1_000_000,
            r >= 1,
    ;
    vstd::arithmetic::div_mod::lemma_div_multiples_vanish(r, delay);
    vstd::arithmetic::div_mod::lemma_mod_multiples_basic(r, delay);
    assert(r * delay == delay * r) by (nonlinear_arith);
    assert(million / delay == r);
    assert(million % delay == 0);
    lemma_sends_in_window(start, MICROS_PER_SECOND as nat, pacing_delay(rate));
}

} // verus!
