//! The three event counters of a run, and the periodic report on them.

use crate::wait::Waited;
use vstd::prelude::*;

verus! {

/// What one counter holds after one more event: one more, or the largest
/// value once that is reached. A counter never goes down.
pub open spec fn bumped(count: nat) -> nat {
    if count < usize::MAX {
        count + 1
    } else {
        count
    }
}

/// What the three counters hold, as plain numbers.
pub struct MetricsView {
    pub produced: nat,
    pub consumed: nat,
    pub errors: nat,
}

impl MetricsView {
    /// The counters after one more produced message.
    pub open spec fn count_produced(self) -> MetricsView {
        MetricsView { produced: bumped(self.produced), ..self }
    }

    /// The counters after one more consumed message.
    pub open spec fn count_consumed(self) -> MetricsView {
        MetricsView { consumed: bumped(self.consumed), ..self }
    }

    /// The counters after one more error.
    pub open spec fn count_error(self) -> MetricsView {
        MetricsView { errors: bumped(self.errors), ..self }
    }
}

/// Counters of produced messages, consumed messages and errors. There is
/// one set of counters per run: the type cannot be copied or cloned, so no
/// event can be counted on a copy and lost to the run. Whoever only reads
/// takes a `MetricsSnapshot`.
#[derive(Debug)]
pub struct Metrics {
    producer_count: usize,
    consumer_count: usize,
    error_count: usize,
}

impl View for Metrics {
    type V = MetricsView;

    closed spec fn view(&self) -> MetricsView {
        MetricsView {
            produced: self.producer_count as nat,
            consumed: self.consumer_count as nat,
            errors: self.error_count as nat,
        }
    }
}

impl Metrics {
    /// Every counter fits the machine word that holds it.
    pub proof fn lemma_counters_bounded(&self)
        ensures
            self@.produced <= usize::MAX,
            self@.consumed <= usize::MAX,
            self@.errors <= usize::MAX,
    {
    }

    /// Counters that have seen no event.
    pub fn new() -> (m: Self)
        ensures
            m@ == (MetricsView { produced: 0, consumed: 0, errors: 0 }),
    {
        Metrics { producer_count: 0, consumer_count: 0, error_count: 0 }
    }

    /// Counts one produced message. The other two counters stay.
    pub fn increment_produced(&mut self)
        ensures
            final(self)@ == old(self)@.count_produced(),
    {
        self.producer_count = self.producer_count.saturating_add(1);
    }

    /// Counts one consumed message. The other two counters stay.
    pub fn increment_consumed(&mut self)
        ensures
            final(self)@ == old(self)@.count_consumed(),
    {
        self.consumer_count = self.consumer_count.saturating_add(1);
    }

    /// Counts one error. The other two counters stay.
    pub fn increment_errors(&mut self)
        ensures
            final(self)@ == old(self)@.count_error(),
    {
        self.error_count = self.error_count.saturating_add(1);
    }

    /// The number of produced messages counted so far.
    pub fn get_producer_count(&self) -> (n: usize)
        ensures
            n == self@.produced,
    {
        self.producer_count
    }

    /// The number of consumed messages counted so far.
    pub fn get_consumer_count(&self) -> (n: usize)
        ensures
            n == self@.consumed,
    {
        self.consumer_count
    }

    /// The number of errors counted so far.
    pub fn get_error_count(&self) -> (n: usize)
        ensures
            n == self@.errors,
    {
        self.error_count
    }
}

impl Default for Metrics {
    fn default() -> (m: Self)
        ensures
            m@ == (MetricsView { produced: 0, consumed: 0, errors: 0 }),
    {
        Metrics::new()
    }
}

/// The three totals as they were read at one moment. A snapshot is a plain
/// value: it does not follow the counters it was read from.
#[derive(Clone, Copy, Debug, PartialEq, Eq, Structural)]
pub struct MetricsSnapshot {
    pub produced: usize,
    pub consumed: usize,
    pub errors: usize,
}

impl View for MetricsSnapshot {
    type V = MetricsView;

    open spec fn view(&self) -> MetricsView {
        MetricsView {
            produced: self.produced as nat,
            consumed: self.consumed as nat,
            errors: self.errors as nat,
        }
    }
}

impl Metrics {
    /// Reads the three counters. The counters are not changed.
    pub fn snapshot(&self) -> (read: MetricsSnapshot)
        ensures
            read@ == self@,
    {
        MetricsSnapshot {
            produced: self.producer_count,
            consumed: self.consumer_count,
            errors: self.error_count,
        }
    }
}

/// Seconds between two reports. With one second between them, the events
/// counted since the last report are the rate per second.
pub const REPORT_INTERVAL_SECS: u64 = 1;

/// One periodic report: the events of the last interval and the totals of
/// the run.
#[derive(Clone, Copy, Debug, PartialEq, Eq, Structural)]
pub struct MetricsReport {
    pub produced_per_sec: usize,
    pub consumed_per_sec: usize,
    pub errors_per_sec: usize,
    pub total_produced: usize,
    pub total_consumed: usize,
    pub total_errors: usize,
}

/// By how much a counter moved from `previous` to `current`; zero where it
/// did not move up.
pub open spec fn delta(previous: nat, current: nat) -> nat {
    if current >= previous {
        (current - previous) as nat
    } else {
        0
    }
}

/// The report on `current` after a report on `previous`.
pub open spec fn report_of(previous: MetricsView, current: MetricsView) -> MetricsReport {
    MetricsReport {
        produced_per_sec: delta(previous.produced, current.produced) as usize,
        consumed_per_sec: delta(previous.consumed, current.consumed) as usize,
        errors_per_sec: delta(previous.errors, current.errors) as usize,
        total_produced: current.produced as usize,
        total_consumed: current.consumed as usize,
        total_errors: current.errors as usize,
    }
}

impl MetricsSnapshot {
    /// The report on this reading, given the reading of the report before.
    pub fn report_since(&self, previous: &MetricsSnapshot) -> (report: MetricsReport)
        ensures
            report == report_of(previous@, self@),
    {
        MetricsReport {
            produced_per_sec: self.produced.saturating_sub(previous.produced),
            consumed_per_sec: self.consumed.saturating_sub(previous.consumed),
            errors_per_sec: self.errors.saturating_sub(previous.errors),
            total_produced: self.produced,
            total_consumed: self.consumed,
            total_errors: self.errors,
        }
    }
}

impl Metrics {
    /// The report on these counters, given the reading of the report
    /// before. The counters are not changed.
    pub fn report_since(&self, previous: &MetricsSnapshot) -> (report: MetricsReport)
        ensures
            report == report_of(previous@, self@),
    {
        self.snapshot().report_since(previous)
    }
}

/// What the reporter does next.
#[derive(Clone, Copy, Debug, PartialEq, Eq, Structural)]
pub enum ReporterAction {
    /// Wait for `secs` seconds, or for shutdown, read the counters and come
    /// back with the outcome.
    Wait { secs: u64 },
    /// Log `report`, then wait as for `Wait`.
    Report { report: MetricsReport, secs: u64 },
    /// Return: the run is shutting down.
    Stop,
}

/// The snapshot that the reporter keeps after its wait has ended, and what
/// it does next. After a full interval it reports on the counters read and
/// keeps them for the next report; on shutdown it stops.
pub open spec fn reporter_next(previous: MetricsView, waited: Waited<MetricsSnapshot>) -> (
    MetricsView,
    ReporterAction,
) {
    match waited {
        Waited::Completed(current) => (
            current@,
            ReporterAction::Report {
                report: report_of(previous, current@),
                secs: REPORT_INTERVAL_SECS,
            },
        ),
        Waited::Shutdown => (previous, ReporterAction::Stop),
    }
}

/// The periodic reporter. It keeps a snapshot of its own and never touches
/// the counters of the run.
#[derive(Debug)]
pub struct Reporter {
    previous: MetricsSnapshot,
}

impl Reporter {
    /// The counters as they were at the last report.
    pub closed spec fn previous(&self) -> MetricsView {
        self.previous@
    }

    /// A reporter that has reported nothing yet.
    pub fn new() -> (reporter: Self)
        ensures
            reporter.previous() == (MetricsView { produced: 0, consumed: 0, errors: 0 }),
    {
        Reporter { previous: MetricsSnapshot { produced: 0, consumed: 0, errors: 0 } }
    }

    /// The first turn of the reporter, taken when it is spawned: it waits a
    /// full interval before its first report.
    pub fn start(&self) -> (action: ReporterAction)
        ensures
            action == (ReporterAction::Wait { secs: REPORT_INTERVAL_SECS }),
    {
        ReporterAction::Wait { secs: REPORT_INTERVAL_SECS }
    }

    /// One turn of the reporter, taken when its wait has ended; `waited`
    /// carries the counters as read after a full interval.
    pub fn step(&mut self, waited: Waited<MetricsSnapshot>) -> (action: ReporterAction)
        ensures
            final(self).previous() == reporter_next(old(self).previous(), waited).0,
            action == reporter_next(old(self).previous(), waited).1,
    {
        match waited {
            Waited::Completed(current) => {
                let report = current.report_since(&self.previous);
                self.previous = current;
                ReporterAction::Report { report, secs: REPORT_INTERVAL_SECS }
            },
            Waited::Shutdown => ReporterAction::Stop,
        }
    }
}

/// While the counters only go up, the events of the intervals add up: what
/// two reports in a row say of their intervals is what one report over
/// both would say.
pub proof fn lemma_deltas_add_up(first: nat, second: nat, third: nat)
    requires
        first <= second <= third,
    ensures
        delta(first, second) + delta(second, third) == delta(first, third),
{
}

} // verus!
