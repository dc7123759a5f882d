use kafka_benchmark::metrics::{
    Metrics, MetricsReport, MetricsSnapshot, Reporter, ReporterAction, REPORT_INTERVAL_SECS,
};
use kafka_benchmark::wait::Waited;

#[test]
fn new_metrics_are_zero() {
    let m = Metrics::new();
    assert_eq!(m.get_producer_count(), 0);
    assert_eq!(m.get_consumer_count(), 0);
    assert_eq!(m.get_error_count(), 0);
}

#[test]
fn default_metrics_are_zero() {
    let m = Metrics::default();
    assert_eq!(m.get_producer_count(), 0);
    assert_eq!(m.get_consumer_count(), 0);
    assert_eq!(m.get_error_count(), 0);
}

#[test]
fn increment_produced_moves_only_produced() {
    let mut m = Metrics::new();
    m.increment_produced();
    assert_eq!(m.get_producer_count(), 1);
    assert_eq!(m.get_consumer_count(), 0);
    assert_eq!(m.get_error_count(), 0);
}

#[test]
fn increment_consumed_moves_only_consumed() {
    let mut m = Metrics::new();
    m.increment_consumed();
    m.increment_consumed();
    assert_eq!(m.get_producer_count(), 0);
    assert_eq!(m.get_consumer_count(), 2);
    assert_eq!(m.get_error_count(), 0);
}

#[test]
fn increment_errors_moves_only_errors() {
    let mut m = Metrics::new();
    m.increment_errors();
    m.increment_errors();
    m.increment_errors();
    assert_eq!(m.get_producer_count(), 0);
    assert_eq!(m.get_consumer_count(), 0);
    assert_eq!(m.get_error_count(), 3);
}

#[test]
fn counters_are_independent() {
    let mut m = Metrics::new();
    for _ in 0..5 {
        m.increment_produced();
    }
    for _ in 0..7 {
        m.increment_consumed();
    }
    for _ in 0..2 {
        m.increment_errors();
    }
    assert_eq!(m.get_producer_count(), 5);
    assert_eq!(m.get_consumer_count(), 7);
    assert_eq!(m.get_error_count(), 2);
}

#[test]
fn increments_through_shared_handles_reach_the_same_counters() {
    // Every holder of the run's counters counts on the one set there is.
    let shared = std::sync::Arc::new(std::sync::Mutex::new(Metrics::new()));
    let worker = shared.clone();
    worker.lock().unwrap().increment_produced();
    worker.lock().unwrap().increment_produced();
    worker.lock().unwrap().increment_consumed();
    shared.lock().unwrap().increment_errors();
    assert_eq!(shared.lock().unwrap().get_producer_count(), 2);
    assert_eq!(shared.lock().unwrap().get_consumer_count(), 1);
    assert_eq!(worker.lock().unwrap().get_error_count(), 1);
}

#[test]
fn snapshot_reads_the_counters() {
    let mut m = Metrics::new();
    m.increment_produced();
    m.increment_errors();
    m.increment_errors();
    assert_eq!(m.snapshot(), MetricsSnapshot { produced: 1, consumed: 0, errors: 2 });
}

#[test]
fn snapshot_does_not_follow_the_counters() {
    let mut m = Metrics::new();
    m.increment_produced();
    let read = m.snapshot();
    m.increment_produced();
    m.increment_consumed();
    assert_eq!(read, MetricsSnapshot { produced: 1, consumed: 0, errors: 0 });
    assert_eq!(m.get_producer_count(), 2);
    assert_eq!(m.get_consumer_count(), 1);
}

#[test]
fn report_since_gives_deltas_and_totals() {
    let mut m = Metrics::new();
    for _ in 0..3 {
        m.increment_produced();
    }
    m.increment_errors();
    let previous = m.snapshot();
    for _ in 0..10 {
        m.increment_produced();
    }
    for _ in 0..4 {
        m.increment_consumed();
    }
    m.increment_errors();
    let expected = MetricsReport {
        produced_per_sec: 10,
        consumed_per_sec: 4,
        errors_per_sec: 1,
        total_produced: 13,
        total_consumed: 4,
        total_errors: 2,
    };
    assert_eq!(m.report_since(&previous), expected);
    assert_eq!(m.snapshot().report_since(&previous), expected);
    assert_eq!(m.get_producer_count(), 13);
}

#[test]
fn report_since_never_goes_below_zero() {
    let later = MetricsSnapshot { produced: 2, consumed: 0, errors: 0 };
    let earlier = MetricsSnapshot { produced: 0, consumed: 0, errors: 0 };
    let report = earlier.report_since(&later);
    assert_eq!(report.produced_per_sec, 0);
    assert_eq!(report.total_produced, 0);
}

#[test]
fn reporter_first_waits_one_interval() {
    let reporter = Reporter::new();
    assert_eq!(reporter.start(), ReporterAction::Wait { secs: REPORT_INTERVAL_SECS });
    assert_eq!(REPORT_INTERVAL_SECS, 1);
}

#[test]
fn reporter_reports_each_interval_once() {
    let mut reporter = Reporter::new();
    let mut shared = Metrics::new();
    for _ in 0..6 {
        shared.increment_produced();
    }
    let first = reporter.step(Waited::Completed(shared.snapshot()));
    match first {
        ReporterAction::Report { report, secs } => {
            assert_eq!(secs, 1);
            assert_eq!(report.produced_per_sec, 6);
            assert_eq!(report.total_produced, 6);
        }
        other => panic!("expected a report, got {:?}", other),
    }
    for _ in 0..4 {
        shared.increment_produced();
    }
    shared.increment_consumed();
    let second = reporter.step(Waited::Completed(shared.snapshot()));
    assert_eq!(
        second,
        ReporterAction::Report {
            report: MetricsReport {
                produced_per_sec: 4,
                consumed_per_sec: 1,
                errors_per_sec: 0,
                total_produced: 10,
                total_consumed: 1,
                total_errors: 0,
            },
            secs: 1,
        }
    );
    // The reporter only reads: the shared counters are as the workers left them.
    assert_eq!(shared.get_producer_count(), 10);
}

#[test]
fn reporter_stops_on_shutdown() {
    let mut reporter = Reporter::new();
    assert_eq!(reporter.step(Waited::Shutdown), ReporterAction::Stop);
}
