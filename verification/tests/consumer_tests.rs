use kafka_benchmark::consumer::{
    check_payload, judge, ConsumerAction, ConsumerEvent, ConsumerPhase, ConsumerWorker, Received,
    Verdict,
};
use kafka_benchmark::error::BenchmarkError;
use kafka_benchmark::metrics::Metrics;
use kafka_benchmark::wait::Waited;

fn started() -> (ConsumerWorker, Metrics) {
    let mut worker = ConsumerWorker::new(0);
    let mut metrics = Metrics::new();
    assert_eq!(worker.step(ConsumerEvent::Started, &mut metrics), ConsumerAction::Receive);
    (worker, metrics)
}

#[test]
fn new_consumer_is_ready() {
    let worker = ConsumerWorker::new(9);
    assert_eq!(worker.worker_id(), 9);
    assert_eq!(worker.current_phase(), ConsumerPhase::Ready);
}

#[test]
fn check_payload_accepts_utf8() {
    assert!(check_payload(b"hello").is_ok());
    assert!(check_payload("gr\u{fc}\u{df}e \u{1f600}".as_bytes()).is_ok());
    assert!(check_payload(b"").is_ok());
}

#[test]
fn check_payload_rejects_bad_bytes() {
    assert!(matches!(check_payload(&[0xff]), Err(BenchmarkError::InvalidUtf8(_))));
    assert!(matches!(check_payload(&[b'a', 0xc3]), Err(BenchmarkError::InvalidUtf8(_))));
    assert!(matches!(check_payload(&[0xed, 0xa0, 0x80]), Err(BenchmarkError::InvalidUtf8(_))));
    assert!(matches!(check_payload(&[0xc0, 0x80]), Err(BenchmarkError::InvalidUtf8(_))));
}

#[test]
fn judge_gives_each_kind_its_verdict() {
    assert_eq!(judge(&Received::Payload(b"{\"ts\":1}".to_vec())), Verdict::Consumed);
    assert_eq!(judge(&Received::Payload(vec![0x80, 0x80])), Verdict::Error);
    assert_eq!(judge(&Received::Empty), Verdict::Nothing);
    assert_eq!(judge(&Received::Failed), Verdict::Error);
}

#[test]
fn decodable_message_counts_as_consumed_only() {
    let (mut worker, mut metrics) = started();
    let action = worker.step(
        ConsumerEvent::ReceiveFinished(Waited::Completed(Received::Payload(b"ok".to_vec()))),
        &mut metrics,
    );
    assert_eq!(action, ConsumerAction::Receive);
    assert_eq!(worker.current_phase(), ConsumerPhase::Receiving);
    assert_eq!(metrics.get_consumer_count(), 1);
    assert_eq!(metrics.get_producer_count(), 0);
    assert_eq!(metrics.get_error_count(), 0);
}

#[test]
fn undecodable_message_counts_as_error_and_the_worker_goes_on() {
    let (mut worker, mut metrics) = started();
    let action = worker.step(
        ConsumerEvent::ReceiveFinished(Waited::Completed(Received::Payload(vec![0xfe, 0xff]))),
        &mut metrics,
    );
    assert_eq!(action, ConsumerAction::Receive);
    assert_eq!(worker.current_phase(), ConsumerPhase::Receiving);
    assert_eq!(metrics.get_consumer_count(), 0);
    assert_eq!(metrics.get_error_count(), 1);
}

#[test]
fn receive_error_counts_as_error_and_the_worker_goes_on() {
    let (mut worker, mut metrics) = started();
    let action = worker
        .step(ConsumerEvent::ReceiveFinished(Waited::Completed(Received::Failed)), &mut metrics);
    assert_eq!(action, ConsumerAction::Receive);
    assert_eq!(metrics.get_consumer_count(), 0);
    assert_eq!(metrics.get_producer_count(), 0);
    assert_eq!(metrics.get_error_count(), 1);
}

#[test]
fn message_without_payload_counts_as_nothing() {
    let (mut worker, mut metrics) = started();
    let action = worker
        .step(ConsumerEvent::ReceiveFinished(Waited::Completed(Received::Empty)), &mut metrics);
    assert_eq!(action, ConsumerAction::Receive);
    assert_eq!(metrics.get_consumer_count(), 0);
    assert_eq!(metrics.get_error_count(), 0);
}

#[test]
fn shutdown_during_receive_stops_without_counting() {
    let (mut worker, mut metrics) = started();
    let action = worker.step(ConsumerEvent::ReceiveFinished(Waited::Shutdown), &mut metrics);
    assert_eq!(action, ConsumerAction::Stop);
    assert_eq!(worker.current_phase(), ConsumerPhase::Stopped);
    assert_eq!(metrics.get_consumer_count(), 0);
    assert_eq!(metrics.get_error_count(), 0);
}

#[test]
fn stopped_consumer_stays_stopped() {
    let (mut worker, mut metrics) = started();
    worker.step(ConsumerEvent::ReceiveFinished(Waited::Shutdown), &mut metrics);
    assert_eq!(worker.step(ConsumerEvent::Started, &mut metrics), ConsumerAction::Stop);
    assert_eq!(
        worker.step(
            ConsumerEvent::ReceiveFinished(Waited::Completed(Received::Payload(b"x".to_vec()))),
            &mut metrics
        ),
        ConsumerAction::Stop
    );
    assert_eq!(worker.current_phase(), ConsumerPhase::Stopped);
    assert_eq!(metrics.get_consumer_count(), 0);
}

#[test]
fn consumer_ignores_what_it_does_not_await() {
    let mut worker = ConsumerWorker::new(0);
    let mut metrics = Metrics::new();
    let action = worker
        .step(ConsumerEvent::ReceiveFinished(Waited::Completed(Received::Failed)), &mut metrics);
    assert_eq!(action, ConsumerAction::Ignore);
    assert_eq!(worker.current_phase(), ConsumerPhase::Ready);
    assert_eq!(metrics.get_error_count(), 0);
    worker.step(ConsumerEvent::Started, &mut metrics);
    assert_eq!(worker.step(ConsumerEvent::Started, &mut metrics), ConsumerAction::Ignore);
    assert_eq!(worker.current_phase(), ConsumerPhase::Receiving);
}
