use kafka_benchmark::config::Config;
use kafka_benchmark::metrics::Metrics;
use kafka_benchmark::producer::{
    ProducerAction, ProducerEvent, ProducerPhase, ProducerWorker, SendOutcome, SEND_TIMEOUT_SECS,
};
use kafka_benchmark::throughput::TargetThroughput;
use kafka_benchmark::wait::Waited;

fn rate(n: u64) -> TargetThroughput {
    TargetThroughput::new(n).unwrap()
}

fn config(msg_size: usize) -> Config {
    Config {
        bootstrap: String::from("broker:9092"),
        topic: String::from("bench"),
        ssl_ca: None,
        ssl_cert: None,
        ssl_key: None,
        sasl_username: None,
        sasl_password: None,
        sasl_mechanism: None,
        producer_num_threads: 1,
        consumer_num_threads: 1,
        msg_size,
        throughput: 10,
        auto_increase: false,
        error_threshold: 50,
    }
}

#[test]
fn new_producer_is_ready() {
    let worker = ProducerWorker::new(1, &config(200)).unwrap();
    assert_eq!(worker.current_phase(), ProducerPhase::Ready);
}

#[test]
fn producer_with_impossible_padding_is_refused() {
    assert!(ProducerWorker::new(1, &config(usize::MAX)).is_none());
}

#[test]
fn start_hands_out_a_message() {
    let mut worker = ProducerWorker::new(4, &config(3)).unwrap();
    let mut metrics = Metrics::new();
    let action = worker.step(ProducerEvent::Started, &rate(10), &mut metrics);
    match action {
        ProducerAction::Send { message, timeout_secs } => {
            assert_eq!(timeout_secs, SEND_TIMEOUT_SECS);
            assert_eq!(timeout_secs, 1);
            assert_eq!(message.topic, "bench");
            assert_eq!(message.key, "producer-4");
            let value: serde_json::Value = serde_json::from_str(&message.body).unwrap();
            assert_eq!(value.get("producer_id").unwrap().as_u64(), Some(4));
            assert_eq!(value.get("payload").unwrap().as_str(), Some("AAAA"));
            assert!(value.get("ts").unwrap().is_string());
        }
        other => panic!("expected a send, got {:?}", other),
    }
    assert_eq!(worker.current_phase(), ProducerPhase::Sending { delay_micros: 100_000 });
    assert_eq!(metrics.get_producer_count(), 0);
    assert_eq!(metrics.get_error_count(), 0);
}

#[test]
fn delivered_send_counts_as_produced_only() {
    let mut worker = ProducerWorker::new(0, &config(8)).unwrap();
    let mut metrics = Metrics::new();
    worker.step(ProducerEvent::Started, &rate(10), &mut metrics);
    let action = worker.step(
        ProducerEvent::SendFinished(Waited::Completed(SendOutcome::Delivered)),
        &rate(10),
        &mut metrics,
    );
    assert!(matches!(action, ProducerAction::Pause { micros: 100_000 }));
    assert_eq!(worker.current_phase(), ProducerPhase::Pacing);
    assert_eq!(metrics.get_producer_count(), 1);
    assert_eq!(metrics.get_consumer_count(), 0);
    assert_eq!(metrics.get_error_count(), 0);
}

#[test]
fn failed_send_counts_as_error_only_and_the_worker_goes_on() {
    let mut worker = ProducerWorker::new(0, &config(8)).unwrap();
    let mut metrics = Metrics::new();
    worker.step(ProducerEvent::Started, &rate(4), &mut metrics);
    let action = worker.step(
        ProducerEvent::SendFinished(Waited::Completed(SendOutcome::Failed)),
        &rate(4),
        &mut metrics,
    );
    assert!(matches!(action, ProducerAction::Pause { micros: 250_000 }));
    assert_eq!(metrics.get_producer_count(), 0);
    assert_eq!(metrics.get_consumer_count(), 0);
    assert_eq!(metrics.get_error_count(), 1);
    let action =
        worker.step(ProducerEvent::PauseFinished(Waited::Completed(())), &rate(4), &mut metrics);
    assert!(matches!(action, ProducerAction::Send { .. }));
}

#[test]
fn pause_uses_the_rate_read_when_the_iteration_began() {
    let mut worker = ProducerWorker::new(0, &config(8)).unwrap();
    let mut metrics = Metrics::new();
    worker.step(ProducerEvent::Started, &rate(10), &mut metrics);
    // The controller doubled the rate while the send was under way.
    let action = worker.step(
        ProducerEvent::SendFinished(Waited::Completed(SendOutcome::Delivered)),
        &rate(20),
        &mut metrics,
    );
    assert!(matches!(action, ProducerAction::Pause { micros: 100_000 }));
    worker.step(ProducerEvent::PauseFinished(Waited::Completed(())), &rate(20), &mut metrics);
    assert_eq!(worker.current_phase(), ProducerPhase::Sending { delay_micros: 50_000 });
}

#[test]
fn shutdown_during_send_stops_without_counting() {
    let mut worker = ProducerWorker::new(0, &config(8)).unwrap();
    let mut metrics = Metrics::new();
    worker.step(ProducerEvent::Started, &rate(10), &mut metrics);
    let action =
        worker.step(ProducerEvent::SendFinished(Waited::Shutdown), &rate(10), &mut metrics);
    assert!(matches!(action, ProducerAction::Stop));
    assert_eq!(worker.current_phase(), ProducerPhase::Stopped);
    assert_eq!(metrics.get_producer_count(), 0);
    assert_eq!(metrics.get_error_count(), 0);
}

#[test]
fn shutdown_during_pause_stops_without_counting() {
    let mut worker = ProducerWorker::new(0, &config(8)).unwrap();
    let mut metrics = Metrics::new();
    worker.step(ProducerEvent::Started, &rate(10), &mut metrics);
    worker.step(
        ProducerEvent::SendFinished(Waited::Completed(SendOutcome::Delivered)),
        &rate(10),
        &mut metrics,
    );
    let action =
        worker.step(ProducerEvent::PauseFinished(Waited::Shutdown), &rate(10), &mut metrics);
    assert!(matches!(action, ProducerAction::Stop));
    assert_eq!(worker.current_phase(), ProducerPhase::Stopped);
    assert_eq!(metrics.get_producer_count(), 1);
    assert_eq!(metrics.get_error_count(), 0);
}

#[test]
fn stopped_producer_stays_stopped() {
    let mut worker = ProducerWorker::new(0, &config(8)).unwrap();
    let mut metrics = Metrics::new();
    worker.step(ProducerEvent::Started, &rate(10), &mut metrics);
    worker.step(ProducerEvent::SendFinished(Waited::Shutdown), &rate(10), &mut metrics);
    for event in [
        ProducerEvent::Started,
        ProducerEvent::SendFinished(Waited::Completed(SendOutcome::Delivered)),
        ProducerEvent::SendFinished(Waited::Completed(SendOutcome::Failed)),
        ProducerEvent::PauseFinished(Waited::Completed(())),
    ] {
        let action = worker.step(event, &rate(10), &mut metrics);
        assert!(matches!(action, ProducerAction::Stop));
        assert_eq!(worker.current_phase(), ProducerPhase::Stopped);
    }
    assert_eq!(metrics.get_producer_count(), 0);
    assert_eq!(metrics.get_error_count(), 0);
}

#[test]
fn unexpected_events_are_ignored() {
    let mut worker = ProducerWorker::new(0, &config(8)).unwrap();
    let mut metrics = Metrics::new();
    let action = worker.step(
        ProducerEvent::SendFinished(Waited::Completed(SendOutcome::Delivered)),
        &rate(10),
        &mut metrics,
    );
    assert!(matches!(action, ProducerAction::Ignore));
    assert_eq!(worker.current_phase(), ProducerPhase::Ready);
    assert_eq!(metrics.get_producer_count(), 0);
    worker.step(ProducerEvent::Started, &rate(10), &mut metrics);
    let action =
        worker.step(ProducerEvent::PauseFinished(Waited::Completed(())), &rate(10), &mut metrics);
    assert!(matches!(action, ProducerAction::Ignore));
    assert_eq!(worker.current_phase(), ProducerPhase::Sending { delay_micros: 100_000 });
}

#[test]
fn pacing_at_ten_per_second_sends_ten_in_a_second() {
    // Virtual time: sends are instant, pauses take exactly what was asked.
    let mut worker = ProducerWorker::new(0, &config(16)).unwrap();
    let mut metrics = Metrics::new();
    let throughput = &rate(10);
    let mut now_micros: u64 = 0;
    let mut action = worker.step(ProducerEvent::Started, throughput, &mut metrics);
    loop {
        match action {
            ProducerAction::Send { .. } => {
                if now_micros >= 1_000_000 {
                    break;
                }
                action = worker.step(
                    ProducerEvent::SendFinished(Waited::Completed(SendOutcome::Delivered)),
                    throughput,
                    &mut metrics,
                );
            }
            ProducerAction::Pause { micros } => {
                now_micros += micros;
                action = worker.step(
                    ProducerEvent::PauseFinished(Waited::Completed(())),
                    throughput,
                    &mut metrics,
                );
            }
            ProducerAction::Stop | ProducerAction::Ignore => panic!("the worker left its loop"),
        }
    }
    let produced = metrics.get_producer_count();
    assert!((9..=11).contains(&produced));
    assert_eq!(produced, 10);
    assert_eq!(metrics.get_error_count(), 0);
}
