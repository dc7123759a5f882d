use kafka_benchmark::error::BenchmarkError;
use rdkafka::error::KafkaError;

#[test]
fn messages_name_the_kind_and_the_detail() {
    assert_eq!(
        BenchmarkError::KafkaConfig(String::from("bad key")).message(),
        "Kafka configuration error: bad key"
    );
    assert_eq!(
        BenchmarkError::MessageSend(String::from("timed out")).message(),
        "Message send failed: timed out"
    );
    assert_eq!(
        BenchmarkError::MessageReceive(String::from("broker down")).message(),
        "Message receive failed: broker down"
    );
    assert_eq!(
        BenchmarkError::Config(String::from("no topic")).message(),
        "Configuration error: no topic"
    );
}

#[test]
fn invalid_utf8_has_a_fixed_message() {
    let bytes: Vec<u8> = vec![0xff, 0xfe];
    let cause = std::str::from_utf8(&bytes).unwrap_err();
    let error = BenchmarkError::from(cause);
    assert!(matches!(error, BenchmarkError::InvalidUtf8(_)));
    assert_eq!(error.message(), "Invalid UTF-8 in message payload");
}

#[test]
fn client_errors_carry_the_clients_words() {
    let cause = KafkaError::ClientCreation(String::from("no brokers"));
    let words = cause.to_string();
    let error = BenchmarkError::from(cause);
    assert!(matches!(error, BenchmarkError::KafkaClient(_)));
    assert_eq!(error.message(), format!("Kafka client creation failed: {}", words));
}
