use kafka_benchmark::client::{apply_security, consumer_client_config, producer_client_config};
use kafka_benchmark::config::Config;
use rdkafka::config::ClientConfig;

fn plain_config() -> Config {
    Config {
        bootstrap: String::from("broker:9092"),
        topic: String::from("bench"),
        ssl_ca: None,
        ssl_cert: None,
        ssl_key: None,
        sasl_username: None,
        sasl_password: None,
        sasl_mechanism: None,
        producer_num_threads: 4,
        consumer_num_threads: 4,
        msg_size: 200,
        throughput: 10_000,
        auto_increase: true,
        error_threshold: 50,
    }
}

#[test]
fn producer_options_without_security() {
    let client = producer_client_config(&plain_config());
    assert_eq!(client.get("bootstrap.servers"), Some("broker:9092"));
    assert_eq!(client.get("message.timeout.ms"), Some("5000"));
    assert_eq!(client.get("compression.type"), Some("lz4"));
    assert_eq!(client.get("security.protocol"), None);
    assert_eq!(client.get("ssl.ca.location"), None);
    assert_eq!(client.get("sasl.username"), None);
    assert_eq!(client.get("group.id"), None);
    assert_eq!(client.config_map().len(), 3);
}

#[test]
fn consumer_options_without_security() {
    let client = consumer_client_config(&plain_config(), 2);
    assert_eq!(client.get("bootstrap.servers"), Some("broker:9092"));
    assert_eq!(client.get("group.id"), Some("bench-group-2"));
    assert_eq!(client.get("enable.auto.commit"), Some("true"));
    assert_eq!(client.get("message.timeout.ms"), None);
    assert_eq!(client.get("security.protocol"), None);
    assert_eq!(client.config_map().len(), 3);
}

#[test]
fn consumer_groups_differ_by_worker() {
    let cfg = plain_config();
    assert_eq!(consumer_client_config(&cfg, 0).get("group.id"), Some("bench-group-0"));
    assert_eq!(consumer_client_config(&cfg, 17).get("group.id"), Some("bench-group-17"));
}

#[test]
fn ca_alone_switches_tls_on() {
    let mut cfg = plain_config();
    cfg.ssl_ca = Some(String::from("/ca.pem"));
    let client = producer_client_config(&cfg);
    assert_eq!(client.get("security.protocol"), Some("SSL"));
    assert_eq!(client.get("ssl.ca.location"), Some("/ca.pem"));
    assert_eq!(client.get("ssl.certificate.location"), None);
    assert_eq!(client.get("ssl.key.location"), None);
}

#[test]
fn certificate_needs_its_key() {
    let mut cfg = plain_config();
    cfg.ssl_ca = Some(String::from("/ca.pem"));
    cfg.ssl_cert = Some(String::from("/cert.pem"));
    let client = producer_client_config(&cfg);
    assert_eq!(client.get("security.protocol"), Some("SSL"));
    assert_eq!(client.get("ssl.certificate.location"), None);
    assert_eq!(client.get("ssl.key.location"), None);
    cfg.ssl_key = Some(String::from("/key.pem"));
    let client = producer_client_config(&cfg);
    assert_eq!(client.get("ssl.certificate.location"), Some("/cert.pem"));
    assert_eq!(client.get("ssl.key.location"), Some("/key.pem"));
}

#[test]
fn certificate_without_ca_is_not_used() {
    let mut cfg = plain_config();
    cfg.ssl_cert = Some(String::from("/cert.pem"));
    cfg.ssl_key = Some(String::from("/key.pem"));
    let client = consumer_client_config(&cfg, 1);
    assert_eq!(client.get("security.protocol"), None);
    assert_eq!(client.get("ssl.certificate.location"), None);
    assert_eq!(client.get("ssl.key.location"), None);
}

#[test]
fn sasl_needs_all_three_settings() {
    let mut cfg = plain_config();
    cfg.sasl_username = Some(String::from("user"));
    cfg.sasl_password = Some(String::from("secret"));
    let client = producer_client_config(&cfg);
    assert_eq!(client.get("security.protocol"), None);
    assert_eq!(client.get("sasl.username"), None);
    cfg.sasl_mechanism = Some(String::from("PLAIN"));
    let client = producer_client_config(&cfg);
    assert_eq!(client.get("security.protocol"), Some("SASL_SSL"));
    assert_eq!(client.get("sasl.username"), Some("user"));
    assert_eq!(client.get("sasl.password"), Some("secret"));
    assert_eq!(client.get("sasl.mechanism"), Some("PLAIN"));
}

#[test]
fn sasl_overrides_the_tls_protocol() {
    let mut cfg = plain_config();
    cfg.ssl_ca = Some(String::from("/ca.pem"));
    cfg.sasl_username = Some(String::from("user"));
    cfg.sasl_password = Some(String::from("secret"));
    cfg.sasl_mechanism = Some(String::from("SCRAM-SHA-256"));
    let client = consumer_client_config(&cfg, 0);
    assert_eq!(client.get("security.protocol"), Some("SASL_SSL"));
    assert_eq!(client.get("ssl.ca.location"), Some("/ca.pem"));
    assert_eq!(client.get("sasl.mechanism"), Some("SCRAM-SHA-256"));
}

#[test]
fn apply_security_keeps_other_options() {
    let mut cfg = plain_config();
    cfg.ssl_ca = Some(String::from("/ca.pem"));
    let mut client = ClientConfig::new();
    client.set("client.id", "bench");
    apply_security(&mut client, &cfg);
    assert_eq!(client.get("client.id"), Some("bench"));
    assert_eq!(client.get("security.protocol"), Some("SSL"));
}
