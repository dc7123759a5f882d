//! The options handed to the broker client of a producer or a consumer.

use crate::config::Config;
use crate::text::{decimal_digits, numbered};
use rdkafka::config::ClientConfig;
use vstd::prelude::*;

verus! {

/// `rdkafka::config::ClientConfig`, carried as an opaque value: what it
/// holds is spoken of through `client_settings` alone.
#[verifier::external_type_specification]
#[verifier::external_body]
pub struct ExClientConfig(rdkafka::config::ClientConfig);

/// The options that a client configuration holds: each key that was set,
/// with the value set last.
pub uninterp spec fn client_settings(c: ClientConfig) -> Map<Seq<char>, Seq<char>>;

/// No option at all.
pub open spec fn no_settings() -> Map<Seq<char>, Seq<char>> {
    Map::empty()
}

/// `ClientConfig::new`: a configuration in which no option is set.
#[verifier::external_body]
fn new_client_config() -> (client: ClientConfig)
    ensures
        client_settings(client) == no_settings(),
{
    ClientConfig::new()
}

/// `ClientConfig::set`: stores `value` under `key`, over any value the key
/// had, and leaves every other option as it was.
#[verifier::external_body]
fn set_option(c: &mut ClientConfig, key: &str, value: &str)
    ensures
        client_settings(*final(c)) == client_settings(*old(c)).insert(key@, value@),
{
    c.set(key, value);
}

/// The options after the TLS rule: with a CA certificate the protocol is SSL
/// and the CA path is set; certificate and key paths are set only when both
/// are given. Without a CA certificate nothing changes.
pub open spec fn tls_settings(base: Map<Seq<char>, Seq<char>>, cfg: Config) -> Map<
    Seq<char>,
    Seq<char>,
> {
    match cfg.ssl_ca {
        Some(ca) => {
            let with_ca = base.insert("security.protocol"@, "SSL"@).insert(
                "ssl.ca.location"@,
                ca@,
            );
            match (cfg.ssl_cert, cfg.ssl_key) {
                (Some(cert), Some(key)) => with_ca.insert(
                    "ssl.certificate.location"@,
                    cert@,
                ).insert("ssl.key.location"@, key@),
                _ => with_ca,
            }
        },
        None => base,
    }
}

/// The options after the SASL rule: with user name, password and mechanism
/// all given the protocol is SASL_SSL and the three are set. With any of
/// them missing nothing changes.
pub open spec fn sasl_settings(base: Map<Seq<char>, Seq<char>>, cfg: Config) -> Map<
    Seq<char>,
    Seq<char>,
> {
    match (cfg.sasl_username, cfg.sasl_password, cfg.sasl_mechanism) {
        (Some(user), Some(pass), Some(mech)) => base.insert(
            "security.protocol"@,
            "SASL_SSL"@,
        ).insert("sasl.username"@, user@).insert("sasl.password"@, pass@).insert(
            "sasl.mechanism"@,
            mech@,
        ),
        _ => base,
    }
}

/// The options after both security rules, TLS first.
pub open spec fn secured_settings(base: Map<Seq<char>, Seq<char>>, cfg: Config) -> Map<
    Seq<char>,
    Seq<char>,
> {
    sasl_settings(tls_settings(base, cfg), cfg)
}

/// Applies the TLS rule and then the SASL rule to `client`.
pub fn apply_security(client: &mut ClientConfig, cfg: &Config)
    ensures
        client_settings(*final(client)) == secured_settings(client_settings(*old(client)), *cfg),
{
    if let Some(ca) = &cfg.ssl_ca {
        set_option(client, "security.protocol", "SSL");
        set_option(client, "ssl.ca.location", ca.as_str());
        if let Some(cert) = &cfg.ssl_cert {
            if let Some(key) = &cfg.ssl_key {
                set_option(client, "ssl.certificate.location", cert.as_str());
                set_option(client, "ssl.key.location", key.as_str());
            }
        }
    }
    if let Some(user) = &cfg.sasl_username {
        if let Some(pass) = &cfg.sasl_password {
            if let Some(mech) = &cfg.sasl_mechanism {
                set_option(client, "security.protocol", "SASL_SSL");
                set_option(client, "sasl.username", user.as_str());
                set_option(client, "sasl.password", pass.as_str());
                set_option(client, "sasl.mechanism", mech.as_str());
            }
        }
    }
}

/// The options of a producer's client.
pub open spec fn producer_settings(cfg: Config) -> Map<Seq<char>, Seq<char>> {
    secured_settings(
        no_settings().insert("bootstrap.servers"@, cfg.bootstrap@).insert(
            "message.timeout.ms"@,
            "5000"@,
        ).insert("compression.type"@, "lz4"@),
        cfg,
    )
}

/// Builds the client configuration of a producer.
pub fn producer_client_config(cfg: &Config) -> (client: ClientConfig)
    ensures
        client_settings(client) == producer_settings(*cfg),
{
    let mut client = new_client_config();
    set_option(&mut client, "bootstrap.servers", cfg.bootstrap.as_str());
    set_option(&mut client, "message.timeout.ms", "5000");
    set_option(&mut client, "compression.type", "lz4");
    apply_security(&mut client, cfg);
    client
}

/// The consumer group of consumer `id`: every consumer reads in a group of
/// its own, so each one receives every message.
pub open spec fn group_name(id: usize) -> Seq<char> {
    "bench-group-"@ + decimal_digits(id as nat)
}

/// The options of the client of consumer `id`.
pub open spec fn consumer_settings(cfg: Config, id: usize) -> Map<Seq<char>, Seq<char>> {
    secured_settings(
        no_settings().insert("bootstrap.servers"@, cfg.bootstrap@).insert(
            "group.id"@,
            group_name(id),
        ).insert("enable.auto.commit"@, "true"@),
        cfg,
    )
}

/// Builds the client configuration of consumer `id`.
pub fn consumer_client_config(cfg: &Config, id: usize) -> (client: ClientConfig)
    ensures
        client_settings(client) == consumer_settings(*cfg, id),
{
    let mut client = new_client_config();
    set_option(&mut client, "bootstrap.servers", cfg.bootstrap.as_str());
    let group = numbered("bench-group-", id);
    set_option(&mut client, "group.id", group.as_str());
    set_option(&mut client, "enable.auto.commit", "true");
    apply_security(&mut client, cfg);
    client
}

} // verus!
