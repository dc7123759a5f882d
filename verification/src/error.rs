//! The errors of a benchmark run.

use rdkafka::error::KafkaError;
use std::str::Utf8Error;
use vstd::prelude::*;
use vstd::string::StringExecFns;

verus! {

/// `rdkafka::error::KafkaError`, carried as an opaque value.
#[verifier::external_type_specification]
#[verifier::external_body]
pub struct ExKafkaError(rdkafka::error::KafkaError);

/// `core::str::Utf8Error`, carried as an opaque value.
#[verifier::external_type_specification]
#[verifier::external_body]
pub struct ExUtf8Error(core::str::Utf8Error);

/// What can go wrong in a run.
#[derive(Debug)]
pub enum BenchmarkError {
    /// A setting of the broker client is wrong.
    KafkaConfig(String),
    /// The broker client could not be created.
    KafkaClient(KafkaError),
    /// A message could not be sent.
    MessageSend(String),
    /// A message could not be received.
    MessageReceive(String),
    /// A payload is not well-formed UTF-8.
    InvalidUtf8(Utf8Error),
    /// A setting of the run is wrong.
    Config(String),
}

impl From<KafkaError> for BenchmarkError {
    fn from(error: KafkaError) -> (wrapped: Self) {
        BenchmarkError::KafkaClient(error)
    }
}

impl vstd::std_specs::convert::FromSpecImpl<KafkaError> for BenchmarkError {
    open spec fn obeys_from_spec() -> bool {
        true
    }

    open spec fn from_spec(error: KafkaError) -> Self {
        BenchmarkError::KafkaClient(error)
    }
}

impl From<Utf8Error> for BenchmarkError {
    fn from(error: Utf8Error) -> (wrapped: Self) {
        BenchmarkError::InvalidUtf8(error)
    }
}

impl vstd::std_specs::convert::FromSpecImpl<Utf8Error> for BenchmarkError {
    open spec fn obeys_from_spec() -> bool {
        true
    }

    open spec fn from_spec(error: Utf8Error) -> Self {
        BenchmarkError::InvalidUtf8(error)
    }
}

/// `to_string` of a `KafkaError`: the client's own words for the error.
/// Nothing is claimed of them.
#[verifier::external_body]
fn kafka_error_text(error: &KafkaError) -> String {
    error.to_string()
}

/// With what the message of each kind of error begins.
pub open spec fn message_prefix(error: BenchmarkError) -> Seq<char> {
    match error {
        BenchmarkError::KafkaConfig(_) => "Kafka configuration error: "@,
        BenchmarkError::KafkaClient(_) => "Kafka client creation failed: "@,
        BenchmarkError::MessageSend(_) => "Message send failed: "@,
        BenchmarkError::MessageReceive(_) => "Message receive failed: "@,
        BenchmarkError::InvalidUtf8(_) => "Invalid UTF-8 in message payload"@,
        BenchmarkError::Config(_) => "Configuration error: "@,
    }
}

/// Whether `text` is the message of `error`: the prefix of its kind,
/// followed by the detail that the error carries. A client error is
/// followed by the client's words, an invalid payload by nothing.
pub open spec fn is_message_of(text: Seq<char>, error: BenchmarkError) -> bool {
    match error {
        BenchmarkError::KafkaConfig(detail) => text == message_prefix(error) + detail@,
        BenchmarkError::KafkaClient(_) => exists|detail: Seq<char>|
            text == message_prefix(error) + detail,
        BenchmarkError::MessageSend(detail) => text == message_prefix(error) + detail@,
        BenchmarkError::MessageReceive(detail) => text == message_prefix(error) + detail@,
        BenchmarkError::InvalidUtf8(_) => text == message_prefix(error),
        BenchmarkError::Config(detail) => text == message_prefix(error) + detail@,
    }
}

impl BenchmarkError {
    /// The message of the error, for logs.
    pub fn message(&self) -> (text: String)
        ensures
            is_message_of(text@, *self),
    {
        match self {
            BenchmarkError::KafkaConfig(detail) => {
                String::from_str("Kafka configuration error: ").concat(detail.as_str())
            },
            BenchmarkError::KafkaClient(error) => {
                let detail = kafka_error_text(error);
                let text = String::from_str("Kafka client creation failed: ").concat(
                    detail.as_str(),
                );
                assert(text@ == message_prefix(*self) + detail@);
                text
            },
            BenchmarkError::MessageSend(detail) => {
                String::from_str("Message send failed: ").concat(detail.as_str())
            },
            BenchmarkError::MessageReceive(detail) => {
                String::from_str("Message receive failed: ").concat(detail.as_str())
            },
            BenchmarkError::InvalidUtf8(_) => String::from_str("Invalid UTF-8 in message payload"),
            BenchmarkError::Config(detail) => {
                String::from_str("Configuration error: ").concat(detail.as_str())
            },
        }
    }
}

} // verus!
