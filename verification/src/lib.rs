//! A load-generation benchmark engine for a publish/subscribe broker.
//!
//! The crate holds the decisions of a benchmark run, each with its
//! contract: which tasks a run consists of and how it ends
//! ([`orchestrator`]), what a producer and a consumer do when a wait of
//! theirs has ended ([`producer`], [`consumer`]), how the target rate is
//! kept and raised ([`throughput`]), how events are counted and reported
//! ([`metrics`]), when the error breaker stops the run ([`monitor`]), and
//! the one-way shutdown signal ([`shutdown`]). It also builds what the
//! workers hand to the broker client: its options ([`client`]) and the
//! messages ([`payload`]).
//!
//! Nothing here waits, sleeps or talks to a broker. Every wait is made by
//! the caller, raced against the shutdown signal, and its outcome is handed
//! in as a [`wait::Waited`].

pub mod client;
pub mod config;
pub mod consumer;
pub mod error;
pub mod metrics;
pub mod monitor;
pub mod orchestrator;
pub mod payload;
pub mod producer;
pub mod shutdown;
pub mod text;
pub mod throughput;
pub mod wait;
