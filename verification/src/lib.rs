//! Connection core for a Pulsar-style pub/sub client.
//!
//! A single connection multiplexes many logical exchanges (lookups,
//! producer registration, publishing, subscriptions, keep-alive) over one
//! framed transport.  This crate holds the verified heart of that core:
//! the protocol frame model, the frame builders, the request correlator
//! that routes unordered broker responses back to their callers, and the
//! sender surface that issues requests.  The asynchronous plumbing that
//! drives these pieces (sockets, TLS, task spawning) lives outside, in an
//! ordinary Rust shell around this library.

pub mod channel;
pub mod connection;
pub mod consumer;
pub mod error;
pub mod executor;
pub mod messages;
pub mod producer;
pub mod proto;
pub mod tables;
