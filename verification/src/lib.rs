//! Relays line-delimited JSON-RPC messages between a local line-oriented
//! input/output pair and a single remote HTTP endpoint.
//!
//! The verified core is the message-pump/retry state machine, the response
//! decoder (plain JSON body vs. server-sent-event stream), the synthetic
//! error envelope builder, and the line-level input hygiene. The unverified
//! surroundings (the actual HTTP exchange, the async runtime, signal
//! handling, logging) live outside this library and drive it through the
//! contracts stated here.

pub mod config;
pub mod envelope;
pub mod lines;
pub mod pump;
pub mod sse;
pub mod text;
pub mod transport;
