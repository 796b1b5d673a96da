//! The native side of a desktop chat window: what is asked of the local chat
//! service, and what its answers mean.
//!
//! The crate performs no input or output. Each operation comes in two halves:
//! one names the HTTP request to make, the other turns what came back into the
//! operation's result. Whoever holds the HTTP client carries the request out
//! in between, once.

pub mod api_client;
pub mod commands;
pub mod error;
pub mod exchange;
