//! A tiny service that holds one secret in memory and hands it back, verbatim,
//! on every request, and that stops cleanly on a termination signal.
//!
//! The library holds the decisions: the tiered resolution of the secret, the
//! one-slot shutdown notification and the lifecycle of the responder. The
//! program around it performs the reads, writes, signal handling and network
//! work that those decisions ask for.
pub mod error;
pub mod resolver;
pub mod secret;
pub mod service;
pub mod shutdown;
