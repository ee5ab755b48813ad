//! Database-pool integration support for a web framework: the configuration
//! read for each named database pool, and the decision logic of the
//! mutual-TLS client-certificate request guard.
//!
//! All connection lifecycle, transport, and certificate parsing is the
//! business of the surrounding framework and its driver libraries. What is
//! here is the part that decides: given what the connection offered, does a
//! request guard succeed, forward, or fail?

pub mod config;
pub mod mtls;
