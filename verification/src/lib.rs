//! Authentication token pipeline with a persistent credential cache.
//!
//! The library decides, from an optional cached credential record and the
//! current time, whether a stored access token can be reused, refreshed, or
//! must be re-derived through an interactive login, and it gives the cached
//! record a durable textual form that round-trips losslessly.

pub mod clock;
pub mod config;
pub mod exchange;
pub mod numeral;
pub mod orchestrator;
pub mod store;

pub use config::Config;
