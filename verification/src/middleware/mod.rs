//! The decisions of the middleware layers.
//!
//! A layer wraps an inner service. What a layer decides (which header to add,
//! whether to retry, whether the circuit is open, where a redirect leads) is
//! here; calling the inner service and waiting for it is left to the caller.

pub mod basic_auth;
pub mod bearer_auth;
pub mod circuit_breaker;
pub mod decompression;
pub mod follow_redirect;
pub mod logging;
pub mod metrics;
pub mod retry;
