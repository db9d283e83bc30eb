//! Metrics: the names and labels under which a call is recorded.

use vstd::prelude::*;
use crate::error::Error;
use crate::response::Response;
use crate::text::{decimal_of, decimal_string};

verus! {

/// The label that carries the request method.
pub const LABEL_METHOD: &'static str = "method";

/// The label that carries the status.
pub const LABEL_STATUS: &'static str = "status";

/// The counter of requests, by method and status.
pub const METRIC_REQUESTS_TOTAL: &'static str = "http_client_requests_total";

/// The histogram of request durations in seconds, by method.
pub const METRIC_REQUEST_DURATION: &'static str = "http_client_request_duration_seconds";

/// The gauge of requests in flight.
pub const METRIC_REQUESTS_IN_FLIGHT: &'static str = "http_client_requests_in_flight";

/// Layer that records HTTP metrics.
#[derive(Debug, Clone, Copy)]
pub struct MetricsLayer {
    _private: (),
}

/// Service that records HTTP metrics.
#[derive(Debug)]
pub struct Metrics<S> {
    /// The wrapped service.
    pub inner: S,
}

impl Default for MetricsLayer {
    fn default() -> Self {
        MetricsLayer { _private: () }
    }
}

impl MetricsLayer {
    /// Create a new metrics layer.
    #[must_use]
    pub fn new() -> Self {
        MetricsLayer { _private: () }
    }

    /// Wraps a service.
    pub fn layer<S>(&self, inner: S) -> (r: Metrics<S>)
        ensures
            r.inner == inner,
    {
        Metrics { inner }
    }
}

/// The status label of an outcome: the status code in decimal, or `error`
/// where there was no response.
pub open spec fn status_label_of(outcome: Result<Response<bytes::Bytes>, Error>) -> Seq<char> {
    match outcome {
        Ok(response) => decimal_of(response.spec_status() as nat),
        Err(_) => "error"@,
    }
}

impl<S> Metrics<S> {
    /// Create a new metrics service wrapping the given service.
    pub fn new(inner: S) -> (r: Self)
        ensures
            r.inner == inner,
    {
        Metrics { inner }
    }

    /// The status label under which an outcome is counted.
    pub fn status_label(outcome: &Result<Response<bytes::Bytes>, Error>) -> (r: String)
        ensures
            r@ == status_label_of(*outcome),
    {
        match outcome {
            Ok(response) => decimal_string(response.status() as u64),
            Err(_) => "error".to_owned(),
        }
    }
}

} // verus!
