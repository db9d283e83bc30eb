//! Request/response logging: what is reported of a call, and at which level.

use vstd::prelude::*;
use crate::error::Error;
use crate::response::{status_in, Response};

verus! {

/// Log level for the logging middleware.
#[derive(Debug, Clone, Copy, PartialEq, Eq, Structural)]
pub enum LogLevel {
    /// Log at debug level (request/response details).
    Debug,
    /// Log at info level (summary only).
    Info,
}

impl Default for LogLevel {
    fn default() -> (r: Self)
        ensures
            r == LogLevel::Info,
    {
        LogLevel::Info
    }
}

/// What is reported of the outcome of a call.
#[derive(Debug, Clone, Copy, PartialEq, Eq, Structural)]
pub enum LogEvent {
    /// The request completed with a 2xx status: reported as information.
    Completed(u16),
    /// The request completed with another status: reported as a warning.
    HttpError(u16),
    /// The request failed without a response: reported as a warning.
    Failed,
}

/// Layer that adds request/response logging.
#[derive(Debug, Clone, Copy)]
pub struct LoggingLayer {
    /// The level at which a request is reported.
    pub level: LogLevel,
}

/// Service that logs requests and responses.
#[derive(Debug)]
pub struct Logging<S> {
    /// The wrapped service.
    pub inner: S,
    /// The level at which a request is reported.
    pub level: LogLevel,
}

impl Default for LoggingLayer {
    fn default() -> (r: Self)
        ensures
            r.level == LogLevel::Info,
    {
        LoggingLayer { level: LogLevel::Info }
    }
}

impl LoggingLayer {
    /// Create a new logging layer with default settings.
    #[must_use]
    pub fn new() -> (r: Self)
        ensures
            r.level == LogLevel::Info,
    {
        LoggingLayer { level: LogLevel::Info }
    }

    /// Create a logging layer that logs at debug level.
    #[must_use]
    pub fn debug() -> (r: Self)
        ensures
            r.level == LogLevel::Debug,
    {
        LoggingLayer { level: LogLevel::Debug }
    }

    /// Wraps a service.
    pub fn layer<S>(&self, inner: S) -> (r: Logging<S>)
        ensures
            r.inner == inner,
            r.level == self.level,
    {
        Logging { inner, level: self.level }
    }
}

/// What is reported of an outcome.
pub open spec fn event_of(outcome: Result<Response<bytes::Bytes>, Error>) -> LogEvent {
    match outcome {
        Ok(response) => if status_in(response.spec_status(), 200, 300) {
            LogEvent::Completed(response.spec_status())
        } else {
            LogEvent::HttpError(response.spec_status())
        },
        Err(_) => LogEvent::Failed,
    }
}

impl<S> Logging<S> {
    /// Create a new logging service wrapping the given service.
    pub fn new(inner: S) -> (r: Self)
        ensures
            r.inner == inner,
            r.level == LogLevel::Info,
    {
        Logging { inner, level: LogLevel::Info }
    }

    /// What is reported of the outcome of a call.
    pub fn event(outcome: &Result<Response<bytes::Bytes>, Error>) -> (r: LogEvent)
        ensures
            r == event_of(*outcome),
    {
        match outcome {
            Ok(response) => if response.is_success() {
                LogEvent::Completed(response.status())
            } else {
                LogEvent::HttpError(response.status())
            },
            Err(_) => LogEvent::Failed,
        }
    }
}

} // verus!
