//! Retry policy: which outcomes are tried again, and how often.

use vstd::prelude::*;
use crate::error::Error;
use crate::response::Response;

verus! {

/// A simple retry policy for HTTP requests: connection errors, timeouts,
/// 5xx responses and 429 are tried again while retries remain.
#[derive(Debug, Clone, Copy)]
pub struct RetryPolicy {
    remaining: u32,
}

/// True for the statuses that are worth another try: 429 and everything
/// from 500 on.
pub open spec fn retryable_status(status: u16) -> bool {
    status >= 500 || status == 429
}

/// True for the errors that are worth another try: connection errors and
/// timeouts.
pub open spec fn retryable_error(error: Error) -> bool {
    error is Connection || error is Timeout
}

/// True for the outcomes that are worth another try.
pub open spec fn retryable(outcome: Result<Response<bytes::Bytes>, Error>) -> bool {
    match outcome {
        Ok(response) => retryable_status(response.spec_status()),
        Err(error) => retryable_error(error),
    }
}

impl RetryPolicy {
    /// The number of retries that remain.
    pub closed spec fn spec_remaining(&self) -> u32 {
        self.remaining
    }

    /// Create a new retry policy with the given maximum number of retries.
    #[must_use]
    pub fn new(max_retries: u32) -> (r: Self)
        ensures
            r.spec_remaining() == max_retries,
    {
        RetryPolicy { remaining: max_retries }
    }

    /// The number of retries that remain.
    #[must_use]
    pub fn remaining(&self) -> (r: u32)
        ensures
            r == self.spec_remaining(),
    {
        self.remaining
    }

    /// Returns `true` if the response should be retried.
    pub fn should_retry_response(response: &Response<bytes::Bytes>) -> (r: bool)
        ensures
            r == retryable_status(response.spec_status()),
    {
        let status = response.status();
        status >= 500 || status == 429
    }

    /// Returns `true` if the error should be retried.
    pub fn should_retry_error(error: &Error) -> (r: bool)
        ensures
            r == retryable_error(*error),
    {
        error.is_connection() || error.is_timeout()
    }

    /// Decides whether an outcome is tried again. A retry is granted while
    /// retries remain and the outcome is worth one, and it uses one up.
    pub fn retry(&mut self, outcome: &Result<Response<bytes::Bytes>, Error>) -> (r: bool)
        ensures
            r == (old(self).spec_remaining() > 0 && retryable(*outcome)),
            final(self).spec_remaining() == if r {
                (old(self).spec_remaining() - 1) as u32
            } else {
                old(self).spec_remaining()
            },
    {
        if self.remaining == 0 {
            return false;
        }
        let should_retry = match outcome {
            Ok(response) => Self::should_retry_response(response),
            Err(error) => Self::should_retry_error(error),
        };
        if should_retry {
            self.remaining = self.remaining - 1;
            true
        } else {
            false
        }
    }
}

} // verus!
