//! Client configuration.

use vstd::prelude::*;
use std::time::Duration;
use crate::specs::clock::duration_nanos;

verus! {

/// Configuration for the HTTP client.
#[derive(Debug)]
pub struct ClientConfig {
    /// Request timeout duration.
    pub timeout: Duration,
    /// Connection timeout duration.
    pub connect_timeout: Duration,
    /// Maximum idle connections per host.
    pub pool_idle_per_host: usize,
    /// Idle connection timeout.
    pub pool_idle_timeout: Duration,
    /// Whether to retry on connection errors.
    pub retry_on_connection_failure: bool,
}

/// True for a duration of that many whole seconds.
pub open spec fn lasts_secs(d: Duration, secs: nat) -> bool {
    duration_nanos(d) == secs * 1_000_000_000
}

/// True for the default configuration: 30 s for a request, 10 s to connect,
/// 32 idle connections per host kept for 90 s, and retries on connection
/// failures.
pub open spec fn is_default_config(c: ClientConfig) -> bool {
    &&& lasts_secs(c.timeout, 30)
    &&& lasts_secs(c.connect_timeout, 10)
    &&& c.pool_idle_per_host == 32
    &&& lasts_secs(c.pool_idle_timeout, 90)
    &&& c.retry_on_connection_failure
}

impl Clone for ClientConfig {
    fn clone(&self) -> (r: Self)
        ensures
            r == *self,
    {
        ClientConfig {
            timeout: self.timeout.clone(),
            connect_timeout: self.connect_timeout.clone(),
            pool_idle_per_host: self.pool_idle_per_host,
            pool_idle_timeout: self.pool_idle_timeout.clone(),
            retry_on_connection_failure: self.retry_on_connection_failure,
        }
    }
}

impl Default for ClientConfig {
    fn default() -> (r: Self)
        ensures
            is_default_config(r),
    {
        ClientConfig {
            timeout: Duration::from_secs(30),
            connect_timeout: Duration::from_secs(10),
            pool_idle_per_host: 32,
            pool_idle_timeout: Duration::from_secs(90),
            retry_on_connection_failure: true,
        }
    }
}

impl ClientConfig {
    /// Create a new configuration builder.
    #[must_use]
    pub fn builder() -> (r: ClientConfigBuilder)
        ensures
            r.timeout is None,
            r.connect_timeout is None,
            r.pool_idle_per_host is None,
            r.pool_idle_timeout is None,
            r.retry_on_connection_failure is None,
    {
        ClientConfigBuilder::default()
    }
}

/// Builder for [`ClientConfig`]: what is not set is taken from the default.
#[derive(Debug)]
pub struct ClientConfigBuilder {
    /// The request timeout, if set.
    pub timeout: Option<Duration>,
    /// The connection timeout, if set.
    pub connect_timeout: Option<Duration>,
    /// The maximum of idle connections per host, if set.
    pub pool_idle_per_host: Option<usize>,
    /// The idle connection timeout, if set.
    pub pool_idle_timeout: Option<Duration>,
    /// Whether to retry on connection failures, if set.
    pub retry_on_connection_failure: Option<bool>,
}

fn clone_duration(d: &Option<Duration>) -> (r: Option<Duration>)
    ensures
        r == *d,
{
    match d {
        Some(x) => Some(x.clone()),
        None => None,
    }
}

impl Clone for ClientConfigBuilder {
    fn clone(&self) -> (r: Self)
        ensures
            r == *self,
    {
        ClientConfigBuilder {
            timeout: clone_duration(&self.timeout),
            connect_timeout: clone_duration(&self.connect_timeout),
            pool_idle_per_host: self.pool_idle_per_host,
            pool_idle_timeout: clone_duration(&self.pool_idle_timeout),
            retry_on_connection_failure: self.retry_on_connection_failure,
        }
    }
}

impl Default for ClientConfigBuilder {
    fn default() -> (r: Self)
        ensures
            r.timeout is None,
            r.connect_timeout is None,
            r.pool_idle_per_host is None,
            r.pool_idle_timeout is None,
            r.retry_on_connection_failure is None,
    {
        ClientConfigBuilder {
            timeout: None,
            connect_timeout: None,
            pool_idle_per_host: None,
            pool_idle_timeout: None,
            retry_on_connection_failure: None,
        }
    }
}

impl ClientConfigBuilder {
    /// Set the request timeout.
    #[must_use]
    pub fn timeout(self, timeout: Duration) -> (r: Self)
        ensures
            r == (ClientConfigBuilder { timeout: Some(timeout), ..self }),
    {
        ClientConfigBuilder { timeout: Some(timeout), ..self }
    }

    /// Set the connection timeout.
    #[must_use]
    pub fn connect_timeout(self, timeout: Duration) -> (r: Self)
        ensures
            r == (ClientConfigBuilder { connect_timeout: Some(timeout), ..self }),
    {
        ClientConfigBuilder { connect_timeout: Some(timeout), ..self }
    }

    /// Set the maximum idle connections per host.
    #[must_use]
    pub fn pool_idle_per_host(self, count: usize) -> (r: Self)
        ensures
            r == (ClientConfigBuilder { pool_idle_per_host: Some(count), ..self }),
    {
        ClientConfigBuilder { pool_idle_per_host: Some(count), ..self }
    }

    /// Set the idle connection timeout.
    #[must_use]
    pub fn pool_idle_timeout(self, timeout: Duration) -> (r: Self)
        ensures
            r == (ClientConfigBuilder { pool_idle_timeout: Some(timeout), ..self }),
    {
        ClientConfigBuilder { pool_idle_timeout: Some(timeout), ..self }
    }

    /// Set whether to retry on connection failures.
    #[must_use]
    pub fn retry_on_connection_failure(self, retry: bool) -> (r: Self)
        ensures
            r == (ClientConfigBuilder { retry_on_connection_failure: Some(retry), ..self }),
    {
        ClientConfigBuilder { retry_on_connection_failure: Some(retry), ..self }
    }

    /// Build the configuration: each value that was set, and the default for
    /// every other.
    #[must_use]
    pub fn build(self) -> (r: ClientConfig)
        ensures
            match self.timeout {
                Some(d) => r.timeout == d,
                None => lasts_secs(r.timeout, 30),
            },
            match self.connect_timeout {
                Some(d) => r.connect_timeout == d,
                None => lasts_secs(r.connect_timeout, 10),
            },
            match self.pool_idle_per_host {
                Some(n) => r.pool_idle_per_host == n,
                None => r.pool_idle_per_host == 32,
            },
            match self.pool_idle_timeout {
                Some(d) => r.pool_idle_timeout == d,
                None => lasts_secs(r.pool_idle_timeout, 90),
            },
            match self.retry_on_connection_failure {
                Some(b) => r.retry_on_connection_failure == b,
                None => r.retry_on_connection_failure,
            },
    {
        let defaults = ClientConfig::default();
        ClientConfig {
            timeout: match self.timeout {
                Some(d) => d,
                None => defaults.timeout,
            },
            connect_timeout: match self.connect_timeout {
                Some(d) => d,
                None => defaults.connect_timeout,
            },
            pool_idle_per_host: match self.pool_idle_per_host {
                Some(n) => n,
                None => defaults.pool_idle_per_host,
            },
            pool_idle_timeout: match self.pool_idle_timeout {
                Some(d) => d,
                None => defaults.pool_idle_timeout,
            },
            retry_on_connection_failure: match self.retry_on_connection_failure {
                Some(b) => b,
                None => defaults.retry_on_connection_failure,
            },
        }
    }
}

} // verus!
