//! Circuit breaker: a state machine that stops requests while a service fails.
//!
//! The circuit is closed at first. A run of failures as long as the failure
//! threshold opens it. While it is open requests are refused, until the open
//! duration has passed: then it is half-open and lets requests through. A
//! run of successes as long as the success threshold closes it again; a
//! failure opens it again.

use vstd::prelude::*;
use std::time::Duration;
use crate::config::lasts_secs;
use crate::error::Error;
use crate::response::{status_in, Response};
use crate::specs::clock::{duration_nanos, since_epoch};

verus! {

/// Circuit breaker states.
#[derive(Debug, Clone, Copy, PartialEq, Eq, Structural)]
pub enum CircuitState {
    /// Circuit is closed, requests flow normally.
    Closed,
    /// Circuit is open, requests are rejected immediately.
    Open,
    /// Circuit is half-open, allowing test requests.
    HalfOpen,
}

/// Configuration for the circuit breaker.
#[derive(Debug)]
pub struct CircuitBreakerConfig {
    /// Number of consecutive failures before opening the circuit.
    pub failure_threshold: u32,
    /// Duration the circuit stays open before transitioning to half-open.
    pub open_duration: Duration,
    /// Number of successful requests needed to close the circuit from half-open.
    pub success_threshold: u32,
}

impl Default for CircuitBreakerConfig {
    fn default() -> (r: Self)
        ensures
            r.failure_threshold == 5,
            lasts_secs(r.open_duration, 30),
            r.success_threshold == 2,
    {
        CircuitBreakerConfig {
            failure_threshold: 5,
            open_duration: Duration::from_secs(30),
            success_threshold: 2,
        }
    }
}

impl Clone for CircuitBreakerConfig {
    fn clone(&self) -> (r: Self)
        ensures
            r == *self,
    {
        CircuitBreakerConfig {
            failure_threshold: self.failure_threshold,
            open_duration: self.open_duration.clone(),
            success_threshold: self.success_threshold,
        }
    }
}

impl CircuitBreakerConfig {
    /// Create a new circuit breaker configuration.
    #[must_use]
    pub fn new(failure_threshold: u32, open_duration: Duration, success_threshold: u32) -> (r:
        Self)
        ensures
            r == (CircuitBreakerConfig { failure_threshold, open_duration, success_threshold }),
    {
        CircuitBreakerConfig { failure_threshold, open_duration, success_threshold }
    }

    /// Set the failure threshold.
    #[must_use]
    pub fn with_failure_threshold(self, threshold: u32) -> (r: Self)
        ensures
            r == (CircuitBreakerConfig { failure_threshold: threshold, ..self }),
    {
        CircuitBreakerConfig { failure_threshold: threshold, ..self }
    }

    /// Set the open duration.
    #[must_use]
    pub fn with_open_duration(self, duration: Duration) -> (r: Self)
        ensures
            r == (CircuitBreakerConfig { open_duration: duration, ..self }),
    {
        CircuitBreakerConfig { open_duration: duration, ..self }
    }

    /// Set the success threshold.
    #[must_use]
    pub fn with_success_threshold(self, threshold: u32) -> (r: Self)
        ensures
            r == (CircuitBreakerConfig { success_threshold: threshold, ..self }),
    {
        CircuitBreakerConfig { success_threshold: threshold, ..self }
    }
}

/// The state of a circuit breaker.
#[derive(Debug)]
pub struct CircuitBreakerState {
    /// Current state.
    pub state: CircuitState,
    /// Consecutive failure count.
    pub failure_count: u32,
    /// Consecutive success count (used in half-open state).
    pub success_count: u32,
    /// When the circuit opened, in milliseconds since the epoch.
    pub opened_at: u64,
    /// Configuration.
    pub config: CircuitBreakerConfig,
}

/// A count after one more event; the count starts again from zero after
/// `u32::MAX`.
pub open spec fn bumped(count: u32) -> u32 {
    if count == u32::MAX {
        0
    } else {
        (count + 1) as u32
    }
}

/// The milliseconds from `since` to `now`, or zero where `now` is earlier.
pub open spec fn elapsed_millis(now: u64, since: u64) -> nat {
    if now >= since {
        (now - since) as nat
    } else {
        0
    }
}

/// True when an open circuit has been open for its open duration.
pub open spec fn open_long_enough(s: CircuitBreakerState, now: u64) -> bool {
    elapsed_millis(now, s.opened_at) * 1_000_000 >= duration_nanos(s.config.open_duration)
}

/// True when a request is let through at time `now`.
pub open spec fn allows(s: CircuitBreakerState, now: u64) -> bool {
    match s.state {
        CircuitState::Closed => true,
        CircuitState::HalfOpen => true,
        CircuitState::Open => open_long_enough(s, now),
    }
}

/// The state after a request was considered at time `now`: an open circuit
/// that has been open long enough becomes half-open and counts successes from
/// zero.
pub open spec fn after_request(s: CircuitBreakerState, now: u64) -> CircuitBreakerState {
    if s.state is Open && open_long_enough(s, now) {
        CircuitBreakerState { state: CircuitState::HalfOpen, success_count: 0, ..s }
    } else {
        s
    }
}

/// The state after a success.
pub open spec fn after_success(s: CircuitBreakerState) -> CircuitBreakerState {
    match s.state {
        CircuitState::Closed => CircuitBreakerState { failure_count: 0, ..s },
        CircuitState::HalfOpen => if bumped(s.success_count) >= s.config.success_threshold {
            CircuitBreakerState {
                state: CircuitState::Closed,
                failure_count: 0,
                success_count: bumped(s.success_count),
                ..s
            }
        } else {
            CircuitBreakerState { success_count: bumped(s.success_count), ..s }
        },
        CircuitState::Open => s,
    }
}

/// The state after a failure at time `now`.
pub open spec fn after_failure(s: CircuitBreakerState, now: u64) -> CircuitBreakerState {
    match s.state {
        CircuitState::Closed => if bumped(s.failure_count) >= s.config.failure_threshold {
            CircuitBreakerState {
                state: CircuitState::Open,
                failure_count: bumped(s.failure_count),
                opened_at: now,
                ..s
            }
        } else {
            CircuitBreakerState { failure_count: bumped(s.failure_count), ..s }
        },
        CircuitState::HalfOpen => CircuitBreakerState {
            state: CircuitState::Open,
            opened_at: now,
            ..s
        },
        CircuitState::Open => s,
    }
}

/// True for the outcomes that count as failures: no response, or a 5xx response.
pub open spec fn is_failure(outcome: Result<Response<bytes::Bytes>, Error>) -> bool {
    match outcome {
        Ok(response) => status_in(response.spec_status(), 500, 600),
        Err(_) => true,
    }
}

fn bump(count: u32) -> (r: u32)
    ensures
        r == bumped(count),
{
    if count == u32::MAX {
        0
    } else {
        count + 1
    }
}

/// The whole milliseconds of a time since the epoch: 0 where there is no such
/// time, and the maximum of `u64` for a time beyond its range.
pub open spec fn millis_of(elapsed: Option<Duration>) -> u64 {
    match elapsed {
        Some(d) => if duration_nanos(d) / 1_000_000 > u64::MAX {
            u64::MAX
        } else {
            (duration_nanos(d) / 1_000_000) as u64
        },
        None => 0,
    }
}

/// The whole milliseconds of a time since the epoch, as the circuit breaker
/// counts time.
pub fn whole_millis(elapsed: Option<Duration>) -> (r: u64)
    ensures
        r == millis_of(elapsed),
{
    match elapsed {
        Some(d) => {
            let millis: u128 = d.as_nanos() / 1_000_000;
            if millis > 0xFFFF_FFFF_FFFF_FFFF {
                u64::MAX
            } else {
                millis as u64
            }
        },
        None => 0,
    }
}

/// A closed circuit without any count.
pub open spec fn initial(config: CircuitBreakerConfig) -> CircuitBreakerState {
    CircuitBreakerState {
        state: CircuitState::Closed,
        failure_count: 0,
        success_count: 0,
        opened_at: 0,
        config,
    }
}

impl CircuitBreakerState {
    /// A closed circuit without any count.
    pub fn new(config: CircuitBreakerConfig) -> (r: Self)
        ensures
            r == initial(config),
    {
        CircuitBreakerState {
            state: CircuitState::Closed,
            failure_count: 0,
            success_count: 0,
            opened_at: 0,
            config,
        }
    }

    /// The current state.
    pub fn get_state(&self) -> (r: CircuitState)
        ensures
            r == self.state,
    {
        self.state
    }

    /// The current time in whole milliseconds since the Unix epoch, from the
    /// system clock; 0 where the clock stands before the epoch.
    pub fn current_time_millis() -> u64 {
        whole_millis(since_epoch())
    }

    /// Decides whether a request is let through at time `now`.
    pub fn should_allow_request(&mut self, now: u64) -> (r: bool)
        ensures
            r == allows(*old(self), now),
            *final(self) == after_request(*old(self), now),
    {
        match self.state {
            CircuitState::Closed => true,
            CircuitState::HalfOpen => true,
            CircuitState::Open => {
                let elapsed: u128 = now.saturating_sub(self.opened_at) as u128;
                if elapsed * 1_000_000 >= self.config.open_duration.as_nanos() {
                    self.state = CircuitState::HalfOpen;
                    self.success_count = 0;
                    true
                } else {
                    false
                }
            },
        }
    }

    /// Records a success.
    pub fn record_success(&mut self)
        ensures
            *final(self) == after_success(*old(self)),
    {
        match self.state {
            CircuitState::Closed => {
                self.failure_count = 0;
            },
            CircuitState::HalfOpen => {
                let count = bump(self.success_count);
                self.success_count = count;
                if count >= self.config.success_threshold {
                    self.state = CircuitState::Closed;
                    self.failure_count = 0;
                }
            },
            CircuitState::Open => {},
        }
    }

    /// Records a failure at time `now`.
    pub fn record_failure(&mut self, now: u64)
        ensures
            *final(self) == after_failure(*old(self), now),
    {
        match self.state {
            CircuitState::Closed => {
                let count = bump(self.failure_count);
                self.failure_count = count;
                if count >= self.config.failure_threshold {
                    self.state = CircuitState::Open;
                    self.opened_at = now;
                }
            },
            CircuitState::HalfOpen => {
                self.state = CircuitState::Open;
                self.opened_at = now;
            },
            CircuitState::Open => {},
        }
    }
}

/// The state after an outcome was recorded at time `now`.
pub open spec fn after_outcome(
    s: CircuitBreakerState,
    outcome: Result<Response<bytes::Bytes>, Error>,
    now: u64,
) -> CircuitBreakerState {
    if is_failure(outcome) {
        after_failure(s, now)
    } else {
        after_success(s)
    }
}

impl CircuitBreakerState {
    /// Lets a request through at time `now`, or refuses it with a connection
    /// error.
    pub fn let_through(&mut self, now: u64) -> (r: Result<(), Error>)
        ensures
            *final(self) == after_request(*old(self), now),
            allows(*old(self), now) ==> r is Ok,
            !allows(*old(self), now) ==> (r matches Err(Error::Connection(m)) && m@
                == "circuit breaker is open"@),
    {
        if self.should_allow_request(now) {
            Ok(())
        } else {
            Err(Error::connection("circuit breaker is open"))
        }
    }

    /// Records the outcome of a request that was let through: a failure where
    /// there is no response or the response is 5xx, else a success.
    pub fn record(&mut self, outcome: &Result<Response<bytes::Bytes>, Error>, now: u64)
        ensures
            *final(self) == after_outcome(*old(self), *outcome, now),
    {
        let failed = match outcome {
            Ok(response) => response.is_server_error(),
            Err(_) => true,
        };
        if failed {
            self.record_failure(now);
        } else {
            self.record_success();
        }
    }
}

/// Layer that applies circuit breaker pattern to requests.
///
/// A layer has one state, and every service of the layer acts on that state.
/// The state is never copied: a service takes the layer's state with it, and
/// `CircuitBreaker::into_parts` hands the layer back with the state as the
/// service left it, for the next service.
#[derive(Debug)]
pub struct CircuitBreakerLayer {
    /// The one state of the layer.
    pub state: CircuitBreakerState,
}

/// Service that applies circuit breaker pattern to requests.
#[derive(Debug)]
pub struct CircuitBreaker<S> {
    /// The wrapped service.
    pub inner: S,
    /// The state of the layer that the service belongs to.
    pub state: CircuitBreakerState,
}

impl CircuitBreakerLayer {
    /// Create a new circuit breaker layer with the given configuration.
    #[must_use]
    pub fn new(config: CircuitBreakerConfig) -> (r: Self)
        ensures
            r.state == initial(config),
    {
        CircuitBreakerLayer { state: CircuitBreakerState::new(config) }
    }

    /// Wraps a service. The service acts on the state of the layer as it
    /// stands: what earlier services of the layer recorded is what it sees.
    pub fn layer<S>(self, inner: S) -> (r: CircuitBreaker<S>)
        ensures
            r.inner == inner,
            r.state == self.state,
    {
        CircuitBreaker { inner, state: self.state }
    }
}

impl<S> CircuitBreaker<S> {
    /// Takes the service apart: the wrapped service, and the layer with its
    /// state as this service left it.
    pub fn into_parts(self) -> (r: (S, CircuitBreakerLayer))
        ensures
            r.0 == self.inner,
            r.1.state == self.state,
    {
        (self.inner, CircuitBreakerLayer { state: self.state })
    }

    /// Get the current circuit state.
    #[must_use]
    pub fn circuit_state(&self) -> (r: CircuitState)
        ensures
            r == self.state.state,
    {
        self.state.get_state()
    }

    /// Lets a request through at time `now`, or refuses it. A refused request
    /// fails with a connection error and does not reach the wrapped service.
    pub fn let_through(&mut self, now: u64) -> (r: Result<(), Error>)
        ensures
            final(self).inner == old(self).inner,
            final(self).state == after_request(old(self).state, now),
            allows(old(self).state, now) ==> r is Ok,
            !allows(old(self).state, now) ==> (r matches Err(Error::Connection(m)) && m@
                == "circuit breaker is open"@),
    {
        self.state.let_through(now)
    }

    /// Records the outcome of a request that was let through.
    pub fn record(&mut self, outcome: &Result<Response<bytes::Bytes>, Error>, now: u64)
        ensures
            final(self).inner == old(self).inner,
            final(self).state == after_outcome(old(self).state, *outcome, now),
    {
        self.state.record(outcome, now);
    }
}

/// A closed circuit stays closed on success, and a success wipes the failures
/// counted so far.
pub proof fn lemma_success_keeps_closed(s: CircuitBreakerState)
    requires
        s.state is Closed,
    ensures
        after_success(s).state is Closed,
        after_success(s).failure_count == 0,
{
}

/// A closed circuit opens exactly when the failure that is recorded brings the
/// count to the threshold.
pub proof fn lemma_failures_open(s: CircuitBreakerState, now: u64)
    requires
        s.state is Closed,
    ensures
        after_failure(s, now).state is Open <==> bumped(s.failure_count)
            >= s.config.failure_threshold,
        after_failure(s, now).state is Open ==> after_failure(s, now).opened_at == now,
{
}

/// An open circuit lets nothing through before its open duration has passed,
/// and recording outcomes does not change it.
pub proof fn lemma_open_is_shut(s: CircuitBreakerState, now: u64)
    requires
        s.state is Open,
        !open_long_enough(s, now),
    ensures
        !allows(s, now),
        after_request(s, now) == s,
        after_success(s) == s,
        after_failure(s, now) == s,
{
}

/// Any failure in the half-open state opens the circuit again.
pub proof fn lemma_half_open_failure(s: CircuitBreakerState, now: u64)
    requires
        s.state is HalfOpen,
    ensures
        after_failure(s, now).state is Open,
        after_failure(s, now).opened_at == now,
{
}

} // verus!
