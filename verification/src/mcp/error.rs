//! Errors of the connection layer, and the circuit breaker that stops
//! calls to a peer after repeated failures until it has had time to recover.

use vstd::prelude::*;
use crate::clock::now_millis;
use crate::text::{concat2, owned};
use crate::utils::error::McpError as UtilsMcpError;

verus! {

/// Errors of the connection layer.
#[derive(Debug, PartialEq, Eq)]
pub enum McpError {
    /// An input/output operation failed; the text describes how.
    Io(String),
    /// A protocol rule was broken.
    Protocol(String),
    /// The connection failed.
    Connection(String),
    /// The operation timed out.
    Timeout,
    /// Every retry failed; the text is the last error.
    RetryExhausted(String),
    /// The circuit breaker refuses calls.
    CircuitBreakerOpen,
    /// The message could not be interpreted.
    InvalidMessage(String),
    /// A value could not be serialized.
    Serialization(String),
    /// A value could not be deserialized.
    Deserialization(String),
}

/// The message of an error.
pub open spec fn connection_error_text(e: McpError) -> Seq<char> {
    match e {
        McpError::Io(s) => "IO error: "@ + s@,
        McpError::Protocol(s) => "Protocol error: "@ + s@,
        McpError::Connection(s) => "Connection error: "@ + s@,
        McpError::Timeout => "Operation timed out"@,
        McpError::RetryExhausted(s) => "Retry exhausted: "@ + s@,
        McpError::CircuitBreakerOpen => "Circuit breaker is open"@,
        McpError::InvalidMessage(s) => "Invalid message: "@ + s@,
        McpError::Serialization(s) => "Serialization error: "@ + s@,
        McpError::Deserialization(s) => "Deserialization error: "@ + s@,
    }
}

/// The protocol-layer errors that the connection layer takes over.
pub open spec fn convertible(e: UtilsMcpError) -> bool {
    ||| e is InvalidMessage
    ||| e is Io
    ||| e is Utf8
    ||| e is ConnectionFailed
    ||| e is NotConnected
    ||| e is Timeout
    ||| e is NotImplemented
}

impl McpError {
    /// The error's message.
    pub fn to_string(&self) -> (r: String)
        ensures
            r@ == connection_error_text(*self),
    {
        match self {
            McpError::Io(s) => concat2("IO error: ", s.as_str()),
            McpError::Protocol(s) => concat2("Protocol error: ", s.as_str()),
            McpError::Connection(s) => concat2("Connection error: ", s.as_str()),
            McpError::Timeout => owned("Operation timed out"),
            McpError::RetryExhausted(s) => concat2("Retry exhausted: ", s.as_str()),
            McpError::CircuitBreakerOpen => owned("Circuit breaker is open"),
            McpError::InvalidMessage(s) => concat2("Invalid message: ", s.as_str()),
            McpError::Serialization(s) => concat2("Serialization error: ", s.as_str()),
            McpError::Deserialization(s) => concat2("Deserialization error: ", s.as_str()),
        }
    }

    /// The connection-layer form of a protocol-layer error.
    pub fn from_protocol_error(err: UtilsMcpError) -> (r: McpError)
        requires
            convertible(err),
        ensures
            match err {
                UtilsMcpError::InvalidMessage(m) => r == McpError::InvalidMessage(m),
                UtilsMcpError::Io(m) => r == McpError::Io(m),
                UtilsMcpError::Utf8(m) => r matches McpError::Protocol(t) && t@ == "UTF-8 error: "@ + m@,
                UtilsMcpError::ConnectionFailed(m) => r == McpError::Connection(m),
                UtilsMcpError::NotConnected => r matches McpError::Connection(t) && t@ == "Not connected"@,
                UtilsMcpError::Timeout => r == McpError::Timeout,
                _ => r matches McpError::Protocol(t) && t@ == "Feature not implemented"@,
            },
    {
        match err {
            UtilsMcpError::InvalidMessage(m) => McpError::InvalidMessage(m),
            UtilsMcpError::Io(m) => McpError::Io(m),
            UtilsMcpError::Utf8(m) => McpError::Protocol(concat2("UTF-8 error: ", m.as_str())),
            UtilsMcpError::ConnectionFailed(m) => McpError::Connection(m),
            UtilsMcpError::NotConnected => McpError::Connection(owned("Not connected")),
            UtilsMcpError::Timeout => McpError::Timeout,
            _ => McpError::Protocol(owned("Feature not implemented")),
        }
    }
}

/// What follows a failed attempt of an operation retried up to
/// `max_attempts` times in all.
#[derive(Debug, PartialEq, Eq)]
pub enum RetryDecision {
    /// Wait, then make attempt number `attempts + 1`.
    TryAgain { attempts: u32 },
    /// Stop: the retries are used up, with the last failure's text.
    Exhausted(McpError),
}

/// After the failure with text `error` of attempt number `attempts + 1`
/// (`attempts` having failed before it): the operation is tried again while
/// fewer than `max_attempts` attempts have failed, and otherwise it stops with
/// `RetryExhausted` carrying the failure's text.
pub fn after_failure(attempts: u32, max_attempts: u32, error: String) -> (r: RetryDecision)
    requires
        attempts < u32::MAX,
    ensures
        attempts + 1 >= max_attempts ==> (r matches RetryDecision::Exhausted(McpError::RetryExhausted(m)) && m == error),
        attempts + 1 < max_attempts ==> r == (RetryDecision::TryAgain { attempts: (attempts + 1) as u32 }),
{
    let failed = attempts + 1;
    if failed >= max_attempts {
        RetryDecision::Exhausted(McpError::RetryExhausted(error))
    } else {
        RetryDecision::TryAgain { attempts: failed }
    }
}

/// The states of a circuit breaker.
#[derive(Debug, Clone, Copy, PartialEq, Eq)]
pub enum CircuitBreakerState {
    /// Calls go through.
    Closed,
    /// Calls are refused until the reset time-out has passed.
    Open,
    /// A trial call may go through.
    HalfOpen,
}

/// Stops calls after `failure_threshold` failures in a row, until
/// `reset_timeout` milliseconds have passed since the last one.
#[derive(Debug)]
pub struct CircuitBreaker {
    failure_threshold: u32,
    reset_timeout: u64,
    failures: u32,
    last_failure: Option<i64>,
    state: CircuitBreakerState,
}

impl CircuitBreaker {
    /// The state.
    pub closed spec fn spec_state(&self) -> CircuitBreakerState {
        self.state
    }

    /// The failures since the last success.
    pub closed spec fn failure_count(&self) -> u32 {
        self.failures
    }

    /// When the last failure happened, in milliseconds since the Unix epoch.
    pub closed spec fn last_failure_at(&self) -> Option<i64> {
        self.last_failure
    }

    /// The number of failures that opens the breaker.
    pub closed spec fn threshold(&self) -> u32 {
        self.failure_threshold
    }

    /// How long the breaker stays open, in milliseconds.
    pub closed spec fn timeout(&self) -> u64 {
        self.reset_timeout
    }

    /// A closed breaker without failures.
    pub fn new(failure_threshold: u32, reset_timeout: u64) -> (r: CircuitBreaker)
        ensures
            r.threshold() == failure_threshold,
            r.timeout() == reset_timeout,
            r.failure_count() == 0,
            r.last_failure_at() is None,
            r.spec_state() == CircuitBreakerState::Closed,
    {
        CircuitBreaker {
            failure_threshold,
            reset_timeout,
            failures: 0,
            last_failure: None,
            state: CircuitBreakerState::Closed,
        }
    }

    /// A call succeeded: the breaker closes and forgets its failures.
    pub fn record_success(&mut self)
        ensures
            final(self).failure_count() == 0,
            final(self).last_failure_at() is None,
            final(self).spec_state() == CircuitBreakerState::Closed,
            final(self).threshold() == old(self).threshold(),
            final(self).timeout() == old(self).timeout(),
    {
        self.failures = 0;
        self.last_failure = None;
        self.state = CircuitBreakerState::Closed;
    }

    /// A call failed at time `now`: one failure more; the breaker opens when
    /// the failures reach the threshold.
    pub fn record_failure_at(&mut self, now: i64)
        requires
            old(self).failure_count() < u32::MAX,
        ensures
            final(self).failure_count() == old(self).failure_count() + 1,
            final(self).last_failure_at() == Some(now),
            final(self).spec_state() == if final(self).failure_count() >= old(self).threshold() {
                CircuitBreakerState::Open
            } else {
                old(self).spec_state()
            },
            final(self).threshold() == old(self).threshold(),
            final(self).timeout() == old(self).timeout(),
    {
        self.failures = self.failures + 1;
        self.last_failure = Some(now);
        if self.failures >= self.failure_threshold {
            self.state = CircuitBreakerState::Open;
        }
    }

    /// A call failed, now by the clock.
    pub fn record_failure(&mut self)
        requires
            old(self).failure_count() < u32::MAX,
        ensures
            final(self).failure_count() == old(self).failure_count() + 1,
            final(self).last_failure_at() is Some,
            final(self).spec_state() == if final(self).failure_count() >= old(self).threshold() {
                CircuitBreakerState::Open
            } else {
                old(self).spec_state()
            },
            final(self).threshold() == old(self).threshold(),
            final(self).timeout() == old(self).timeout(),
    {
        self.record_failure_at(now_millis());
    }

    /// The breaker's answer `r` at time `now` to whether a call may go
    /// through, from the breaker `before` to the breaker `after`: yes when
    /// closed or half open; when open, once the reset time-out has passed
    /// since the last failure, and the breaker turns half open. Counts and
    /// settings stay.
    pub open spec fn admits_at(before: CircuitBreaker, after: CircuitBreaker, now: i64, r: bool) -> bool {
        &&& match before.spec_state() {
            CircuitBreakerState::Closed => r && after.spec_state() == CircuitBreakerState::Closed,
            CircuitBreakerState::HalfOpen => r && after.spec_state() == CircuitBreakerState::HalfOpen,
            CircuitBreakerState::Open => match before.last_failure_at() {
                Some(t) => if now - t >= before.timeout() {
                    r && after.spec_state() == CircuitBreakerState::HalfOpen
                } else {
                    !r && after.spec_state() == CircuitBreakerState::Open
                },
                None => r && after.spec_state() == CircuitBreakerState::Open,
            },
        }
        &&& after.failure_count() == before.failure_count()
        &&& after.last_failure_at() == before.last_failure_at()
        &&& after.threshold() == before.threshold()
        &&& after.timeout() == before.timeout()
    }

    /// Whether a call may go through at time `now`: always when closed or
    /// half open; when open, once the reset time-out has passed since the
    /// last failure, and the breaker turns half open.
    pub fn can_execute_at(&mut self, now: i64) -> (r: bool)
        ensures
            Self::admits_at(*old(self), *final(self), now, r),
    {
        match self.state {
            CircuitBreakerState::Closed => true,
            CircuitBreakerState::Open => {
                match self.last_failure {
                    Some(t) => {
                        let elapsed: i128 = now as i128 - t as i128;
                        if elapsed >= self.reset_timeout as i128 {
                            self.state = CircuitBreakerState::HalfOpen;
                            true
                        } else {
                            false
                        }
                    },
                    None => true,
                }
            },
            CircuitBreakerState::HalfOpen => true,
        }
    }

    /// Whether a call may go through now: the answer at the time the clock
    /// reads.
    pub fn can_execute(&mut self) -> (r: bool)
        ensures
            exists|now: i64| Self::admits_at(*old(self), *final(self), now, r),
            old(self).spec_state() != CircuitBreakerState::Open ==> r,
            final(self).failure_count() == old(self).failure_count(),
    {
        let now = now_millis();
        let r = self.can_execute_at(now);
        assert(Self::admits_at(*old(self), *self, now, r));
        r
    }
}

} // verus!
