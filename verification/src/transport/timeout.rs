//! Connect timeout and request deadline of an HTTP transport.
use crate::error::{HostError, HostErrorCode};
use crate::platform::{duration_from_millis, millis_duration};
use crate::text::{decimal, decimal_text, quoted};
use std::time::Duration;
use vstd::prelude::*;

verus! {

/// Shortest connect timeout or request deadline, in milliseconds.
pub const MIN_MILLIS: u64 = 100;

pub const DEFAULT_CONNECT_TIMEOUT_MILLIS: u64 = 2000;

pub const DEFAULT_REQUEST_DEADLINE_MILLIS: u64 = 30000;

pub const MAX_CONNECT_TIMEOUT_MILLIS: u64 = 60000;

pub const MAX_REQUEST_DEADLINE_MILLIS: u64 = 3600000;

/// A connect timeout and a request deadline, each within its bounds, the
/// timeout no longer than the deadline.
#[derive(Clone, Copy, Debug, PartialEq, Eq)]
pub struct TransportTimeoutPolicy {
    connect_timeout_millis: u64,
    request_deadline_millis: u64,
}

/// Timeouts an HTTP transport accepts.
pub open spec fn timeouts_valid(connect: u64, request: u64) -> bool {
    &&& MIN_MILLIS <= connect <= MAX_CONNECT_TIMEOUT_MILLIS
    &&& MIN_MILLIS <= request <= MAX_REQUEST_DEADLINE_MILLIS
    &&& connect <= request
}

/// The message for a value outside `MIN_MILLIS..=maximum`.
pub open spec fn range_message(name: Seq<char>, maximum: u64) -> Seq<char> {
    "transport "@ + name + " must be between "@ + decimal(MIN_MILLIS as nat) + " and "@ + decimal(
        maximum as nat,
    ) + " milliseconds"@
}

/// The error for a value outside `MIN_MILLIS..=maximum`.
pub open spec fn is_range_error(e: HostError, name: Seq<char>, value: u64, maximum: u64) -> bool {
    &&& e.code == HostErrorCode::InvalidRequest
    &&& e.message@ == range_message(name, maximum)
    &&& e.details@.len() == 1
    &&& e.details@[0].0@ == "value_ms"@
    &&& e.details@[0].1@ == decimal(value as nat)
}

/// Accepts `value` exactly when it lies in `MIN_MILLIS..=maximum`.
pub fn validate_millis(name: &str, value: u64, maximum: u64) -> (valid: Result<(), HostError>)
    ensures
        match valid {
            Ok(()) => MIN_MILLIS <= value <= maximum,
            Err(e) => !(MIN_MILLIS <= value <= maximum) && is_range_error(e, name@, value, maximum),
        },
{
    if value < MIN_MILLIS || value > maximum {
        let mut message = quoted("transport ", name, " must be between ");
        message.append(decimal_text(MIN_MILLIS).as_str());
        message.append(" and ");
        message.append(decimal_text(maximum).as_str());
        message.append(" milliseconds");
        return Err(
            HostError::with_message(HostErrorCode::InvalidRequest, message).with_detail(
                "value_ms",
                decimal_text(value),
            ),
        );
    }
    Ok(())
}

impl TransportTimeoutPolicy {
    pub const MIN_MILLIS: u64 = 100;
    pub const DEFAULT_CONNECT_TIMEOUT_MILLIS: u64 = 2000;
    pub const DEFAULT_REQUEST_DEADLINE_MILLIS: u64 = 30000;
    pub const MAX_CONNECT_TIMEOUT_MILLIS: u64 = 60000;
    pub const MAX_REQUEST_DEADLINE_MILLIS: u64 = 3600000;

    pub closed spec fn connect_ms(self) -> u64 {
        self.connect_timeout_millis
    }

    pub closed spec fn request_ms(self) -> u64 {
        self.request_deadline_millis
    }

    /// The policy with these timeouts. The connect timeout is checked
    /// first, then the request deadline, then their order.
    pub fn try_from_millis(connect_timeout_millis: u64, request_deadline_millis: u64) -> (policy: Result<TransportTimeoutPolicy, HostError>)
        ensures
            match policy {
                Ok(p) => timeouts_valid(connect_timeout_millis, request_deadline_millis)
                    && p.connect_ms() == connect_timeout_millis && p.request_ms()
                    == request_deadline_millis,
                Err(e) => !timeouts_valid(connect_timeout_millis, request_deadline_millis) && if !(
                MIN_MILLIS <= connect_timeout_millis <= MAX_CONNECT_TIMEOUT_MILLIS) {
                    is_range_error(
                        e,
                        "connect timeout"@,
                        connect_timeout_millis,
                        MAX_CONNECT_TIMEOUT_MILLIS,
                    )
                } else if !(MIN_MILLIS <= request_deadline_millis <= MAX_REQUEST_DEADLINE_MILLIS) {
                    is_range_error(
                        e,
                        "request deadline"@,
                        request_deadline_millis,
                        MAX_REQUEST_DEADLINE_MILLIS,
                    )
                } else {
                    &&& e.code == HostErrorCode::InvalidRequest
                    &&& e.message@ == "transport connect timeout cannot exceed request deadline"@
                    &&& e.details@.len() == 2
                    &&& e.details@[0].0@ == "connect_timeout_ms"@
                    &&& e.details@[0].1@ == decimal(connect_timeout_millis as nat)
                    &&& e.details@[1].0@ == "request_deadline_ms"@
                    &&& e.details@[1].1@ == decimal(request_deadline_millis as nat)
                },
            },
    {
        validate_millis("connect timeout", connect_timeout_millis, MAX_CONNECT_TIMEOUT_MILLIS)?;
        validate_millis("request deadline", request_deadline_millis, MAX_REQUEST_DEADLINE_MILLIS)?;
        if connect_timeout_millis > request_deadline_millis {
            return Err(
                HostError::new(
                    HostErrorCode::InvalidRequest,
                    "transport connect timeout cannot exceed request deadline",
                ).with_detail("connect_timeout_ms", decimal_text(connect_timeout_millis)).with_detail(
                    "request_deadline_ms",
                    decimal_text(request_deadline_millis),
                ),
            );
        }
        Ok(TransportTimeoutPolicy { connect_timeout_millis, request_deadline_millis })
    }

    pub fn connect_timeout_millis(self) -> (millis: u64)
        ensures
            millis == self.connect_ms(),
    {
        self.connect_timeout_millis
    }

    pub fn request_deadline_millis(self) -> (millis: u64)
        ensures
            millis == self.request_ms(),
    {
        self.request_deadline_millis
    }

    /// The connect timeout as a `Duration` of `connect_ms()` milliseconds.
    pub fn connect_timeout(self) -> (timeout: Duration)
        ensures
            timeout == millis_duration(self.connect_ms()),
    {
        duration_from_millis(self.connect_timeout_millis)
    }

    /// The request deadline as a `Duration` of `request_ms()` milliseconds.
    pub fn request_deadline(self) -> (deadline: Duration)
        ensures
            deadline == millis_duration(self.request_ms()),
    {
        duration_from_millis(self.request_deadline_millis)
    }
}

impl Default for TransportTimeoutPolicy {
    fn default() -> (policy: TransportTimeoutPolicy)
        ensures
            policy.connect_ms() == DEFAULT_CONNECT_TIMEOUT_MILLIS,
            policy.request_ms() == DEFAULT_REQUEST_DEADLINE_MILLIS,
    {
        TransportTimeoutPolicy {
            connect_timeout_millis: DEFAULT_CONNECT_TIMEOUT_MILLIS,
            request_deadline_millis: DEFAULT_REQUEST_DEADLINE_MILLIS,
        }
    }
}

/// The default timeouts are valid ones.
pub proof fn lemma_default_timeouts_valid()
    ensures
        timeouts_valid(DEFAULT_CONNECT_TIMEOUT_MILLIS, DEFAULT_REQUEST_DEADLINE_MILLIS),
{
}

/// The error for a request that outlived the transport's deadline.
pub fn request_deadline_exceeded(timeout: TransportTimeoutPolicy) -> (error: HostError)
    ensures
        error.code == HostErrorCode::TimedOut,
        error.message@ == "HTTP transport request deadline exceeded"@,
        error.details@.len() == 1,
        error.details@[0].0@ == "configured_request_deadline_ms"@,
        error.details@[0].1@ == decimal(timeout.request_ms() as nat),
{
    HostError::new(HostErrorCode::TimedOut, "HTTP transport request deadline exceeded").with_detail(
        "configured_request_deadline_ms",
        decimal_text(timeout.request_deadline_millis()),
    )
}

} // verus!
