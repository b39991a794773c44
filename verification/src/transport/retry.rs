//! How often an HTTP request is attempted, and when a failed attempt is
//! retried.
use crate::error::{HostError, HostErrorCode};
use crate::platform::{duration_from_millis, millis_duration};
use std::time::Duration;
use vstd::prelude::*;

verus! {

/// Number of attempts per request and the delay between two of them.
#[derive(Clone, Copy, Debug, PartialEq, Eq)]
pub struct RetryPolicy {
    pub attempts: u8,
    pub delay: Duration,
}

impl RetryPolicy {
    /// One attempt, no delay.
    pub fn none() -> (policy: RetryPolicy)
        ensures
            policy.attempts == 1,
            policy.delay == millis_duration(0),
    {
        RetryPolicy { attempts: 1, delay: duration_from_millis(0) }
    }
}

/// The attempts of one request under a retry policy.
pub struct RetryRun {
    attempts: u8,
    made: u8,
}

impl RetryRun {
    pub closed spec fn attempts(&self) -> nat {
        self.attempts as nat
    }

    /// Attempts started so far.
    pub closed spec fn made(&self) -> nat {
        self.made as nat
    }

    pub closed spec fn wf(&self) -> bool {
        self.made <= self.attempts
    }

    /// A run of `policy`; a policy of no attempts is refused.
    pub fn start(policy: &RetryPolicy) -> (run: Result<RetryRun, HostError>)
        ensures
            match run {
                Ok(r) => policy.attempts > 0 && r.wf() && r.attempts() == policy.attempts && r.made()
                    == 0,
                Err(e) => policy.attempts == 0 && e.code == HostErrorCode::InvalidRequest && e.message@
                    == "HTTP retry policy must attempt each request at least once"@,
            },
    {
        if policy.attempts == 0 {
            return Err(
                HostError::new(
                    HostErrorCode::InvalidRequest,
                    "HTTP retry policy must attempt each request at least once",
                ),
            );
        }
        Ok(RetryRun { attempts: policy.attempts, made: 0 })
    }

    /// Starts the next attempt if one is left.
    pub fn begin_attempt(&mut self) -> (started: bool)
        requires
            old(self).wf(),
        ensures
            final(self).wf(),
            final(self).attempts() == old(self).attempts(),
            started == (old(self).made() < old(self).attempts()),
            final(self).made() == if started {
                old(self).made() + 1
            } else {
                old(self).made()
            },
    {
        if self.made < self.attempts {
            self.made = self.made + 1;
            true
        } else {
            false
        }
    }

    /// After a failed attempt: whether to wait the policy's delay and try
    /// again, which is so exactly when an attempt is left.
    pub fn retry_after_failure(&self) -> (retry: bool)
        requires
            self.wf(),
        ensures
            retry == (self.made() < self.attempts()),
    {
        self.made < self.attempts
    }
}

} // verus!
