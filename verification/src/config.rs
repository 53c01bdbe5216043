//! The retry budget and the pause between attempts.

use vstd::prelude::*;

verus! {

/// Maximal number of connection attempts, unless configured otherwise.
pub const MAX_ATTEMPTS: usize = 10;

/// Delay period after a failed connection attempt, in milliseconds, unless
/// configured otherwise.
pub const RETRY_DELAY_MILLIS: u64 = 1000;

/// Default derivation path for pre-funded accounts.
pub const DERIVATION: &'static str = "//Sender/";

/// How often to try and how long to pause after a failure.
///
/// A configuration always allows at least one attempt.
#[derive(Clone, Copy, Debug, PartialEq, Eq)]
pub struct RetryConfig {
    max_attempts: usize,
    retry_delay_millis: u64,
}

impl RetryConfig {
    /// The attempt budget of this configuration.
    pub closed spec fn budget(self) -> usize {
        self.max_attempts
    }

    /// The pause after a failed attempt, in milliseconds.
    pub closed spec fn delay(self) -> u64 {
        self.retry_delay_millis
    }

    /// A configuration is valid when it allows at least one attempt. Every
    /// configuration that a program holds is valid.
    #[verifier::type_invariant]
    pub open spec fn wf(self) -> bool {
        self.budget() >= 1
    }

    /// A configuration with the given budget and delay, or `None` where the
    /// budget is zero.
    pub fn new(max_attempts: usize, retry_delay_millis: u64) -> (config: Option<RetryConfig>)
        ensures
            config.is_some() <==> max_attempts >= 1,
            config matches Some(c) ==> c.wf() && c.budget() == max_attempts && c.delay()
                == retry_delay_millis,
    {
        if max_attempts >= 1 {
            Some(RetryConfig { max_attempts, retry_delay_millis })
        } else {
            None
        }
    }

    /// The attempt budget.
    pub fn max_attempts(&self) -> (n: usize)
        ensures
            n == self.budget(),
            n >= 1,
    {
        proof {
            use_type_invariant(self);
        }
        self.max_attempts
    }

    /// The pause after a failed attempt, in milliseconds.
    pub fn retry_delay_millis(&self) -> (millis: u64)
        ensures
            millis == self.delay(),
    {
        self.retry_delay_millis
    }
}

impl Default for RetryConfig {
    /// Ten attempts, one second apart.
    fn default() -> (config: RetryConfig)
        ensures
            config.wf(),
            config.budget() == MAX_ATTEMPTS,
            config.delay() == RETRY_DELAY_MILLIS,
    {
        RetryConfig { max_attempts: MAX_ATTEMPTS, retry_delay_millis: RETRY_DELAY_MILLIS }
    }
}

} // verus!
