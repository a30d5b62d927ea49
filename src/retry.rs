use aws_smithy_types::retry::{RetryConfig, RetryMode};
use core::time::Duration;
use vstd::prelude::*;

verus! {

#[verifier::external_type_specification]
#[verifier::external_body]
pub struct ExRetryConfig(RetryConfig);

#[verifier::external_type_specification]
#[verifier::external_body]
pub struct ExRetryMode(RetryMode);

/// The retry mode that a configuration holds.
pub uninterp spec fn config_mode(c: RetryConfig) -> RetryMode;

/// The number of attempts, the first included, that a configuration holds.
pub uninterp spec fn config_max_attempts(c: RetryConfig) -> u32;

/// The first backoff that a configuration holds.
pub uninterp spec fn config_initial_backoff(c: RetryConfig) -> Duration;

/// Whether a retry mode is the adaptive one (`RetryMode` has it and the standard one).
pub uninterp spec fn mode_is_adaptive(m: RetryMode) -> bool;

/// The length of a span, in nanoseconds.
pub uninterp spec fn duration_nanos(d: Duration) -> int;

/// Relies on RetryConfig::standard: standard mode, three attempts, one second of
/// first backoff.
pub assume_specification[ RetryConfig::standard ]() -> (r: RetryConfig)
    ensures
        !mode_is_adaptive(config_mode(r)),
        config_max_attempts(r) == 3,
        duration_nanos(config_initial_backoff(r)) == 1_000_000_000,
;

/// Relies on RetryConfig::with_retry_mode: the mode is replaced, the rest kept.
pub assume_specification[ RetryConfig::with_retry_mode ](
    c: RetryConfig,
    retry_mode: RetryMode,
) -> (r: RetryConfig)
    ensures
        config_mode(r) == retry_mode,
        config_max_attempts(r) == config_max_attempts(c),
        config_initial_backoff(r) == config_initial_backoff(c),
;

/// Relies on RetryConfig::with_max_attempts: the attempt count is replaced, the rest
/// kept.
pub assume_specification[ RetryConfig::with_max_attempts ](
    c: RetryConfig,
    max_attempts: u32,
) -> (r: RetryConfig)
    ensures
        config_max_attempts(r) == max_attempts,
        config_mode(r) == config_mode(c),
        config_initial_backoff(r) == config_initial_backoff(c),
;

/// Relies on RetryConfig::with_initial_backoff: the first backoff is replaced, the
/// rest kept.
pub assume_specification[ RetryConfig::with_initial_backoff ](
    c: RetryConfig,
    initial_backoff: Duration,
) -> (r: RetryConfig)
    ensures
        config_initial_backoff(r) == initial_backoff,
        config_mode(r) == config_mode(c),
        config_max_attempts(r) == config_max_attempts(c),
;

/// Relies on Duration::from_secs: a span of whole seconds; it cannot fail.
pub assume_specification[ Duration::from_secs ](secs: u64) -> (r: Duration)
    ensures
        duration_nanos(r) == secs * 1_000_000_000,
;

/// How retries are paced.
#[derive(Clone, Copy, Debug, PartialEq, Eq, Structural)]
pub enum RetryStrategy {
    /// The standard set of retry rules.
    Standard,
    /// Standard rules plus client-side rate limiting on throttling.
    Adaptive,
}

/// The retry policy attached to the remote session.
#[derive(Clone, Copy, Debug, PartialEq, Eq, Structural)]
pub struct RetryPolicy {
    /// How retries are paced.
    pub mode: RetryStrategy,
    /// Attempts in all, the first included; above zero.
    pub max_attempts: u32,
    /// The first backoff, in seconds.
    pub initial_backoff_secs: u64,
}

/// Relies on the two variants of aws_smithy_types' RetryMode, one for each strategy.
#[verifier::external_body]
fn sdk_retry_mode(mode: RetryStrategy) -> (r: RetryMode)
    ensures
        mode_is_adaptive(r) == (mode == RetryStrategy::Adaptive),
{
    match mode {
        RetryStrategy::Standard => RetryMode::Standard,
        RetryStrategy::Adaptive => RetryMode::Adaptive,
    }
}

impl RetryPolicy {
    /// The fixed policy of a deployment: adaptive, three attempts, five seconds of
    /// first backoff.
    pub fn for_deploy() -> (r: RetryPolicy)
        ensures
            r.mode == RetryStrategy::Adaptive,
            r.max_attempts == 3,
            r.initial_backoff_secs == 5,
    {
        RetryPolicy { mode: RetryStrategy::Adaptive, max_attempts: 3, initial_backoff_secs: 5 }
    }

    /// The session's retry configuration for this policy.
    pub fn to_retry_config(&self) -> (r: RetryConfig)
        requires
            self.max_attempts > 0,
        ensures
            mode_is_adaptive(config_mode(r)) == (self.mode == RetryStrategy::Adaptive),
            config_max_attempts(r) == self.max_attempts,
            duration_nanos(config_initial_backoff(r)) == self.initial_backoff_secs * 1_000_000_000,
    {
        RetryConfig::standard().with_retry_mode(sdk_retry_mode(self.mode)).with_max_attempts(
            self.max_attempts,
        ).with_initial_backoff(Duration::from_secs(self.initial_backoff_secs))
    }
}

} // verus!
