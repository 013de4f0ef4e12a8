//! Timing and retry settings of the load balancer.

use vstd::prelude::*;

verus! {

/// Nanoseconds in one millisecond.
pub const NANOS_PER_MILLI: u64 = 1_000_000;

/// Nanoseconds in one second.
pub const NANOS_PER_SEC: u64 = 1_000_000_000;

/// Settings of a load balancer, fixed when it is made. Intervals are in
/// nanoseconds.
#[derive(Debug, Clone, Copy, PartialEq, Eq)]
pub struct LoadBalancerConfig {
    /// Shortest interval between two probes of a backend that was found busy.
    pub retry_busy_check_after: u64,
    /// Interval between repeated attempts against one backend. The pool
    /// itself does not act on it: it is there for the caller's pacing.
    pub retry_single_external: u64,
    /// Longest time a caller is willing to spend in one wait. The pool
    /// itself does not act on it: waits end at the wake time it computes.
    pub notify_timeout: u64,
    /// How often a conversion is tried again after an attempt has failed
    /// with an error that allows a retry.
    pub retry_attempts: usize,
}

impl LoadBalancerConfig {
    /// The settings used where none are given: probe a busy backend again
    /// after five seconds, pace external retries by one second, wait two
    /// minutes at most, retry three times.
    pub open spec fn standard() -> LoadBalancerConfig {
        LoadBalancerConfig {
            retry_busy_check_after: 5_000_000_000,
            retry_single_external: 1_000_000_000,
            notify_timeout: 120_000_000_000,
            retry_attempts: 3,
        }
    }
}

impl Default for LoadBalancerConfig {
    fn default() -> (config: Self)
        ensures
            config == LoadBalancerConfig::standard(),
    {
        LoadBalancerConfig {
            retry_busy_check_after: 5 * NANOS_PER_SEC,
            retry_single_external: NANOS_PER_SEC,
            notify_timeout: 120 * NANOS_PER_SEC,
            retry_attempts: 3,
        }
    }
}

} // verus!
