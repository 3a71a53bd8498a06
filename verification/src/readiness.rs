//! How long the supervisor waits for the sidecar to accept connections.

use vstd::prelude::*;

verus! {

/// Pause between two connection attempts, in milliseconds.
pub const PROBE_INTERVAL_MILLIS: u32 = 100;

/// Number of connection attempts of the standard policy.
pub const STANDARD_ATTEMPTS: u32 = 150;

/// Bounded polling with a fixed pause: at most `attempts` connection
/// attempts, each failed one followed by a pause of `interval_millis`.
#[derive(Clone, Copy, Debug, PartialEq, Eq)]
pub struct ReadinessPolicy {
    pub attempts: u32,
    pub interval_millis: u32,
}

impl ReadinessPolicy {
    /// The longest time the policy spends pausing, in milliseconds.
    pub open spec fn budget(self) -> nat {
        (self.attempts * self.interval_millis) as nat
    }

    /// The standard policy: 150 attempts 100 ms apart, fifteen seconds in all.
    pub fn standard() -> (policy: ReadinessPolicy)
        ensures
            policy.attempts == STANDARD_ATTEMPTS,
            policy.interval_millis == PROBE_INTERVAL_MILLIS,
            policy.budget() == 15_000,
    {
        ReadinessPolicy { attempts: STANDARD_ATTEMPTS, interval_millis: PROBE_INTERVAL_MILLIS }
    }

    /// The policy with the standard pause and as many attempts as fit under
    /// `ceiling_millis`: the largest number whose pauses do not add up to
    /// more than the ceiling.
    pub fn within(ceiling_millis: u32) -> (policy: ReadinessPolicy)
        ensures
            policy.interval_millis == PROBE_INTERVAL_MILLIS,
            policy.attempts == ceiling_millis as int / PROBE_INTERVAL_MILLIS as int,
            policy.budget() <= ceiling_millis as nat,
            (ceiling_millis as nat) < policy.budget() + PROBE_INTERVAL_MILLIS as nat,
    {
        ReadinessPolicy {
            attempts: ceiling_millis / PROBE_INTERVAL_MILLIS,
            interval_millis: PROBE_INTERVAL_MILLIS,
        }
    }

    /// The longest time the policy spends pausing, in milliseconds.
    pub fn budget_millis(&self) -> (millis: u64)
        ensures
            millis as nat == self.budget(),
    {
        assert(self.attempts * self.interval_millis <= 0xffff_ffff * 0xffff_ffff)
            by (nonlinear_arith)
            requires
                self.attempts <= 0xffff_ffff,
                self.interval_millis <= 0xffff_ffff,
        ;
        (self.attempts as u64) * (self.interval_millis as u64)
    }
}

} // verus!
