//! Rate-limit accounting: the snapshot captured from every response's
//! metadata, the minutes-until-reset computation, and the low-quota
//! warning policy.

use vstd::prelude::*;

verus! {

use vstd::arithmetic::div_mod::lemma_div_plus_one;

/// The three rate-limit counters reported on every response. `reset_at`
/// is an absolute point in time, in seconds since the epoch, after which
/// `remaining` resets to `limit`. A counter whose header is absent
/// defaults to zero.
pub struct RateLimitSnapshot {
    pub limit: u64,
    pub remaining: u64,
    pub reset_at: u64,
}

/// Minutes until the quota resets: `ceil((reset_at - now) / 60)`,
/// clamped to zero when the reset point has already passed.
pub open spec fn spec_reset_minutes(reset_at: u64, now: u64) -> int {
    if reset_at <= now {
        0
    } else {
        (reset_at - now + 59) / 60
    }
}

/// Whole minutes until `reset_at`, rounded up and clamped to zero.
pub fn reset_minutes(reset_at: u64, now: u64) -> (m: u64)
    ensures
        m == spec_reset_minutes(reset_at, now),
{
    if reset_at <= now {
        0
    } else {
        let diff = reset_at - now;
        let m = (diff - 1) / 60 + 1;
        proof {
            lemma_div_plus_one(diff - 1, 60);
            assert(60 + (diff - 1) == diff + 59);
        }
        m
    }
}

/// When a successful page should produce a non-fatal low-quota warning:
/// `remaining` is positive and either at or below `warn_threshold`, or
/// exactly at the secondary `watch_value`.
pub struct RatePolicy {
    pub warn_threshold: u64,
    pub watch_value: u64,
}

impl RatePolicy {
    /// The default policy: warn at five or fewer remaining requests, and
    /// also exactly at ten.
    pub fn standard() -> (p: RatePolicy)
        ensures
            p.warn_threshold == 5,
            p.watch_value == 10,
    {
        RatePolicy { warn_threshold: 5, watch_value: 10 }
    }
}

/// Whether the policy asks for a warning at this `remaining` count.
/// Never true at zero: exhaustion is an abort, not a warning.
pub open spec fn spec_should_warn(p: RatePolicy, remaining: u64) -> bool {
    remaining > 0 && (remaining <= p.warn_threshold || remaining == p.watch_value)
}

pub fn should_warn(p: &RatePolicy, remaining: u64) -> (b: bool)
    ensures
        b == spec_should_warn(*p, remaining),
{
    remaining > 0 && (remaining <= p.warn_threshold || remaining == p.watch_value)
}

/// The data of a non-fatal low-quota warning: how much budget remains,
/// the full budget, and the minutes until the budget resets.
pub struct QuotaWarning {
    pub remaining: u64,
    pub limit: u64,
    pub reset_minutes: u64,
}

} // verus!
