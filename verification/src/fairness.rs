//! Eventual fairness.
//!
//! Releases are unfair by default: the releaser wakes a waiter and may
//! well reacquire before it runs, which keeps throughput high but can
//! starve waiters.  To bound the starvation, each thread keeps a fair
//! deadline drawn uniformly from the next millisecond; a release past
//! the deadline — or a release whose critical section itself exceeded
//! a millisecond — hands the lock to a waiter directly instead of
//! letting anyone barge, and the deadline is re-drawn.
//!
//! Time enters as monotonic nanoseconds supplied by the caller; the
//! draw comes from a xorshift generator whose seed the caller supplies
//! once.

use vstd::prelude::*;

verus! {

/// The fair deadline is re-drawn uniformly from within this interval.
pub const FAIR_INTERVAL_NS: u64 = 1_000_000;

/// A critical section at least this long always releases fairly.
pub const LONG_SECTION_NS: u64 = 1_000_000;

/// One step of the xorshift generator.
pub open spec fn xorshift_step(x: u32) -> u32 {
    let a = x ^ (x << 13u32);
    let b = a ^ (a >> 17u32);
    b ^ (b << 5u32)
}

/// Advances the xorshift generator by one step.
pub fn xorshift(x: u32) -> (r: u32)
    ensures
        r == xorshift_step(x),
{
    let a = x ^ (x << 13u32);
    let b = a ^ (a >> 17u32);
    b ^ (b << 5u32)
}

/// A thread's fairness clock: the moment at which its next release is
/// handed off fairly, and the generator state behind the draws.
pub struct FairTimeout {
    /// A release at or past this moment is fair.
    pub deadline_ns: u64,
    /// The xorshift state the next interval is drawn from.
    pub seed: u32,
}

impl FairTimeout {
    /// Starts a fairness clock whose first release is fair — its
    /// deadline is the epoch itself — and which draws from `seed`.
    pub fn new(seed: u32) -> (r: FairTimeout)
        ensures
            r.deadline_ns == 0,
            r.seed == seed,
    {
        FairTimeout { deadline_ns: 0, seed }
    }

    /// Decides whether a release at `now_ns`, of a hold taken at
    /// `acquired_ns`, must be fair: the deadline has passed or the
    /// critical section ran long.  A fair release re-draws the
    /// deadline from within the next fair interval.
    pub fn should_unlock_fair(&mut self, acquired_ns: u64, now_ns: u64) -> (r: bool)
        requires
            acquired_ns <= now_ns,
            now_ns <= u64::MAX - FAIR_INTERVAL_NS,
        ensures
            r == (now_ns >= old(self).deadline_ns || now_ns - acquired_ns >= LONG_SECTION_NS),
            r ==> ({
                &&& final(self).seed == xorshift_step(old(self).seed)
                &&& final(self).deadline_ns == now_ns + (xorshift_step(old(self).seed) as u64)
                    % FAIR_INTERVAL_NS
                &&& now_ns <= final(self).deadline_ns < now_ns + FAIR_INTERVAL_NS
            }),
            !r ==> final(self).deadline_ns == old(self).deadline_ns && final(self).seed == old(
                self,
            ).seed,
    {
        if now_ns >= self.deadline_ns || now_ns - acquired_ns >= LONG_SECTION_NS {
            let drawn = xorshift(self.seed);
            self.seed = drawn;
            self.deadline_ns = now_ns + (drawn as u64) % FAIR_INTERVAL_NS;
            true
        } else {
            false
        }
    }
}

} // verus!
