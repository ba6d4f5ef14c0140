//! Bounded retry with exponential backoff.

use vstd::prelude::*;

verus! {

/// Two to the power `n`.
pub open spec fn pow2(n: nat) -> nat
    decreases n,
{
    if n == 0 {
        1
    } else {
        2 * pow2((n - 1) as nat)
    }
}

proof fn lemma_pow2_monotonic(i: nat, j: nat)
    requires
        i <= j,
    ensures
        pow2(i) <= pow2(j),
    decreases j,
{
    if i < j {
        lemma_pow2_monotonic(i, (j - 1) as nat);
    }
}

/// How often a failing operation is tried again, and how long to wait in between.
#[derive(Debug, Clone, Copy, PartialEq, Eq, Structural)]
pub struct RetryPolicy {
    /// Number of retries allowed after the first try.
    pub max_retries: u32,
    /// Delay before the first retry.
    pub base_delay: u64,
    /// Upper bound of every delay.
    pub max_delay: u64,
}

/// What to do after a retryable failure.
#[derive(Debug, Clone, Copy, PartialEq, Eq, Structural)]
pub enum RetryDecision {
    /// Try again after waiting this long.
    RetryAfter(u64),
    /// The retry budget is used up.
    GiveUp,
}

impl RetryPolicy {
    /// The delay before retry number `retries_done + 1`: the base delay doubled
    /// once per retry already made, capped at `max_delay`.
    pub open spec fn spec_delay(&self, retries_done: u32) -> int {
        let raw = self.base_delay * pow2(retries_done as nat);
        if raw < self.max_delay {
            raw
        } else {
            self.max_delay as int
        }
    }

    /// Retries are granted while fewer than `max_retries` have been made.
    pub open spec fn spec_decide(&self, retries_done: u32) -> RetryDecision {
        if retries_done < self.max_retries {
            RetryDecision::RetryAfter(self.spec_delay(retries_done) as u64)
        } else {
            RetryDecision::GiveUp
        }
    }

    /// Computes the backoff delay without overflow.
    pub fn delay(&self, retries_done: u32) -> (d: u64)
        ensures
            d == self.spec_delay(retries_done),
    {
        let mut d: u64 = if self.base_delay < self.max_delay {
            self.base_delay
        } else {
            self.max_delay
        };
        let mut i: u32 = 0;
        proof {
            assert(pow2(0) == 1);
            assert(self.base_delay * pow2(0) == self.base_delay) by (nonlinear_arith)
                requires
                    pow2(0) == 1,
            ;
        }
        while i < retries_done && d < self.max_delay
            invariant
                i <= retries_done,
                d == self.spec_delay(i),
            decreases retries_done - i,
        {
            proof {
                assert(self.base_delay * pow2((i + 1) as nat) == 2 * (self.base_delay * pow2(
                    i as nat,
                ))) by (nonlinear_arith)
                    requires
                        pow2((i + 1) as nat) == 2 * pow2(i as nat),
                ;
            }
            if d >= self.max_delay - d {
                d = self.max_delay;
            } else {
                d = d + d;
            }
            i = i + 1;
        }
        proof {
            if i < retries_done {
                lemma_pow2_monotonic(i as nat, retries_done as nat);
                assert(self.base_delay * pow2(i as nat) <= self.base_delay * pow2(
                    retries_done as nat,
                )) by (nonlinear_arith)
                    requires
                        pow2(i as nat) <= pow2(retries_done as nat),
                ;
            }
        }
        d
    }

    /// Decides whether a failed operation that was already retried `retries_done`
    /// times is tried again.
    pub fn decide(&self, retries_done: u32) -> (r: RetryDecision)
        ensures
            r == self.spec_decide(retries_done),
    {
        if retries_done < self.max_retries {
            RetryDecision::RetryAfter(self.delay(retries_done))
        } else {
            RetryDecision::GiveUp
        }
    }
}

/// No delay ever exceeds the cap, and delays never shrink as retries accumulate.
pub proof fn lemma_delay_bounded_and_monotonic(policy: RetryPolicy, a: u32, b: u32)
    requires
        a <= b,
    ensures
        policy.spec_delay(a) <= policy.spec_delay(b) <= policy.max_delay,
{
    lemma_pow2_monotonic(a as nat, b as nat);
    assert(policy.base_delay * pow2(a as nat) <= policy.base_delay * pow2(b as nat))
        by (nonlinear_arith)
        requires
            pow2(a as nat) <= pow2(b as nat),
    ;
}

} // verus!
