use vstd::arithmetic::power2::{
    lemma_pow2_pos, lemma_pow2_strictly_increases, lemma_pow2_unfold, pow2,
};
use vstd::prelude::*;

verus! {

/// The number of retries that came before attempt number `attempt`. Attempts
/// are counted from one; attempt zero is treated like the first.
pub open spec fn earlier_attempts(attempt: u32) -> nat {
    if attempt == 0 {
        0
    } else {
        (attempt - 1) as nat
    }
}

/// `value`, or `bound` if `value` lies above it.
pub open spec fn at_most(value: int, bound: int) -> int {
    if value <= bound {
        value
    } else {
        bound
    }
}

/// How long to wait before retrying a retrieval that failed, as a function of
/// the number of consecutive failures so far. Delays are in milliseconds.
#[derive(Debug, PartialEq, Eq, Clone, Copy)]
pub enum BackoffPolicy {
    /// The same delay before every retry.
    Constant { delay: u64 },
    /// `base` before the first retry and `step` more before each further one,
    /// as far as a `u64` reaches.
    Linear { base: u64, step: u64 },
    /// `base` before the first retry, twice the previous delay before each
    /// further one, and never more than `cap`.
    Exponential { base: u64, cap: u64 },
}

impl BackoffPolicy {
    /// The delay before the retry that follows failure number `attempt`.
    pub open spec fn delay_for(self, attempt: u32) -> int {
        match self {
            BackoffPolicy::Constant { delay } => delay as int,
            BackoffPolicy::Linear { base, step } => at_most(
                base + step * earlier_attempts(attempt),
                u64::MAX as int,
            ),
            BackoffPolicy::Exponential { base, cap } => at_most(
                base * pow2(earlier_attempts(attempt)),
                cap as int,
            ),
        }
    }

    /// Computes the delay before the retry that follows failure number
    /// `attempt`.
    pub fn delay(&self, attempt: u32) -> (delay: u64)
        ensures
            delay == self.delay_for(attempt),
    {
        let earlier: u32 = if attempt == 0 {
            0
        } else {
            attempt - 1
        };
        match *self {
            BackoffPolicy::Constant { delay } => delay,
            BackoffPolicy::Linear { base, step } => {
                assert(step * earlier <= 0xffff_ffff_ffff_ffff * 0xffff_ffff) by (nonlinear_arith)
                    requires
                        0 <= step <= 0xffff_ffff_ffff_ffff,
                        0 <= earlier <= 0xffff_ffff,
                ;
                let total: u128 = base as u128 + step as u128 * earlier as u128;
                if total <= u64::MAX as u128 {
                    total as u64
                } else {
                    u64::MAX
                }
            },
            BackoffPolicy::Exponential { base, cap } => {
                let mut delay: u64 = if base <= cap {
                    base
                } else {
                    cap
                };
                let mut doubled: u32 = 0;
                proof {
                    assert(pow2(0) == 1) by {
                        vstd::arithmetic::power2::lemma2_to64();
                    }
                }
                while doubled < earlier && delay != 0 && delay != cap
                    invariant
                        doubled <= earlier,
                        delay == at_most(base * pow2(doubled as nat), cap as int),
                    decreases earlier - doubled,
                {
                    proof {
                        lemma_pow2_unfold((doubled + 1) as nat);
                        assert(base * (2 * pow2(doubled as nat)) == 2 * (base * pow2(doubled as nat)))
                            by (nonlinear_arith);
                    }
                    delay = if delay > cap / 2 {
                        cap
                    } else {
                        delay * 2
                    };
                    doubled += 1;
                }
                proof {
                    if doubled < earlier {
                        lemma_pow2_strictly_increases(doubled as nat, earlier as nat);
                        let small = pow2(doubled as nat) as int;
                        let large = pow2(earlier as nat) as int;
                        assert(base * small <= base * large) by (nonlinear_arith)
                            requires
                                0 <= base,
                                small <= large,
                        ;
                        if delay == 0 {
                            lemma_pow2_pos(doubled as nat);
                            assert(base * small == 0 ==> base == 0) by (nonlinear_arith)
                                requires
                                    0 <= base,
                                    0 < small,
                            ;
                            assert(base == 0 ==> base * large == 0) by (nonlinear_arith);
                        }
                    }
                }
                delay
            },
        }
    }
}

/// A retry never waits less than the retry before it did: the delay does not
/// shrink as the number of consecutive failures grows.
pub proof fn lemma_delay_never_shrinks(policy: BackoffPolicy, earlier: u32, later: u32)
    requires
        earlier <= later,
    ensures
        policy.delay_for(earlier) <= policy.delay_for(later),
{
    let few = earlier_attempts(earlier);
    let many = earlier_attempts(later);
    match policy {
        BackoffPolicy::Constant { .. } => {},
        BackoffPolicy::Linear { base, step } => {
            assert(step * few <= step * many) by (nonlinear_arith)
                requires
                    0 <= step,
                    few <= many,
            ;
        },
        BackoffPolicy::Exponential { base, cap } => {
            if few < many {
                lemma_pow2_strictly_increases(few, many);
            }
            let small = pow2(few) as int;
            let large = pow2(many) as int;
            assert(base * small <= base * large) by (nonlinear_arith)
                requires
                    0 <= base,
                    small <= large,
            ;
        },
    }
}

/// No delay lies above what the policy allows: a constant policy always waits
/// its one delay, and an exponential policy never waits longer than its cap.
pub proof fn lemma_delay_is_bounded(policy: BackoffPolicy, attempt: u32)
    ensures
        0 <= policy.delay_for(attempt) <= u64::MAX,
        policy matches BackoffPolicy::Exponential { cap, .. } ==> policy.delay_for(attempt) <= cap,
        policy matches BackoffPolicy::Constant { delay } ==> policy.delay_for(attempt) == delay,
{
    match policy {
        BackoffPolicy::Constant { .. } => {},
        BackoffPolicy::Linear { base, step } => {
            assert(0 <= step * earlier_attempts(attempt)) by (nonlinear_arith)
                requires
                    0 <= step,
            ;
        },
        BackoffPolicy::Exponential { base, cap } => {
            assert(0 <= base * pow2(earlier_attempts(attempt))) by (nonlinear_arith)
                requires
                    0 <= base,
            ;
        },
    }
}

} // verus!
