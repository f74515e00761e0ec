//! How interest is set and how much of it is due.

use vstd::prelude::*;
use crate::position::Balance;

verus! {

/// The rate given to positions unless another is configured, in percent.
pub const DEFAULT_RATE: u32 = 5;

/// The highest rate a policy can carry, in percent.
pub const MAX_RATE: u32 = 100;

/// The interest due on `principal` at `rate` percent, rounded down.
pub open spec fn interest_due(principal: nat, rate: nat) -> nat {
    principal * rate / 100
}

/// Splitting the principal into hundreds and a rest splits the interest without rounding loss.
proof fn lemma_interest_split(principal: nat, rate: nat)
    ensures
        interest_due(principal, rate) == (principal / 100) * rate + (principal % 100) * rate
            / 100,
{
    let q = principal / 100;
    let r = principal % 100;
    assert(principal * rate == 100 * (q * rate) + r * rate) by (nonlinear_arith)
        requires
            principal == 100 * q + r,
    ;
}

/// Computes the interest due on `principal` at `rate` percent, or `None` where it is more than
/// a `Balance` can hold.
pub fn interest_on(principal: Balance, rate: u32) -> (r: Option<Balance>)
    ensures
        r == (if interest_due(principal as nat, rate as nat) <= Balance::MAX {
            Some(interest_due(principal as nat, rate as nat) as Balance)
        } else {
            None
        }),
{
    let hundreds: Balance = principal / 100;
    let rest: Balance = principal % 100;
    let percent: Balance = rate as Balance;
    proof {
        lemma_interest_split(principal as nat, rate as nat);
        assert(rest * percent <= 99 * 0xffff_ffff) by (nonlinear_arith)
            requires
                rest <= 99,
                percent <= 0xffff_ffff,
        ;
        assert(0 <= hundreds * percent) by (nonlinear_arith)
            requires
                0 <= hundreds,
                0 <= percent,
        ;
    }
    let low: Balance = rest * percent / 100;
    match hundreds.checked_mul(percent) {
        Some(high) => high.checked_add(low),
        None => None,
    }
}

/// A fixed-rate policy: every position opened under it gets the same rate, for good.
#[derive(Clone, Copy, Debug, PartialEq, Eq, Structural)]
pub struct InterestPolicy {
    rate: u32,
}

impl InterestPolicy {
    /// The rate this policy gives to a new position, in percent.
    pub closed spec fn percent(self) -> u32 {
        self.rate
    }

    /// The rate is a percentage.
    pub open spec fn wf(self) -> bool {
        self.percent() <= MAX_RATE
    }

    /// The policy with the default rate.
    pub fn standard() -> (r: InterestPolicy)
        ensures
            r.wf(),
            r.percent() == DEFAULT_RATE,
    {
        InterestPolicy { rate: DEFAULT_RATE }
    }

    /// A policy with the given rate, if it is a percentage.
    pub fn fixed(rate: u32) -> (r: Option<InterestPolicy>)
        ensures
            rate <= MAX_RATE ==> r is Some && r->0.wf() && r->0.percent() == rate,
            rate > MAX_RATE ==> r is None,
    {
        if rate <= MAX_RATE {
            Some(InterestPolicy { rate })
        } else {
            None
        }
    }

    /// The rate this policy gives to a new position, in percent.
    pub fn rate(&self) -> (r: u32)
        ensures
            r == self.percent(),
    {
        self.rate
    }
}

} // verus!
