//! Exact shares of a whole.
//!
//! Percentages, rates and averages are kept as the two integers they are
//! computed from, so nothing is lost to rounding before a caller chooses a
//! presentation.

use vstd::prelude::*;

verus! {

/// The share `part / whole`. A share of an empty whole is zero.
#[derive(Debug, Clone, Copy, PartialEq, Eq, Structural)]
pub struct Ratio {
    pub part: u64,
    pub whole: u64,
}

impl Ratio {
    /// The share in whole percent, rounded down.
    pub open spec fn percent(self) -> nat {
        if self.whole == 0 {
            0
        } else {
            (self.part as nat * 100) / (self.whole as nat)
        }
    }

    /// The share in hundredths of a percent, rounded down.
    pub open spec fn basis_points(self) -> nat {
        if self.whole == 0 {
            0
        } else {
            (self.part as nat * 10000) / (self.whole as nat)
        }
    }

    /// The whole number of times that `whole` goes into `part`.
    pub open spec fn quotient(self) -> nat {
        if self.whole == 0 {
            0
        } else {
            (self.part as nat) / (self.whole as nat)
        }
    }

    /// The share `part / whole`.
    pub fn new(part: u64, whole: u64) -> (r: Ratio)
        ensures
            r == (Ratio { part, whole }),
    {
        Ratio { part, whole }
    }

    /// The share of nothing.
    pub fn zero() -> (r: Ratio)
        ensures
            r == (Ratio { part: 0, whole: 0 }),
    {
        Ratio { part: 0, whole: 0 }
    }

    /// The share in whole percent, rounded down.
    pub fn whole_percent(&self) -> (p: u128)
        ensures
            p == self.percent(),
    {
        if self.whole == 0 {
            0
        } else {
            (self.part as u128 * 100) / (self.whole as u128)
        }
    }

    /// The share in hundredths of a percent, rounded down.
    pub fn hundredths_of_percent(&self) -> (p: u128)
        ensures
            p == self.basis_points(),
    {
        if self.whole == 0 {
            0
        } else {
            (self.part as u128 * 10000) / (self.whole as u128)
        }
    }

    /// The whole number of times that `whole` goes into `part`.
    pub fn whole_quotient(&self) -> (q: u64)
        ensures
            q == self.quotient(),
    {
        if self.whole == 0 {
            0
        } else {
            self.part / self.whole
        }
    }
}

/// A share that does not exceed its whole is at most one hundred percent.
pub proof fn lemma_share_at_most_whole(r: Ratio)
    requires
        r.part <= r.whole,
    ensures
        r.percent() <= 100,
        r.basis_points() <= 10000,
{
    if r.whole > 0 {
        let w = r.whole as int;
        let p = r.part as int;
        assert(p * 100 <= w * 100) by (nonlinear_arith)
            requires
                p <= w,
        ;
        assert((p * 100) / w <= 100) by (nonlinear_arith)
            requires
                p * 100 <= w * 100,
                w > 0,
        ;
        assert(p * 10000 <= w * 10000) by (nonlinear_arith)
            requires
                p <= w,
        ;
        assert((p * 10000) / w <= 10000) by (nonlinear_arith)
            requires
                p * 10000 <= w * 10000,
                w > 0,
        ;
    }
}

/// The sum of `a` and `b`, or the largest value where the sum does not fit.
pub open spec fn saturated(sum: int) -> u64 {
    if sum > u64::MAX {
        u64::MAX
    } else if sum < 0 {
        0
    } else {
        sum as u64
    }
}

/// Adds two counts, stopping at the largest value.
pub fn add_saturating(a: u64, b: u64) -> (r: u64)
    ensures
        r == saturated(a + b),
{
    if a > u64::MAX - b {
        u64::MAX
    } else {
        a + b
    }
}

} // verus!
