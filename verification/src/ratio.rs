//! Exact fractions. Every quantity the engine derives by division is kept as
//! a numerator and a positive denominator, so no precision is lost before the
//! caller evaluates it.

use vstd::prelude::*;

verus! {

/// The fraction `num / den`. Well-formed fractions have `den > 0`.
#[derive(Clone, Copy, Debug, PartialEq, Eq, Structural)]
pub struct Ratio {
    pub num: i128,
    pub den: u128,
}

impl Ratio {
    pub open spec fn wf(self) -> bool {
        self.den > 0
    }

    /// `self >= k` as rational numbers.
    pub open spec fn at_least(self, k: int) -> bool {
        self.num >= k * self.den
    }

    /// `self <= k` as rational numbers.
    pub open spec fn at_most(self, k: int) -> bool {
        self.num <= k * self.den
    }

    /// `self > 0` as a rational number.
    pub open spec fn is_positive(self) -> bool {
        self.num > 0
    }

    /// `self == 0` as a rational number.
    pub open spec fn is_zero(self) -> bool {
        self.num == 0
    }

    /// The fraction `0 / 1`.
    pub open spec fn spec_zero() -> Ratio {
        Ratio { num: 0, den: 1 }
    }

    pub fn zero() -> (r: Ratio)
        ensures
            r == Self::spec_zero(),
    {
        Ratio { num: 0, den: 1 }
    }

    pub fn positive(&self) -> (b: bool)
        ensures
            b == self.is_positive(),
    {
        self.num > 0
    }
}

} // verus!
