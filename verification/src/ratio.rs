//! Exact non-negative fractions.

use vstd::prelude::*;

verus! {

/// A non-negative rational number `num / den`, not necessarily in lowest
/// terms. Two ratios denote the same number when their cross products agree.
#[derive(Clone, Copy, Debug, PartialEq, Eq, Structural)]
pub struct Ratio {
    pub num: u128,
    pub den: u128,
}

impl Ratio {
    /// A ratio denotes a number only with a non-zero denominator.
    pub open spec fn wf(self) -> bool {
        self.den > 0
    }

    /// The fraction `num / den` as a specification value.
    pub open spec fn of(num: int, den: int) -> Ratio {
        Ratio { num: num as u128, den: den as u128 }
    }

    /// `self` denotes zero.
    pub open spec fn is_zero(self) -> bool {
        self.num == 0
    }

    /// `self <= other` as rational numbers.
    pub open spec fn le(self, other: Ratio) -> bool {
        self.num * other.den <= other.num * self.den
    }

    /// The product of `self` and `other` denotes the integer `n`.
    pub open spec fn product_is(self, other: Ratio, n: int) -> bool {
        self.num * other.num == n * (self.den * other.den)
    }

    /// The ratio `0 / 1`.
    pub fn zero() -> (r: Ratio)
        ensures
            r == Ratio::of(0, 1),
    {
        Ratio { num: 0, den: 1 }
    }

    /// The ratio `num / den`.
    pub fn new(num: u128, den: u128) -> (r: Ratio)
        requires
            den > 0,
        ensures
            r == (Ratio { num, den }),
    {
        Ratio { num, den }
    }

    /// The integer `n` as the ratio `n / 1`.
    pub fn from_integer(n: u64) -> (r: Ratio)
        ensures
            r == Ratio::of(n as int, 1),
    {
        Ratio { num: n as u128, den: 1 }
    }

    /// The same quantity expressed in a unit `factor` times larger:
    /// `num / (den * factor)`.
    pub fn scaled_down(self, factor: u64) -> (r: Ratio)
        requires
            self.wf(),
            factor > 0,
            self.den * factor <= u128::MAX,
        ensures
            r == Ratio::of(self.num as int, self.den * factor),
            r.wf(),
    {
        assert(self.den * factor > 0) by (nonlinear_arith)
            requires
                self.den > 0,
                factor > 0,
        ;
        Ratio { num: self.num, den: self.den * (factor as u128) }
    }
}

} // verus!
