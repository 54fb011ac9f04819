//! Exact non-negative fractions, compared against rational thresholds without rounding.
use vstd::prelude::*;

verus! {

/// The value `num / den`; the analyses always give a positive `den`.
#[derive(Debug, Clone, Copy, PartialEq, Eq, Structural)]
pub struct Fraction {
    pub num: u64,
    pub den: u64,
}

/// The product of two `u64`, which always fits in a `u128`.
fn wide_mul(a: u64, b: u64) -> (r: u128)
    ensures
        r == a * b,
{
    assert(a * b <= u64::MAX * u64::MAX) by (nonlinear_arith)
        requires
            a <= u64::MAX,
            b <= u64::MAX,
    ;
    assert(u64::MAX * u64::MAX <= u128::MAX);
    (a as u128) * (b as u128)
}

impl Fraction {
    /// Zero, written as `0 / 1`.
    pub open spec fn zero() -> Fraction {
        Fraction { num: 0, den: 1 }
    }

    /// The value is strictly greater than `p / q`.
    pub open spec fn exceeds(self, p: u64, q: u64) -> bool {
        self.num * q > p * self.den
    }

    /// The value is at least `p / q`.
    pub open spec fn reaches(self, p: u64, q: u64) -> bool {
        self.num * q >= p * self.den
    }

    /// The value is strictly less than `p / q`.
    pub open spec fn falls_below(self, p: u64, q: u64) -> bool {
        self.num * q < p * self.den
    }

    /// Zero, written as `0 / 1`.
    pub fn new_zero() -> (r: Fraction)
        ensures
            r == Fraction::zero(),
    {
        Fraction { num: 0, den: 1 }
    }

    /// Whether the value is strictly greater than `p / q`.
    pub fn is_above(&self, p: u64, q: u64) -> (r: bool)
        ensures
            r == self.exceeds(p, q),
    {
        wide_mul(self.num, q) > wide_mul(p, self.den)
    }

    /// Whether the value is at least `p / q`.
    pub fn is_at_least(&self, p: u64, q: u64) -> (r: bool)
        ensures
            r == self.reaches(p, q),
    {
        wide_mul(self.num, q) >= wide_mul(p, self.den)
    }

    /// Whether the value is strictly less than `p / q`.
    pub fn is_below(&self, p: u64, q: u64) -> (r: bool)
        ensures
            r == self.falls_below(p, q),
    {
        wide_mul(self.num, q) < wide_mul(p, self.den)
    }
}

} // verus!
