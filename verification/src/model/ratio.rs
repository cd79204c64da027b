//! Exact fractions.
//!
//! Hue, saturation, lightness and value are quotients of small whole
//! numbers. They are kept as such, so that nothing is rounded before a
//! caller asks for it.

use vstd::prelude::*;

verus! {

/// The fraction `num / den` of two whole numbers.
#[derive(Debug, Clone, Copy, PartialEq, Eq, Structural)]
pub struct Ratio {
    pub num: u32,
    pub den: u32,
}

impl Ratio {
    /// Whether the fraction has a value: its denominator is not zero.
    pub open spec fn wf(self) -> bool {
        self.den > 0
    }

    /// Whether the fraction is zero.
    pub open spec fn is_zero(self) -> bool {
        self.num == 0
    }

    /// Whether the value of the fraction is at most the whole number.
    pub open spec fn at_most(self, whole: int) -> bool {
        self.num <= whole * self.den
    }

    /// Whether the value of the fraction is less than the whole number.
    pub open spec fn below(self, whole: int) -> bool {
        self.num < whole * self.den
    }

    /// Whether the fraction has a value and that value is at most the whole
    /// number.
    pub fn is_at_most(&self, whole: u32) -> (holds: bool)
        ensures
            holds == (self.wf() && self.at_most(whole as int)),
    {
        assert(whole * self.den <= 0xffff_ffff * 0xffff_ffff) by (nonlinear_arith)
            requires
                0 <= whole <= 0xffff_ffff,
                0 <= self.den <= 0xffff_ffff,
        ;
        self.den > 0 && self.num as u64 <= whole as u64 * self.den as u64
    }

    /// The fraction `num / den`.
    pub fn new(num: u32, den: u32) -> (ratio: Ratio)
        ensures
            ratio == (Ratio { num, den }),
    {
        Ratio { num, den }
    }

    /// The fraction `0 / 1`.
    pub fn zero() -> (ratio: Ratio)
        ensures
            ratio == (Ratio { num: 0, den: 1 }),
    {
        Ratio { num: 0, den: 1 }
    }

    /// The fraction `1 / 1`.
    pub fn one() -> (ratio: Ratio)
        ensures
            ratio == (Ratio { num: 1, den: 1 }),
    {
        Ratio { num: 1, den: 1 }
    }
}

} // verus!
