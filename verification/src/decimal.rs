//! Fixed-point percentages.

use vstd::prelude::*;

verus! {

/// Number of atomic units in one whole: a [`Decimal`] carries 18 fractional digits.
pub const DECIMAL_FRACTIONAL: u128 = 1_000_000_000_000_000_000;

/// A non-negative fixed-point number with 18 fractional digits.
///
/// The number is held as its count of atomic units, so the value it stands
/// for is `atomics / 10^18`. Every count is a valid number.
#[derive(Clone, Copy, Debug, PartialEq, Eq, Structural)]
pub struct Decimal {
    pub atomics: u128,
}

impl Decimal {
    /// The number with the given count of atomic units.
    pub fn raw(atomics: u128) -> (d: Decimal)
        ensures
            d.atomics == atomics,
    {
        Decimal { atomics }
    }

    /// The number zero.
    pub fn zero() -> (d: Decimal)
        ensures
            d.atomics == 0,
    {
        Decimal { atomics: 0 }
    }

    /// The count of atomic units.
    pub fn atomics(&self) -> (a: u128)
        ensures
            a == self.atomics,
    {
        self.atomics
    }
}

} // verus!
