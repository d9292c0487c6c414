use vstd::prelude::*;

verus! {

/// Number of atomic units in one whole: a decimal carries 18 fractional digits.
pub const DECIMAL_FRACTIONAL: u128 = 1_000_000_000_000_000_000u128;

/// A fixed-point decimal with 18 fractional digits; `Decimal(DECIMAL_FRACTIONAL)` is 1.0.
///
/// The field holds the number of atomic units (10^-18).
#[derive(Clone, Copy, Debug, PartialEq, Eq, Structural)]
pub struct Decimal(pub u128);

impl Decimal {
    /// The decimal 1.0.
    pub fn one() -> (d: Decimal)
        ensures
            d.0 == DECIMAL_FRACTIONAL,
    {
        Decimal(DECIMAL_FRACTIONAL)
    }

    /// The decimal 0.0.
    pub fn zero() -> (d: Decimal)
        ensures
            d.0 == 0,
    {
        Decimal(0)
    }

    /// The ratio `nominator / denominator`, rounded down to 18 fractional digits.
    pub fn from_ratio(nominator: u128, denominator: u128) -> (d: Decimal)
        requires
            denominator != 0,
            nominator * DECIMAL_FRACTIONAL <= u128::MAX,
        ensures
            d.0 == (nominator * DECIMAL_FRACTIONAL) / (denominator as int),
    {
        Decimal(nominator * DECIMAL_FRACTIONAL / denominator)
    }

    /// The sum of two decimals.
    pub fn add(self, other: Decimal) -> (d: Decimal)
        requires
            self.0 + other.0 <= u128::MAX,
        ensures
            d.0 == self.0 + other.0,
    {
        Decimal(self.0 + other.0)
    }

    /// `amount` times this decimal, rounded down to a whole number.
    pub fn mul_amount(self, amount: u128) -> (r: u128)
        requires
            amount * self.0 <= u128::MAX,
        ensures
            r == share_of(amount, self),
    {
        if amount == 0 || self.0 == 0 {
            proof {
                assert(amount * self.0 == 0) by (nonlinear_arith)
                    requires
                        amount == 0 || self.0 == 0,
                ;
            }
            0
        } else {
            amount * self.0 / DECIMAL_FRACTIONAL
        }
    }
}

/// `amount` times the decimal `portion`, rounded down.
pub open spec fn share_of(amount: u128, portion: Decimal) -> int {
    (amount * portion.0) / (DECIMAL_FRACTIONAL as int)
}

} // verus!
