//! Fixed-point ratios with 18 fractional digits, and the truncating
//! multiply-then-divide on which all reward arithmetic rests.

use vstd::prelude::*;
use vstd::arithmetic::div_mod::{
    lemma_div_is_ordered, lemma_div_multiples_vanish_fancy, lemma_fundamental_div_mod,
};

verus! {

/// Number of atomic units in the ratio 1.0.
pub const DECIMAL_FRACTIONAL: u128 = 1_000_000_000_000_000_000u128;

/// `value * numerator / denominator`, rounded towards zero.
pub open spec fn ratio_floor(value: int, numerator: int, denominator: int) -> int {
    value * numerator / denominator
}

/// `cosmwasm_std::Uint128::multiply_ratio`: the product of `value` and
/// `numerator`, taken without overflow, divided by `denominator` and
/// truncated. The outside function panics on a zero denominator and where
/// the quotient exceeds 128 bits; both are excluded here.
#[verifier::external_body]
fn multiply_ratio(value: u128, numerator: u128, denominator: u128) -> (result: u128)
    requires
        denominator != 0,
        ratio_floor(value as int, numerator as int, denominator as int) <= u128::MAX,
    ensures
        result == ratio_floor(value as int, numerator as int, denominator as int),
{
    cosmwasm_std::Uint128::new(value).multiply_ratio(numerator, denominator).u128()
}

/// Splitting `value` into whole multiples of `denominator` and a rest splits
/// the quotient the same way, and the part that comes from the rest is
/// smaller than `numerator`.
pub proof fn lemma_ratio_floor_split(value: int, numerator: int, denominator: int)
    requires
        0 <= value,
        0 <= numerator,
        0 < denominator,
    ensures
        ratio_floor(value, numerator, denominator) == (value / denominator) * numerator
            + ratio_floor(value % denominator, numerator, denominator),
        0 <= ratio_floor(value % denominator, numerator, denominator) <= numerator,
        0 <= (value / denominator) * numerator,
{
    let q = value / denominator;
    let r = value % denominator;
    lemma_fundamental_div_mod(value, denominator);
    assert(value * numerator == denominator * (q * numerator) + r * numerator) by (nonlinear_arith)
        requires
            value == denominator * q + r,
    ;
    assert(0 <= r * numerator <= denominator * numerator) by (nonlinear_arith)
        requires
            0 <= r < denominator,
            0 <= numerator,
    ;
    assert(0 <= q * numerator) by (nonlinear_arith)
        requires
            0 <= q,
            0 <= numerator,
    ;
    lemma_fundamental_div_mod(r * numerator, denominator);
    let low = r * numerator / denominator;
    assert(value * numerator == denominator * (q * numerator + low) + r * numerator % denominator)
        by (nonlinear_arith)
        requires
            value * numerator == denominator * (q * numerator) + r * numerator,
            r * numerator == denominator * low + r * numerator % denominator,
    ;
    lemma_div_multiples_vanish_fancy(q * numerator + low, r * numerator % denominator, denominator);
    lemma_div_is_ordered(r * numerator, denominator * numerator, denominator);
    assert(denominator * numerator / denominator == numerator) by {
        lemma_div_multiples_vanish_fancy(numerator, 0, denominator);
    }
}

/// `ratio_floor` never decreases when its numerator grows.
pub proof fn lemma_ratio_floor_monotone(value: int, low: int, high: int, denominator: int)
    requires
        0 <= value,
        0 <= low <= high,
        0 < denominator,
    ensures
        0 <= ratio_floor(value, low, denominator) <= ratio_floor(value, high, denominator),
{
    assert(0 <= value * low <= value * high) by (nonlinear_arith)
        requires
            0 <= value,
            0 <= low <= high,
    ;
    lemma_div_is_ordered(value * low, value * high, denominator);
}

/// `value * numerator / denominator` where it fits in 128 bits, `None` where
/// it does not. The product itself may be wider than 128 bits.
pub fn checked_multiply_ratio(value: u128, numerator: u128, denominator: u128) -> (result: Option<
    u128,
>)
    requires
        denominator != 0,
    ensures
        result == if ratio_floor(value as int, numerator as int, denominator as int) <= u128::MAX {
            Some(ratio_floor(value as int, numerator as int, denominator as int) as u128)
        } else {
            None
        },
{
    proof {
        lemma_ratio_floor_split(value as int, numerator as int, denominator as int);
    }
    let whole: u128 = value / denominator;
    let rest: u128 = value % denominator;
    let low: u128 = multiply_ratio(rest, numerator, denominator);
    match whole.checked_mul(numerator) {
        Some(high) => high.checked_add(low),
        None => None,
    }
}

/// A non-negative fixed-point ratio with 18 fractional digits: the value is
/// `atomics / 10^18`.
#[derive(Clone, Copy, Debug, PartialEq, Eq, Structural)]
pub struct Decimal {
    pub atomics: u128,
}

/// `amount × ratio`, rounded towards zero.
pub open spec fn mul_floor(amount: u128, ratio: Decimal) -> int {
    ratio_floor(amount as int, ratio.atomics as int, DECIMAL_FRACTIONAL as int)
}

/// `amount × ratio` where it fits in 128 bits, `None` where it does not.
pub fn checked_mul_floor(amount: u128, ratio: Decimal) -> (result: Option<u128>)
    ensures
        result == if mul_floor(amount, ratio) <= u128::MAX {
            Some(mul_floor(amount, ratio) as u128)
        } else {
            None
        },
{
    checked_multiply_ratio(amount, ratio.atomics, DECIMAL_FRACTIONAL)
}

/// `amount × ratio`, rounded towards zero.
pub fn times(amount: u128, ratio: Decimal) -> (result: u128)
    requires
        mul_floor(amount, ratio) <= u128::MAX,
    ensures
        result == mul_floor(amount, ratio),
{
    multiply_ratio(amount, ratio.atomics, DECIMAL_FRACTIONAL)
}

/// `amount × ratio` never decreases when the amount grows.
pub proof fn lemma_mul_floor_monotone_amount(low: u128, high: u128, ratio: Decimal)
    requires
        low <= high,
    ensures
        0 <= mul_floor(low, ratio) <= mul_floor(high, ratio),
{
    assert(0 <= low * ratio.atomics <= high * ratio.atomics) by (nonlinear_arith)
        requires
            0 <= low <= high,
            0 <= ratio.atomics,
    ;
    lemma_div_is_ordered(
        low * ratio.atomics,
        high * ratio.atomics,
        DECIMAL_FRACTIONAL as int,
    );
}

/// `amount × ratio` never decreases when the ratio grows.
pub proof fn lemma_mul_floor_monotone(amount: u128, low: Decimal, high: Decimal)
    requires
        low.atomics <= high.atomics,
    ensures
        0 <= mul_floor(amount, low) <= mul_floor(amount, high),
{
    lemma_ratio_floor_monotone(
        amount as int,
        low.atomics as int,
        high.atomics as int,
        DECIMAL_FRACTIONAL as int,
    );
}

impl Decimal {
    /// The atomic units of `numerator / denominator`, before any check that
    /// they fit.
    pub open spec fn ratio(numerator: u128, denominator: u128) -> int {
        ratio_floor(numerator as int, DECIMAL_FRACTIONAL as int, denominator as int)
    }

    /// The ratio 0.0.
    pub fn zero() -> (d: Decimal)
        ensures
            d.atomics == 0,
    {
        Decimal { atomics: 0 }
    }

    /// The ratio `x / 100`.
    pub fn percent(x: u64) -> (d: Decimal)
        ensures
            d.atomics == x * 10_000_000_000_000_000,
    {
        let wide: u128 = x as u128;
        Decimal { atomics: wide * 10_000_000_000_000_000u128 }
    }

    /// The ratio `numerator / denominator`, truncated to 18 fractional
    /// digits, where it can be represented; `None` where it is too large.
    pub fn checked_from_ratio(numerator: u128, denominator: u128) -> (result: Option<Decimal>)
        requires
            denominator != 0,
        ensures
            result == if Decimal::ratio(numerator, denominator) <= u128::MAX {
                Some(Decimal { atomics: Decimal::ratio(numerator, denominator) as u128 })
            } else {
                None
            },
    {
        match checked_multiply_ratio(numerator, DECIMAL_FRACTIONAL, denominator) {
            Some(atomics) => Some(Decimal { atomics }),
            None => None,
        }
    }

    /// The ratio `numerator / denominator`, truncated to 18 fractional digits.
    pub fn from_ratio(numerator: u128, denominator: u128) -> (d: Decimal)
        requires
            denominator != 0,
            Decimal::ratio(numerator, denominator) <= u128::MAX,
        ensures
            d.atomics == Decimal::ratio(numerator, denominator),
    {
        Decimal { atomics: multiply_ratio(numerator, DECIMAL_FRACTIONAL, denominator) }
    }

    /// The sum of two ratios where it can be represented.
    pub fn checked_add(self, other: Decimal) -> (result: Option<Decimal>)
        ensures
            result == if self.atomics + other.atomics <= u128::MAX {
                Some(Decimal { atomics: (self.atomics + other.atomics) as u128 })
            } else {
                None
            },
    {
        match self.atomics.checked_add(other.atomics) {
            Some(atomics) => Some(Decimal { atomics }),
            None => None,
        }
    }
}

impl Default for Decimal {
    fn default() -> (d: Decimal)
        ensures
            d.atomics == 0,
    {
        Decimal { atomics: 0 }
    }
}

} // verus!
