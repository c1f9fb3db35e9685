use cosmwasm_std::Fraction;
use vstd::prelude::*;

verus! {

/// Number of atomic units in 1.0.
pub const DECIMAL_FRACTIONAL: u128 = 1_000_000_000_000_000_000;

/// A fixed-point decimal with 18 fractional digits, held as its atomic units.
#[derive(Clone, Copy, Debug, PartialEq, Eq, Structural)]
pub struct Decimal {
    pub atomics: u128,
}

/// The slippage tolerance of a swap that names none, in atomic units: 0.005.
pub const DEFAULT_SLIPPAGE_ATOMICS: u128 = 5_000_000_000_000_000;

/// `floor(amount * d)`.
pub open spec fn mul_floor_spec(amount: u128, d: Decimal) -> int {
    (amount * d.atomics) as int / (DECIMAL_FRACTIONAL as int)
}

/// Relies on cosmwasm_std::Uint128::checked_multiply_ratio, with the
/// numerator and denominator of cosmwasm_std::Decimal: `floor(amount * d)`,
/// or nothing when that does not fit in 128 bits.
#[verifier::external_body]
pub(crate) fn checked_mul_floor(amount: u128, d: Decimal) -> (r: Option<u128>)
    ensures
        mul_floor_spec(amount, d) <= u128::MAX ==> r == Some(mul_floor_spec(amount, d) as u128),
        mul_floor_spec(amount, d) > u128::MAX ==> r is None,
{
    let d = cosmwasm_std::Decimal::raw(d.atomics);
    cosmwasm_std::Uint128::new(amount)
        .checked_multiply_ratio(d.numerator(), d.denominator())
        .ok()
        .map(|v| v.u128())
}

} // verus!
