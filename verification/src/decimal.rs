//! The arbitrary-precision decimal of `rust_decimal`, as far as this library
//! makes and carries values of it.
//!
//! Nothing in this file is proved: the contract states what the source of
//! `rust_decimal` shows of the function that it names.

use rust_decimal::Decimal;
use vstd::prelude::*;

verus! {

/// `rust_decimal::Decimal`: a signed 96-bit integer and a scale from 0 to 28.
#[verifier::external_type_specification]
#[verifier::external_body]
pub struct ExDecimal(Decimal);

/// The largest magnitude of the integer that a `Decimal` holds, `2^96 - 1`.
pub const DECIMAL_MAX_MANTISSA: i128 = 0xFFFF_FFFF_FFFF_FFFF_FFFF_FFFF;

/// The largest scale of a `Decimal`.
pub const DECIMAL_MAX_SCALE: u32 = 28;

/// The decimal that `Decimal::from_i128_with_scale` makes of the integer `num`
/// and the scale `scale`: the number `num / 10^scale`, kept with that scale.
pub uninterp spec fn decimal_with_scale(num: int, scale: nat) -> Decimal;

/// `Decimal::from_i128_with_scale`: the decimal with the unscaled integer `num`
/// and the scale `scale`. It panics on a scale above 28 and on an integer
/// beyond 96 bits, which `requires` leaves out.
#[verifier::external_body]
pub(crate) fn decimal_from_i128_with_scale(num: i128, scale: u32) -> (d: Decimal)
    requires
        scale <= DECIMAL_MAX_SCALE,
        -DECIMAL_MAX_MANTISSA <= num <= DECIMAL_MAX_MANTISSA,
    ensures
        d == decimal_with_scale(num as int, scale as nat),
{
    Decimal::from_i128_with_scale(num, scale)
}

} // verus!
