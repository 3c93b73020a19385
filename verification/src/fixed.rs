//! Fixed-point values: an integer `raw` that counts units of `10^-9`, and a
//! precision that says how many decimal digits of it are meaningful.

use vstd::prelude::*;

verus! {

/// The number of decimal digits that every raw value is scaled by.
pub const FIXED_PRECISION: u8 = 9;

/// The raw value of one whole unit, `10^9`.
pub const FIXED_SCALAR: u64 = 1_000_000_000;

/// Ten to the power `e`.
pub open spec fn pow10(e: nat) -> nat
    decreases e,
{
    if e == 0 {
        1
    } else {
        10 * pow10((e - 1) as nat)
    }
}

/// The raw value of the smallest step at `precision` decimal digits.
pub open spec fn tick(precision: nat) -> nat
    recommends
        precision <= 9,
{
    pow10((9 - precision) as nat)
}

/// The powers of ten up to the scale, written out.
pub proof fn lemma_pow10_values()
    ensures
        pow10(0) == 1,
        pow10(1) == 10,
        pow10(2) == 100,
        pow10(3) == 1_000,
        pow10(4) == 10_000,
        pow10(5) == 100_000,
        pow10(6) == 1_000_000,
        pow10(7) == 10_000_000,
        pow10(8) == 100_000_000,
        pow10(9) == 1_000_000_000,
{
    reveal_with_fuel(pow10, 11);
}

/// The power of ten of an exponent is the product of the powers of its parts.
pub proof fn lemma_pow10_adds(a: nat, b: nat)
    ensures
        pow10(a + b) == pow10(a) * pow10(b),
    decreases a,
{
    if a == 0 {
        assert(pow10(0) == 1);
    } else {
        lemma_pow10_adds((a - 1) as nat, b);
        assert(pow10(a + b) == 10 * pow10((a + b - 1) as nat));
        assert(pow10(a) == 10 * pow10((a - 1) as nat));
        assert(10 * (pow10((a - 1) as nat) * pow10(b)) == (10 * pow10((a - 1) as nat)) * pow10(b))
            by (nonlinear_arith);
    }
}

/// A power of ten up to the scale is at most the scale's.
pub proof fn lemma_pow10_le_scale(e: nat)
    requires
        e <= 9,
    ensures
        1 <= pow10(e) <= 1_000_000_000,
{
    reveal_with_fuel(pow10, 11);
}

/// Ten to the power `e`, for an exponent up to the scale.
pub fn pow10_u64(e: u8) -> (r: u64)
    requires
        e <= 9,
    ensures
        r == pow10(e as nat),
        1 <= r <= 1_000_000_000,
{
    proof {
        lemma_pow10_values();
    }
    let mut r: u64 = 1;
    let mut i: u8 = 0;
    while i < e
        invariant
            i <= e <= 9,
            r == pow10(i as nat),
            1 <= r <= 1_000_000_000,
            pow10(0) == 1,
            pow10(1) == 10,
            pow10(2) == 100,
            pow10(3) == 1_000,
            pow10(4) == 10_000,
            pow10(5) == 100_000,
            pow10(6) == 1_000_000,
            pow10(7) == 10_000_000,
            pow10(8) == 100_000_000,
            pow10(9) == 1_000_000_000,
        decreases e - i,
    {
        assert(pow10((i + 1) as nat) == 10 * pow10(i as nat));
        assert(pow10((i + 1) as nat) <= 1_000_000_000);
        r = r * 10;
        i += 1;
    }
    r
}

/// A price: `raw` counts units of `10^-9`, of which `precision` decimal digits
/// are meaningful.
#[derive(Clone, Copy, Debug, PartialEq, Eq, Structural, Hash)]
pub struct Price {
    pub raw: i64,
    pub precision: u8,
}

impl Price {
    /// The price with the given raw value and precision; nothing is checked.
    pub fn from_raw(raw: i64, precision: u8) -> (r: Price)
        ensures
            r == (Price { raw, precision }),
    {
        Price { raw, precision }
    }
}

/// A quantity: `raw` counts units of `10^-9`, of which `precision` decimal
/// digits are meaningful.
#[derive(Clone, Copy, Debug, PartialEq, Eq, Structural, Hash)]
pub struct Quantity {
    pub raw: u64,
    pub precision: u8,
}

impl Quantity {
    /// The quantity with the given raw value and precision; nothing is checked.
    pub fn from_raw(raw: u64, precision: u8) -> (r: Quantity)
        ensures
            r == (Quantity { raw, precision }),
    {
        Quantity { raw, precision }
    }

    /// The whole quantity `units`, with precision 0.
    pub fn from_units(units: u32) -> (r: Quantity)
        ensures
            r.raw == units * 1_000_000_000,
            r.precision == 0,
    {
        let wide: u64 = units as u64;
        Quantity { raw: wide * FIXED_SCALAR, precision: 0 }
    }

    /// Whether the quantity is nothing.
    pub fn is_zero(&self) -> (r: bool)
        ensures
            r == (self.raw == 0),
    {
        self.raw == 0
    }
}

} // verus!
