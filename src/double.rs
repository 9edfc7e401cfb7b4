//! IEEE-754 binary64 numbers, held by their bit patterns.
//!
//! A double is stored as the `u64` with the same 64 bits: one sign bit, an
//! eleven-bit exponent field and a 52-bit fraction field.
use vstd::prelude::*;

verus! {

/// 2^52: one past the largest fraction field.
pub const FRACTION_SPAN: u64 = 0x10_0000_0000_0000;

/// 2^11 - 1: the exponent field of infinities and NaNs.
pub const EXPONENT_ALL_ONES: u64 = 0x7ff;

/// 2^63: the sign bit.
pub const SIGN_BIT: u64 = 0x8000_0000_0000_0000;

/// The eleven-bit exponent field of a double.
pub open spec fn exponent_field(bits: u64) -> int {
    (bits as int / FRACTION_SPAN as int) % 0x800
}

/// The 52-bit fraction field of a double.
pub open spec fn fraction_field(bits: u64) -> int {
    bits as int % FRACTION_SPAN as int
}

/// The double is a NaN: all exponent bits set and a nonzero fraction.
pub open spec fn is_nan_bits(bits: u64) -> bool {
    exponent_field(bits) == EXPONENT_ALL_ONES as int && fraction_field(bits) != 0
}

/// The double is +0.0 or -0.0: every bit but the sign bit is clear.
pub open spec fn is_zero_bits(bits: u64) -> bool {
    bits as int % SIGN_BIT as int == 0
}

/// Floating-point `==` on two doubles: a NaN equals nothing, +0.0 equals
/// -0.0, and any other double equals exactly the double with the same bits.
pub open spec fn double_eq(a: u64, b: u64) -> bool {
    &&& !is_nan_bits(a)
    &&& !is_nan_bits(b)
    &&& (a == b || (is_zero_bits(a) && is_zero_bits(b)))
}

/// Whether the double with these bits is a NaN.
pub fn double_is_nan(bits: u64) -> (r: bool)
    ensures
        r == is_nan_bits(bits),
{
    (bits / FRACTION_SPAN) % 0x800 == EXPONENT_ALL_ONES && bits % FRACTION_SPAN != 0
}

/// Whether the double with these bits is zero, of either sign.
pub fn double_is_zero(bits: u64) -> (r: bool)
    ensures
        r == is_zero_bits(bits),
{
    bits % SIGN_BIT == 0
}

/// Floating-point `==` on the doubles with these bits.
pub fn double_equals(a: u64, b: u64) -> (r: bool)
    ensures
        r == double_eq(a, b),
{
    if double_is_nan(a) || double_is_nan(b) {
        false
    } else {
        a == b || (double_is_zero(a) && double_is_zero(b))
    }
}

/// Floating-point `==` is symmetric.
pub proof fn lemma_double_eq_symmetric(a: u64, b: u64)
    ensures
        double_eq(a, b) == double_eq(b, a),
{
}

/// Every double but a NaN equals itself.
pub proof fn lemma_double_eq_reflexive(a: u64)
    requires
        !is_nan_bits(a),
    ensures
        double_eq(a, a),
{
}

} // verus!
