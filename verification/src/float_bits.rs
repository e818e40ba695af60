//! Coordinates are carried as the IEEE-754 binary32 bit patterns of their
//! values (what `f32::to_bits` gives). This module states, over such bit
//! patterns, the three properties of a coordinate that the path logic reads:
//! whether it is NaN, whether it compares below zero, and whether two of them
//! compare equal. The definitions follow binary32: bit 31 is the sign, bits
//! 23..30 the exponent, bits 0..22 the fraction; an all-ones exponent with a
//! nonzero fraction is NaN; +0 and -0 compare equal; NaN compares false with
//! everything, itself included.

use vstd::prelude::*;

verus! {

/// Everything but the sign bit.
pub open spec fn spec_magnitude(bits: u32) -> u32 {
    if bits >= 0x8000_0000 {
        (bits - 0x8000_0000) as u32
    } else {
        bits
    }
}

/// The sign bit is set.
pub open spec fn spec_sign_negative(bits: u32) -> bool {
    bits >= 0x8000_0000
}

/// The value is a NaN.
pub open spec fn spec_is_nan(bits: u32) -> bool {
    spec_magnitude(bits) > 0x7f80_0000
}

/// The value is zero (either +0 or -0).
pub open spec fn spec_is_zero(bits: u32) -> bool {
    spec_magnitude(bits) == 0
}

/// `x < 0.0` holds for the value: it is not NaN, its sign is negative and it is
/// not a zero.
pub open spec fn spec_below_zero(bits: u32) -> bool {
    &&& !spec_is_nan(bits)
    &&& spec_sign_negative(bits)
    &&& !spec_is_zero(bits)
}

/// `a == b` holds for the two values: neither is NaN, and they have the same
/// bits or are both zeros.
pub open spec fn spec_float_eq(a: u32, b: u32) -> bool {
    &&& !spec_is_nan(a)
    &&& !spec_is_nan(b)
    &&& (a == b || (spec_is_zero(a) && spec_is_zero(b)))
}

/// The bit pattern of the quiet NaN that `f32::NAN` is.
pub const NAN_BITS: u32 = 0x7fc0_0000;

/// The bit pattern of `0.0`.
pub const ZERO_BITS: u32 = 0;

fn magnitude(bits: u32) -> (res: u32)
    ensures
        res == spec_magnitude(bits),
{
    if bits >= 0x8000_0000 {
        bits - 0x8000_0000
    } else {
        bits
    }
}

/// Whether the value with these bits is NaN (`f32::is_nan`).
pub fn is_nan(bits: u32) -> (res: bool)
    ensures
        res == spec_is_nan(bits),
{
    magnitude(bits) > 0x7f80_0000
}

/// Whether the value with these bits compares below zero (`x < 0.0`).
pub fn below_zero(bits: u32) -> (res: bool)
    ensures
        res == spec_below_zero(bits),
{
    let m = magnitude(bits);
    m <= 0x7f80_0000 && bits >= 0x8000_0000 && m != 0
}

/// Whether the values with these bits compare equal (`a == b`).
pub fn float_eq(a: u32, b: u32) -> (res: bool)
    ensures
        res == spec_float_eq(a, b),
{
    let ma = magnitude(a);
    let mb = magnitude(b);
    ma <= 0x7f80_0000 && mb <= 0x7f80_0000 && (a == b || (ma == 0 && mb == 0))
}

/// NaN is not equal to anything, itself included.
pub proof fn lemma_nan_never_equal(a: u32, b: u32)
    requires
        spec_is_nan(a),
    ensures
        !spec_float_eq(a, b),
        !spec_float_eq(b, a),
{
}

/// Float equality is symmetric, and transitive, and reflexive on every value
/// that is not NaN.
pub proof fn lemma_float_eq_laws(a: u32, b: u32, c: u32)
    ensures
        spec_float_eq(a, b) == spec_float_eq(b, a),
        spec_float_eq(a, b) && spec_float_eq(b, c) ==> spec_float_eq(a, c),
        !spec_is_nan(a) ==> spec_float_eq(a, a),
{
}

} // verus!
