//! Binary32 bit patterns.
//!
//! A sample, a gain or a coordinate is a `u32` holding the bits of an
//! IEEE-754 single-precision number. Nothing here does arithmetic on them:
//! the predicates below only tell the special values apart.

use vstd::prelude::*;

verus! {

/// The bits of `0.0`: digital silence.
pub const ZERO: u32 = 0;

/// The bits of `1.0`.
pub const ONE: u32 = 0x3f80_0000;

/// The bits of `-1.0`.
pub const NEG_ONE: u32 = 0xbf80_0000;

/// Everything but the sign bit.
pub const MAGNITUDE: u32 = 0x7fff_ffff;

/// The magnitude of an infinity: all exponent bits set, empty mantissa.
pub const INFINITY: u32 = 0x7f80_0000;

/// Whether `bits` encodes a NaN: exponent all ones and a non-empty mantissa.
pub open spec fn is_nan(bits: u32) -> bool {
    (bits & MAGNITUDE) > INFINITY
}

/// Whether `bits` encodes `0.0` or `-0.0`.
pub open spec fn is_zero(bits: u32) -> bool {
    (bits & MAGNITUDE) == 0
}

/// Whether `a` and `b` encode the same number: neither is a NaN, and the bits
/// agree or both are zeros of either sign.
pub open spec fn same_number(a: u32, b: u32) -> bool {
    !is_nan(a) && !is_nan(b) && (a == b || (is_zero(a) && is_zero(b)))
}

pub fn check_nan(bits: u32) -> (r: bool)
    ensures
        r == is_nan(bits),
{
    (bits & MAGNITUDE) > INFINITY
}

pub fn check_zero(bits: u32) -> (r: bool)
    ensures
        r == is_zero(bits),
{
    (bits & MAGNITUDE) == 0
}

pub fn check_same_number(a: u32, b: u32) -> (r: bool)
    ensures
        r == same_number(a, b),
{
    !check_nan(a) && !check_nan(b) && (a == b || (check_zero(a) && check_zero(b)))
}

/// The bits of `0.0` are a zero and no NaN.
pub proof fn lemma_zero_bits()
    ensures
        is_zero(ZERO),
        !is_nan(ZERO),
{
    assert((0u32 & 0x7fff_ffffu32) == 0u32) by (bit_vector);
}

} // verus!
