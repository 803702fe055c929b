//! Single-precision binary floating-point values, carried by their bit
//! patterns.
//!
//! A coordinate travels through this library as the 32-bit pattern of an
//! IEEE 754 binary32 value: one sign bit, eight exponent bits and
//! twenty-three fraction bits. Nothing here rounds or does arithmetic on such
//! values; the module only orders them, the way the hardware comparison does.

use vstd::prelude::*;

verus! {

/// The sign bit of a pattern.
pub const SIGN_BIT: u32 = 0x8000_0000;

/// The magnitude of positive and negative infinity; every larger magnitude is
/// a NaN.
pub const INFINITY_MAGNITUDE: u32 = 0x7f80_0000;

/// The pattern of positive zero.
pub const ZERO: u32 = 0x0000_0000;

/// The pattern of one half.
pub const HALF: u32 = 0x3f00_0000;

/// The pattern of one.
pub const ONE: u32 = 0x3f80_0000;

/// The pattern with its sign bit cleared.
pub open spec fn magnitude(bits: u32) -> int {
    if bits >= SIGN_BIT {
        bits - SIGN_BIT
    } else {
        bits as int
    }
}

/// Whether the sign bit is set.
pub open spec fn is_negative(bits: u32) -> bool {
    bits >= SIGN_BIT
}

/// Whether the pattern is a NaN: all exponent bits set and a fraction that is
/// not zero.
pub open spec fn is_nan(bits: u32) -> bool {
    magnitude(bits) > INFINITY_MAGNITUDE
}

/// An integer that orders the patterns that are not NaN as their values are
/// ordered. Both zeros map to 0, so do not tell them apart by it.
pub open spec fn order_key(bits: u32) -> int {
    if is_negative(bits) {
        -magnitude(bits)
    } else {
        magnitude(bits)
    }
}

/// The value of `a` is strictly below the value of `b`. False as soon as one
/// of them is a NaN, and false between the two zeros.
pub open spec fn precedes(a: u32, b: u32) -> bool {
    !is_nan(a) && !is_nan(b) && order_key(a) < order_key(b)
}

/// The two values are ordered one way or the other, or the patterns are the
/// same. This fails for a NaN beside a different pattern, and for the two
/// zeros of opposite sign.
pub open spec fn settled(a: u32, b: u32) -> bool {
    precedes(a, b) || precedes(b, a) || a == b
}

/// Tells whether a pattern is a NaN.
pub fn is_not_a_number(bits: u32) -> (nan: bool)
    ensures
        nan == is_nan(bits),
{
    let magnitude: u32 = if bits >= SIGN_BIT {
        bits - SIGN_BIT
    } else {
        bits
    };
    magnitude > INFINITY_MAGNITUDE
}

/// Computes the ordering key of a pattern.
pub fn key_of(bits: u32) -> (key: i64)
    ensures
        key == order_key(bits),
{
    if bits >= SIGN_BIT {
        let magnitude: u32 = bits - SIGN_BIT;
        -(magnitude as i64)
    } else {
        bits as i64
    }
}

/// Strict comparison of two values by their patterns.
pub fn less_than(a: u32, b: u32) -> (below: bool)
    ensures
        below == precedes(a, b),
{
    !is_not_a_number(a) && !is_not_a_number(b) && key_of(a) < key_of(b)
}

} // verus!
