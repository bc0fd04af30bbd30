//! IEEE 754 binary64 values as bit patterns.
//!
//! A pattern has a sign bit, eleven exponent bits and fifty-two fraction
//! bits. Everything the library needs of a floating-point number can be read
//! off these: whether it is finite, how its absolute value compares with a
//! bound, and where it stands in the total order.

use vstd::prelude::*;

verus! {

/// The sign bit of a binary64 pattern.
pub const SIGN_BIT: u64 = 0x8000_0000_0000_0000;

/// The pattern of positive infinity; the absolute value of every finite
/// number lies strictly below it.
pub const INFINITY: u64 = 0x7FF0_0000_0000_0000;

/// The pattern of `90.0`.
pub const NINETY: u64 = 0x4056_8000_0000_0000;

/// The pattern of `180.0`.
pub const ONE_EIGHTY: u64 = 0x4066_8000_0000_0000;

/// The pattern with the sign bit cleared: the pattern of the absolute value.
pub open spec fn magnitude(bits: u64) -> u64 {
    if bits >= SIGN_BIT {
        (bits - SIGN_BIT) as u64
    } else {
        bits
    }
}

/// Whether the pattern is neither an infinity nor a NaN.
pub open spec fn is_finite(bits: u64) -> bool {
    magnitude(bits) < INFINITY
}

/// Whether the pattern is a number whose absolute value is at most that of
/// `bound`, itself the pattern of a finite, non-negative number. Patterns of
/// non-negative numbers are ordered as the numbers are, so this is a
/// comparison of magnitudes.
pub open spec fn within(bits: u64, bound: u64) -> bool {
    magnitude(bits) <= bound
}

/// The place of a pattern on the integer line under the IEEE 754 total
/// order: negative NaNs, negative infinity, the negative numbers, `-0.0`,
/// `+0.0`, the positive numbers, positive infinity, positive NaNs. Two
/// patterns have the same rank only if they are the same pattern.
pub open spec fn rank(bits: u64) -> int {
    if bits >= SIGN_BIT {
        -(magnitude(bits) as int) - 1
    } else {
        bits as int
    }
}

/// Clears the sign bit.
pub fn abs_bits(bits: u64) -> (r: u64)
    ensures
        r == magnitude(bits),
{
    if bits >= SIGN_BIT {
        bits - SIGN_BIT
    } else {
        bits
    }
}

/// Decides whether a pattern is finite.
pub fn finite(bits: u64) -> (r: bool)
    ensures
        r == is_finite(bits),
{
    abs_bits(bits) < INFINITY
}

/// Decides whether the absolute value of a pattern is at most `bound`.
pub fn bounded_by(bits: u64, bound: u64) -> (r: bool)
    ensures
        r == within(bits, bound),
{
    abs_bits(bits) <= bound
}

/// Decides whether `a` comes strictly after `b` in the total order.
pub fn ranks_above(a: u64, b: u64) -> (r: bool)
    ensures
        r == (rank(a) > rank(b)),
{
    if a >= SIGN_BIT {
        b >= SIGN_BIT && a < b
    } else {
        b >= SIGN_BIT || a > b
    }
}

} // verus!
