//! IEEE-754 binary32 numbers by their bit patterns.
//!
//! Speeds, angles and distances cross this library as the 32-bit patterns of
//! single-precision numbers. The library never calculates with them. It only
//! tells them apart and puts them in order, and this module says what that
//! means for a pattern: which patterns are numbers, which are zero, and when
//! one number is less than another.

use vstd::prelude::*;

verus! {

/// The sign bit.
pub const SIGN: u32 = 0x8000_0000;

/// Every bit but the sign: exponent and fraction.
pub const MAGNITUDE: u32 = 0x7fff_ffff;

/// Positive infinity, the largest magnitude that is not a NaN.
pub const INFINITY: u32 = 0x7f80_0000;

/// The quiet NaN that arithmetic yields by default.
pub const NAN: u32 = 0x7fc0_0000;

/// Positive zero.
pub const ZERO: u32 = 0;

/// The number one.
pub const ONE: u32 = 0x3f80_0000;

/// Whether the pattern is not a number.
pub open spec fn spec_is_nan(x: u32) -> bool {
    x & MAGNITUDE > INFINITY
}

/// Whether the pattern is a zero, of either sign.
pub open spec fn spec_is_zero(x: u32) -> bool {
    x & MAGNITUDE == 0
}

/// Where a number stands among the numbers: patterns with the sign bit
/// mirror those without, and the two zeros share one place.
pub open spec fn rank(x: u32) -> int {
    if x & SIGN == 0 {
        (x & MAGNITUDE) as int
    } else {
        -((x & MAGNITUDE) as int)
    }
}

/// Whether `a` is less than `b` as numbers. False where either is a NaN.
pub open spec fn spec_lt(a: u32, b: u32) -> bool {
    !spec_is_nan(a) && !spec_is_nan(b) && rank(a) < rank(b)
}

/// Whether the pattern is not a number.
#[verifier::when_used_as_spec(spec_is_nan)]
pub fn is_nan(x: u32) -> (r: bool)
    ensures
        r == spec_is_nan(x),
{
    x & MAGNITUDE > INFINITY
}

/// Whether the pattern is a zero, of either sign.
#[verifier::when_used_as_spec(spec_is_zero)]
pub fn is_zero(x: u32) -> (r: bool)
    ensures
        r == spec_is_zero(x),
{
    x & MAGNITUDE == 0
}

/// Whether `a` is less than `b` as numbers. False where either is a NaN.
#[verifier::when_used_as_spec(spec_lt)]
pub fn lt(a: u32, b: u32) -> (r: bool)
    ensures
        r == spec_lt(a, b),
{
    if is_nan(a) || is_nan(b) {
        return false;
    }
    let size_a: u32 = a & MAGNITUDE;
    let size_b: u32 = b & MAGNITUDE;
    if a & SIGN != 0 {
        if b & SIGN != 0 {
            size_b < size_a
        } else {
            size_a != 0 || size_b != 0
        }
    } else {
        if b & SIGN != 0 {
            false
        } else {
            size_a < size_b
        }
    }
}

/// The lesser of a number and a bound that is a number: `x` if it is less
/// than `bound`, else `bound`. A NaN gives the bound.
pub open spec fn spec_at_most(x: u32, bound: u32) -> u32 {
    if spec_lt(x, bound) {
        x
    } else {
        bound
    }
}

/// The greater of a number and a bound that is a number: `x` if it is
/// greater than `bound`, else `bound`. A NaN gives the bound.
pub open spec fn spec_at_least(x: u32, bound: u32) -> u32 {
    if spec_lt(bound, x) {
        x
    } else {
        bound
    }
}

/// The lesser of a number and a bound that is a number. A NaN gives the bound.
#[verifier::when_used_as_spec(spec_at_most)]
pub fn at_most(x: u32, bound: u32) -> (r: u32)
    ensures
        r == spec_at_most(x, bound),
{
    if lt(x, bound) {
        x
    } else {
        bound
    }
}

/// The greater of a number and a bound that is a number. A NaN gives the bound.
#[verifier::when_used_as_spec(spec_at_least)]
pub fn at_least(x: u32, bound: u32) -> (r: u32)
    ensures
        r == spec_at_least(x, bound),
{
    if lt(bound, x) {
        x
    } else {
        bound
    }
}

/// No number is less than itself, and of two numbers at most one is less
/// than the other.
pub proof fn law_lt_is_strict(a: u32, b: u32)
    ensures
        !spec_lt(a, a),
        !(spec_lt(a, b) && spec_lt(b, a)),
{
}

/// Less-than is transitive.
pub proof fn law_lt_is_transitive(a: u32, b: u32, c: u32)
    requires
        spec_lt(a, b),
        spec_lt(b, c),
    ensures
        spec_lt(a, c),
{
}

/// Among patterns without the sign bit that are numbers, the order of the
/// numbers is the order of the patterns.
pub proof fn law_lt_of_positives(a: u32, b: u32)
    requires
        a <= INFINITY,
        b <= INFINITY,
    ensures
        spec_lt(a, b) <==> a < b,
{
    assert(a & MAGNITUDE == a && a & SIGN == 0) by (bit_vector)
        requires
            a <= 0x7f80_0000u32,
    ;
    assert(b & MAGNITUDE == b && b & SIGN == 0) by (bit_vector)
        requires
            b <= 0x7f80_0000u32,
    ;
}

} // verus!
