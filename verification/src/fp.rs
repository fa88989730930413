//! IEEE-754 double-precision values as their 64-bit patterns.
//!
//! Every price and indicator output in this crate is a `u64` holding the bit
//! pattern of an IEEE-754 binary64 value. Comparisons, the sign test, the
//! absolute value and the NaN test are pure integer logic on the pattern and
//! are implemented and verified here. Addition, subtraction, multiplication,
//! division and the integer-to-double conversion cannot be expressed in the
//! verifier's logic; they are performed by `rustc_apfloat`, the Rust form
//! of LLVM's IEEE-754 arithmetic, behind trusted wrappers whose results are
//! named by uninterpreted spec functions. The square root is implemented
//! and verified in the `fsqrt` module.

use vstd::prelude::*;

use rustc_apfloat::Float as ApFloat;
use rustc_apfloat::ieee::Double;

verus! {

/// Mask of the sign bit of a binary64 pattern.
pub const SIGN_MASK: u64 = 0x8000_0000_0000_0000;
/// Mask of everything but the sign bit.
pub const MAG_MASK: u64 = 0x7FFF_FFFF_FFFF_FFFF;
/// Mask of the exponent field; a magnitude above it is a NaN.
pub const EXP_MASK: u64 = 0x7FF0_0000_0000_0000;

/// Bit pattern of `0.0`.
pub const ZERO_BITS: u64 = 0;
/// Bit pattern of `1.0`.
pub const ONE_BITS: u64 = 0x3FF0_0000_0000_0000;
/// Bit pattern of `2.0`.
pub const TWO_BITS: u64 = 0x4000_0000_0000_0000;
/// Bit pattern of `3.0`.
pub const THREE_BITS: u64 = 0x4008_0000_0000_0000;
/// Bit pattern of `50.0`.
pub const FIFTY_BITS: u64 = 0x4049_0000_0000_0000;
/// Bit pattern of `100.0`.
pub const HUNDRED_BITS: u64 = 0x4059_0000_0000_0000;
/// Bit pattern of `-100.0`.
pub const NEG_HUNDRED_BITS: u64 = 0xC059_0000_0000_0000;
/// Bit pattern of the canonical quiet NaN.
pub const NAN_BITS: u64 = 0x7FF8_0000_0000_0000;
/// Bit pattern of the smallest finite double (`-1.7976931348623157e308`).
pub const LOWEST_BITS: u64 = 0xFFEF_FFFF_FFFF_FFFF;
/// Bit pattern of the largest finite double (`1.7976931348623157e308`).
pub const HIGHEST_BITS: u64 = 0x7FEF_FFFF_FFFF_FFFF;

/// The pattern encodes a NaN: exponent all ones and a non-zero fraction.
pub open spec fn is_nan_bits(a: u64) -> bool {
    (a & MAG_MASK) > EXP_MASK
}

/// The sign bit of the pattern is set.
pub open spec fn sign_bits(a: u64) -> bool {
    (a & SIGN_MASK) == SIGN_MASK
}

/// The magnitude of the pattern: everything but the sign bit.
pub open spec fn mag_bits(a: u64) -> u64 {
    a & MAG_MASK
}

/// The pattern encodes a finite value (neither an infinity nor a NaN).
pub open spec fn finite_bits(a: u64) -> bool {
    (a & MAG_MASK) < EXP_MASK
}

/// The pattern encodes a zero (of either sign).
pub open spec fn zero_bits(a: u64) -> bool {
    (a & MAG_MASK) == 0
}

/// IEEE-754 `<` on two patterns. NaN compares false with everything; the two
/// zeroes are equal; otherwise the order is sign first, then magnitude, with
/// the magnitude order reversed under a negative sign.
pub open spec fn lt_bits(a: u64, b: u64) -> bool {
    &&& !is_nan_bits(a)
    &&& !is_nan_bits(b)
    &&& if sign_bits(a) && sign_bits(b) {
        mag_bits(b) < mag_bits(a)
    } else if !sign_bits(a) && !sign_bits(b) {
        mag_bits(a) < mag_bits(b)
    } else if sign_bits(a) {
        !(zero_bits(a) && zero_bits(b))
    } else {
        false
    }
}

/// IEEE-754 `==` on two patterns: equal patterns, or the two zeroes; never a NaN.
pub open spec fn eq_bits(a: u64, b: u64) -> bool {
    &&& !is_nan_bits(a)
    &&& !is_nan_bits(b)
    &&& (a == b || (zero_bits(a) && zero_bits(b)))
}

/// IEEE-754 `<=` on two patterns.
pub open spec fn le_bits(a: u64, b: u64) -> bool {
    lt_bits(a, b) || eq_bits(a, b)
}

/// IEEE-754 `>` on two patterns.
pub open spec fn gt_bits(a: u64, b: u64) -> bool {
    lt_bits(b, a)
}

/// IEEE-754 `>=` on two patterns.
pub open spec fn ge_bits(a: u64, b: u64) -> bool {
    le_bits(b, a)
}

/// NaN test on a pattern.
pub fn fp_is_nan(a: u64) -> (r: bool)
    ensures
        r == is_nan_bits(a),
{
    (a & MAG_MASK) > EXP_MASK
}

/// Absolute value: clears the sign bit, NaN payloads kept.
pub fn fp_abs(a: u64) -> (r: u64)
    ensures
        r == mag_bits(a),
{
    a & MAG_MASK
}

/// IEEE-754 `<` as executable integer logic on the two patterns.
pub fn fp_lt(a: u64, b: u64) -> (r: bool)
    ensures
        r == lt_bits(a, b),
{
    if (a & MAG_MASK) > EXP_MASK || (b & MAG_MASK) > EXP_MASK {
        return false;
    }
    let ma: u64 = a & MAG_MASK;
    let mb: u64 = b & MAG_MASK;
    let sa: bool = (a & SIGN_MASK) == SIGN_MASK;
    let sb: bool = (b & SIGN_MASK) == SIGN_MASK;
    if sa && sb {
        mb < ma
    } else if !sa && !sb {
        ma < mb
    } else if sa {
        !(ma == 0 && mb == 0)
    } else {
        false
    }
}

/// IEEE-754 `==` as executable integer logic on the two patterns.
pub fn fp_eq(a: u64, b: u64) -> (r: bool)
    ensures
        r == eq_bits(a, b),
{
    if (a & MAG_MASK) > EXP_MASK || (b & MAG_MASK) > EXP_MASK {
        return false;
    }
    a == b || ((a & MAG_MASK) == 0 && (b & MAG_MASK) == 0)
}

/// IEEE-754 `<=` on two patterns.
pub fn fp_le(a: u64, b: u64) -> (r: bool)
    ensures
        r == le_bits(a, b),
{
    fp_lt(a, b) || fp_eq(a, b)
}

/// IEEE-754 `>` on two patterns.
pub fn fp_gt(a: u64, b: u64) -> (r: bool)
    ensures
        r == gt_bits(a, b),
{
    fp_lt(b, a)
}

/// IEEE-754 `>=` on two patterns.
pub fn fp_ge(a: u64, b: u64) -> (r: bool)
    ensures
        r == ge_bits(a, b),
{
    fp_le(b, a)
}

/// The larger of two patterns under the NaN-ignoring convention of
/// `f64::max`: a NaN operand yields the other operand; on a tie (equal
/// values, the two zeroes included) the first operand is returned.
pub open spec fn max_bits(a: u64, b: u64) -> u64 {
    if is_nan_bits(a) {
        b
    } else if is_nan_bits(b) {
        a
    } else if lt_bits(a, b) {
        b
    } else {
        a
    }
}

/// The smaller of two patterns, NaN-ignoring, ties to the first operand.
pub open spec fn min_bits(a: u64, b: u64) -> u64 {
    if is_nan_bits(a) {
        b
    } else if is_nan_bits(b) {
        a
    } else if gt_bits(a, b) {
        b
    } else {
        a
    }
}

/// Executable form of `max_bits`.
pub fn fp_max(a: u64, b: u64) -> (r: u64)
    ensures
        r == max_bits(a, b),
{
    if fp_is_nan(a) {
        b
    } else if fp_is_nan(b) {
        a
    } else if fp_lt(a, b) {
        b
    } else {
        a
    }
}

/// Executable form of `min_bits`.
pub fn fp_min(a: u64, b: u64) -> (r: u64)
    ensures
        r == min_bits(a, b),
{
    if fp_is_nan(a) {
        b
    } else if fp_is_nan(b) {
        a
    } else if fp_gt(a, b) {
        b
    } else {
        a
    }
}

/// On patterns that are not NaN, `<`, `==` and `>` are mutually exclusive and
/// one of them holds.
pub proof fn lemma_cmp_trichotomy(a: u64, b: u64)
    requires
        !is_nan_bits(a),
        !is_nan_bits(b),
    ensures
        lt_bits(a, b) || eq_bits(a, b) || gt_bits(a, b),
        lt_bits(a, b) ==> !eq_bits(a, b) && !gt_bits(a, b),
        eq_bits(a, b) ==> !lt_bits(a, b) && !gt_bits(a, b),
        gt_bits(a, b) ==> !lt_bits(a, b) && !eq_bits(a, b),
{
    assert((a & SIGN_MASK) == (b & SIGN_MASK) && (a & MAG_MASK) == (b & MAG_MASK) ==> a == b)
        by (bit_vector);
    assert((a & SIGN_MASK) == SIGN_MASK || (a & SIGN_MASK) == 0) by (bit_vector);
    assert((b & SIGN_MASK) == SIGN_MASK || (b & SIGN_MASK) == 0) by (bit_vector);
}

/// The pattern of the IEEE-754 sum of the two operand patterns.
pub uninterp spec fn add_bits(a: u64, b: u64) -> u64;

/// The pattern of the IEEE-754 difference of the two operand patterns.
pub uninterp spec fn sub_bits(a: u64, b: u64) -> u64;

/// The pattern of the IEEE-754 product of the two operand patterns.
pub uninterp spec fn mul_bits(a: u64, b: u64) -> u64;

/// The pattern of the IEEE-754 quotient of the two operand patterns.
pub uninterp spec fn div_bits(a: u64, b: u64) -> u64;

/// The pattern of the double nearest to the unsigned integer `n`.
pub uninterp spec fn of_u64_bits(n: u64) -> u64;

/// Relies on `rustc_apfloat::ieee::Double`'s addition (LLVM's IEEE-754
/// implementation): rounded to nearest, ties to even; the result depends on
/// the two operand patterns alone.
#[verifier::external_body]
pub fn fp_add(a: u64, b: u64) -> (r: u64)
    ensures
        r == add_bits(a, b),
{
    let x = Double::from_bits(a as u128);
    let y = Double::from_bits(b as u128);
    (x + y).value.to_bits() as u64
}

/// Relies on `rustc_apfloat::ieee::Double`'s subtraction (LLVM's IEEE-754
/// implementation): rounded to nearest, ties to even; the result depends on
/// the two operand patterns alone.
#[verifier::external_body]
pub fn fp_sub(a: u64, b: u64) -> (r: u64)
    ensures
        r == sub_bits(a, b),
{
    let x = Double::from_bits(a as u128);
    let y = Double::from_bits(b as u128);
    (x - y).value.to_bits() as u64
}

/// Relies on `rustc_apfloat::ieee::Double`'s multiplication (LLVM's IEEE-754
/// implementation): rounded to nearest, ties to even; the result depends on
/// the two operand patterns alone.
#[verifier::external_body]
pub fn fp_mul(a: u64, b: u64) -> (r: u64)
    ensures
        r == mul_bits(a, b),
{
    let x = Double::from_bits(a as u128);
    let y = Double::from_bits(b as u128);
    (x * y).value.to_bits() as u64
}

/// Relies on `rustc_apfloat::ieee::Double`'s division (LLVM's IEEE-754
/// implementation): rounded to nearest, ties to even; the result depends on
/// the two operand patterns alone. A quotient of a non-negative dividend and
/// a positive finite divisor is non-negative and not NaN (the sign of a
/// finite or infinite quotient is the exclusive or of the operands' signs,
/// and such a quotient is NaN only for 0/0 or inf/inf).
#[verifier::external_body]
pub fn fp_div(a: u64, b: u64) -> (r: u64)
    ensures
        r == div_bits(a, b),
        ge_bits(a, ZERO_BITS) && gt_bits(b, ZERO_BITS) && finite_bits(b) ==> ge_bits(
            r,
            ZERO_BITS,
        ),
        is_nan_bits(a) ==> is_nan_bits(r),
{
    let x = Double::from_bits(a as u128);
    let y = Double::from_bits(b as u128);
    (x / y).value.to_bits() as u64
}

/// Relies on `rustc_apfloat::Float::from_u128` for `Double`: conversion of an
/// unsigned integer to the nearest double, ties to even; the result depends
/// on the integer alone. Zero converts to `0.0` exactly, and a positive
/// integer converts to a positive finite double (every `u64` is far below
/// the largest double).
#[verifier::external_body]
pub fn fp_from_u64(n: u64) -> (r: u64)
    ensures
        r == of_u64_bits(n),
        n == 0 ==> r == ZERO_BITS,
        n >= 1 ==> gt_bits(r, ZERO_BITS) && finite_bits(r),
{
    Double::from_u128(n as u128).value.to_bits() as u64
}

/// The double nearest a signed integer: a non-negative value converts as
/// the unsigned conversion does; a negative one converts its magnitude and
/// sets the sign bit, which matches the signed conversion exactly because
/// rounding to nearest is symmetric around zero.
pub open spec fn of_i64_bits(x: i64) -> u64 {
    if x >= 0 {
        of_u64_bits(x as u64)
    } else {
        of_u64_bits((-(x as int)) as u64) ^ SIGN_MASK
    }
}

/// Signed-integer conversion, assembled from the unsigned conversion and
/// an exact sign flip.
pub fn fp_from_i64(x: i64) -> (r: u64)
    ensures
        r == of_i64_bits(x),
{
    if x >= 0 {
        fp_from_u64(x as u64)
    } else {
        let mag: u64 = if x == i64::MIN {
            0x8000_0000_0000_0000u64
        } else {
            (-x) as u64
        };
        fp_from_u64(mag) ^ SIGN_MASK
    }
}

} // verus!
