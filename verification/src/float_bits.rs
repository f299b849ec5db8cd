//! IEEE 754 comparisons on floating-point numbers held as their bit patterns.
//!
//! Geometry and colors travel through the library as the `to_bits()` patterns of their
//! `f32` (or `f64`) values; these functions compare them the way `==` compares the floats:
//! NaN equals nothing, and positive and negative zero are equal.
use vstd::prelude::*;

verus! {

/// The bit pattern of a single-precision float.
pub type F32Bits = u32;

/// The bit pattern of a double-precision float.
pub type F64Bits = u64;

/// The pattern is a NaN: all exponent bits set and a non-zero fraction.
pub open spec fn f32_is_nan(x: F32Bits) -> bool {
    (x & 0x7f80_0000u32) == 0x7f80_0000u32 && (x & 0x007f_ffffu32) != 0
}

/// The pattern is positive or negative zero.
pub open spec fn f32_is_zero(x: F32Bits) -> bool {
    (x & 0x7fff_ffffu32) == 0
}

/// `==` on the two floats whose patterns are `a` and `b`.
pub open spec fn f32_eq(a: F32Bits, b: F32Bits) -> bool {
    !f32_is_nan(a) && !f32_is_nan(b) && (a == b || (f32_is_zero(a) && f32_is_zero(b)))
}

/// The double-precision pattern is positive or negative zero.
pub open spec fn f64_is_zero(x: F64Bits) -> bool {
    (x & 0x7fff_ffff_ffff_ffffu64) == 0
}

/// Computes `f32_eq(a, b)`.
pub fn f32_equal(a: F32Bits, b: F32Bits) -> (r: bool)
    ensures
        r == f32_eq(a, b),
{
    let a_nan = (a & 0x7f80_0000u32) == 0x7f80_0000u32 && (a & 0x007f_ffffu32) != 0;
    let b_nan = (b & 0x7f80_0000u32) == 0x7f80_0000u32 && (b & 0x007f_ffffu32) != 0;
    let both_zero = (a & 0x7fff_ffffu32) == 0 && (b & 0x7fff_ffffu32) == 0;
    !a_nan && !b_nan && (a == b || both_zero)
}

/// Computes `f64_is_zero(x)`: the float is `0.0` or `-0.0`.
pub fn f64_zero(x: F64Bits) -> (r: bool)
    ensures
        r == f64_is_zero(x),
{
    (x & 0x7fff_ffff_ffff_ffffu64) == 0
}

/// The single-precision pattern that a double-precision pattern rounds to, to nearest with
/// ties to even, as a conversion of the float does:
/// - infinities keep their sign; a NaN becomes the quiet NaN with the same sign and the top
///   23 bits of its fraction;
/// - a number too large for single precision becomes an infinity; one no larger than half the
///   least single-precision subnormal becomes a zero of the same sign;
/// - every other number keeps its sign, and its 53-bit significand is cut to the 24 bits
///   (fewer for single-precision subnormals) that its exponent leaves room for, rounding up
///   when the bits cut off are more than half a unit, or exactly half and the kept bits odd.
pub open spec fn f32_of_f64(x: F64Bits) -> F32Bits {
    let sign: u64 = (x >> 63u64) << 31u64;
    let e: u64 = (x >> 52u64) & 0x7ffu64;
    let m: u64 = x & 0x000f_ffff_ffff_ffffu64;
    let bits: u64 = if e == 0x7ff {
        if m == 0 {
            sign | 0x7f80_0000u64
        } else {
            sign | 0x7fc0_0000u64 | (m >> 29u64)
        }
    } else if e == 0 {
        sign
    } else if e > 1150 {
        sign | 0x7f80_0000u64
    } else if e >= 897 {
        let kept: u64 = m >> 29u64;
        let cut: u64 = m & 0x1fff_ffffu64;
        let up: u64 = if cut > 0x1000_0000u64 || (cut == 0x1000_0000u64 && kept & 1 == 1) { 1 } else { 0 };
        sign | (((((e - 896) as u64) << 23u64) + kept + up) as u64)
    } else if e < 873 {
        sign
    } else {
        let sig: u64 = m | 0x0010_0000_0000_0000u64;
        let sh: u64 = (926 - e) as u64;
        let kept: u64 = sig >> sh;
        let cut: u64 = sig & (((1u64 << sh) - 1) as u64);
        let half: u64 = 1u64 << ((sh - 1) as u64);
        let up: u64 = if cut > half || (cut == half && kept & 1 == 1) { 1 } else { 0 };
        sign | ((kept + up) as u64)
    };
    bits as u32
}

/// Computes `f32_of_f64(x)`: rounds a double-precision pattern to single precision.
pub fn f32_from_f64(x: F64Bits) -> (r: F32Bits)
    ensures
        r == f32_of_f64(x),
{
    let sign: u64 = (x >> 63u64) << 31u64;
    let e: u64 = (x >> 52u64) & 0x7ffu64;
    let m: u64 = x & 0x000f_ffff_ffff_ffffu64;
    assert(sign == 0 || sign == 0x8000_0000u64) by (bit_vector)
        requires
            sign == (x >> 63u64) << 31u64,
    ;
    assert(e <= 0x7ff) by (bit_vector)
        requires
            e == (x >> 52u64) & 0x7ffu64,
    ;
    assert(m < 0x0010_0000_0000_0000u64) by (bit_vector)
        requires
            m == x & 0x000f_ffff_ffff_ffffu64,
    ;
    let bits: u64 = if e == 0x7ff {
        if m == 0 {
            sign | 0x7f80_0000u64
        } else {
            sign | 0x7fc0_0000u64 | (m >> 29u64)
        }
    } else if e == 0 {
        sign
    } else if e > 1150 {
        sign | 0x7f80_0000u64
    } else if e >= 897 {
        let kept: u64 = m >> 29u64;
        let cut: u64 = m & 0x1fff_ffffu64;
        assert(kept < 0x80_0000u64) by (bit_vector)
            requires
                kept == m >> 29u64,
                m < 0x0010_0000_0000_0000u64,
        ;
        let up: u64 = if cut > 0x1000_0000u64 || (cut == 0x1000_0000u64 && kept & 1 == 1) { 1 } else { 0 };
        let biased: u64 = e - 896;
        assert(biased << 23u64 <= 254u64 * 0x80_0000u64) by (bit_vector)
            requires
                1 <= biased <= 254,
        ;
        sign | ((biased << 23u64) + kept + up)
    } else if e < 873 {
        sign
    } else {
        let sig: u64 = m | 0x0010_0000_0000_0000u64;
        let sh: u64 = 926 - e;
        assert(1u64 << sh >= 1) by (bit_vector)
            requires
                30 <= sh <= 53,
        ;
        assert(sig < 0x0020_0000_0000_0000u64) by (bit_vector)
            requires
                sig == m | 0x0010_0000_0000_0000u64,
                m < 0x0010_0000_0000_0000u64,
        ;
        let kept: u64 = sig >> sh;
        assert(kept < 0x80_0000u64) by (bit_vector)
            requires
                kept == sig >> sh,
                sig < 0x0020_0000_0000_0000u64,
                30 <= sh,
        ;
        let cut: u64 = sig & ((1u64 << sh) - 1);
        let half: u64 = 1u64 << (sh - 1);
        let up: u64 = if cut > half || (cut == half && kept & 1 == 1) { 1 } else { 0 };
        sign | (kept + up)
    };
    bits as u32
}

/// `==` is symmetric on float patterns.
pub proof fn lemma_f32_eq_symmetric(a: F32Bits, b: F32Bits)
    ensures
        f32_eq(a, b) == f32_eq(b, a),
{
}

} // verus!
