//! Signed fixed-point degree values and the arithmetic the geometry runs on.
//!
//! A `Degree` stores an angle in degrees as a 64-bit two's-complement word
//! with 1 sign bit, 31 integer bits and 32 fractional bits, so one degree is
//! `FIXED_ONE` raw units.  This bit layout is the one binary contract of the
//! crate: every participating system must interpret coordinates the same
//! way.  All arithmetic here is exact integer arithmetic with an explicit
//! rounding rule (products truncate toward zero), so results are identical
//! on every platform.

use vstd::prelude::*;
use vstd::arithmetic::div_mod::lemma_div_is_ordered;
use vstd::arithmetic::mul::lemma_mul_inequality;

verus! {

/// Raw units per whole degree: 2^32, the weight of the lowest integer bit.
pub const FIXED_ONE: i64 = 4294967296;

/// floor((pi / 180) * 2^32): converts fixed-point degrees to fixed-point
/// radians by one fixed-point multiplication.
pub const RADIANS_PER_DEGREE_BITS: i64 = 74961320;

/// An angle in degrees, stored as sign + 31 integer + 32 fractional bits.
#[derive(Clone, Copy, PartialEq, Eq, Structural, Debug)]
pub struct Degree {
    pub bits: i64,
}

impl Degree {
    /// Wraps a raw fixed-point word without interpreting it.
    pub fn from_bits(bits: i64) -> (d: Degree)
        ensures
            d.bits == bits,
    {
        Degree { bits }
    }

    /// Converts a count of micro-degrees (10^-6 degree) to the fixed-point
    /// representation, truncating the quotient toward zero.
    pub fn from_micro_degrees(micro: i64) -> (d: Degree)
        requires
            -2_000_000_000_000_000 <= micro <= 2_000_000_000_000_000,
        ensures
            d.bits as int == micro_to_bits_val(micro as int),
    {
        if micro >= 0 {
            proof {
                lemma_mul_inequality(micro as int, 2_000_000_000_000_000, FIXED_ONE as int);
                lemma_div_is_ordered(
                    micro * (FIXED_ONE as int),
                    2_000_000_000_000_000 * (FIXED_ONE as int),
                    1000000,
                );
            }
            let n: u128 = (micro as u128) * 4294967296 / 1000000;
            Degree { bits: n as i64 }
        } else {
            let neg: i64 = -micro;
            proof {
                lemma_mul_inequality(neg as int, 2_000_000_000_000_000, FIXED_ONE as int);
                lemma_div_is_ordered(
                    neg * (FIXED_ONE as int),
                    2_000_000_000_000_000 * (FIXED_ONE as int),
                    1000000,
                );
            }
            let n: u128 = (neg as u128) * 4294967296 / 1000000;
            Degree { bits: -(n as i64) }
        }
    }
}

/// Value of `Degree::from_micro_degrees`: micro-degrees scaled by 2^32/10^6,
/// truncated toward zero.
pub open spec fn micro_to_bits_val(micro: int) -> int {
    if micro >= 0 {
        (micro * (FIXED_ONE as int)) / 1000000
    } else {
        -(((-micro) * (FIXED_ONE as int)) / 1000000)
    }
}

/// Fixed-point product with 32 fractional bits: the exact integer product
/// scaled down by 2^32, truncated toward zero.
pub open spec fn fixed_mul_val(a: int, b: int) -> int {
    if a * b >= 0 {
        (a * b) / (FIXED_ONE as int)
    } else {
        -((-(a * b)) / (FIXED_ONE as int))
    }
}

/// Multiplies two fixed-point words, truncating the scaled product toward
/// zero.  The intermediate product is exact in 128-bit arithmetic.
pub fn fixed_mul(a: i64, b: i64) -> (r: i64)
    requires
        -0x4000_0000_0000_0000 <= fixed_mul_val(a as int, b as int) <= 0x4000_0000_0000_0000,
    ensures
        r as int == fixed_mul_val(a as int, b as int),
{
    proof {
        assert((a as int) * (b as int) <= 0x4000_0000_0000_0000_0000_0000_0000_0000
            && -0x4000_0000_0000_0000_0000_0000_0000_0000 <= (a as int) * (b as int))
            by (nonlinear_arith);
    }
    let p: i128 = (a as i128) * (b as i128);
    if p >= 0 {
        let q: u128 = (p as u128) / 0x1_0000_0000;
        q as i64
    } else {
        let m: u128 = ((-p) as u128) / 0x1_0000_0000;
        -(m as i64)
    }
}

/// Restricts a value to the inclusive interval [lo, hi].
pub open spec fn clamp_val(v: int, lo: int, hi: int) -> int {
    if v < lo {
        lo
    } else if v > hi {
        hi
    } else {
        v
    }
}

/// Restricts a fixed-point word to the inclusive interval [lo, hi].
pub fn clamp_i64(v: i64, lo: i64, hi: i64) -> (r: i64)
    requires
        lo <= hi,
    ensures
        r as int == clamp_val(v as int, lo as int, hi as int),
{
    if v < lo {
        lo
    } else if v > hi {
        hi
    } else {
        v
    }
}

/// Bounds the magnitude of a truncated fixed-point product by the scaled
/// product of the operand magnitudes.
pub proof fn lemma_fixed_mul_val_bound(a: int, b: int, aa: int, bb: int)
    requires
        -aa <= a <= aa,
        -bb <= b <= bb,
        0 <= aa,
        0 <= bb,
    ensures
        -((aa * bb) / (FIXED_ONE as int)) <= fixed_mul_val(a, b) <= (aa * bb) / (FIXED_ONE as int),
{
    assert(-(aa * bb) <= a * b <= aa * bb) by (nonlinear_arith)
        requires
            -aa <= a <= aa,
            -bb <= b <= bb,
            0 <= aa,
            0 <= bb,
    ;
    if a * b >= 0 {
        lemma_div_is_ordered(a * b, aa * bb, FIXED_ONE as int);
        assert((a * b) / (FIXED_ONE as int) >= 0) by (nonlinear_arith)
            requires
                a * b >= 0,
        ;
    } else {
        lemma_div_is_ordered(-(a * b), aa * bb, FIXED_ONE as int);
        assert((-(a * b)) / (FIXED_ONE as int) >= 0) by (nonlinear_arith)
            requires
                -(a * b) >= 0,
        ;
    }
}

/// A fixed-point product is symmetric in its operands.
pub proof fn lemma_fixed_mul_val_commutes(a: int, b: int)
    ensures
        fixed_mul_val(a, b) == fixed_mul_val(b, a),
{
    assert(a * b == b * a) by (nonlinear_arith);
}

/// A fixed-point product with a zero operand is zero.
pub proof fn lemma_fixed_mul_val_zero(a: int)
    ensures
        fixed_mul_val(a, 0) == 0,
        fixed_mul_val(0, a) == 0,
{
    assert(a * 0 == 0) by (nonlinear_arith);
    assert(0 * a == 0) by (nonlinear_arith);
    assert(0int / (FIXED_ONE as int) == 0);
}

/// A fixed-point product of nonnegative operands is nonnegative.
pub proof fn lemma_fixed_mul_val_nonneg(a: int, b: int)
    requires
        a >= 0,
        b >= 0,
    ensures
        fixed_mul_val(a, b) >= 0,
{
    assert(a * b >= 0) by (nonlinear_arith)
        requires
            a >= 0,
            b >= 0,
    ;
    assert((a * b) / (FIXED_ONE as int) >= 0) by (nonlinear_arith)
        requires
            a * b >= 0,
    ;
}

/// Squares of fixed-point words are nonnegative.
pub proof fn lemma_fixed_mul_val_square_nonneg(a: int)
    ensures
        fixed_mul_val(a, a) >= 0,
{
    assert(a * a >= 0) by (nonlinear_arith);
    assert((a * a) / (FIXED_ONE as int) >= 0) by (nonlinear_arith)
        requires
            a * a >= 0,
    ;
}

} // verus!
