//! Trusted bindings to the fixed-point transcendental functions of the
//! `substrate-fixed` crate.
//!
//! Each binding works on raw fixed-point words with 32 fractional bits (the
//! `I32F32` layout of `Degree`).  The exact numeric results of the CORDIC
//! and Newton iterations are a function of the argument alone, so they are
//! given uninterpreted names; the few additional facts stated below are the
//! ones the crate's own source shows directly.

use vstd::prelude::*;
use substrate_fixed::transcendental;
use substrate_fixed::types::I32F32;

verus! {

/// The word `substrate_fixed::transcendental::sin` returns for a radian
/// angle word: a deterministic CORDIC approximation of the sine, scaled by
/// 2^32.
pub uninterp spec fn sin_of(x: int) -> int;

/// The word `substrate_fixed::transcendental::cos` returns for a radian
/// angle word: the crate computes it as `sin(x + pi/2)`.
pub uninterp spec fn cos_of(x: int) -> int;

/// The word `substrate_fixed::transcendental::sqrt` returns for a
/// fixed-point operand, or `None` where its Newton iteration reports an
/// overflow (that happens only for positive operands below 3 * 2^-32).
pub uninterp spec fn sqrt_of(x: int) -> Option<int>;

/// Relies on `substrate_fixed::transcendental::sin` on `I32F32`: the result
/// depends on the angle word alone.  For the zero angle, the crate's own
/// test suite pins the result within 1e-5 of zero, far below the 2^-16
/// bound stated here.  The argument bound keeps the crate's wraparound
/// step (at most one subtraction of 2*pi) inside the I32F32 range.
#[verifier::external_body]
fn sin_bits(x: i64) -> (r: i64)
    requires
        -27_000_000_000 <= x <= 27_000_000_000,
    ensures
        r as int == sin_of(x as int),
        x == 0 ==> -65536 < r < 65536,
{
    transcendental::sin::<I32F32>(I32F32::from_bits(x)).to_bits()
}

/// Relies on `substrate_fixed::transcendental::cos` on `I32F32`: the result
/// depends on the angle word alone.  The argument bound leaves room for the
/// pi/2 shift the crate adds before delegating to its sine.
#[verifier::external_body]
fn cos_bits(x: i64) -> (r: i64)
    requires
        -20_000_000_000 <= x <= 20_000_000_000,
    ensures
        r as int == cos_of(x as int),
{
    transcendental::cos::<I32F32>(I32F32::from_bits(x)).to_bits()
}

/// Relies on `substrate_fixed::transcendental::sqrt` on `I32F32`: the result
/// depends on the operand word alone.  The crate returns the operand itself
/// for 0 and 1 and rejects negative operands, which the argument bound rules
/// out here; for tiny positive operands its internal inversion can overflow,
/// reported as `None`.
#[verifier::external_body]
fn sqrt_bits(x: i64) -> (r: Option<i64>)
    requires
        0 <= x <= 4294967296,
    ensures
        r is Some <==> sqrt_of(x as int) is Some,
        r is Some ==> r.unwrap() as int == sqrt_of(x as int).unwrap(),
        x == 0 ==> r == Some(0i64),
        x == 4294967296 ==> r == Some(4294967296i64),
{
    match transcendental::sqrt::<I32F32, I32F32>(I32F32::from_bits(x)) {
        Ok(v) => Some(v.to_bits()),
        Err(_) => None,
    }
}

/// Relies on `substrate_fixed::transcendental::asin`: that crate implements
/// the arcsine as the small-angle identity approximation, so the contract
/// states exactly that the argument word comes back unchanged.
#[verifier::external_body]
fn asin_bits(x: i64) -> (r: i64)
    ensures
        r == x,
{
    transcendental::asin::<I32F32>(I32F32::from_bits(x)).to_bits()
}

/// Sine of an angle word, restricted to [-1, 1] so that downstream
/// fixed-point arithmetic stays in range whatever the CORDIC rounding does.
pub fn sin_clamped(x: i64) -> (r: i64)
    requires
        -27_000_000_000 <= x <= 27_000_000_000,
    ensures
        r as int == sin_clamped_val(x as int),
        -4294967296 <= r <= 4294967296,
        x == 0 ==> -65536 < r < 65536,
{
    let raw = sin_bits(x);
    crate::fixedpoint::clamp_i64(raw, -4294967296, 4294967296)
}

/// Cosine of an angle word, restricted to [-1, 1].
pub fn cos_clamped(x: i64) -> (r: i64)
    requires
        -20_000_000_000 <= x <= 20_000_000_000,
    ensures
        r as int == cos_clamped_val(x as int),
        -4294967296 <= r <= 4294967296,
{
    let raw = cos_bits(x);
    crate::fixedpoint::clamp_i64(raw, -4294967296, 4294967296)
}

/// Square root of an operand word in [0, 1], restricted to [0, 1]; operands
/// the outside iteration reports as overflowing (possible only below
/// 3 * 2^-32) are treated as zero.
pub fn sqrt_clamped(x: i64) -> (r: i64)
    requires
        0 <= x <= 4294967296,
    ensures
        r as int == sqrt_clamped_val(x as int),
        0 <= r <= 4294967296,
        x == 0 ==> r == 0,
        x == 4294967296 ==> r == 4294967296,
{
    let raw = match sqrt_bits(x) {
        Some(v) => v,
        None => 0,
    };
    crate::fixedpoint::clamp_i64(raw, 0, 4294967296)
}

/// Arcsine of a word in [-1, 1]: the identity, per the outside crate's
/// small-angle implementation.
pub fn asin_identity(x: i64) -> (r: i64)
    ensures
        r == x,
{
    asin_bits(x)
}

/// Value of `sin_clamped`.
pub open spec fn sin_clamped_val(x: int) -> int {
    crate::fixedpoint::clamp_val(sin_of(x), -4294967296, 4294967296)
}

/// Value of `cos_clamped`.
pub open spec fn cos_clamped_val(x: int) -> int {
    crate::fixedpoint::clamp_val(cos_of(x), -4294967296, 4294967296)
}

/// Value of `sqrt_clamped`.
pub open spec fn sqrt_clamped_val(x: int) -> int {
    let raw = match sqrt_of(x) {
        Some(v) => v,
        None => 0,
    };
    crate::fixedpoint::clamp_val(raw, 0, 4294967296)
}

} // verus!
