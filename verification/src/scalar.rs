//! The primitive scalar operations.
//!
//! A scalar of this library is an IEEE-754 binary64 value carried as its
//! 64-bit pattern.  The verifier cannot evaluate floating-point arithmetic,
//! so each primitive operation is an uninterpreted function of the operand
//! bits, computed at run time by a software implementation of IEEE-754
//! (round to nearest, ties to even — the rounding the hardware uses).

use vstd::prelude::*;
use rustc_apfloat::Float;

verus! {

/// The bit pattern of the binary64 sum of the two binary64 operands.
pub uninterp spec fn fp_add(a: u64, b: u64) -> u64;

/// The bit pattern of the binary64 difference of the two binary64 operands.
pub uninterp spec fn fp_sub(a: u64, b: u64) -> u64;

/// The bit pattern of the binary64 product of the two binary64 operands.
pub uninterp spec fn fp_mul(a: u64, b: u64) -> u64;

/// The bit pattern of the binary64 square root of the binary64 operand.
pub uninterp spec fn fp_sqrt(a: u64) -> u64;

/// Relies on rustc_apfloat::ieee::Double::add_r with round to nearest, ties
/// to even: the result depends on the operand bits alone.
#[verifier::external_body]
pub(crate) fn add_bits(a: u64, b: u64) -> (r: u64)
    ensures
        r == fp_add(a, b),
{
    let x = rustc_apfloat::ieee::Double::from_bits(a as u128);
    let y = rustc_apfloat::ieee::Double::from_bits(b as u128);
    x.add_r(y, rustc_apfloat::Round::NearestTiesToEven).value.to_bits() as u64
}

/// Relies on rustc_apfloat::ieee::Double::sub_r with round to nearest, ties
/// to even: the result depends on the operand bits alone.
#[verifier::external_body]
pub(crate) fn sub_bits(a: u64, b: u64) -> (r: u64)
    ensures
        r == fp_sub(a, b),
{
    let x = rustc_apfloat::ieee::Double::from_bits(a as u128);
    let y = rustc_apfloat::ieee::Double::from_bits(b as u128);
    x.sub_r(y, rustc_apfloat::Round::NearestTiesToEven).value.to_bits() as u64
}

/// Relies on rustc_apfloat::ieee::Double::mul_r with round to nearest, ties
/// to even: the result depends on the operand bits alone.
#[verifier::external_body]
pub(crate) fn mul_bits(a: u64, b: u64) -> (r: u64)
    ensures
        r == fp_mul(a, b),
{
    let x = rustc_apfloat::ieee::Double::from_bits(a as u128);
    let y = rustc_apfloat::ieee::Double::from_bits(b as u128);
    x.mul_r(y, rustc_apfloat::Round::NearestTiesToEven).value.to_bits() as u64
}

/// Relies on ieee_apsqrt::sqrt_accurate (correctly rounded binary64 square
/// root, round to nearest, ties to even): the result depends on the operand
/// bits alone.
#[verifier::external_body]
pub(crate) fn sqrt_bits(a: u64) -> (r: u64)
    ensures
        r == fp_sqrt(a),
{
    ieee_apsqrt::sqrt_accurate(a, rustc_apfloat::Round::NearestTiesToEven).0.value
}

} // verus!
