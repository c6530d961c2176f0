//! IEEE-754 binary64 values, carried as their bit patterns.
//!
//! Each arithmetic operation is given an uninterpreted name: the bit pattern
//! of the correctly rounded (round-to-nearest, ties-to-even) IEEE-754 result
//! for the given operand bit patterns. The executable side of each name
//! computes exactly that result in software: `rustc_apfloat` (the Rust
//! compiler's own floating-point engine) for the arithmetic operations and
//! the integer conversion, `const_soft_float` (a port of musl's correctly
//! rounded square root) for the square root. The sign test needs no outside
//! help: whether a bit pattern denotes a negative value is a plain bit-level
//! predicate.

use vstd::prelude::*;

use rustc_apfloat::Float;
use rustc_apfloat::Round;
use rustc_apfloat::ieee::Double;

verus! {

/// Bit pattern of positive zero, the additive identity the accumulators
/// start from.
pub const ZERO_BITS: u64 = 0;

/// The IEEE-754 binary64 sum of the values with bit patterns `a` and `b`.
pub uninterp spec fn add_bits(a: u64, b: u64) -> u64;

/// The IEEE-754 binary64 difference of the values with bit patterns `a`
/// and `b`.
pub uninterp spec fn sub_bits(a: u64, b: u64) -> u64;

/// The IEEE-754 binary64 product of the values with bit patterns `a` and `b`.
pub uninterp spec fn mul_bits(a: u64, b: u64) -> u64;

/// The IEEE-754 binary64 quotient of the values with bit patterns `a`
/// and `b`.
pub uninterp spec fn div_bits(a: u64, b: u64) -> u64;

/// The IEEE-754 binary64 square root of the value with bit pattern `a`.
pub uninterp spec fn sqrt_bits(a: u64) -> u64;

/// The bit pattern of the binary64 value nearest to the row count `n`.
pub uninterp spec fn count_bits(n: int) -> u64;

/// Relies on rustc_apfloat::ieee::Double::add_r: the correctly rounded
/// IEEE-754 sum, a function of the two operand bit patterns alone.
#[verifier::external_body]
pub fn f64_add(a: u64, b: u64) -> (r: u64)
    ensures
        r == add_bits(a, b),
{
    let x = Double::from_bits(a as u128);
    let y = Double::from_bits(b as u128);
    x.add_r(y, Round::NearestTiesToEven).value.to_bits() as u64
}

/// Relies on rustc_apfloat::ieee::Double::sub_r: the correctly rounded
/// IEEE-754 difference, a function of the two operand bit patterns alone.
#[verifier::external_body]
pub fn f64_sub(a: u64, b: u64) -> (r: u64)
    ensures
        r == sub_bits(a, b),
{
    let x = Double::from_bits(a as u128);
    let y = Double::from_bits(b as u128);
    x.sub_r(y, Round::NearestTiesToEven).value.to_bits() as u64
}

/// Relies on rustc_apfloat::ieee::Double::mul_r: the correctly rounded
/// IEEE-754 product, a function of the two operand bit patterns alone.
#[verifier::external_body]
pub fn f64_mul(a: u64, b: u64) -> (r: u64)
    ensures
        r == mul_bits(a, b),
{
    let x = Double::from_bits(a as u128);
    let y = Double::from_bits(b as u128);
    x.mul_r(y, Round::NearestTiesToEven).value.to_bits() as u64
}

/// Relies on rustc_apfloat::ieee::Double::div_r: the correctly rounded
/// IEEE-754 quotient, a function of the two operand bit patterns alone.
#[verifier::external_body]
pub fn f64_div(a: u64, b: u64) -> (r: u64)
    ensures
        r == div_bits(a, b),
{
    let x = Double::from_bits(a as u128);
    let y = Double::from_bits(b as u128);
    x.div_r(y, Round::NearestTiesToEven).value.to_bits() as u64
}

/// Relies on const_soft_float::soft_f64::SoftF64::sqrt: the correctly
/// rounded IEEE-754 square root, a function of the operand bit pattern
/// alone.
#[verifier::external_body]
pub fn f64_sqrt(a: u64) -> (r: u64)
    ensures
        r == sqrt_bits(a),
{
    const_soft_float::soft_f64::SoftF64::from_bits(a).sqrt().to_bits()
}

/// Relies on rustc_apfloat::ieee::Double::from_u128_r: the binary64 value
/// nearest to the integer `n`, a function of `n` alone.
#[verifier::external_body]
pub fn f64_from_count(n: usize) -> (r: u64)
    ensures
        r == count_bits(n as int),
{
    Double::from_u128_r(n as u128, Round::NearestTiesToEven).value.to_bits() as u64
}

/// The sign bit of the binary64 bit pattern `a`.
pub open spec fn sign_bit(a: u64) -> bool {
    a >> 63 == 1
}

/// Whether the binary64 bit pattern `a` denotes a NaN: all exponent bits
/// set and a non-zero significand.
pub open spec fn is_nan_bits(a: u64) -> bool {
    (a >> 52) & 0x7ff == 0x7ff && a & 0x000f_ffff_ffff_ffff != 0
}

/// Whether the binary64 bit pattern `a` denotes a value strictly below
/// zero: the sign bit is set and the value is neither NaN nor negative
/// zero.
pub open spec fn is_negative_bits(a: u64) -> bool {
    sign_bit(a) && !is_nan_bits(a) && a != 0x8000_0000_0000_0000
}

/// The executable sign test; a pure bit-level computation, proved to match
/// `is_negative_bits`.
pub fn is_negative(a: u64) -> (r: bool)
    ensures
        r == is_negative_bits(a),
{
    a >> 63 == 1 && !((a >> 52) & 0x7ff == 0x7ff && a & 0x000f_ffff_ffff_ffff != 0)
        && a != 0x8000_0000_0000_0000
}

} // verus!
