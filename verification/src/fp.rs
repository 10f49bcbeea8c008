//! IEEE 754 binary64 arithmetic over bit patterns.
//!
//! Verified code cannot hold floating-point values, so every price in this
//! crate is carried as the bit pattern of a binary64 value in a `u64`.  The
//! three arithmetic operations the metric computation needs are performed by
//! `rustc_apfloat`, a software implementation of IEEE 754 that works directly
//! on bit patterns and rounds to nearest, ties to even — the same rounding
//! the hardware operations use.  Each operation's result is a deterministic
//! function of the operand bit patterns alone, so it is given a name that the
//! contracts of the callers build on.

use vstd::prelude::*;
use rustc_apfloat::Float;

verus! {

/// Bit pattern of the binary64 value one hundred, the percentage scale.
pub const HUNDRED_BITS: u64 = 0x4059_0000_0000_0000;

/// Bit pattern of the IEEE 754 binary64 difference of the values with bit
/// patterns `a` and `b`, rounded to nearest, ties to even.
pub uninterp spec fn sub_bits(a: u64, b: u64) -> u64;

/// Bit pattern of the IEEE 754 binary64 quotient of the values with bit
/// patterns `a` and `b`, rounded to nearest, ties to even.
pub uninterp spec fn div_bits(a: u64, b: u64) -> u64;

/// Bit pattern of the IEEE 754 binary64 product of the values with bit
/// patterns `a` and `b`, rounded to nearest, ties to even.
pub uninterp spec fn mul_bits(a: u64, b: u64) -> u64;

/// Relies on `rustc_apfloat::ieee::Double`'s `Sub` impl: a correctly rounded
/// IEEE 754 binary64 subtraction, deterministic in the operand bit patterns.
#[verifier::external_body]
fn apf_sub(a: u64, b: u64) -> (r: u64)
    ensures
        r == sub_bits(a, b),
{
    let x = rustc_apfloat::ieee::Double::from_bits(a as u128);
    let y = rustc_apfloat::ieee::Double::from_bits(b as u128);
    (x - y).value.to_bits() as u64
}

/// Relies on `rustc_apfloat::ieee::Double`'s `Div` impl: a correctly rounded
/// IEEE 754 binary64 division, deterministic in the operand bit patterns.
#[verifier::external_body]
fn apf_div(a: u64, b: u64) -> (r: u64)
    ensures
        r == div_bits(a, b),
{
    let x = rustc_apfloat::ieee::Double::from_bits(a as u128);
    let y = rustc_apfloat::ieee::Double::from_bits(b as u128);
    (x / y).value.to_bits() as u64
}

/// Relies on `rustc_apfloat::ieee::Double`'s `Mul` impl: a correctly rounded
/// IEEE 754 binary64 multiplication, deterministic in the operand bit patterns.
#[verifier::external_body]
fn apf_mul(a: u64, b: u64) -> (r: u64)
    ensures
        r == mul_bits(a, b),
{
    let x = rustc_apfloat::ieee::Double::from_bits(a as u128);
    let y = rustc_apfloat::ieee::Double::from_bits(b as u128);
    (x * y).value.to_bits() as u64
}

/// Bit pattern of the percentage change from the value with bit pattern
/// `old` to the value with bit pattern `now`: `(now - old) / old * 100`,
/// each step in binary64 arithmetic.  A zero `old` yields an infinity or a
/// NaN pattern, exactly as binary64 division prescribes.
pub open spec fn change_bits(now: u64, old: u64) -> u64 {
    mul_bits(div_bits(sub_bits(now, old), old), HUNDRED_BITS)
}

/// Percentage change from the price with bit pattern `old` to the price with
/// bit pattern `now`, as a binary64 bit pattern.
pub fn calc_change(now: u64, old: u64) -> (r: u64)
    ensures
        r == change_bits(now, old),
{
    apf_mul(apf_div(apf_sub(now, old), old), HUNDRED_BITS)
}

} // verus!
