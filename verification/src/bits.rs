//! IEEE-754 binary64 scalars, held as their 64-bit patterns.
//!
//! Every scalar in this crate is a binary64 value represented by the `u64`
//! holding its bit pattern: one sign bit, an 11-bit exponent field and a
//! 52-bit fraction field. Negation and absolute value act on the sign bit
//! alone, so they are implemented here as verified bit operations. Addition
//! is carried out by an outside software implementation of binary64
//! arithmetic, behind the one trusted wrapper of this module.

use vstd::prelude::*;
use rustc_apfloat::Float;

verus! {

/// The sign bit of a binary64 pattern.
pub const SIGN_MASK: u64 = 0x8000_0000_0000_0000;

/// The 63 magnitude bits: exponent field and fraction field.
pub const MAGNITUDE_MASK: u64 = 0x7FFF_FFFF_FFFF_FFFF;

/// The exponent field, all ones: the magnitude of positive infinity.
pub const EXP_MASK: u64 = 0x7FF0_0000_0000_0000;

/// The 52 fraction bits.
pub const FRAC_MASK: u64 = 0x000F_FFFF_FFFF_FFFF;

/// The pattern of the value one.
pub const ONE_BITS: u64 = 0x3FF0_0000_0000_0000;

/// The sign bit of `b` is clear: `b` denotes a value that is not negative,
/// or a NaN whose sign bit is clear.
pub open spec fn sign_clear(b: u64) -> bool {
    b & SIGN_MASK == 0
}

/// `b` is a NaN pattern: exponent field all ones and a nonzero fraction.
pub open spec fn is_nan_bits(b: u64) -> bool {
    b & EXP_MASK == EXP_MASK && b & FRAC_MASK != 0
}

/// The magnitude bits of `b`: the pattern of `b` with the sign bit cleared.
pub open spec fn magnitude_bits(b: u64) -> u64 {
    b & MAGNITUDE_MASK
}

/// `b` denotes positive or negative zero.
pub open spec fn is_zero_bits(b: u64) -> bool {
    magnitude_bits(b) == 0
}

/// `b` denotes a value greater than or equal to zero (zero, a positive
/// number, or positive infinity) — in particular, not a NaN.
pub open spec fn is_nonneg_bits(b: u64) -> bool {
    sign_clear(b) && !is_nan_bits(b)
}

/// `b` denotes a value strictly between minus one and one. A magnitude
/// below the magnitude of one rules out every NaN and infinity as well.
pub open spec fn in_unit_bits(b: u64) -> bool {
    magnitude_bits(b) < ONE_BITS
}

/// The pattern of the negated value: the sign bit flipped.
pub open spec fn neg_bits_of(b: u64) -> u64 {
    b ^ SIGN_MASK
}

/// The pattern of the absolute value: the sign bit cleared.
pub open spec fn abs_bits_of(b: u64) -> u64 {
    b & MAGNITUDE_MASK
}

/// The pattern of the binary64 sum of the values with patterns `a` and `b`,
/// rounded to nearest with ties to even. Addition of two doubles is a pure
/// function of the two operand patterns, so the sum has a name here; what the
/// library states about it is in the contract of [`add_bits`].
pub uninterp spec fn add_bits_of(a: u64, b: u64) -> u64;

/// Binary64 negation flips the sign bit of the operand and changes nothing
/// else; this holds for every operand, zeros, infinities and NaNs included.
pub(crate) fn neg_bits(b: u64) -> (r: u64)
    ensures
        r == neg_bits_of(b),
{
    b ^ SIGN_MASK
}

/// Binary64 absolute value clears the sign bit of the operand and changes
/// nothing else; this holds for every operand, NaNs included.
pub(crate) fn abs_bits(b: u64) -> (r: u64)
    ensures
        r == abs_bits_of(b),
{
    b & MAGNITUDE_MASK
}

/// Relies on `rustc_apfloat::ieee::Double` and its `Add` impl: binary64
/// addition rounded to nearest, ties to even, computed in software as a pure
/// function of the two operand patterns — the meaning given to
/// [`add_bits_of`].
///
/// The remaining clauses hold of every outcome of that addition:
/// - when both operands have a clear sign bit the result does too (the sum of
///   values that are not negative is not negative; a NaN operand is returned
///   with its sign kept, and the invalid-operation NaN arises only from
///   infinities of opposite sign);
/// - the sum of two values that are at least zero is at least zero and is
///   not a NaN;
/// - such a sum is zero exactly when both operands are zero, since the sum
///   of a positive value and a value at least zero rounds to a positive
///   value.
#[verifier::external_body]
pub(crate) fn add_bits(a: u64, b: u64) -> (res: u64)
    ensures
        res == add_bits_of(a, b),
        sign_clear(a) && sign_clear(b) ==> sign_clear(res),
        is_nonneg_bits(a) && is_nonneg_bits(b) ==> is_nonneg_bits(res),
        is_nonneg_bits(a) && is_nonneg_bits(b) ==> (is_zero_bits(res) <==> (is_zero_bits(a) && is_zero_bits(b))),
{
    let x = rustc_apfloat::ieee::Double::from_bits(a as u128);
    let y = rustc_apfloat::ieee::Double::from_bits(b as u128);
    (x + y).value.to_bits() as u64
}

} // verus!
