//! A 3-component vector of binary64 scalars.

use vstd::prelude::*;
use crate::bits::{
    abs_bits, abs_bits_of, add_bits, add_bits_of, in_unit_bits, is_nan_bits, is_nonneg_bits,
    is_zero_bits, neg_bits, neg_bits_of, sign_clear,
};

verus! {

/// A vector with three binary64 components, each held as its bit pattern
/// (see [`crate::bits`]).
#[derive(Clone, Copy, PartialEq, Eq, Structural, Debug)]
pub struct Vec3D {
    pub x: u64,
    pub y: u64,
    pub z: u64,
}

/// The component-wise sum of `a` and `b`.
pub open spec fn spec_add_vec(a: Vec3D, b: Vec3D) -> Vec3D {
    Vec3D { x: add_bits_of(a.x, b.x), y: add_bits_of(a.y, b.y), z: add_bits_of(a.z, b.z) }
}

/// The component-wise negation of `a`.
pub open spec fn spec_neg_vec(a: Vec3D) -> Vec3D {
    Vec3D { x: neg_bits_of(a.x), y: neg_bits_of(a.y), z: neg_bits_of(a.z) }
}

/// The component-wise difference of `a` and `b`, each component computed as
/// the sum of the left component and the negated right component; binary64
/// subtraction is exactly that sum.
pub open spec fn spec_sub_vec(a: Vec3D, b: Vec3D) -> Vec3D {
    spec_add_vec(a, spec_neg_vec(b))
}

/// The L1 norm of `a`: the absolute values of the three components, summed
/// left to right.
pub open spec fn spec_norm1(a: Vec3D) -> u64 {
    add_bits_of(add_bits_of(abs_bits_of(a.x), abs_bits_of(a.y)), abs_bits_of(a.z))
}

/// No component of `a` is a NaN.
pub open spec fn vec_no_nan(a: Vec3D) -> bool {
    !is_nan_bits(a.x) && !is_nan_bits(a.y) && !is_nan_bits(a.z)
}

/// Every component of `a` is a zero (of either sign).
pub open spec fn vec_is_zero(a: Vec3D) -> bool {
    is_zero_bits(a.x) && is_zero_bits(a.y) && is_zero_bits(a.z)
}

/// Every component of `a` lies strictly between minus one and one.
pub open spec fn vec_in_unit(a: Vec3D) -> bool {
    in_unit_bits(a.x) && in_unit_bits(a.y) && in_unit_bits(a.z)
}

impl Vec3D {
    /// The vector with the given component patterns.
    pub fn new(x: u64, y: u64, z: u64) -> (r: Vec3D)
        ensures
            r == (Vec3D { x, y, z }),
    {
        Vec3D { x, y, z }
    }

    /// The zero vector (all components positive zero).
    pub fn zero() -> (r: Vec3D)
        ensures
            r == (Vec3D { x: 0u64, y: 0u64, z: 0u64 }),
    {
        Vec3D { x: 0, y: 0, z: 0 }
    }

    /// The component-wise sum of `self` and `rhs`.
    pub fn add(self, rhs: Vec3D) -> (r: Vec3D)
        ensures
            r == spec_add_vec(self, rhs),
    {
        Vec3D {
            x: add_bits(self.x, rhs.x),
            y: add_bits(self.y, rhs.y),
            z: add_bits(self.z, rhs.z),
        }
    }

    /// Adds `rhs` to `self` in place, component-wise.
    pub fn add_assign(&mut self, rhs: &Vec3D)
        ensures
            *final(self) == spec_add_vec(*old(self), *rhs),
    {
        self.x = add_bits(self.x, rhs.x);
        self.y = add_bits(self.y, rhs.y);
        self.z = add_bits(self.z, rhs.z);
    }

    /// The component-wise negation of `self`.
    pub fn neg(self) -> (r: Vec3D)
        ensures
            r == spec_neg_vec(self),
    {
        Vec3D { x: neg_bits(self.x), y: neg_bits(self.y), z: neg_bits(self.z) }
    }

    /// The component-wise difference of `self` and `rhs`, computed as the
    /// sum of `self` and the negation of `rhs`.
    pub fn sub(self, rhs: Vec3D) -> (r: Vec3D)
        ensures
            r == spec_sub_vec(self, rhs),
    {
        self.add(rhs.neg())
    }

    /// The L1 norm of `self`: `|x| + |y| + |z|`, summed left to right.
    ///
    /// The result always carries a clear sign bit. When no component is a
    /// NaN the result denotes a value at least zero, and it is zero exactly
    /// when every component of `self` is a zero.
    pub fn norm1(&self) -> (r: u64)
        ensures
            r == spec_norm1(*self),
            sign_clear(r),
            vec_no_nan(*self) ==> is_nonneg_bits(r),
            vec_no_nan(*self) ==> (is_zero_bits(r) <==> vec_is_zero(*self)),
    {
        let ax = abs_bits(self.x);
        let ay = abs_bits(self.y);
        let az = abs_bits(self.z);
        proof {
            lemma_abs_sign_clear(self.x);
            lemma_abs_sign_clear(self.y);
            lemma_abs_sign_clear(self.z);
        }
        add_bits(add_bits(ax, ay), az)
    }
}

/// Clearing the sign bit leaves the sign bit clear, leaves the magnitude
/// bits as they were, and keeps a non-NaN pattern non-NaN.
proof fn lemma_abs_sign_clear(b: u64)
    ensures
        sign_clear(abs_bits_of(b)),
        is_nan_bits(abs_bits_of(b)) == is_nan_bits(b),
        is_zero_bits(abs_bits_of(b)) == is_zero_bits(b),
{
    assert((b & 0x7FFF_FFFF_FFFF_FFFF) & 0x8000_0000_0000_0000 == 0) by (bit_vector);
    assert(((b & 0x7FFF_FFFF_FFFF_FFFF) & 0x7FF0_0000_0000_0000 == 0x7FF0_0000_0000_0000) == (b
        & 0x7FF0_0000_0000_0000 == 0x7FF0_0000_0000_0000)) by (bit_vector);
    assert(((b & 0x7FFF_FFFF_FFFF_FFFF) & 0x000F_FFFF_FFFF_FFFF) == (b
        & 0x000F_FFFF_FFFF_FFFF)) by (bit_vector);
    assert(((b & 0x7FFF_FFFF_FFFF_FFFF) & 0x7FFF_FFFF_FFFF_FFFF) == (b
        & 0x7FFF_FFFF_FFFF_FFFF)) by (bit_vector);
}

/// Negating a vector twice gives back the original vector, exactly: each
/// negation only flips the sign bit of each component.
pub proof fn lemma_neg_neg(a: Vec3D)
    ensures
        spec_neg_vec(spec_neg_vec(a)) == a,
{
    lemma_neg_involutive(a.x);
    lemma_neg_involutive(a.y);
    lemma_neg_involutive(a.z);
}

/// Flipping the sign bit twice gives back the original pattern.
proof fn lemma_neg_involutive(b: u64)
    ensures
        neg_bits_of(neg_bits_of(b)) == b,
{
    assert((b ^ 0x8000_0000_0000_0000) ^ 0x8000_0000_0000_0000 == b) by (bit_vector);
}

} // verus!
