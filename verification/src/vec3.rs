//! The three-component vector type.
//!
//! A `Vec3` is a plain value: three single-precision components, each held as
//! its 32-bit encoding, copied rather than referenced, with no invariant
//! beyond what the encoding itself imposes — NaN, Infinity and subnormal
//! components are all valid states. Equality is structural and bit for bit;
//! no tolerance is part of the type.

use vstd::prelude::*;

use crate::scalar::ONE_BITS;
use crate::scalar::SIGN_MASK;
use crate::scalar::ZERO_BITS;
use crate::scalar::flip_sign;
use crate::scalar::lemma_flip_sign_involution;

verus! {

/// A three-component single-precision vector, each component stored as its
/// IEEE-754 bit pattern.
#[derive(Clone, Copy, Debug, PartialEq, Eq, Structural)]
pub struct Vec3 {
    /// Encoding of the first component.
    pub x: u32,
    /// Encoding of the second component.
    pub y: u32,
    /// Encoding of the third component.
    pub z: u32,
}

/// Componentwise negation of `v`: each component's sign bit flipped.
pub open spec fn spec_neg(v: Vec3) -> Vec3 {
    Vec3 { x: flip_sign(v.x), y: flip_sign(v.y), z: flip_sign(v.z) }
}

impl Vec3 {
    /// Builds a vector from three component encodings. Total: no validation,
    /// any bit pattern — NaN and Infinity included — is accepted as given.
    pub fn new(x: u32, y: u32, z: u32) -> (r: Vec3)
        ensures
            r == (Vec3 { x, y, z }),
    {
        Vec3 { x, y, z }
    }

    /// The canonical zero vector: every component positive zero.
    pub fn zero() -> (r: Vec3)
        ensures
            r == (Vec3 { x: ZERO_BITS, y: ZERO_BITS, z: ZERO_BITS }),
    {
        Vec3 { x: ZERO_BITS, y: ZERO_BITS, z: ZERO_BITS }
    }

    /// The canonical all-ones vector: every component one.
    pub fn one() -> (r: Vec3)
        ensures
            r == (Vec3 { x: ONE_BITS, y: ONE_BITS, z: ONE_BITS }),
    {
        Vec3 { x: ONE_BITS, y: ONE_BITS, z: ONE_BITS }
    }

    /// The stored first component, unconverted.
    pub fn x(&self) -> (r: u32)
        ensures
            r == self.x,
    {
        self.x
    }

    /// The stored second component, unconverted.
    pub fn y(&self) -> (r: u32)
        ensures
            r == self.y,
    {
        self.y
    }

    /// The stored third component, unconverted.
    pub fn z(&self) -> (r: u32)
        ensures
            r == self.z,
    {
        self.z
    }

    /// Unary negation: flips each component's sign bit and touches nothing
    /// else, so the sign of zero and NaN payloads carry through exactly as
    /// IEEE-754 negation mandates.
    pub fn neg(self) -> (r: Vec3)
        ensures
            r == spec_neg(self),
    {
        Vec3 { x: self.x ^ SIGN_MASK, y: self.y ^ SIGN_MASK, z: self.z ^ SIGN_MASK }
    }
}

/// Involution: negating a vector twice restores it bit for bit, for every
/// vector — NaN and Infinity components included.
pub proof fn lemma_neg_involution(v: Vec3)
    ensures
        spec_neg(spec_neg(v)) == v,
{
    lemma_flip_sign_involution(v.x);
    lemma_flip_sign_involution(v.y);
    lemma_flip_sign_involution(v.z);
}

} // verus!
