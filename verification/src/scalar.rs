//! The bit-level model of one scalar component.
//!
//! An IEEE-754 single-precision scalar is held as its 32-bit encoding: one
//! sign bit, eight exponent bits, 23 fraction bits. Everything this module
//! states — the classification of NaN, Infinity, finite and zero encodings,
//! and negation as a sign-bit flip — is exact over that encoding.

use vstd::prelude::*;

verus! {

/// Mask of the sign bit of a single-precision encoding.
pub const SIGN_MASK: u32 = 0x8000_0000;

/// Mask of the eight exponent bits.
pub const EXPONENT_MASK: u32 = 0x7f80_0000;

/// Mask of the 23 fraction bits.
pub const FRACTION_MASK: u32 = 0x007f_ffff;

/// Mask of everything but the sign bit: the encoding's magnitude.
pub const MAGNITUDE_MASK: u32 = 0x7fff_ffff;

/// The encoding of positive zero.
pub const ZERO_BITS: u32 = 0x0000_0000;

/// The encoding of one.
pub const ONE_BITS: u32 = 0x3f80_0000;

/// True when the encoding's sign bit is set: a negative number, negative
/// zero, negative Infinity, or a NaN with the sign bit set.
pub open spec fn is_negative(b: u32) -> bool {
    b & SIGN_MASK != 0
}

/// True when `b` encodes a NaN: exponent all ones, fraction nonzero.
pub open spec fn is_nan(b: u32) -> bool {
    b & EXPONENT_MASK == EXPONENT_MASK && b & FRACTION_MASK != 0
}

/// True when `b` encodes positive or negative Infinity: exponent all ones,
/// fraction zero.
pub open spec fn is_infinite(b: u32) -> bool {
    b & EXPONENT_MASK == EXPONENT_MASK && b & FRACTION_MASK == 0
}

/// True when `b` encodes a finite number (zero, subnormal or normal): the
/// exponent bits are not all ones.
pub open spec fn is_finite(b: u32) -> bool {
    b & EXPONENT_MASK != EXPONENT_MASK
}

/// True when `b` encodes positive or negative zero.
pub open spec fn is_zero(b: u32) -> bool {
    b & MAGNITUDE_MASK == 0
}

/// IEEE-754 negation of the encoded scalar: the sign bit flipped, exponent
/// and fraction untouched. Negation is total and never rounds, so this is
/// the operation exactly — the sign of zero carries through and a NaN keeps
/// its payload.
pub open spec fn flip_sign(b: u32) -> u32 {
    b ^ SIGN_MASK
}

/// True exactly when `b` encodes a NaN.
pub fn is_nan_bits(b: u32) -> (r: bool)
    ensures
        r == is_nan(b),
{
    b & EXPONENT_MASK == EXPONENT_MASK && b & FRACTION_MASK != 0
}

/// True exactly when `b` encodes positive or negative Infinity.
pub fn is_infinite_bits(b: u32) -> (r: bool)
    ensures
        r == is_infinite(b),
{
    b & EXPONENT_MASK == EXPONENT_MASK && b & FRACTION_MASK == 0
}

/// True exactly when `b` encodes a finite number.
pub fn is_finite_bits(b: u32) -> (r: bool)
    ensures
        r == is_finite(b),
{
    b & EXPONENT_MASK != EXPONENT_MASK
}

/// Flipping the sign twice restores the encoding bit for bit.
pub proof fn lemma_flip_sign_involution(b: u32)
    ensures
        flip_sign(flip_sign(b)) == b,
{
    assert(flip_sign(flip_sign(b)) == b) by (bit_vector);
}

/// Flipping the sign changes the sign bit and nothing else: the magnitude is
/// untouched, so NaN stays NaN, Infinity stays Infinity, finite stays finite,
/// zero stays zero, and the sign inverts.
pub proof fn lemma_flip_sign_preserves_class(b: u32)
    ensures
        flip_sign(b) & MAGNITUDE_MASK == b & MAGNITUDE_MASK,
        is_nan(flip_sign(b)) == is_nan(b),
        is_infinite(flip_sign(b)) == is_infinite(b),
        is_finite(flip_sign(b)) == is_finite(b),
        is_zero(flip_sign(b)) == is_zero(b),
        is_negative(flip_sign(b)) == !is_negative(b),
{
    assert(flip_sign(b) & MAGNITUDE_MASK == b & MAGNITUDE_MASK) by (bit_vector);
    assert(is_nan(flip_sign(b)) == is_nan(b)) by (bit_vector);
    assert(is_infinite(flip_sign(b)) == is_infinite(b)) by (bit_vector);
    assert(is_finite(flip_sign(b)) == is_finite(b)) by (bit_vector);
    assert(is_zero(flip_sign(b)) == is_zero(b)) by (bit_vector);
    assert(is_negative(flip_sign(b)) == !is_negative(b)) by (bit_vector);
}

} // verus!
