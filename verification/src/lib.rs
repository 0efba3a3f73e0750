//! A minimal three-component vector primitive for numeric and geometry code.
//!
//! Components are IEEE-754 single-precision scalars, handled here through
//! their bit patterns: a component is the `u32` encoding of the scalar it
//! stands for, and equality is bit for bit. The crate covers the part of the
//! type whose behaviour is exact at the bit level — construction, component
//! access, the canonical constants, negation (a sign-bit flip) and the
//! classification of the special values that floating-point arithmetic
//! produces. Floating-point arithmetic itself has no theory in the verifier
//! and stays outside this crate.

mod scalar;
mod vec3;

pub use crate::scalar::EXPONENT_MASK;
pub use crate::scalar::FRACTION_MASK;
pub use crate::scalar::MAGNITUDE_MASK;
pub use crate::scalar::ONE_BITS;
pub use crate::scalar::SIGN_MASK;
pub use crate::scalar::ZERO_BITS;
pub use crate::scalar::flip_sign;
pub use crate::scalar::is_finite;
pub use crate::scalar::is_finite_bits;
pub use crate::scalar::is_infinite;
pub use crate::scalar::is_infinite_bits;
pub use crate::scalar::is_nan;
pub use crate::scalar::is_nan_bits;
pub use crate::scalar::is_negative;
pub use crate::scalar::is_zero;
pub use crate::scalar::lemma_flip_sign_involution;
pub use crate::scalar::lemma_flip_sign_preserves_class;
pub use crate::vec3::Vec3;
pub use crate::vec3::lemma_neg_involution;
pub use crate::vec3::spec_neg;
