//! Quaternions `r + i·𝐢 + j·𝐣 + k·𝐤` over any scalar type that offers negation, the four
//! arithmetic operators and a square root.
//!
//! The algebra never looks into a scalar. Every contract therefore speaks of the scalar
//! type's own operators, in two ways: as relations (`is_sum`, `is_product`, ...) that
//! hold of whatever an operator returned, and as functions (`add_spec`, `mul_spec`,
//! ...) for the scalar types that declare their operators to be functions of their
//! operands.

pub mod quaternion;

pub use quaternion::Quaternion;
