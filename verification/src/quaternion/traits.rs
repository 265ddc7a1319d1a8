//! What a scalar type must offer to serve as a component of a quaternion.

use core::ops::{Add, Div, Mul, Neg, Sub};
use vstd::prelude::*;
use vstd::std_specs::ops::{AddSpec, DivSpec, MulSpec, NegSpec, SubSpec};

verus! {

/// A square root that stays within the type.
///
/// Nothing is asked of the operand: what the root of a negative value is belongs to
/// the scalar type.
pub trait Sqrt: Sized {
    /// Whether `sqrt` computes the function `sqrt_spec`. A type that does not say so
    /// promises nothing of its square root.
    open spec fn obeys_sqrt_spec() -> bool {
        false
    }

    /// The square root as a function of the operand.
    open spec fn sqrt_spec(self) -> Self {
        arbitrary()
    }

    fn sqrt(self) -> (out: Self)
        ensures
            Self::obeys_sqrt_spec() ==> out == self.sqrt_spec(),
    ;
}

/// The scalar types a quaternion can be built from: copyable, with negation, a square
/// root and the four arithmetic operators, each closed over the type.
///
/// Every type with these capabilities is a `Field`; no algebraic law is asked of it.
pub trait Field: Copy + Sqrt + Neg<Output = Self> + Add<Output = Self> + Sub<Output = Self> + Mul<
    Output = Self,
> + Div<Output = Self> {

}

impl<T> Field for T where
    T: Copy + Sqrt + Neg<Output = T> + Add<Output = T> + Sub<Output = T> + Mul<Output = T> + Div<
        Output = T,
    >,
 {

}

/// Every operator of `T` is defined on all operands, as those of the floating-point
/// types are.
pub open spec fn unrestricted<T: Field>() -> bool {
    &&& forall|x: T| #[trigger] x.neg_req()
    &&& forall|x: T, y: T| #[trigger] x.add_req(y)
    &&& forall|x: T, y: T| #[trigger] x.sub_req(y)
    &&& forall|x: T, y: T| #[trigger] x.mul_req(y)
    &&& forall|x: T, y: T| #[trigger] x.div_req(y)
}

/// `out` is a value that `-x` may give.
#[verifier::inline]
pub open spec fn is_neg<T: Field>(x: T, out: T) -> bool {
    call_ensures(<T as Neg>::neg, (x,), out)
}

/// `out` is a value that `x + y` may give.
#[verifier::inline]
pub open spec fn is_sum<T: Field>(x: T, y: T, out: T) -> bool {
    call_ensures(<T as Add>::add, (x, y), out)
}

/// `out` is a value that `x - y` may give.
#[verifier::inline]
pub open spec fn is_difference<T: Field>(x: T, y: T, out: T) -> bool {
    call_ensures(<T as Sub>::sub, (x, y), out)
}

/// `out` is a value that `x * y` may give.
#[verifier::inline]
pub open spec fn is_product<T: Field>(x: T, y: T, out: T) -> bool {
    call_ensures(<T as Mul>::mul, (x, y), out)
}

/// `out` is a value that `x / y` may give.
#[verifier::inline]
pub open spec fn is_quotient<T: Field>(x: T, y: T, out: T) -> bool {
    call_ensures(<T as Div>::div, (x, y), out)
}

/// `out` is a value that the square root of `x` may give.
#[verifier::inline]
pub open spec fn is_sqrt<T: Field>(x: T, out: T) -> bool {
    call_ensures(<T as Sqrt>::sqrt, (x,), out)
}

} // verus!
