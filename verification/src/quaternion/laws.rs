//! Laws of the quaternion algebra.
//!
//! A scalar type owes no algebraic law, so each law of the quaternions that rests on
//! one of the scalars asks it of the components at hand, and of nothing else.

use crate::quaternion::traits::Field;
use crate::quaternion::Quaternion;
use vstd::prelude::*;
use vstd::std_specs::ops::{AddSpec, DivSpec, NegSpec, SubSpec};

verus! {

/// A quaternion and its negation add up to the zero quaternion, where each component
/// and its negation add up to the scalar `zero`.
pub proof fn lemma_add_neg_is_zero<T: Field>(a: Quaternion<T>, zero: T)
    requires
        a.r.add_spec(a.r.neg_spec()) == zero,
        a.i.add_spec(a.i.neg_spec()) == zero,
        a.j.add_spec(a.j.neg_spec()) == zero,
        a.k.add_spec(a.k.neg_spec()) == zero,
    ensures
        a.add_spec(a.neg_spec()) == (Quaternion { r: zero, i: zero, j: zero, k: zero }),
{
}

/// Negating a quaternion twice gives it back, where negating each component twice
/// gives the component back.
pub proof fn lemma_neg_neg<T: Field>(a: Quaternion<T>)
    requires
        a.r.neg_spec().neg_spec() == a.r,
        a.i.neg_spec().neg_spec() == a.i,
        a.j.neg_spec().neg_spec() == a.j,
        a.k.neg_spec().neg_spec() == a.k,
    ensures
        a.neg_spec().neg_spec() == a,
{
}

/// Subtracting a quaternion is adding its negation, where that holds of the scalars
/// component by component.
pub proof fn lemma_sub_is_add_neg<T: Field>(a: Quaternion<T>, b: Quaternion<T>)
    requires
        a.r.sub_spec(b.r) == a.r.add_spec(b.r.neg_spec()),
        a.i.sub_spec(b.i) == a.i.add_spec(b.i.neg_spec()),
        a.j.sub_spec(b.j) == a.j.add_spec(b.j.neg_spec()),
        a.k.sub_spec(b.k) == a.k.add_spec(b.k.neg_spec()),
    ensures
        a.sub_spec(b) == a.add_spec(b.neg_spec()),
{
}

/// Conjugating twice gives the quaternion back, where negating each imaginary
/// component twice gives the component back.
pub proof fn lemma_conjugate_conjugate<T: Field>(a: Quaternion<T>)
    requires
        a.i.neg_spec().neg_spec() == a.i,
        a.j.neg_spec().neg_spec() == a.j,
        a.k.neg_spec().neg_spec() == a.k,
    ensures
        a.conjugate_spec().conjugate_spec() == a,
{
}

/// The inverse is the conjugate with each component divided by the squared norm.
pub proof fn lemma_inverse_is_conjugate_over_norm_squared<T: Field>(a: Quaternion<T>)
    ensures
        a.inverse_spec() == (Quaternion {
            r: a.conjugate_spec().r.div_spec(a.norm_squared_spec()),
            i: a.conjugate_spec().i.div_spec(a.norm_squared_spec()),
            j: a.conjugate_spec().j.div_spec(a.norm_squared_spec()),
            k: a.conjugate_spec().k.div_spec(a.norm_squared_spec()),
        }),
{
}

} // verus!
