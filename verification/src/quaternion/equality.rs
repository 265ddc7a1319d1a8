//! Equality of quaternions: exact, component by component.

use crate::quaternion::Quaternion;
use vstd::prelude::*;
use vstd::std_specs::cmp::PartialEqSpec;

verus! {

/// `out` is an answer that `x == y` may give.
#[verifier::inline]
pub open spec fn is_eq<T: PartialEq>(x: T, y: T, out: bool) -> bool {
    call_ensures(T::eq, (&x, &y), out)
}

impl<T: PartialEq> PartialEq for Quaternion<T> {
    /// Whether all four components are equal under the scalar type's own equality.
    /// No tolerance is applied: the quaternions are equal only where every pair of
    /// components compared equal, and differ as soon as one pair did not.
    fn eq(&self, other: &Self) -> (out: bool)
        ensures
            out ==> is_eq(self.r, other.r, true) && is_eq(self.i, other.i, true) && is_eq(
                self.j,
                other.j,
                true,
            ) && is_eq(self.k, other.k, true),
            !out ==> is_eq(self.r, other.r, false) || is_eq(self.i, other.i, false) || is_eq(
                self.j,
                other.j,
                false,
            ) || is_eq(self.k, other.k, false),
            T::obeys_eq_spec() ==> out == (self.r.eq_spec(&other.r) && self.i.eq_spec(&other.i)
                && self.j.eq_spec(&other.j) && self.k.eq_spec(&other.k)),
    {
        self.r.eq(&other.r) && self.i.eq(&other.i) && self.j.eq(&other.j) && self.k.eq(&other.k)
    }
}

impl<T: PartialEq> vstd::std_specs::cmp::PartialEqSpecImpl for Quaternion<T> {
    open spec fn obeys_eq_spec() -> bool {
        T::obeys_eq_spec()
    }

    open spec fn eq_spec(&self, other: &Self) -> bool {
        &&& self.r.eq_spec(&other.r)
        &&& self.i.eq_spec(&other.i)
        &&& self.j.eq_spec(&other.j)
        &&& self.k.eq_spec(&other.k)
    }
}

} // verus!
