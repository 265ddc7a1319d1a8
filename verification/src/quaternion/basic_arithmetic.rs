//! Negation, sum, difference, scaling and the Hamilton product of quaternions.

use crate::quaternion::traits::{
    Field, is_difference, is_neg, is_product, is_sum, unrestricted,
};
use crate::quaternion::Quaternion;
use core::ops::{Add, Mul, Neg, Sub};
use vstd::prelude::*;
use vstd::std_specs::ops::{AddSpec, MulSpec, NegSpec, SubSpec};

verus! {

impl<T: Field> vstd::std_specs::ops::NegSpecImpl for Quaternion<T> {
    open spec fn obeys_neg_spec() -> bool {
        T::obeys_neg_spec()
    }

    open spec fn neg_req(self) -> bool {
        &&& self.r.neg_req()
        &&& self.i.neg_req()
        &&& self.j.neg_req()
        &&& self.k.neg_req()
    }

    open spec fn neg_spec(self) -> Quaternion<T> {
        Quaternion {
            r: self.r.neg_spec(),
            i: self.i.neg_spec(),
            j: self.j.neg_spec(),
            k: self.k.neg_spec(),
        }
    }
}

impl<T: Field> Neg for Quaternion<T> {
    type Output = Self;

    /// `(-r, -i, -j, -k)`. Asks, as `neg_req`, that the scalar type can negate each
    /// component.
    fn neg(self) -> (out: Self)
        ensures
            is_neg(self.r, out.r),
            is_neg(self.i, out.i),
            is_neg(self.j, out.j),
            is_neg(self.k, out.k),
            T::obeys_neg_spec() ==> out == (Quaternion {
                r: self.r.neg_spec(),
                i: self.i.neg_spec(),
                j: self.j.neg_spec(),
                k: self.k.neg_spec(),
            }),
    {
        Quaternion::new(self.r.neg(), self.i.neg(), self.j.neg(), self.k.neg())
    }
}

impl<T: Field> vstd::std_specs::ops::AddSpecImpl for Quaternion<T> {
    open spec fn obeys_add_spec() -> bool {
        T::obeys_add_spec()
    }

    open spec fn add_req(self, rhs: Quaternion<T>) -> bool {
        &&& self.r.add_req(rhs.r)
        &&& self.i.add_req(rhs.i)
        &&& self.j.add_req(rhs.j)
        &&& self.k.add_req(rhs.k)
    }

    open spec fn add_spec(self, rhs: Quaternion<T>) -> Quaternion<T> {
        Quaternion {
            r: self.r.add_spec(rhs.r),
            i: self.i.add_spec(rhs.i),
            j: self.j.add_spec(rhs.j),
            k: self.k.add_spec(rhs.k),
        }
    }
}

impl<T: Field> Add for Quaternion<T> {
    type Output = Self;

    /// The sum, component by component. Asks, as `add_req`, that the scalar type can
    /// add each pair of components.
    fn add(self, rhs: Self) -> (out: Self)
        ensures
            is_sum(self.r, rhs.r, out.r),
            is_sum(self.i, rhs.i, out.i),
            is_sum(self.j, rhs.j, out.j),
            is_sum(self.k, rhs.k, out.k),
            T::obeys_add_spec() ==> out == (Quaternion {
                r: self.r.add_spec(rhs.r),
                i: self.i.add_spec(rhs.i),
                j: self.j.add_spec(rhs.j),
                k: self.k.add_spec(rhs.k),
            }),
    {
        Quaternion::new(
            self.r.add(rhs.r),
            self.i.add(rhs.i),
            self.j.add(rhs.j),
            self.k.add(rhs.k),
        )
    }
}

impl<T: Field> vstd::std_specs::ops::SubSpecImpl for Quaternion<T> {
    open spec fn obeys_sub_spec() -> bool {
        T::obeys_sub_spec()
    }

    open spec fn sub_req(self, rhs: Quaternion<T>) -> bool {
        &&& self.r.sub_req(rhs.r)
        &&& self.i.sub_req(rhs.i)
        &&& self.j.sub_req(rhs.j)
        &&& self.k.sub_req(rhs.k)
    }

    open spec fn sub_spec(self, rhs: Quaternion<T>) -> Quaternion<T> {
        Quaternion {
            r: self.r.sub_spec(rhs.r),
            i: self.i.sub_spec(rhs.i),
            j: self.j.sub_spec(rhs.j),
            k: self.k.sub_spec(rhs.k),
        }
    }
}

impl<T: Field> Sub for Quaternion<T> {
    type Output = Self;

    /// The difference, component by component. Asks, as `sub_req`, that the scalar
    /// type can subtract each pair of components.
    fn sub(self, rhs: Self) -> (out: Self)
        ensures
            is_difference(self.r, rhs.r, out.r),
            is_difference(self.i, rhs.i, out.i),
            is_difference(self.j, rhs.j, out.j),
            is_difference(self.k, rhs.k, out.k),
            T::obeys_sub_spec() ==> out == (Quaternion {
                r: self.r.sub_spec(rhs.r),
                i: self.i.sub_spec(rhs.i),
                j: self.j.sub_spec(rhs.j),
                k: self.k.sub_spec(rhs.k),
            }),
    {
        Quaternion::new(
            self.r.sub(rhs.r),
            self.i.sub(rhs.i),
            self.j.sub(rhs.j),
            self.k.sub(rhs.k),
        )
    }
}

impl<T: Field> vstd::std_specs::ops::MulSpecImpl<T> for Quaternion<T> {
    open spec fn obeys_mul_spec() -> bool {
        T::obeys_mul_spec()
    }

    open spec fn mul_req(self, rhs: T) -> bool {
        &&& self.r.mul_req(rhs)
        &&& self.i.mul_req(rhs)
        &&& self.j.mul_req(rhs)
        &&& self.k.mul_req(rhs)
    }

    open spec fn mul_spec(self, rhs: T) -> Quaternion<T> {
        Quaternion {
            r: self.r.mul_spec(rhs),
            i: self.i.mul_spec(rhs),
            j: self.j.mul_spec(rhs),
            k: self.k.mul_spec(rhs),
        }
    }
}

impl<T: Field> Mul<T> for Quaternion<T> {
    type Output = Self;

    /// The quaternion scaled by `rhs`: each component times `rhs`. Asks, as `mul_req`,
    /// that the scalar type can multiply each component by `rhs`.
    fn mul(self, rhs: T) -> (out: Self)
        ensures
            is_product(self.r, rhs, out.r),
            is_product(self.i, rhs, out.i),
            is_product(self.j, rhs, out.j),
            is_product(self.k, rhs, out.k),
            T::obeys_mul_spec() ==> out == (Quaternion {
                r: self.r.mul_spec(rhs),
                i: self.i.mul_spec(rhs),
                j: self.j.mul_spec(rhs),
                k: self.k.mul_spec(rhs),
            }),
    {
        Quaternion::new(self.r.mul(rhs), self.i.mul(rhs), self.j.mul(rhs), self.k.mul(rhs))
    }
}

/// The product `scalar * q` with the scalar on the left, which is `q * scalar` by
/// definition: each component of `q` times `scalar`.
pub fn scale<T: Field>(scalar: T, q: Quaternion<T>) -> (out: Quaternion<T>)
    requires
        q.mul_req(scalar),
    ensures
        is_product(q.r, scalar, out.r),
        is_product(q.i, scalar, out.i),
        is_product(q.j, scalar, out.j),
        is_product(q.k, scalar, out.k),
        T::obeys_mul_spec() ==> out == q.mul_spec(scalar),
{
    q * scalar
}

impl<T: Field> Quaternion<T> {
    /// The real part of the Hamilton product `self * rhs`.
    pub open spec fn hamilton_r(self, rhs: Quaternion<T>) -> T {
        self.r.mul_spec(rhs.r).sub_spec(self.i.mul_spec(rhs.i)).sub_spec(
            self.j.mul_spec(rhs.j),
        ).sub_spec(self.k.mul_spec(rhs.k))
    }

    /// The `i` part of the Hamilton product `self * rhs`.
    pub open spec fn hamilton_i(self, rhs: Quaternion<T>) -> T {
        self.r.mul_spec(rhs.i).add_spec(self.i.mul_spec(rhs.r)).add_spec(
            self.j.mul_spec(rhs.k),
        ).sub_spec(self.k.mul_spec(rhs.j))
    }

    /// The `j` part of the Hamilton product `self * rhs`.
    pub open spec fn hamilton_j(self, rhs: Quaternion<T>) -> T {
        self.r.mul_spec(rhs.j).sub_spec(self.i.mul_spec(rhs.k)).add_spec(
            self.j.mul_spec(rhs.r),
        ).add_spec(self.k.mul_spec(rhs.i))
    }

    /// The `k` part of the Hamilton product `self * rhs`.
    pub open spec fn hamilton_k(self, rhs: Quaternion<T>) -> T {
        self.r.mul_spec(rhs.k).add_spec(self.i.mul_spec(rhs.j)).sub_spec(
            self.j.mul_spec(rhs.i),
        ).add_spec(self.k.mul_spec(rhs.r))
    }

    /// `out` is a value that the real part of the Hamilton product `self * rhs` may
    /// give.
    #[verifier::inline]
    pub open spec fn is_hamilton_r(self, rhs: Quaternion<T>, out: T) -> bool {
        exists|w: T, x: T, y: T, z: T, u: T, v: T|
            {
                &&& is_product(self.r, rhs.r, w)
                &&& is_product(self.i, rhs.i, x)
                &&& is_product(self.j, rhs.j, y)
                &&& is_product(self.k, rhs.k, z)
                &&& is_difference(w, x, u)
                &&& is_difference(u, y, v)
                &&& is_difference(v, z, out)
            }
    }

    /// `out` is a value that the `i` part of the Hamilton product `self * rhs` may
    /// give.
    #[verifier::inline]
    pub open spec fn is_hamilton_i(self, rhs: Quaternion<T>, out: T) -> bool {
        exists|w: T, x: T, y: T, z: T, u: T, v: T|
            {
                &&& is_product(self.r, rhs.i, w)
                &&& is_product(self.i, rhs.r, x)
                &&& is_product(self.j, rhs.k, y)
                &&& is_product(self.k, rhs.j, z)
                &&& is_sum(w, x, u)
                &&& is_sum(u, y, v)
                &&& is_difference(v, z, out)
            }
    }

    /// `out` is a value that the `j` part of the Hamilton product `self * rhs` may
    /// give.
    #[verifier::inline]
    pub open spec fn is_hamilton_j(self, rhs: Quaternion<T>, out: T) -> bool {
        exists|w: T, x: T, y: T, z: T, u: T, v: T|
            {
                &&& is_product(self.r, rhs.j, w)
                &&& is_product(self.i, rhs.k, x)
                &&& is_product(self.j, rhs.r, y)
                &&& is_product(self.k, rhs.i, z)
                &&& is_difference(w, x, u)
                &&& is_sum(u, y, v)
                &&& is_sum(v, z, out)
            }
    }

    /// `out` is a value that the `k` part of the Hamilton product `self * rhs` may
    /// give.
    #[verifier::inline]
    pub open spec fn is_hamilton_k(self, rhs: Quaternion<T>, out: T) -> bool {
        exists|w: T, x: T, y: T, z: T, u: T, v: T|
            {
                &&& is_product(self.r, rhs.k, w)
                &&& is_product(self.i, rhs.j, x)
                &&& is_product(self.j, rhs.i, y)
                &&& is_product(self.k, rhs.r, z)
                &&& is_sum(w, x, u)
                &&& is_difference(u, y, v)
                &&& is_sum(v, z, out)
            }
    }

    /// Each step of `hamilton_r` is defined.
    pub open spec fn hamilton_r_req(self, rhs: Quaternion<T>) -> bool {
        &&& self.r.mul_req(rhs.r)
        &&& self.i.mul_req(rhs.i)
        &&& self.j.mul_req(rhs.j)
        &&& self.k.mul_req(rhs.k)
        &&& self.r.mul_spec(rhs.r).sub_req(self.i.mul_spec(rhs.i))
        &&& self.r.mul_spec(rhs.r).sub_spec(self.i.mul_spec(rhs.i)).sub_req(
            self.j.mul_spec(rhs.j),
        )
        &&& self.r.mul_spec(rhs.r).sub_spec(self.i.mul_spec(rhs.i)).sub_spec(
            self.j.mul_spec(rhs.j),
        ).sub_req(self.k.mul_spec(rhs.k))
    }

    /// Each step of `hamilton_i` is defined.
    pub open spec fn hamilton_i_req(self, rhs: Quaternion<T>) -> bool {
        &&& self.r.mul_req(rhs.i)
        &&& self.i.mul_req(rhs.r)
        &&& self.j.mul_req(rhs.k)
        &&& self.k.mul_req(rhs.j)
        &&& self.r.mul_spec(rhs.i).add_req(self.i.mul_spec(rhs.r))
        &&& self.r.mul_spec(rhs.i).add_spec(self.i.mul_spec(rhs.r)).add_req(
            self.j.mul_spec(rhs.k),
        )
        &&& self.r.mul_spec(rhs.i).add_spec(self.i.mul_spec(rhs.r)).add_spec(
            self.j.mul_spec(rhs.k),
        ).sub_req(self.k.mul_spec(rhs.j))
    }

    /// Each step of `hamilton_j` is defined.
    pub open spec fn hamilton_j_req(self, rhs: Quaternion<T>) -> bool {
        &&& self.r.mul_req(rhs.j)
        &&& self.i.mul_req(rhs.k)
        &&& self.j.mul_req(rhs.r)
        &&& self.k.mul_req(rhs.i)
        &&& self.r.mul_spec(rhs.j).sub_req(self.i.mul_spec(rhs.k))
        &&& self.r.mul_spec(rhs.j).sub_spec(self.i.mul_spec(rhs.k)).add_req(
            self.j.mul_spec(rhs.r),
        )
        &&& self.r.mul_spec(rhs.j).sub_spec(self.i.mul_spec(rhs.k)).add_spec(
            self.j.mul_spec(rhs.r),
        ).add_req(self.k.mul_spec(rhs.i))
    }

    /// Each step of `hamilton_k` is defined.
    pub open spec fn hamilton_k_req(self, rhs: Quaternion<T>) -> bool {
        &&& self.r.mul_req(rhs.k)
        &&& self.i.mul_req(rhs.j)
        &&& self.j.mul_req(rhs.i)
        &&& self.k.mul_req(rhs.r)
        &&& self.r.mul_spec(rhs.k).add_req(self.i.mul_spec(rhs.j))
        &&& self.r.mul_spec(rhs.k).add_spec(self.i.mul_spec(rhs.j)).sub_req(
            self.j.mul_spec(rhs.i),
        )
        &&& self.r.mul_spec(rhs.k).add_spec(self.i.mul_spec(rhs.j)).sub_spec(
            self.j.mul_spec(rhs.i),
        ).add_req(self.k.mul_spec(rhs.r))
    }
}

impl<T: Field> vstd::std_specs::ops::MulSpecImpl<Quaternion<T>> for Quaternion<T> {
    open spec fn obeys_mul_spec() -> bool {
        T::obeys_mul_spec() && T::obeys_add_spec() && T::obeys_sub_spec()
    }

    open spec fn mul_req(self, rhs: Quaternion<T>) -> bool {
        unrestricted::<T>() || {
            &&& T::obeys_mul_spec()
            &&& T::obeys_add_spec()
            &&& T::obeys_sub_spec()
            &&& self.hamilton_r_req(rhs)
            &&& self.hamilton_i_req(rhs)
            &&& self.hamilton_j_req(rhs)
            &&& self.hamilton_k_req(rhs)
        }
    }

    open spec fn mul_spec(self, rhs: Quaternion<T>) -> Quaternion<T> {
        Quaternion {
            r: self.hamilton_r(rhs),
            i: self.hamilton_i(rhs),
            j: self.hamilton_j(rhs),
            k: self.hamilton_k(rhs),
        }
    }
}

impl<T: Field> Mul<Quaternion<T>> for Quaternion<T> {
    type Output = Quaternion<T>;

    /// The Hamilton product, which does not commute:
    ///
    /// ```text
    /// r = a.r*b.r - a.i*b.i - a.j*b.j - a.k*b.k
    /// i = a.r*b.i + a.i*b.r + a.j*b.k - a.k*b.j
    /// j = a.r*b.j - a.i*b.k + a.j*b.r + a.k*b.i
    /// k = a.r*b.k + a.i*b.j - a.j*b.i + a.k*b.r
    /// ```
    ///
    /// Asks, as `mul_req`, that the scalar type's operators are defined on all
    /// operands, or that they are functions of their operands and each step above is
    /// defined.
    fn mul(self, rhs: Quaternion<T>) -> (out: Quaternion<T>)
        ensures
            self.is_hamilton_r(rhs, out.r),
            self.is_hamilton_i(rhs, out.i),
            self.is_hamilton_j(rhs, out.j),
            self.is_hamilton_k(rhs, out.k),
            T::obeys_mul_spec() && T::obeys_add_spec() && T::obeys_sub_spec() ==> out
                == (Quaternion {
                r: self.hamilton_r(rhs),
                i: self.hamilton_i(rhs),
                j: self.hamilton_j(rhs),
                k: self.hamilton_k(rhs),
            }),
    {
        Quaternion::new(
            self.r.mul(rhs.r).sub(self.i.mul(rhs.i)).sub(self.j.mul(rhs.j)).sub(
                self.k.mul(rhs.k),
            ),
            self.r.mul(rhs.i).add(self.i.mul(rhs.r)).add(self.j.mul(rhs.k)).sub(
                self.k.mul(rhs.j),
            ),
            self.r.mul(rhs.j).sub(self.i.mul(rhs.k)).add(self.j.mul(rhs.r)).add(
                self.k.mul(rhs.i),
            ),
            self.r.mul(rhs.k).add(self.i.mul(rhs.j)).sub(self.j.mul(rhs.i)).add(
                self.k.mul(rhs.r),
            ),
        )
    }
}

} // verus!
