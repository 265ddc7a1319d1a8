//! The quaternion value type, its norm, conjugate and inverse.

use crate::quaternion::traits::{
    Field, Sqrt, is_neg, is_product, is_quotient, is_sqrt, is_sum, unrestricted,
};
use core::ops::{Add, Div, Mul, Neg};
use vstd::prelude::*;
use vstd::std_specs::ops::{AddSpec, DivSpec, MulSpec, NegSpec};

pub mod basic_arithmetic;
pub mod display;
pub mod equality;
pub mod laws;
pub mod traits;

verus! {

/// The quaternion `r + i·𝐢 + j·𝐣 + k·𝐤`. Every value of the four components is a
/// valid quaternion.
#[derive(Debug, Copy, Clone)]
pub struct Quaternion<T> {
    pub r: T,
    pub i: T,
    pub j: T,
    pub k: T,
}

impl<T: Field> Quaternion<T> {
    /// `r² + i² + j² + k²`, summed from the left.
    pub open spec fn norm_squared_spec(self) -> T {
        self.r.mul_spec(self.r).add_spec(self.i.mul_spec(self.i)).add_spec(
            self.j.mul_spec(self.j),
        ).add_spec(self.k.mul_spec(self.k))
    }

    /// Each step of `norm_squared_spec` is defined.
    pub open spec fn norm_squared_req(self) -> bool {
        &&& self.r.mul_req(self.r)
        &&& self.i.mul_req(self.i)
        &&& self.j.mul_req(self.j)
        &&& self.k.mul_req(self.k)
        &&& self.r.mul_spec(self.r).add_req(self.i.mul_spec(self.i))
        &&& self.r.mul_spec(self.r).add_spec(self.i.mul_spec(self.i)).add_req(
            self.j.mul_spec(self.j),
        )
        &&& self.r.mul_spec(self.r).add_spec(self.i.mul_spec(self.i)).add_spec(
            self.j.mul_spec(self.j),
        ).add_req(self.k.mul_spec(self.k))
    }

    /// `out` is a value that `r² + i² + j² + k²`, summed from the left, may give.
    pub open spec fn is_norm_squared(self, out: T) -> bool {
        exists|rr: T, ii: T, jj: T, kk: T, u: T, v: T|
            {
                &&& is_product(self.r, self.r, rr)
                &&& is_product(self.i, self.i, ii)
                &&& is_product(self.j, self.j, jj)
                &&& is_product(self.k, self.k, kk)
                &&& is_sum(rr, ii, u)
                &&& is_sum(u, jj, v)
                &&& is_sum(v, kk, out)
            }
    }

    /// The Euclidean length of `(r, i, j, k)`.
    pub open spec fn norm_spec(self) -> T {
        self.norm_squared_spec().sqrt_spec()
    }

    /// `out` is a value that the square root of `r² + i² + j² + k²` may give.
    #[verifier::inline]
    pub open spec fn is_norm(self, out: T) -> bool {
        exists|n: T| self.is_norm_squared(n) && is_sqrt(n, out)
    }

    /// `(r, -i, -j, -k)`.
    pub open spec fn conjugate_spec(self) -> Quaternion<T> {
        Quaternion {
            r: self.r,
            i: self.i.neg_spec(),
            j: self.j.neg_spec(),
            k: self.k.neg_spec(),
        }
    }

    /// `(r, -i, -j, -k)`, each divided by `r² + i² + j² + k²`.
    pub open spec fn inverse_spec(self) -> Quaternion<T> {
        Quaternion {
            r: self.r.div_spec(self.norm_squared_spec()),
            i: self.i.neg_spec().div_spec(self.norm_squared_spec()),
            j: self.j.neg_spec().div_spec(self.norm_squared_spec()),
            k: self.k.neg_spec().div_spec(self.norm_squared_spec()),
        }
    }

    /// Each step of `inverse_spec` is defined.
    pub open spec fn inverse_req(self) -> bool {
        &&& self.norm_squared_req()
        &&& self.i.neg_req()
        &&& self.j.neg_req()
        &&& self.k.neg_req()
        &&& self.r.div_req(self.norm_squared_spec())
        &&& self.i.neg_spec().div_req(self.norm_squared_spec())
        &&& self.j.neg_spec().div_req(self.norm_squared_spec())
        &&& self.k.neg_spec().div_req(self.norm_squared_spec())
    }

    /// `out` is a value that `(r, -i, -j, -k)`, each divided by one and the same value
    /// of `r² + i² + j² + k²`, may give.
    #[verifier::inline]
    pub open spec fn is_inverse(self, out: Quaternion<T>) -> bool {
        exists|n: T, ni: T, nj: T, nk: T|
            {
                &&& self.is_norm_squared(n)
                &&& is_neg(self.i, ni)
                &&& is_neg(self.j, nj)
                &&& is_neg(self.k, nk)
                &&& is_quotient(self.r, n, out.r)
                &&& is_quotient(ni, n, out.i)
                &&& is_quotient(nj, n, out.j)
                &&& is_quotient(nk, n, out.k)
            }
    }

    /// The quaternion with the four components as given.
    pub fn new(r: T, i: T, j: T, k: T) -> (out: Quaternion<T>)
        ensures
            out == (Quaternion { r, i, j, k }),
    {
        Quaternion { r, i, j, k }
    }

    /// The norm `sqrt(r² + i² + j² + k²)`.
    pub fn norm(self) -> (out: T)
        requires
            unrestricted::<T>() || (T::obeys_mul_spec() && T::obeys_add_spec()
                && self.norm_squared_req()),
        ensures
            self.is_norm(out),
            T::obeys_mul_spec() && T::obeys_add_spec() ==> is_sqrt(self.norm_squared_spec(), out),
            T::obeys_mul_spec() && T::obeys_add_spec() && T::obeys_sqrt_spec() ==> out
                == self.norm_spec(),
    {
        let squared = self.r.mul(self.r).add(self.i.mul(self.i)).add(self.j.mul(self.j)).add(
            self.k.mul(self.k),
        );
        assert(self.is_norm_squared(squared));
        squared.sqrt()
    }

    /// The conjugate `(r, -i, -j, -k)`.
    pub fn conjugate(self) -> (out: Quaternion<T>)
        requires
            self.i.neg_req(),
            self.j.neg_req(),
            self.k.neg_req(),
        ensures
            out.r == self.r,
            is_neg(self.i, out.i),
            is_neg(self.j, out.j),
            is_neg(self.k, out.k),
            T::obeys_neg_spec() ==> out == self.conjugate_spec(),
    {
        Self::new(self.r, self.i.neg(), self.j.neg(), self.k.neg())
    }

    /// The inverse under the Hamilton product: the conjugate divided by the squared
    /// norm. Whether a quaternion can be inverted is for the scalar type's division
    /// to say.
    pub fn inverse(self) -> (out: Quaternion<T>)
        requires
            unrestricted::<T>() || (T::obeys_mul_spec() && T::obeys_add_spec()
                && T::obeys_neg_spec() && self.inverse_req()),
        ensures
            self.is_inverse(out),
            T::obeys_mul_spec() && T::obeys_add_spec() && T::obeys_neg_spec()
                && T::obeys_div_spec() ==> out == self.inverse_spec(),
    {
        let quotient = self.r.mul(self.r).add(self.i.mul(self.i)).add(self.j.mul(self.j)).add(
            self.k.mul(self.k),
        );
        assert(self.is_norm_squared(quotient));
        let neg_i = self.i.neg();
        let neg_j = self.j.neg();
        let neg_k = self.k.neg();
        let out = Self::new(
            self.r.div(quotient),
            neg_i.div(quotient),
            neg_j.div(quotient),
            neg_k.div(quotient),
        );
        assert(is_quotient(neg_i, quotient, out.i));
        out
    }
}

impl<T: Field> From<(T, T, T, T)> for Quaternion<T> {
    /// The quaternion whose components are those of the tuple, in the order
    /// `(r, i, j, k)`.
    fn from(tuple: (T, T, T, T)) -> (out: Quaternion<T>)
        ensures
            out == (Quaternion { r: tuple.0, i: tuple.1, j: tuple.2, k: tuple.3 }),
    {
        Quaternion::new(tuple.0, tuple.1, tuple.2, tuple.3)
    }
}

impl<T: Field> vstd::std_specs::convert::FromSpecImpl<(T, T, T, T)> for Quaternion<T> {
    open spec fn obeys_from_spec() -> bool {
        true
    }

    open spec fn from_spec(tuple: (T, T, T, T)) -> Quaternion<T> {
        Quaternion { r: tuple.0, i: tuple.1, j: tuple.2, k: tuple.3 }
    }
}

} // verus!
