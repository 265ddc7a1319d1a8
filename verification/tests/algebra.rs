use owmath::quaternion::basic_arithmetic::scale;
use owmath::quaternion::display::render;
use owmath::quaternion::traits::Sqrt;
use owmath::quaternion::Quaternion;
use std::fmt::{Display, Formatter};
use std::ops::{Add, Div, Mul, Neg, Sub};

/// Double-precision scalar.
#[derive(Debug, Copy, Clone, PartialEq)]
struct F64(f64);

impl Neg for F64 {
    type Output = F64;
    fn neg(self) -> F64 {
        F64(-self.0)
    }
}

impl Add for F64 {
    type Output = F64;
    fn add(self, rhs: F64) -> F64 {
        F64(self.0 + rhs.0)
    }
}

impl Sub for F64 {
    type Output = F64;
    fn sub(self, rhs: F64) -> F64 {
        F64(self.0 - rhs.0)
    }
}

impl Mul for F64 {
    type Output = F64;
    fn mul(self, rhs: F64) -> F64 {
        F64(self.0 * rhs.0)
    }
}

impl Div for F64 {
    type Output = F64;
    fn div(self, rhs: F64) -> F64 {
        F64(self.0 / rhs.0)
    }
}

impl Sqrt for F64 {
    fn sqrt(self) -> F64 {
        F64(self.0.sqrt())
    }
}

impl Display for F64 {
    fn fmt(&self, f: &mut Formatter<'_>) -> std::fmt::Result {
        Display::fmt(&self.0, f)
    }
}

/// A scalar of a user's own: whole numbers, with the root rounded down.
#[derive(Debug, Copy, Clone, PartialEq)]
struct Whole(i64);

impl Neg for Whole {
    type Output = Whole;
    fn neg(self) -> Whole {
        Whole(-self.0)
    }
}

impl Add for Whole {
    type Output = Whole;
    fn add(self, rhs: Whole) -> Whole {
        Whole(self.0 + rhs.0)
    }
}

impl Sub for Whole {
    type Output = Whole;
    fn sub(self, rhs: Whole) -> Whole {
        Whole(self.0 - rhs.0)
    }
}

impl Mul for Whole {
    type Output = Whole;
    fn mul(self, rhs: Whole) -> Whole {
        Whole(self.0 * rhs.0)
    }
}

impl Div for Whole {
    type Output = Whole;
    fn div(self, rhs: Whole) -> Whole {
        Whole(self.0 / rhs.0)
    }
}

impl Sqrt for Whole {
    fn sqrt(self) -> Whole {
        let mut root: i64 = 0;
        while (root + 1) * (root + 1) <= self.0 {
            root += 1;
        }
        Whole(root)
    }
}

impl Display for Whole {
    fn fmt(&self, f: &mut Formatter<'_>) -> std::fmt::Result {
        Display::fmt(&self.0, f)
    }
}

fn q(r: f64, i: f64, j: f64, k: f64) -> Quaternion<F64> {
    Quaternion::new(F64(r), F64(i), F64(j), F64(k))
}

fn w(r: i64, i: i64, j: i64, k: i64) -> Quaternion<Whole> {
    Quaternion::new(Whole(r), Whole(i), Whole(j), Whole(k))
}

#[test]
fn new_stores_components_verbatim() {
    let a = q(1.5, -2.5, 0.0, f64::INFINITY);
    assert_eq!(a.r, F64(1.5));
    assert_eq!(a.i, F64(-2.5));
    assert_eq!(a.j, F64(0.0));
    assert_eq!(a.k, F64(f64::INFINITY));
}

#[test]
fn quaternion_plus_its_negation_is_zero() {
    let a = q(1.0, -2.0, 3.5, 4.25);
    assert_eq!(a + (-a), q(0.0, 0.0, 0.0, 0.0));
    let b = w(7, -8, 9, 0);
    assert_eq!(b + (-b), w(0, 0, 0, 0));
}

#[test]
fn quaternion_plus_its_negation_is_not_zero_at_infinity() {
    let a = q(f64::INFINITY, 1.0, 2.0, 3.0);
    let sum = a + (-a);
    assert!(sum.r.0.is_nan());
    assert_ne!(sum, q(0.0, 0.0, 0.0, 0.0));
}

#[test]
fn negation_twice_gives_the_quaternion_back() {
    let a = q(1.0, -2.0, 3.5, 0.0);
    assert_eq!(-(-a), a);
    assert_eq!(-a, q(-1.0, 2.0, -3.5, -0.0));
    let b = w(7, -8, 9, 0);
    assert_eq!(-(-b), b);
}

#[test]
fn subtraction_is_addition_of_the_negation() {
    let a = q(1.0, 2.0, 3.0, -4.0);
    let b = q(1.1, 1.2, -1.9, -1.9);
    assert_eq!(a - b, a + (-b));
    let c = w(1, 2, 3, -4);
    let d = w(10, -20, 30, 40);
    assert_eq!(c - d, c + (-d));
    assert_eq!(c - d, w(-9, 22, -27, -44));
}

#[test]
fn scalar_on_the_left_is_scalar_on_the_right() {
    let a = q(1.0, 2.0, 3.0, -4.0);
    assert_eq!(scale(F64(2.5), a), a * F64(2.5));
    assert_eq!(scale(F64(2.5), a), q(2.5, 5.0, 7.5, -10.0));
    let b = w(1, 2, 3, -4);
    assert_eq!(scale(Whole(-3), b), b * Whole(-3));
    assert_eq!(scale(Whole(-3), b), w(-3, -6, -9, 12));
}

#[test]
fn hamilton_product_does_not_commute() {
    let a = q(1.0, 2.0, 3.0, 4.0);
    let b = q(2.0, 3.0, 4.0, 5.0);
    assert_eq!(a * b, q(-36.0, 6.0, 12.0, 12.0));
    assert_eq!(b * a, q(-36.0, 8.0, 8.0, 14.0));
    assert_ne!(a * b, b * a);
}

#[test]
fn hamilton_product_of_the_units() {
    let one = w(1, 0, 0, 0);
    let i = w(0, 1, 0, 0);
    let j = w(0, 0, 1, 0);
    let k = w(0, 0, 0, 1);
    assert_eq!(i * i, -one);
    assert_eq!(j * j, -one);
    assert_eq!(k * k, -one);
    assert_eq!(i * j * k, -one);
    assert_eq!(i * j, k);
    assert_eq!(j * i, -k);
    assert_eq!(j * k, i);
    assert_eq!(k * j, -i);
    assert_eq!(k * i, j);
    assert_eq!(i * k, -j);
    assert_eq!(one * k, k);
    assert_eq!(k * one, k);
}

#[test]
fn hamilton_product_with_each_term_apart() {
    let a = w(2, 3, 5, 7);
    let b = w(11, 13, 17, 19);
    // r = 2*11 - 3*13 - 5*17 - 7*19
    // i = 2*13 + 3*11 + 5*19 - 7*17
    // j = 2*17 - 3*19 + 5*11 + 7*13
    // k = 2*19 + 3*17 - 5*13 + 7*11
    assert_eq!(a * b, w(-235, 35, 123, 101));
}

#[test]
fn conjugate_twice_gives_the_quaternion_back() {
    let a = q(1.2, 2.0, -3.0, 0.0);
    assert_eq!(a.conjugate(), q(1.2, -2.0, 3.0, -0.0));
    assert_eq!(a.conjugate().conjugate(), a);
    let b = w(1, 2, -3, 4);
    assert_eq!(b.conjugate(), w(1, -2, 3, -4));
    assert_eq!(b.conjugate().conjugate(), b);
}

#[test]
fn inverse_is_conjugate_over_squared_norm() {
    let a = q(1.0, 2.0, 3.0, 4.0);
    let n = 30.0;
    assert_eq!(a.inverse(), q(1.0 / n, -2.0 / n, -3.0 / n, -4.0 / n));
    let b = w(0, 0, 6, 0);
    assert_eq!(b.inverse(), w(0, 0, 0, 0));
    let c = w(1, -1, 1, -1);
    assert_eq!(c.inverse(), w(0, 0, 0, 0));
    let d = w(-1, 0, 0, 0);
    assert_eq!(d.inverse(), w(-1, 0, 0, 0));
}

#[test]
fn inverse_law_within_tolerance() {
    let b = q(1.0, 2.0, 3.0, 4.0);
    assert!((q(1.0, 0.0, 0.0, 0.0) - b.inverse() * b).norm().0 < 0.00000000000001);
    assert!((b - b.inverse().inverse()).norm().0 < 0.00000000000001);
}

#[test]
fn inverse_of_zero_is_left_to_the_scalar() {
    let z = q(0.0, 0.0, 0.0, 0.0).inverse();
    assert!(z.r.0.is_nan());
    assert!(z.i.0.is_nan());
    assert!(z.j.0.is_nan());
    assert!(z.k.0.is_nan());
}

#[test]
fn norm_is_exact_where_the_sum_is_a_square() {
    assert_eq!(q(1.0, -1.0, 3.0, 5.0).norm(), F64(6.0));
    assert_ne!(q(1.1, -1.0, 3.0, 5.0).norm(), F64(6.0));
    assert_eq!(q(0.0, 0.0, 0.0, 0.0).norm(), F64(0.0));
    assert_eq!(q(0.0, 3.0, 0.0, -4.0).norm(), F64(5.0));
    assert_eq!(w(1, -1, 3, 5).norm(), Whole(6));
    assert_eq!(w(1, 1, 1, 2).norm(), Whole(2));
}

#[test]
fn norm_of_not_a_number_is_left_to_the_scalar() {
    assert!(q(f64::NAN, 0.0, 0.0, 0.0).norm().0.is_nan());
    assert_eq!(q(f64::INFINITY, 0.0, 0.0, 0.0).norm(), F64(f64::INFINITY));
}

#[test]
fn square_root_of_a_negative_is_left_to_the_scalar() {
    assert!(Sqrt::sqrt(F64(-4.0)).0.is_nan());
    assert_eq!(Sqrt::sqrt(Whole(-4)), Whole(0));
    assert_eq!(Sqrt::sqrt(Whole(17)), Whole(4));
}

#[test]
fn equality_fails_on_any_single_component() {
    let a = w(1, 2, 3, 4);
    assert!(a == w(1, 2, 3, 4));
    assert!(a != w(0, 2, 3, 4));
    assert!(a != w(1, 0, 3, 4));
    assert!(a != w(1, 2, 0, 4));
    assert!(a != w(1, 2, 3, 0));
    assert!(q(1.0, 2.0, 3.0, 4.0) != q(1.0000000000000002, 2.0, 3.0, 4.0));
}

#[test]
fn equality_is_the_scalars_own() {
    let a = q(f64::NAN, 0.0, 0.0, 0.0);
    assert!(a != a);
    assert!(q(0.0, 0.0, 0.0, 0.0) == q(-0.0, 0.0, -0.0, 0.0));
}

#[test]
fn tuple_and_new_give_the_same_quaternion() {
    let a: Quaternion<Whole> = Quaternion::from((Whole(1), Whole(2), Whole(3), Whole(4)));
    assert_eq!(a, Quaternion::new(Whole(1), Whole(2), Whole(3), Whole(4)));
    assert_eq!(a.r, Whole(1));
    assert_eq!(a.i, Whole(2));
    assert_eq!(a.j, Whole(3));
    assert_eq!(a.k, Whole(4));
}

#[test]
fn rendering_of_a_quaternion() {
    assert_eq!(q(1.2, 2.0, 3.0, 4.0).to_string(), "(1.2, 2, 3, 4)");
    assert_eq!(q(-0.5, 0.0, 1e21, f64::NAN).to_string(), "(-0.5, 0, 1000000000000000000000, NaN)");
    assert_eq!(w(-1, 20, -300, 4000).to_string(), "(-1, 20, -300, 4000)");
}

#[test]
fn rendering_of_four_texts() {
    assert_eq!(render("1.2", "2", "3", "4"), "(1.2, 2, 3, 4)");
    assert_eq!(render("", "", "", ""), "(, , , )");
    assert_eq!(render("a", "bc", "def", "ghij"), "(a, bc, def, ghij)");
}

#[test]
fn operands_are_left_as_they_were() {
    let a = q(1.0, 2.0, 3.0, 4.0);
    let b = q(2.0, 3.0, 4.0, 5.0);
    let _ = a + b;
    let _ = a - b;
    let _ = a * b;
    let _ = a * F64(2.0);
    let _ = -a;
    let _ = a.conjugate();
    let _ = a.inverse();
    let _ = a.norm();
    assert_eq!(a, q(1.0, 2.0, 3.0, 4.0));
    assert_eq!(b, q(2.0, 3.0, 4.0, 5.0));
}
