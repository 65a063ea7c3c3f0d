//! The scalar abstraction and the arithmetic shapes that the contracts share.
use std::cmp::Ordering;
use std::ops::{Add, Div, Mul, Neg, Sub};
use vstd::prelude::*;
use vstd::std_specs::cmp::PartialOrdSpec;
use vstd::std_specs::convert::FromSpec;
use vstd::std_specs::ops::{AddSpec, DivSpec, MulSpec, NegSpec, SubSpec};

verus! {

/// A number the geometry can be built on: copyable, comparable, closed under
/// the arithmetic operators, and reachable from the small integers.
pub trait Scalar: Copy + PartialOrd + From<i8> + Add<Output = Self> + Sub<Output = Self> + Mul<
    Output = Self,
> + Div<Output = Self> + Neg<Output = Self> {

}

impl<
    T: Copy + PartialOrd + From<i8> + Add<Output = T> + Sub<Output = T> + Mul<Output = T> + Div<
        Output = T,
    > + Neg<Output = T>,
> Scalar for T {

}

/// Each operator of `T` returns exactly what its specification names.
pub open spec fn lawful<T: Scalar>() -> bool {
    &&& T::obeys_add_spec()
    &&& T::obeys_sub_spec()
    &&& T::obeys_mul_spec()
    &&& T::obeys_div_spec()
    &&& T::obeys_neg_spec()
    &&& T::obeys_partial_cmp_spec()
    &&& T::obeys_from_spec()
}

/// The scalar that stands for the integer `k`.
pub open spec fn small<T: Scalar>(k: i8) -> T {
    T::from_spec(k)
}

pub open spec fn zero<T: Scalar>() -> T {
    small::<T>(0)
}

pub open spec fn one<T: Scalar>() -> T {
    small::<T>(1)
}

pub open spec fn two<T: Scalar>() -> T {
    small::<T>(2)
}

/// `a < b` as `T` orders its values; false where the two do not compare.
pub open spec fn lt<T: Scalar>(a: T, b: T) -> bool {
    a.partial_cmp_spec(&b) == Some(Ordering::Less)
}

/// `a > b` as `T` orders its values; false where the two do not compare.
pub open spec fn gt<T: Scalar>(a: T, b: T) -> bool {
    a.partial_cmp_spec(&b) == Some(Ordering::Greater)
}

/// `a <= b` as `T` orders its values; false where the two do not compare.
pub open spec fn le<T: Scalar>(a: T, b: T) -> bool {
    a.partial_cmp_spec(&b) matches Some(Ordering::Less | Ordering::Equal)
}

/// `a >= b` as `T` orders its values; false where the two do not compare.
pub open spec fn ge<T: Scalar>(a: T, b: T) -> bool {
    a.partial_cmp_spec(&b) matches Some(Ordering::Greater | Ordering::Equal)
}

/// `|d| > tolerance`, told without an absolute value: `d` or its negation
/// lies above the tolerance.
pub open spec fn exceeds<T: Scalar>(d: T, tolerance: T) -> bool {
    gt(d, tolerance) || gt(d.neg_spec(), tolerance)
}

/// `|d| < bound`: both `d` and its negation lie below the bound.
pub open spec fn within<T: Scalar>(d: T, bound: T) -> bool {
    lt(d, bound) && lt(d.neg_spec(), bound)
}

/// The absolute value as the order tells it: the negation of a value below
/// zero, any other value as it is.
pub open spec fn magnitude<T: Scalar>(x: T) -> T {
    if lt(x, zero::<T>()) {
        x.neg_spec()
    } else {
        x
    }
}

/// `a * x + y`.
pub open spec fn scale_add<T: Scalar>(a: T, x: T, y: T) -> T {
    a.mul_spec(x).add_spec(y)
}

/// The operators accept every step of `a * x + y`.
pub open spec fn scale_add_req<T: Scalar>(a: T, x: T, y: T) -> bool {
    a.mul_req(x) && a.mul_spec(x).add_req(y)
}

/// `a * b + c * d`.
pub open spec fn mul_add<T: Scalar>(a: T, b: T, c: T, d: T) -> T {
    a.mul_spec(b).add_spec(c.mul_spec(d))
}

/// The operators accept every step of `a * b + c * d`.
pub open spec fn mul_add_req<T: Scalar>(a: T, b: T, c: T, d: T) -> bool {
    &&& a.mul_req(b)
    &&& c.mul_req(d)
    &&& a.mul_spec(b).add_req(c.mul_spec(d))
}

/// `a * b + c * d + e * f`, summed from the left.
pub open spec fn mul_add3<T: Scalar>(a: T, b: T, c: T, d: T, e: T, f: T) -> T {
    mul_add(a, b, c, d).add_spec(e.mul_spec(f))
}

/// The operators accept every step of `a * b + c * d + e * f`.
pub open spec fn mul_add3_req<T: Scalar>(a: T, b: T, c: T, d: T, e: T, f: T) -> bool {
    &&& mul_add_req(a, b, c, d)
    &&& e.mul_req(f)
    &&& mul_add(a, b, c, d).add_req(e.mul_spec(f))
}

/// `a * b - c * d`.
pub open spec fn mul_sub<T: Scalar>(a: T, b: T, c: T, d: T) -> T {
    a.mul_spec(b).sub_spec(c.mul_spec(d))
}

/// The operators accept every step of `a * b - c * d`.
pub open spec fn mul_sub_req<T: Scalar>(a: T, b: T, c: T, d: T) -> bool {
    &&& a.mul_req(b)
    &&& c.mul_req(d)
    &&& a.mul_spec(b).sub_req(c.mul_spec(d))
}

/// Whether `|d| > tolerance`.
pub fn is_beyond<T: Scalar>(d: T, tolerance: T) -> (r: bool)
    requires
        lawful::<T>(),
        d.neg_req(),
    ensures
        r == exceeds(d, tolerance),
{
    d > tolerance || d.neg() > tolerance
}

/// Whether `|d| < bound`.
pub fn is_within<T: Scalar>(d: T, bound: T) -> (r: bool)
    requires
        lawful::<T>(),
        d.neg_req(),
    ensures
        r == within(d, bound),
{
    d < bound && d.neg() < bound
}

/// The absolute value of `x`.
pub fn abs<T: Scalar>(x: T) -> (r: T)
    requires
        lawful::<T>(),
        x.neg_req(),
    ensures
        r == magnitude(x),
{
    if x < T::from(0i8) {
        x.neg()
    } else {
        x
    }
}

} // verus!
