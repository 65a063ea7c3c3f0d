//! A pair of coordinates.
use crate::matrix2d::{Mat2, Matrix2d};
use crate::scalar::{
    abs, exceeds, gt, is_beyond, lawful, magnitude, mul_add, mul_add_req, mul_sub, mul_sub_req,
    scale_add, scale_add_req, zero, Scalar,
};
use crate::text::{lists, push_list};
use std::ops::{
    Add, AddAssign, Div, DivAssign, Index, IndexMut, Mul, MulAssign, Neg, Sub, SubAssign,
};
use vstd::prelude::*;
use vstd::std_specs::ops::{AddSpec, DivSpec, MulSpec, NegSpec, SubSpec};
use vstd::string::StringExecFns;

verus! {

/// Two coordinates with no invariant between them.
#[derive(Debug, Clone, Copy, PartialEq)]
pub struct XY<T> {
    pub x: T,
    pub y: T,
}

impl<T: Scalar> XY<T> {
    /// The pair `(0, 0)`.
    pub open spec fn origin() -> Self {
        XY { x: zero::<T>(), y: zero::<T>() }
    }

    /// Coordinate `i`: `x` for 0, `y` otherwise.
    pub open spec fn at(self, i: int) -> T {
        if i == 0 {
            self.x
        } else {
            self.y
        }
    }

    /// The pair with coordinate `i` replaced by `v`.
    pub open spec fn with(self, i: int, v: T) -> Self {
        if i == 0 {
            XY { x: v, y: self.y }
        } else {
            XY { x: self.x, y: v }
        }
    }

    /// What `coord` reads: the two coordinates in order.
    pub open spec fn coord_spec(self) -> (T, T) {
        (self.x, self.y)
    }

    /// `x * other.x + y * other.y`.
    pub open spec fn dot_spec(self, other: Self) -> T {
        mul_add(self.x, other.x, self.y, other.y)
    }

    pub open spec fn dot_req(self, other: Self) -> bool {
        mul_add_req(self.x, other.x, self.y, other.y)
    }

    /// `x * other.y - y * other.x`.
    pub open spec fn cross_spec(self, other: Self) -> T {
        mul_sub(self.x, other.y, self.y, other.x)
    }

    pub open spec fn cross_req(self, other: Self) -> bool {
        mul_sub_req(self.x, other.y, self.y, other.x)
    }

    /// The cross product multiplied by itself.
    pub open spec fn square_cross_spec(self, other: Self) -> T {
        self.cross_spec(other).mul_spec(self.cross_spec(other))
    }

    pub open spec fn square_cross_req(self, other: Self) -> bool {
        self.cross_req(other) && self.cross_spec(other).mul_req(self.cross_spec(other))
    }

    /// Both coordinates negated.
    pub open spec fn reverse_spec(self) -> Self {
        XY { x: self.x.neg_spec(), y: self.y.neg_spec() }
    }

    pub open spec fn reverse_req(self) -> bool {
        self.x.neg_req() && self.y.neg_req()
    }

    /// Both coordinates divided by `d`.
    pub open spec fn divided_spec(self, d: T) -> Self {
        XY { x: self.x.div_spec(d), y: self.y.div_spec(d) }
    }

    pub open spec fn divided_req(self, d: T) -> bool {
        self.x.div_req(d) && self.y.div_req(d)
    }

    /// Neither coordinate differs from `other`'s by more than `tolerance`.
    pub open spec fn is_equal_spec(self, other: Self, tolerance: T) -> bool {
        &&& !exceeds(self.x.sub_spec(other.x), tolerance)
        &&& !exceeds(self.y.sub_spec(other.y), tolerance)
    }

    /// The operators accept each step of the comparison, as far as it goes:
    /// `y` is looked at only where `x` is within the tolerance.
    pub open spec fn is_equal_req(self, other: Self, tolerance: T) -> bool {
        &&& self.x.sub_req(other.x)
        &&& self.x.sub_spec(other.x).neg_req()
        &&& !exceeds(self.x.sub_spec(other.x), tolerance) ==> {
            &&& self.y.sub_req(other.y)
            &&& self.y.sub_spec(other.y).neg_req()
        }
    }

    /// `a1 * xy1 + a2 * xy2`.
    pub open spec fn linear_form_2(a1: T, xy1: Self, a2: T, xy2: Self) -> Self {
        XY { x: mul_add(a1, xy1.x, a2, xy2.x), y: mul_add(a1, xy1.y, a2, xy2.y) }
    }

    pub open spec fn linear_form_2_req(a1: T, xy1: Self, a2: T, xy2: Self) -> bool {
        mul_add_req(a1, xy1.x, a2, xy2.x) && mul_add_req(a1, xy1.y, a2, xy2.y)
    }

    /// `a1 * xy1 + xy2`.
    pub open spec fn linear_form_2a(a1: T, xy1: Self, xy2: Self) -> Self {
        XY { x: scale_add(a1, xy1.x, xy2.x), y: scale_add(a1, xy1.y, xy2.y) }
    }

    pub open spec fn linear_form_2a_req(a1: T, xy1: Self, xy2: Self) -> bool {
        scale_add_req(a1, xy1.x, xy2.x) && scale_add_req(a1, xy1.y, xy2.y)
    }

    /// `xy1 + xy2`.
    pub open spec fn linear_form_2b(xy1: Self, xy2: Self) -> Self {
        XY { x: xy1.x.add_spec(xy2.x), y: xy1.y.add_spec(xy2.y) }
    }

    pub open spec fn linear_form_2b_req(xy1: Self, xy2: Self) -> bool {
        xy1.x.add_req(xy2.x) && xy1.y.add_req(xy2.y)
    }

    /// `a1 * xy1 + a2 * xy2 + xy3`.
    pub open spec fn linear_form_3(a1: T, xy1: Self, a2: T, xy2: Self, xy3: Self) -> Self {
        XY {
            x: mul_add(a1, xy1.x, a2, xy2.x).add_spec(xy3.x),
            y: mul_add(a1, xy1.y, a2, xy2.y).add_spec(xy3.y),
        }
    }

    pub open spec fn linear_form_3_req(a1: T, xy1: Self, a2: T, xy2: Self, xy3: Self) -> bool {
        &&& mul_add_req(a1, xy1.x, a2, xy2.x)
        &&& mul_add_req(a1, xy1.y, a2, xy2.y)
        &&& mul_add(a1, xy1.x, a2, xy2.x).add_req(xy3.x)
        &&& mul_add(a1, xy1.y, a2, xy2.y).add_req(xy3.y)
    }

    /// The pair as a row multiplied into the columns of `m`:
    /// `(a * x + b * y, c * x + d * y)`.
    pub open spec fn transformed_spec(self, m: Mat2<T>) -> Self {
        XY { x: mul_add(m.a, self.x, m.b, self.y), y: mul_add(m.c, self.x, m.d, self.y) }
    }

    pub open spec fn transformed_req(self, m: Mat2<T>) -> bool {
        mul_add_req(m.a, self.x, m.b, self.y) && mul_add_req(m.c, self.x, m.d, self.y)
    }

    /// The pair `(0, 0)`.
    pub fn new() -> (r: Self)
        ensures
            lawful::<T>() ==> r == Self::origin(),
    {
        XY { x: T::from(0i8), y: T::from(0i8) }
    }

    pub fn from_coordinates(x: T, y: T) -> (r: Self)
        ensures
            r == (XY { x, y }),
    {
        XY { x, y }
    }

    pub fn from_coords(x: T, y: T) -> (r: Self)
        ensures
            r == (XY { x, y }),
    {
        XY { x, y }
    }

    pub fn coord(&self) -> (r: (T, T))
        ensures
            r == self.coord_spec(),
    {
        (self.x, self.y)
    }

    pub fn get_coords(&self) -> (r: (T, T))
        ensures
            r == self.coord_spec(),
    {
        (self.x, self.y)
    }

    pub fn set_coord(&mut self, x: T, y: T)
        ensures
            *final(self) == (XY { x, y }),
    {
        self.x = x;
        self.y = y;
    }

    pub fn set_coords(&mut self, x: T, y: T)
        ensures
            *final(self) == (XY { x, y }),
    {
        self.x = x;
        self.y = y;
    }

    pub fn get_x(&self) -> (r: T)
        ensures
            r == self.x,
    {
        self.x
    }

    pub fn set_x(&mut self, x: T)
        ensures
            *final(self) == (XY { x, y: old(self).y }),
    {
        self.x = x;
    }

    pub fn get_y(&self) -> (r: T)
        ensures
            r == self.y,
    {
        self.y
    }

    pub fn set_y(&mut self, y: T)
        ensures
            *final(self) == (XY { x: old(self).x, y }),
    {
        self.y = y;
    }

    /// The squared distance from the origin, `x * x + y * y`.
    pub fn square_modulus(&self) -> (r: T)
        requires
            lawful::<T>(),
            self.dot_req(*self),
        ensures
            r == self.dot_spec(*self),
    {
        self.x * self.x + self.y * self.y
    }

    /// The squared distance from the origin, `x * x + y * y`.
    pub fn squared_length(&self) -> (r: T)
        requires
            lawful::<T>(),
            self.dot_req(*self),
        ensures
            r == self.dot_spec(*self),
    {
        self.x * self.x + self.y * self.y
    }

    /// Whether each coordinate lies within `tolerance` of `other`'s.
    pub fn is_equal(&self, other: &Self, tolerance: T) -> (r: bool)
        requires
            lawful::<T>(),
            self.is_equal_req(*other, tolerance),
        ensures
            r == self.is_equal_spec(*other, tolerance),
    {
        let val = self.x - other.x;
        if is_beyond(val, tolerance) {
            return false;
        }
        let val = self.y - other.y;
        if is_beyond(val, tolerance) {
            return false;
        }
        true
    }

    /// The signed area spanned with `other`, `x * other.y - y * other.x`.
    pub fn cross(&self, other: &Self) -> (r: T)
        requires
            lawful::<T>(),
            self.cross_req(*other),
        ensures
            r == self.cross_spec(*other),
    {
        self.x * other.y - self.y * other.x
    }

    /// The area spanned with `other`, without its sign.
    pub fn cross_abs(&self, other: &Self) -> (r: T)
        requires
            lawful::<T>(),
            self.cross_req(*other),
            self.cross_spec(*other).neg_req(),
        ensures
            r == magnitude(self.cross_spec(*other)),
    {
        abs(self.cross(other))
    }

    /// The square of the cross product with `other`.
    pub fn square_cross(&self, other: &Self) -> (r: T)
        requires
            lawful::<T>(),
            self.square_cross_req(*other),
        ensures
            r == self.square_cross_spec(*other),
    {
        let c = self.cross(other);
        c * c
    }

    pub fn dot(&self, other: &Self) -> (r: T)
        requires
            lawful::<T>(),
            self.dot_req(*other),
        ensures
            r == self.dot_spec(*other),
    {
        self.x * other.x + self.y * other.y
    }

    /// Divides both coordinates by `modulus`, the length of the vector as the
    /// caller measured it. A vector without a positive length has no direction.
    pub fn normalize(&mut self, modulus: T)
        requires
            lawful::<T>(),
            gt(modulus, zero::<T>()),
            old(self).divided_req(modulus),
        ensures
            *final(self) == old(self).divided_spec(modulus),
    {
        self.x = self.x / modulus;
        self.y = self.y / modulus;
    }

    pub fn normalize_new(&self, modulus: T) -> (r: Self)
        requires
            lawful::<T>(),
            gt(modulus, zero::<T>()),
            self.divided_req(modulus),
        ensures
            r == self.divided_spec(modulus),
    {
        let mut result = *self;
        result.normalize(modulus);
        result
    }

    pub fn reverse(&mut self)
        requires
            lawful::<T>(),
            old(self).reverse_req(),
        ensures
            *final(self) == old(self).reverse_spec(),
    {
        self.x = self.x.neg();
        self.y = self.y.neg();
    }

    pub fn reverse_new(&self) -> (r: Self)
        requires
            lawful::<T>(),
            self.reverse_req(),
        ensures
            r == self.reverse_spec(),
    {
        let mut result = *self;
        result.reverse();
        result
    }

    /// Sets the pair to `a1 * xy1 + a2 * xy2`.
    pub fn set_linear_form_2(&mut self, a1: T, xy1: &XY<T>, a2: T, xy2: &XY<T>)
        requires
            lawful::<T>(),
            Self::linear_form_2_req(a1, *xy1, a2, *xy2),
        ensures
            *final(self) == Self::linear_form_2(a1, *xy1, a2, *xy2),
    {
        self.x = a1 * xy1.x + a2 * xy2.x;
        self.y = a1 * xy1.y + a2 * xy2.y;
    }

    /// Sets the pair to `a1 * xy1 + xy2`.
    pub fn set_linear_form_2a(&mut self, a1: T, xy1: &XY<T>, xy2: &XY<T>)
        requires
            lawful::<T>(),
            Self::linear_form_2a_req(a1, *xy1, *xy2),
        ensures
            *final(self) == Self::linear_form_2a(a1, *xy1, *xy2),
    {
        self.x = a1 * xy1.x + xy2.x;
        self.y = a1 * xy1.y + xy2.y;
    }

    /// Sets the pair to `xy1 + xy2`.
    pub fn set_linear_form_2b(&mut self, xy1: &XY<T>, xy2: &XY<T>)
        requires
            lawful::<T>(),
            Self::linear_form_2b_req(*xy1, *xy2),
        ensures
            *final(self) == Self::linear_form_2b(*xy1, *xy2),
    {
        self.x = xy1.x + xy2.x;
        self.y = xy1.y + xy2.y;
    }

    /// Sets the pair to `a1 * xy1 + a2 * xy2 + xy3`.
    pub fn set_linear_form_3(&mut self, a1: T, xy1: &XY<T>, a2: T, xy2: &XY<T>, xy3: &XY<T>)
        requires
            lawful::<T>(),
            Self::linear_form_3_req(a1, *xy1, a2, *xy2, *xy3),
        ensures
            *final(self) == Self::linear_form_3(a1, *xy1, a2, *xy2, *xy3),
    {
        self.x = a1 * xy1.x + a2 * xy2.x + xy3.x;
        self.y = a1 * xy1.y + a2 * xy2.y + xy3.y;
    }
}

/// Building a pair from two coordinates and reading its coordinates gives
/// the two back, in order.
pub proof fn lemma_coord_round_trip<T: Scalar>(x: T, y: T)
    ensures
        (XY { x, y }).coord_spec() == (x, y),
{
}

impl<T: Scalar> From<(T, T)> for XY<T> {
    fn from(coords: (T, T)) -> (r: Self)
        ensures
            r == (XY { x: coords.0, y: coords.1 }),
    {
        XY { x: coords.0, y: coords.1 }
    }
}

impl<T: Scalar> vstd::std_specs::convert::FromSpecImpl<(T, T)> for XY<T> {
    open spec fn obeys_from_spec() -> bool {
        true
    }

    open spec fn from_spec(coords: (T, T)) -> Self {
        XY { x: coords.0, y: coords.1 }
    }
}

impl<T: Scalar> From<[T; 2]> for XY<T> {
    fn from(coords: [T; 2]) -> (r: Self)
        ensures
            r == (XY { x: coords[0], y: coords[1] }),
    {
        XY { x: coords[0], y: coords[1] }
    }
}

impl<T: Scalar> vstd::std_specs::convert::FromSpecImpl<[T; 2]> for XY<T> {
    open spec fn obeys_from_spec() -> bool {
        true
    }

    open spec fn from_spec(coords: [T; 2]) -> Self {
        XY { x: coords[0], y: coords[1] }
    }
}

/// Coordinate `0` is `x`, coordinate `1` is `y`.
impl<T: Scalar> Index<usize> for XY<T> {
    type Output = T;

    fn index(&self, index: usize) -> (r: &T)
        ensures
            *r == self.at(index as int),
    {
        match index {
            0 => &self.x,
            1 => &self.y,
            _ => unreached(),
        }
    }
}

impl<T: Scalar> vstd::std_specs::core::IndexSpecImpl<usize> for XY<T> {
    open spec fn index_req(&self, index: &usize) -> bool {
        *index < 2
    }
}

impl<T: Scalar> IndexMut<usize> for XY<T> {
    fn index_mut(&mut self, index: usize) -> (r: &mut T)
        requires
            index < 2,
        ensures
            *r == old(self).at(index as int),
            *final(self) == old(self).with(index as int, *final(r)),
    {
        match index {
            0 => &mut self.x,
            1 => &mut self.y,
            _ => unreached(),
        }
    }
}

/// The value with every component negated.
impl<T: Scalar> Neg for &XY<T> {
    type Output = XY<T>;

    fn neg(self) -> (r: XY<T>)
        ensures
            T::obeys_neg_spec() ==> r == (XY { x: self.x.neg_spec(), y: self.y.neg_spec() }),
    {
        XY { x: self.x.neg(), y: self.y.neg() }
    }
}

impl<T: Scalar> vstd::std_specs::ops::NegSpecImpl for &XY<T> {
    open spec fn obeys_neg_spec() -> bool {
        T::obeys_neg_spec()
    }

    open spec fn neg_req(self) -> bool {
        self.x.neg_req() && self.y.neg_req()
    }

    open spec fn neg_spec(self) -> XY<T> {
        XY { x: self.x.neg_spec(), y: self.y.neg_spec() }
    }
}

/// Component-wise sum with another value, in place.
impl<T: Scalar> AddAssign<&XY<T>> for XY<T> {
    fn add_assign(&mut self, other: &XY<T>)
        requires
            T::obeys_add_spec(),
            old(self).x.add_req(other.x),
            old(self).y.add_req(other.y),
        ensures
            *final(self) == (XY {
                x: old(self).x.add_spec(other.x),
                y: old(self).y.add_spec(other.y),
            }),
    {
        *self = XY { x: self.x + other.x, y: self.y + other.y };
    }
}

/// The sum of each component and a scalar, in place.
impl<T: Scalar> AddAssign<T> for XY<T> {
    fn add_assign(&mut self, other: T)
        requires
            T::obeys_add_spec(),
            old(self).x.add_req(other),
            old(self).y.add_req(other),
        ensures
            *final(self) == (XY { x: old(self).x.add_spec(other), y: old(self).y.add_spec(other) }),
    {
        *self = XY { x: self.x + other, y: self.y + other };
    }
}

/// Component-wise sum of two values.
impl<T: Scalar> Add<&XY<T>> for &XY<T> {
    type Output = XY<T>;

    fn add(self, other: &XY<T>) -> (r: XY<T>)
        ensures
            T::obeys_add_spec() ==> r == (XY {
                x: self.x.add_spec(other.x),
                y: self.y.add_spec(other.y),
            }),
    {
        XY { x: self.x + other.x, y: self.y + other.y }
    }
}

impl<T: Scalar> vstd::std_specs::ops::AddSpecImpl<&XY<T>> for &XY<T> {
    open spec fn obeys_add_spec() -> bool {
        T::obeys_add_spec()
    }

    open spec fn add_req(self, other: &XY<T>) -> bool {
        self.x.add_req(other.x) && self.y.add_req(other.y)
    }

    open spec fn add_spec(self, other: &XY<T>) -> XY<T> {
        XY { x: self.x.add_spec(other.x), y: self.y.add_spec(other.y) }
    }
}

/// The sum of each component and a scalar.
impl<T: Scalar> Add<T> for &XY<T> {
    type Output = XY<T>;

    fn add(self, other: T) -> (r: XY<T>)
        ensures
            T::obeys_add_spec() ==> r == (XY {
                x: self.x.add_spec(other),
                y: self.y.add_spec(other),
            }),
    {
        XY { x: self.x + other, y: self.y + other }
    }
}

impl<T: Scalar> vstd::std_specs::ops::AddSpecImpl<T> for &XY<T> {
    open spec fn obeys_add_spec() -> bool {
        T::obeys_add_spec()
    }

    open spec fn add_req(self, other: T) -> bool {
        self.x.add_req(other) && self.y.add_req(other)
    }

    open spec fn add_spec(self, other: T) -> XY<T> {
        XY { x: self.x.add_spec(other), y: self.y.add_spec(other) }
    }
}

/// The sum of each component and a scalar.
impl<T: Scalar> Add<T> for XY<T> {
    type Output = XY<T>;

    fn add(self, other: T) -> (r: XY<T>)
        ensures
            T::obeys_add_spec() ==> r == (XY {
                x: self.x.add_spec(other),
                y: self.y.add_spec(other),
            }),
    {
        XY { x: self.x + other, y: self.y + other }
    }
}

impl<T: Scalar> vstd::std_specs::ops::AddSpecImpl<T> for XY<T> {
    open spec fn obeys_add_spec() -> bool {
        T::obeys_add_spec()
    }

    open spec fn add_req(self, other: T) -> bool {
        self.x.add_req(other) && self.y.add_req(other)
    }

    open spec fn add_spec(self, other: T) -> XY<T> {
        XY { x: self.x.add_spec(other), y: self.y.add_spec(other) }
    }
}

/// Component-wise difference with another value, in place.
impl<T: Scalar> SubAssign<&XY<T>> for XY<T> {
    fn sub_assign(&mut self, other: &XY<T>)
        requires
            T::obeys_sub_spec(),
            old(self).x.sub_req(other.x),
            old(self).y.sub_req(other.y),
        ensures
            *final(self) == (XY {
                x: old(self).x.sub_spec(other.x),
                y: old(self).y.sub_spec(other.y),
            }),
    {
        *self = XY { x: self.x - other.x, y: self.y - other.y };
    }
}

/// The difference of each component and a scalar, in place.
impl<T: Scalar> SubAssign<T> for XY<T> {
    fn sub_assign(&mut self, other: T)
        requires
            T::obeys_sub_spec(),
            old(self).x.sub_req(other),
            old(self).y.sub_req(other),
        ensures
            *final(self) == (XY { x: old(self).x.sub_spec(other), y: old(self).y.sub_spec(other) }),
    {
        *self = XY { x: self.x - other, y: self.y - other };
    }
}

/// Component-wise difference of two values.
impl<T: Scalar> Sub<&XY<T>> for &XY<T> {
    type Output = XY<T>;

    fn sub(self, other: &XY<T>) -> (r: XY<T>)
        ensures
            T::obeys_sub_spec() ==> r == (XY {
                x: self.x.sub_spec(other.x),
                y: self.y.sub_spec(other.y),
            }),
    {
        XY { x: self.x - other.x, y: self.y - other.y }
    }
}

impl<T: Scalar> vstd::std_specs::ops::SubSpecImpl<&XY<T>> for &XY<T> {
    open spec fn obeys_sub_spec() -> bool {
        T::obeys_sub_spec()
    }

    open spec fn sub_req(self, other: &XY<T>) -> bool {
        self.x.sub_req(other.x) && self.y.sub_req(other.y)
    }

    open spec fn sub_spec(self, other: &XY<T>) -> XY<T> {
        XY { x: self.x.sub_spec(other.x), y: self.y.sub_spec(other.y) }
    }
}

/// The difference of each component and a scalar.
impl<T: Scalar> Sub<T> for &XY<T> {
    type Output = XY<T>;

    fn sub(self, other: T) -> (r: XY<T>)
        ensures
            T::obeys_sub_spec() ==> r == (XY {
                x: self.x.sub_spec(other),
                y: self.y.sub_spec(other),
            }),
    {
        XY { x: self.x - other, y: self.y - other }
    }
}

impl<T: Scalar> vstd::std_specs::ops::SubSpecImpl<T> for &XY<T> {
    open spec fn obeys_sub_spec() -> bool {
        T::obeys_sub_spec()
    }

    open spec fn sub_req(self, other: T) -> bool {
        self.x.sub_req(other) && self.y.sub_req(other)
    }

    open spec fn sub_spec(self, other: T) -> XY<T> {
        XY { x: self.x.sub_spec(other), y: self.y.sub_spec(other) }
    }
}

/// Component-wise quotient with another value, in place.
impl<T: Scalar> DivAssign<&XY<T>> for XY<T> {
    fn div_assign(&mut self, other: &XY<T>)
        requires
            T::obeys_div_spec(),
            old(self).x.div_req(other.x),
            old(self).y.div_req(other.y),
        ensures
            *final(self) == (XY {
                x: old(self).x.div_spec(other.x),
                y: old(self).y.div_spec(other.y),
            }),
    {
        *self = XY { x: self.x / other.x, y: self.y / other.y };
    }
}

/// The quotient of each component and a scalar, in place.
impl<T: Scalar> DivAssign<T> for XY<T> {
    fn div_assign(&mut self, other: T)
        requires
            T::obeys_div_spec(),
            old(self).x.div_req(other),
            old(self).y.div_req(other),
        ensures
            *final(self) == (XY { x: old(self).x.div_spec(other), y: old(self).y.div_spec(other) }),
    {
        *self = XY { x: self.x / other, y: self.y / other };
    }
}

/// Component-wise quotient of two values.
impl<T: Scalar> Div<&XY<T>> for &XY<T> {
    type Output = XY<T>;

    fn div(self, other: &XY<T>) -> (r: XY<T>)
        ensures
            T::obeys_div_spec() ==> r == (XY {
                x: self.x.div_spec(other.x),
                y: self.y.div_spec(other.y),
            }),
    {
        XY { x: self.x / other.x, y: self.y / other.y }
    }
}

impl<T: Scalar> vstd::std_specs::ops::DivSpecImpl<&XY<T>> for &XY<T> {
    open spec fn obeys_div_spec() -> bool {
        T::obeys_div_spec()
    }

    open spec fn div_req(self, other: &XY<T>) -> bool {
        self.x.div_req(other.x) && self.y.div_req(other.y)
    }

    open spec fn div_spec(self, other: &XY<T>) -> XY<T> {
        XY { x: self.x.div_spec(other.x), y: self.y.div_spec(other.y) }
    }
}

/// The quotient of each component and a scalar.
impl<T: Scalar> Div<T> for &XY<T> {
    type Output = XY<T>;

    fn div(self, other: T) -> (r: XY<T>)
        ensures
            T::obeys_div_spec() ==> r == (XY {
                x: self.x.div_spec(other),
                y: self.y.div_spec(other),
            }),
    {
        XY { x: self.x / other, y: self.y / other }
    }
}

impl<T: Scalar> vstd::std_specs::ops::DivSpecImpl<T> for &XY<T> {
    open spec fn obeys_div_spec() -> bool {
        T::obeys_div_spec()
    }

    open spec fn div_req(self, other: T) -> bool {
        self.x.div_req(other) && self.y.div_req(other)
    }

    open spec fn div_spec(self, other: T) -> XY<T> {
        XY { x: self.x.div_spec(other), y: self.y.div_spec(other) }
    }
}

/// Component-wise product with another value, in place.
impl<T: Scalar> MulAssign<&XY<T>> for XY<T> {
    fn mul_assign(&mut self, other: &XY<T>)
        requires
            T::obeys_mul_spec(),
            old(self).x.mul_req(other.x),
            old(self).y.mul_req(other.y),
        ensures
            *final(self) == (XY {
                x: old(self).x.mul_spec(other.x),
                y: old(self).y.mul_spec(other.y),
            }),
    {
        *self = XY { x: self.x * other.x, y: self.y * other.y };
    }
}

/// The product of each component and a scalar, in place.
impl<T: Scalar> MulAssign<T> for XY<T> {
    fn mul_assign(&mut self, other: T)
        requires
            T::obeys_mul_spec(),
            old(self).x.mul_req(other),
            old(self).y.mul_req(other),
        ensures
            *final(self) == (XY { x: old(self).x.mul_spec(other), y: old(self).y.mul_spec(other) }),
    {
        *self = XY { x: self.x * other, y: self.y * other };
    }
}

/// Component-wise product of two values.
impl<T: Scalar> Mul<&XY<T>> for &XY<T> {
    type Output = XY<T>;

    fn mul(self, other: &XY<T>) -> (r: XY<T>)
        ensures
            T::obeys_mul_spec() ==> r == (XY {
                x: self.x.mul_spec(other.x),
                y: self.y.mul_spec(other.y),
            }),
    {
        XY { x: self.x * other.x, y: self.y * other.y }
    }
}

impl<T: Scalar> vstd::std_specs::ops::MulSpecImpl<&XY<T>> for &XY<T> {
    open spec fn obeys_mul_spec() -> bool {
        T::obeys_mul_spec()
    }

    open spec fn mul_req(self, other: &XY<T>) -> bool {
        self.x.mul_req(other.x) && self.y.mul_req(other.y)
    }

    open spec fn mul_spec(self, other: &XY<T>) -> XY<T> {
        XY { x: self.x.mul_spec(other.x), y: self.y.mul_spec(other.y) }
    }
}

/// The product of each component and a scalar.
impl<T: Scalar> Mul<T> for &XY<T> {
    type Output = XY<T>;

    fn mul(self, other: T) -> (r: XY<T>)
        ensures
            T::obeys_mul_spec() ==> r == (XY {
                x: self.x.mul_spec(other),
                y: self.y.mul_spec(other),
            }),
    {
        XY { x: self.x * other, y: self.y * other }
    }
}

impl<T: Scalar> vstd::std_specs::ops::MulSpecImpl<T> for &XY<T> {
    open spec fn obeys_mul_spec() -> bool {
        T::obeys_mul_spec()
    }

    open spec fn mul_req(self, other: T) -> bool {
        self.x.mul_req(other) && self.y.mul_req(other)
    }

    open spec fn mul_spec(self, other: T) -> XY<T> {
        XY { x: self.x.mul_spec(other), y: self.y.mul_spec(other) }
    }
}

/// The pair multiplied by a matrix, in place: `(a * x + b * y, c * x + d * y)`.
impl<T: Scalar> MulAssign<&Matrix2d<T>> for XY<T> {
    fn mul_assign(&mut self, other: &Matrix2d<T>)
        requires
            lawful::<T>(),
            old(self).transformed_req(other@),
        ensures
            *final(self) == old(self).transformed_spec(other@),
    {
        let m = other.matrix();
        let x = self.x;
        let y = self.y;
        self.x = m[0][0] * x + m[0][1] * y;
        self.y = m[1][0] * x + m[1][1] * y;
    }
}

/// The pair multiplied by a matrix: `(a * x + b * y, c * x + d * y)`.
impl<T: Scalar> Mul<&Matrix2d<T>> for &XY<T> {
    type Output = XY<T>;

    fn mul(self, other: &Matrix2d<T>) -> (r: XY<T>)
        ensures
            lawful::<T>() ==> r == self.transformed_spec(other@),
    {
        let m = other.matrix();
        let x = self.x;
        let y = self.y;
        XY { x: m[0][0] * x + m[0][1] * y, y: m[1][0] * x + m[1][1] * y }
    }
}

impl<T: Scalar> vstd::std_specs::ops::MulSpecImpl<&Matrix2d<T>> for &XY<T> {
    open spec fn obeys_mul_spec() -> bool {
        lawful::<T>()
    }

    open spec fn mul_req(self, other: &Matrix2d<T>) -> bool {
        lawful::<T>() && self.transformed_req(other@)
    }

    open spec fn mul_spec(self, other: &Matrix2d<T>) -> XY<T> {
        self.transformed_spec(other@)
    }
}

impl<T: Scalar + std::fmt::Display> XY<T> {
    /// `s` is the text of the value: the name and the coordinates, as `XY(x, y)`.
    pub open spec fn is_text(self, s: Seq<char>) -> bool {
        exists|part0: Seq<char>|
            {
                &&& lists(seq![self.x, self.y], part0)
                &&& s == "XY("@ + part0 + ")"@
            }
    }

    pub fn to_string(&self) -> (r: String)
        ensures
            self.is_text(r@),
    {
        let mut s = String::from_str("XY(");
        let ghost b0 = s@;
        let a0 = [self.x, self.y];
        push_list(&mut s, a0.as_slice());
        let ghost part0 = choose|p: Seq<char>| lists(a0@, p) && s@ == b0 + p;
        assert(a0@ =~= seq![self.x, self.y]);
        s.append(")");
        assert(s@ =~= "XY("@ + part0 + ")"@);
        s
    }
}

} // verus!
