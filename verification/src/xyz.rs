//! A triple of coordinates.
use crate::scalar::{
    exceeds, gt, is_beyond, lawful, mul_add, mul_add3, mul_add3_req, mul_add_req, mul_sub,
    mul_sub_req, scale_add, scale_add_req, zero, Scalar,
};
use crate::text::{lists, push_list};
use std::ops::{
    Add, AddAssign, Div, DivAssign, Index, IndexMut, Mul, MulAssign, Neg, Sub, SubAssign,
};
use vstd::prelude::*;
use vstd::std_specs::ops::{AddSpec, DivSpec, MulSpec, NegSpec, SubSpec};
use vstd::string::StringExecFns;

verus! {

/// Three coordinates with no invariant between them.
#[derive(Debug, Clone, Copy, PartialEq)]
pub struct XYZ<T> {
    pub x: T,
    pub y: T,
    pub z: T,
}

impl<T: Scalar> XYZ<T> {
    /// The triple `(0, 0, 0)`.
    pub open spec fn origin() -> Self {
        XYZ { x: zero::<T>(), y: zero::<T>(), z: zero::<T>() }
    }

    /// Coordinate `i`: `x` for 0, `y` for 1, `z` otherwise.
    pub open spec fn at(self, i: int) -> T {
        if i == 0 {
            self.x
        } else if i == 1 {
            self.y
        } else {
            self.z
        }
    }

    /// The triple with coordinate `i` replaced by `v`.
    pub open spec fn with(self, i: int, v: T) -> Self {
        if i == 0 {
            XYZ { x: v, ..self }
        } else if i == 1 {
            XYZ { y: v, ..self }
        } else {
            XYZ { z: v, ..self }
        }
    }

    /// What `coord` reads: the three coordinates in order.
    pub open spec fn coord_spec(self) -> (T, T, T) {
        (self.x, self.y, self.z)
    }

    /// `x * other.x + y * other.y + z * other.z`.
    pub open spec fn dot_spec(self, other: Self) -> T {
        mul_add3(self.x, other.x, self.y, other.y, self.z, other.z)
    }

    pub open spec fn dot_req(self, other: Self) -> bool {
        mul_add3_req(self.x, other.x, self.y, other.y, self.z, other.z)
    }

    /// The vector product `self x other`.
    pub open spec fn cross_spec(self, other: Self) -> Self {
        XYZ {
            x: mul_sub(self.y, other.z, self.z, other.y),
            y: mul_sub(self.z, other.x, self.x, other.z),
            z: mul_sub(self.x, other.y, self.y, other.x),
        }
    }

    pub open spec fn cross_req(self, other: Self) -> bool {
        &&& mul_sub_req(self.y, other.z, self.z, other.y)
        &&& mul_sub_req(self.z, other.x, self.x, other.z)
        &&& mul_sub_req(self.x, other.y, self.y, other.x)
    }

    /// The squared length of `self x other`.
    pub open spec fn square_cross_spec(self, other: Self) -> T {
        self.cross_spec(other).dot_spec(self.cross_spec(other))
    }

    pub open spec fn square_cross_req(self, other: Self) -> bool {
        self.cross_req(other) && self.cross_spec(other).dot_req(self.cross_spec(other))
    }

    /// The double vector product `self x (o1 x o2)`.
    pub open spec fn cross_cross_spec(self, o1: Self, o2: Self) -> Self {
        self.cross_spec(o1.cross_spec(o2))
    }

    pub open spec fn cross_cross_req(self, o1: Self, o2: Self) -> bool {
        o1.cross_req(o2) && self.cross_req(o1.cross_spec(o2))
    }

    /// The triple product `self . (o1 x o2)`.
    pub open spec fn dot_cross_spec(self, o1: Self, o2: Self) -> T {
        self.dot_spec(o1.cross_spec(o2))
    }

    pub open spec fn dot_cross_req(self, o1: Self, o2: Self) -> bool {
        o1.cross_req(o2) && self.dot_req(o1.cross_spec(o2))
    }

    /// All three coordinates negated.
    pub open spec fn reverse_spec(self) -> Self {
        XYZ { x: self.x.neg_spec(), y: self.y.neg_spec(), z: self.z.neg_spec() }
    }

    pub open spec fn reverse_req(self) -> bool {
        self.x.neg_req() && self.y.neg_req() && self.z.neg_req()
    }

    /// All three coordinates divided by `d`.
    pub open spec fn divided_spec(self, d: T) -> Self {
        XYZ { x: self.x.div_spec(d), y: self.y.div_spec(d), z: self.z.div_spec(d) }
    }

    pub open spec fn divided_req(self, d: T) -> bool {
        self.x.div_req(d) && self.y.div_req(d) && self.z.div_req(d)
    }

    /// No coordinate differs from `other`'s by more than `tolerance`.
    pub open spec fn is_equal_spec(self, other: Self, tolerance: T) -> bool {
        &&& !exceeds(self.x.sub_spec(other.x), tolerance)
        &&& !exceeds(self.y.sub_spec(other.y), tolerance)
        &&& !exceeds(self.z.sub_spec(other.z), tolerance)
    }

    /// The operators accept each step of the comparison, as far as it goes:
    /// a coordinate is looked at only where those before it are within the
    /// tolerance.
    pub open spec fn is_equal_req(self, other: Self, tolerance: T) -> bool {
        &&& self.x.sub_req(other.x)
        &&& self.x.sub_spec(other.x).neg_req()
        &&& !exceeds(self.x.sub_spec(other.x), tolerance) ==> {
            &&& self.y.sub_req(other.y)
            &&& self.y.sub_spec(other.y).neg_req()
            &&& !exceeds(self.y.sub_spec(other.y), tolerance) ==> {
                &&& self.z.sub_req(other.z)
                &&& self.z.sub_spec(other.z).neg_req()
            }
        }
    }

    /// `a1 * v1 + a2 * v2`.
    pub open spec fn linear_form_2(a1: T, v1: Self, a2: T, v2: Self) -> Self {
        XYZ {
            x: mul_add(a1, v1.x, a2, v2.x),
            y: mul_add(a1, v1.y, a2, v2.y),
            z: mul_add(a1, v1.z, a2, v2.z),
        }
    }

    pub open spec fn linear_form_2_req(a1: T, v1: Self, a2: T, v2: Self) -> bool {
        &&& mul_add_req(a1, v1.x, a2, v2.x)
        &&& mul_add_req(a1, v1.y, a2, v2.y)
        &&& mul_add_req(a1, v1.z, a2, v2.z)
    }

    /// `a1 * v1 + v2`.
    pub open spec fn linear_form_2a(a1: T, v1: Self, v2: Self) -> Self {
        XYZ {
            x: scale_add(a1, v1.x, v2.x),
            y: scale_add(a1, v1.y, v2.y),
            z: scale_add(a1, v1.z, v2.z),
        }
    }

    pub open spec fn linear_form_2a_req(a1: T, v1: Self, v2: Self) -> bool {
        &&& scale_add_req(a1, v1.x, v2.x)
        &&& scale_add_req(a1, v1.y, v2.y)
        &&& scale_add_req(a1, v1.z, v2.z)
    }

    /// `v1 + v2`.
    pub open spec fn linear_form_2b(v1: Self, v2: Self) -> Self {
        XYZ { x: v1.x.add_spec(v2.x), y: v1.y.add_spec(v2.y), z: v1.z.add_spec(v2.z) }
    }

    pub open spec fn linear_form_2b_req(v1: Self, v2: Self) -> bool {
        v1.x.add_req(v2.x) && v1.y.add_req(v2.y) && v1.z.add_req(v2.z)
    }

    /// `a1 * v1 + a2 * v2 + v3`.
    pub open spec fn linear_form_3(a1: T, v1: Self, a2: T, v2: Self, v3: Self) -> Self {
        Self::linear_form_2b(Self::linear_form_2(a1, v1, a2, v2), v3)
    }

    pub open spec fn linear_form_3_req(a1: T, v1: Self, a2: T, v2: Self, v3: Self) -> bool {
        &&& Self::linear_form_2_req(a1, v1, a2, v2)
        &&& Self::linear_form_2b_req(Self::linear_form_2(a1, v1, a2, v2), v3)
    }

    /// `a1 * v1 + a2 * v2 + a3 * v3`.
    pub open spec fn linear_form_3a(a1: T, v1: Self, a2: T, v2: Self, a3: T, v3: Self) -> Self {
        XYZ {
            x: mul_add3(a1, v1.x, a2, v2.x, a3, v3.x),
            y: mul_add3(a1, v1.y, a2, v2.y, a3, v3.y),
            z: mul_add3(a1, v1.z, a2, v2.z, a3, v3.z),
        }
    }

    pub open spec fn linear_form_3a_req(
        a1: T,
        v1: Self,
        a2: T,
        v2: Self,
        a3: T,
        v3: Self,
    ) -> bool {
        &&& mul_add3_req(a1, v1.x, a2, v2.x, a3, v3.x)
        &&& mul_add3_req(a1, v1.y, a2, v2.y, a3, v3.y)
        &&& mul_add3_req(a1, v1.z, a2, v2.z, a3, v3.z)
    }

    /// `a1 * v1 + a2 * v2 + a3 * v3 + v4`.
    pub open spec fn linear_form_4(
        a1: T,
        v1: Self,
        a2: T,
        v2: Self,
        a3: T,
        v3: Self,
        v4: Self,
    ) -> Self {
        Self::linear_form_2b(Self::linear_form_3a(a1, v1, a2, v2, a3, v3), v4)
    }

    pub open spec fn linear_form_4_req(
        a1: T,
        v1: Self,
        a2: T,
        v2: Self,
        a3: T,
        v3: Self,
        v4: Self,
    ) -> bool {
        &&& Self::linear_form_3a_req(a1, v1, a2, v2, a3, v3)
        &&& Self::linear_form_2b_req(Self::linear_form_3a(a1, v1, a2, v2, a3, v3), v4)
    }

    /// The triple `(0, 0, 0)`.
    pub fn new() -> (r: Self)
        ensures
            lawful::<T>() ==> r == Self::origin(),
    {
        XYZ { x: T::from(0i8), y: T::from(0i8), z: T::from(0i8) }
    }

    pub fn from_coordinates(x: T, y: T, z: T) -> (r: Self)
        ensures
            r == (XYZ { x, y, z }),
    {
        XYZ { x, y, z }
    }

    pub fn from_coords(x: T, y: T, z: T) -> (r: Self)
        ensures
            r == (XYZ { x, y, z }),
    {
        XYZ { x, y, z }
    }

    pub fn coord(&self) -> (r: (T, T, T))
        ensures
            r == self.coord_spec(),
    {
        (self.x, self.y, self.z)
    }

    pub fn get_coords(&self) -> (r: (T, T, T))
        ensures
            r == self.coord_spec(),
    {
        (self.x, self.y, self.z)
    }

    pub fn set_coord(&mut self, x: T, y: T, z: T)
        ensures
            *final(self) == (XYZ { x, y, z }),
    {
        self.x = x;
        self.y = y;
        self.z = z;
    }

    pub fn set_coords(&mut self, x: T, y: T, z: T)
        ensures
            *final(self) == (XYZ { x, y, z }),
    {
        self.x = x;
        self.y = y;
        self.z = z;
    }

    pub fn get_x(&self) -> (r: T)
        ensures
            r == self.x,
    {
        self.x
    }

    pub fn set_x(&mut self, x: T)
        ensures
            *final(self) == (XYZ { x, ..*old(self) }),
    {
        self.x = x;
    }

    pub fn get_y(&self) -> (r: T)
        ensures
            r == self.y,
    {
        self.y
    }

    pub fn set_y(&mut self, y: T)
        ensures
            *final(self) == (XYZ { y, ..*old(self) }),
    {
        self.y = y;
    }

    pub fn get_z(&self) -> (r: T)
        ensures
            r == self.z,
    {
        self.z
    }

    pub fn set_z(&mut self, z: T)
        ensures
            *final(self) == (XYZ { z, ..*old(self) }),
    {
        self.z = z;
    }

    /// The squared distance from the origin, `x * x + y * y + z * z`.
    pub fn square_modulus(&self) -> (r: T)
        requires
            lawful::<T>(),
            self.dot_req(*self),
        ensures
            r == self.dot_spec(*self),
    {
        self.x * self.x + self.y * self.y + self.z * self.z
    }

    /// The squared distance from the origin, `x * x + y * y + z * z`.
    pub fn squared_length(&self) -> (r: T)
        requires
            lawful::<T>(),
            self.dot_req(*self),
        ensures
            r == self.dot_spec(*self),
    {
        self.x * self.x + self.y * self.y + self.z * self.z
    }

    /// Whether each coordinate lies within `tolerance` of `other`'s.
    pub fn is_equal(&self, other: &Self, tolerance: T) -> (r: bool)
        requires
            lawful::<T>(),
            self.is_equal_req(*other, tolerance),
        ensures
            r == self.is_equal_spec(*other, tolerance),
    {
        let val = self.x - other.x;
        if is_beyond(val, tolerance) {
            return false;
        }
        let val = self.y - other.y;
        if is_beyond(val, tolerance) {
            return false;
        }
        let val = self.z - other.z;
        if is_beyond(val, tolerance) {
            return false;
        }
        true
    }

    /// Replaces the triple by its vector product with `other`.
    pub fn cross(&mut self, other: &Self)
        requires
            lawful::<T>(),
            old(self).cross_req(*other),
        ensures
            *final(self) == old(self).cross_spec(*other),
    {
        let xres = self.y * other.z - self.z * other.y;
        let yres = self.z * other.x - self.x * other.z;
        self.z = self.x * other.y - self.y * other.x;
        self.x = xres;
        self.y = yres;
    }

    /// The vector product with `other`.
    pub fn cross_new(&self, other: &Self) -> (r: Self)
        requires
            lawful::<T>(),
            self.cross_req(*other),
        ensures
            r == self.cross_spec(*other),
    {
        XYZ {
            x: self.y * other.z - self.z * other.y,
            y: self.z * other.x - self.x * other.z,
            z: self.x * other.y - self.y * other.x,
        }
    }

    /// The squared length of the vector product with `other`.
    pub fn square_cross(&self, other: &Self) -> (r: T)
        requires
            lawful::<T>(),
            self.square_cross_req(*other),
        ensures
            r == self.square_cross_spec(*other),
    {
        let xres = self.y * other.z - self.z * other.y;
        let yres = self.z * other.x - self.x * other.z;
        let zres = self.x * other.y - self.y * other.x;
        xres * xres + yres * yres + zres * zres
    }

    /// The squared length of the vector product of the triple with itself.
    pub fn square_cross_magnitude(&self) -> (r: T)
        requires
            lawful::<T>(),
            self.square_cross_req(*self),
        ensures
            r == self.square_cross_spec(*self),
    {
        let c = self.cross_new(self);
        c.x * c.x + c.y * c.y + c.z * c.z
    }

    /// Replaces the triple by `self x (o1 x o2)`.
    pub fn cross_cross(&mut self, o1: &Self, o2: &Self)
        requires
            lawful::<T>(),
            old(self).cross_cross_req(*o1, *o2),
        ensures
            *final(self) == old(self).cross_cross_spec(*o1, *o2),
    {
        let xres = self.y * (o1.x * o2.y - o1.y * o2.x) - self.z * (o1.z * o2.x - o1.x * o2.z);
        let yres = self.z * (o1.y * o2.z - o1.z * o2.y) - self.x * (o1.x * o2.y - o1.y * o2.x);
        self.z = self.x * (o1.z * o2.x - o1.x * o2.z) - self.y * (o1.y * o2.z - o1.z * o2.y);
        self.x = xres;
        self.y = yres;
    }

    /// `self x (o1 x o2)`.
    pub fn cross_cross_new(&self, o1: &Self, o2: &Self) -> (r: Self)
        requires
            lawful::<T>(),
            self.cross_cross_req(*o1, *o2),
        ensures
            r == self.cross_cross_spec(*o1, *o2),
    {
        let xres = self.y * (o1.x * o2.y - o1.y * o2.x) - self.z * (o1.z * o2.x - o1.x * o2.z);
        let yres = self.z * (o1.y * o2.z - o1.z * o2.y) - self.x * (o1.x * o2.y - o1.y * o2.x);
        let zres = self.x * (o1.z * o2.x - o1.x * o2.z) - self.y * (o1.y * o2.z - o1.z * o2.y);
        XYZ { x: xres, y: yres, z: zres }
    }

    pub fn dot(&self, other: &Self) -> (r: T)
        requires
            lawful::<T>(),
            self.dot_req(*other),
        ensures
            r == self.dot_spec(*other),
    {
        self.x * other.x + self.y * other.y + self.z * other.z
    }

    /// The triple product `self . (o1 x o2)`.
    pub fn dot_cross(&self, o1: &Self, o2: &Self) -> (r: T)
        requires
            lawful::<T>(),
            self.dot_cross_req(*o1, *o2),
        ensures
            r == self.dot_cross_spec(*o1, *o2),
    {
        let xres = o1.y * o2.z - o1.z * o2.y;
        let yres = o1.z * o2.x - o1.x * o2.z;
        let zres = o1.x * o2.y - o1.y * o2.x;
        self.x * xres + self.y * yres + self.z * zres
    }

    /// Divides the coordinates by `modulus`, the length of the vector as the
    /// caller measured it. A vector without a positive length has no direction.
    pub fn normalize(&mut self, modulus: T)
        requires
            lawful::<T>(),
            gt(modulus, zero::<T>()),
            old(self).divided_req(modulus),
        ensures
            *final(self) == old(self).divided_spec(modulus),
    {
        self.x = self.x / modulus;
        self.y = self.y / modulus;
        self.z = self.z / modulus;
    }

    pub fn normalize_new(&self, modulus: T) -> (r: Self)
        requires
            lawful::<T>(),
            gt(modulus, zero::<T>()),
            self.divided_req(modulus),
        ensures
            r == self.divided_spec(modulus),
    {
        let mut result = *self;
        result.normalize(modulus);
        result
    }

    pub fn reverse(&mut self)
        requires
            lawful::<T>(),
            old(self).reverse_req(),
        ensures
            *final(self) == old(self).reverse_spec(),
    {
        self.x = self.x.neg();
        self.y = self.y.neg();
        self.z = self.z.neg();
    }

    pub fn reverse_new(&self) -> (r: Self)
        requires
            lawful::<T>(),
            self.reverse_req(),
        ensures
            r == self.reverse_spec(),
    {
        XYZ { x: self.x.neg(), y: self.y.neg(), z: self.z.neg() }
    }

    /// Sets the triple to `a1 * xyz1 + a2 * xyz2`.
    pub fn set_linear_form_2(&mut self, a1: T, xyz1: &XYZ<T>, a2: T, xyz2: &XYZ<T>)
        requires
            lawful::<T>(),
            Self::linear_form_2_req(a1, *xyz1, a2, *xyz2),
        ensures
            *final(self) == Self::linear_form_2(a1, *xyz1, a2, *xyz2),
    {
        self.x = a1 * xyz1.x + a2 * xyz2.x;
        self.y = a1 * xyz1.y + a2 * xyz2.y;
        self.z = a1 * xyz1.z + a2 * xyz2.z;
    }

    /// Sets the triple to `a1 * xyz1 + xyz2`.
    pub fn set_linear_form_2a(&mut self, a1: T, xyz1: &XYZ<T>, xyz2: &XYZ<T>)
        requires
            lawful::<T>(),
            Self::linear_form_2a_req(a1, *xyz1, *xyz2),
        ensures
            *final(self) == Self::linear_form_2a(a1, *xyz1, *xyz2),
    {
        self.x = a1 * xyz1.x + xyz2.x;
        self.y = a1 * xyz1.y + xyz2.y;
        self.z = a1 * xyz1.z + xyz2.z;
    }

    /// Sets the triple to `xyz1 + xyz2`.
    pub fn set_linear_form_2b(&mut self, xyz1: &XYZ<T>, xyz2: &XYZ<T>)
        requires
            lawful::<T>(),
            Self::linear_form_2b_req(*xyz1, *xyz2),
        ensures
            *final(self) == Self::linear_form_2b(*xyz1, *xyz2),
    {
        self.x = xyz1.x + xyz2.x;
        self.y = xyz1.y + xyz2.y;
        self.z = xyz1.z + xyz2.z;
    }

    /// Sets the triple to `a1 * xyz1 + a2 * xyz2 + xyz3`.
    pub fn set_linear_form_3(
        &mut self,
        a1: T,
        xyz1: &XYZ<T>,
        a2: T,
        xyz2: &XYZ<T>,
        xyz3: &XYZ<T>,
    )
        requires
            lawful::<T>(),
            Self::linear_form_3_req(a1, *xyz1, a2, *xyz2, *xyz3),
        ensures
            *final(self) == Self::linear_form_3(a1, *xyz1, a2, *xyz2, *xyz3),
    {
        self.x = a1 * xyz1.x + a2 * xyz2.x + xyz3.x;
        self.y = a1 * xyz1.y + a2 * xyz2.y + xyz3.y;
        self.z = a1 * xyz1.z + a2 * xyz2.z + xyz3.z;
    }

    /// Sets the triple to `a1 * xyz1 + a2 * xyz2 + a3 * xyz3`.
    pub fn set_linear_form_3a(
        &mut self,
        a1: T,
        xyz1: &XYZ<T>,
        a2: T,
        xyz2: &XYZ<T>,
        a3: T,
        xyz3: &XYZ<T>,
    )
        requires
            lawful::<T>(),
            Self::linear_form_3a_req(a1, *xyz1, a2, *xyz2, a3, *xyz3),
        ensures
            *final(self) == Self::linear_form_3a(a1, *xyz1, a2, *xyz2, a3, *xyz3),
    {
        self.x = a1 * xyz1.x + a2 * xyz2.x + a3 * xyz3.x;
        self.y = a1 * xyz1.y + a2 * xyz2.y + a3 * xyz3.y;
        self.z = a1 * xyz1.z + a2 * xyz2.z + a3 * xyz3.z;
    }

    /// Sets the triple to `a1 * xyz1 + a2 * xyz2 + a3 * xyz3 + xyz4`.
    pub fn set_linear_form_4(
        &mut self,
        a1: T,
        xyz1: &XYZ<T>,
        a2: T,
        xyz2: &XYZ<T>,
        a3: T,
        xyz3: &XYZ<T>,
        xyz4: &XYZ<T>,
    )
        requires
            lawful::<T>(),
            Self::linear_form_4_req(a1, *xyz1, a2, *xyz2, a3, *xyz3, *xyz4),
        ensures
            *final(self) == Self::linear_form_4(a1, *xyz1, a2, *xyz2, a3, *xyz3, *xyz4),
    {
        self.x = a1 * xyz1.x + a2 * xyz2.x + a3 * xyz3.x + xyz4.x;
        self.y = a1 * xyz1.y + a2 * xyz2.y + a3 * xyz3.y + xyz4.y;
        self.z = a1 * xyz1.z + a2 * xyz2.z + a3 * xyz3.z + xyz4.z;
    }
}

impl<T: Scalar> From<(T, T, T)> for XYZ<T> {
    fn from(coords: (T, T, T)) -> (r: Self)
        ensures
            r == (XYZ { x: coords.0, y: coords.1, z: coords.2 }),
    {
        XYZ { x: coords.0, y: coords.1, z: coords.2 }
    }
}

impl<T: Scalar> vstd::std_specs::convert::FromSpecImpl<(T, T, T)> for XYZ<T> {
    open spec fn obeys_from_spec() -> bool {
        true
    }

    open spec fn from_spec(coords: (T, T, T)) -> Self {
        XYZ { x: coords.0, y: coords.1, z: coords.2 }
    }
}

impl<T: Scalar> From<[T; 3]> for XYZ<T> {
    fn from(coords: [T; 3]) -> (r: Self)
        ensures
            r == (XYZ { x: coords[0], y: coords[1], z: coords[2] }),
    {
        XYZ { x: coords[0], y: coords[1], z: coords[2] }
    }
}

impl<T: Scalar> vstd::std_specs::convert::FromSpecImpl<[T; 3]> for XYZ<T> {
    open spec fn obeys_from_spec() -> bool {
        true
    }

    open spec fn from_spec(coords: [T; 3]) -> Self {
        XYZ { x: coords[0], y: coords[1], z: coords[2] }
    }
}

/// Coordinate `0` is `x`, `1` is `y`, `2` is `z`.
impl<T: Scalar> Index<usize> for XYZ<T> {
    type Output = T;

    fn index(&self, index: usize) -> (r: &T)
        ensures
            *r == self.at(index as int),
    {
        match index {
            0 => &self.x,
            1 => &self.y,
            2 => &self.z,
            _ => unreached(),
        }
    }
}

impl<T: Scalar> vstd::std_specs::core::IndexSpecImpl<usize> for XYZ<T> {
    open spec fn index_req(&self, index: &usize) -> bool {
        *index < 3
    }
}

impl<T: Scalar> IndexMut<usize> for XYZ<T> {
    fn index_mut(&mut self, index: usize) -> (r: &mut T)
        requires
            index < 3,
        ensures
            *r == old(self).at(index as int),
            *final(self) == old(self).with(index as int, *final(r)),
    {
        match index {
            0 => &mut self.x,
            1 => &mut self.y,
            2 => &mut self.z,
            _ => unreached(),
        }
    }
}

/// The value with every component negated.
impl<T: Scalar> Neg for &XYZ<T> {
    type Output = XYZ<T>;

    fn neg(self) -> (r: XYZ<T>)
        ensures
            T::obeys_neg_spec() ==> r == (XYZ {
                x: self.x.neg_spec(),
                y: self.y.neg_spec(),
                z: self.z.neg_spec(),
            }),
    {
        XYZ { x: self.x.neg(), y: self.y.neg(), z: self.z.neg() }
    }
}

impl<T: Scalar> vstd::std_specs::ops::NegSpecImpl for &XYZ<T> {
    open spec fn obeys_neg_spec() -> bool {
        T::obeys_neg_spec()
    }

    open spec fn neg_req(self) -> bool {
        self.x.neg_req() && self.y.neg_req() && self.z.neg_req()
    }

    open spec fn neg_spec(self) -> XYZ<T> {
        XYZ { x: self.x.neg_spec(), y: self.y.neg_spec(), z: self.z.neg_spec() }
    }
}

/// Component-wise sum with another value, in place.
impl<T: Scalar> AddAssign<&XYZ<T>> for XYZ<T> {
    fn add_assign(&mut self, other: &XYZ<T>)
        requires
            T::obeys_add_spec(),
            old(self).x.add_req(other.x),
            old(self).y.add_req(other.y),
            old(self).z.add_req(other.z),
        ensures
            *final(self) == (XYZ {
                x: old(self).x.add_spec(other.x),
                y: old(self).y.add_spec(other.y),
                z: old(self).z.add_spec(other.z),
            }),
    {
        *self = XYZ { x: self.x + other.x, y: self.y + other.y, z: self.z + other.z };
    }
}

/// The sum of each component and a scalar, in place.
impl<T: Scalar> AddAssign<T> for XYZ<T> {
    fn add_assign(&mut self, other: T)
        requires
            T::obeys_add_spec(),
            old(self).x.add_req(other),
            old(self).y.add_req(other),
            old(self).z.add_req(other),
        ensures
            *final(self) == (XYZ {
                x: old(self).x.add_spec(other),
                y: old(self).y.add_spec(other),
                z: old(self).z.add_spec(other),
            }),
    {
        *self = XYZ { x: self.x + other, y: self.y + other, z: self.z + other };
    }
}

/// Component-wise sum of two values.
impl<T: Scalar> Add<&XYZ<T>> for &XYZ<T> {
    type Output = XYZ<T>;

    fn add(self, other: &XYZ<T>) -> (r: XYZ<T>)
        ensures
            T::obeys_add_spec() ==> r == (XYZ {
                x: self.x.add_spec(other.x),
                y: self.y.add_spec(other.y),
                z: self.z.add_spec(other.z),
            }),
    {
        XYZ { x: self.x + other.x, y: self.y + other.y, z: self.z + other.z }
    }
}

impl<T: Scalar> vstd::std_specs::ops::AddSpecImpl<&XYZ<T>> for &XYZ<T> {
    open spec fn obeys_add_spec() -> bool {
        T::obeys_add_spec()
    }

    open spec fn add_req(self, other: &XYZ<T>) -> bool {
        self.x.add_req(other.x) && self.y.add_req(other.y) && self.z.add_req(other.z)
    }

    open spec fn add_spec(self, other: &XYZ<T>) -> XYZ<T> {
        XYZ {
            x: self.x.add_spec(other.x),
            y: self.y.add_spec(other.y),
            z: self.z.add_spec(other.z),
        }
    }
}

/// The sum of each component and a scalar.
impl<T: Scalar> Add<T> for &XYZ<T> {
    type Output = XYZ<T>;

    fn add(self, other: T) -> (r: XYZ<T>)
        ensures
            T::obeys_add_spec() ==> r == (XYZ {
                x: self.x.add_spec(other),
                y: self.y.add_spec(other),
                z: self.z.add_spec(other),
            }),
    {
        XYZ { x: self.x + other, y: self.y + other, z: self.z + other }
    }
}

impl<T: Scalar> vstd::std_specs::ops::AddSpecImpl<T> for &XYZ<T> {
    open spec fn obeys_add_spec() -> bool {
        T::obeys_add_spec()
    }

    open spec fn add_req(self, other: T) -> bool {
        self.x.add_req(other) && self.y.add_req(other) && self.z.add_req(other)
    }

    open spec fn add_spec(self, other: T) -> XYZ<T> {
        XYZ { x: self.x.add_spec(other), y: self.y.add_spec(other), z: self.z.add_spec(other) }
    }
}

/// The sum of each component and a scalar.
impl<T: Scalar> Add<T> for XYZ<T> {
    type Output = XYZ<T>;

    fn add(self, other: T) -> (r: XYZ<T>)
        ensures
            T::obeys_add_spec() ==> r == (XYZ {
                x: self.x.add_spec(other),
                y: self.y.add_spec(other),
                z: self.z.add_spec(other),
            }),
    {
        XYZ { x: self.x + other, y: self.y + other, z: self.z + other }
    }
}

impl<T: Scalar> vstd::std_specs::ops::AddSpecImpl<T> for XYZ<T> {
    open spec fn obeys_add_spec() -> bool {
        T::obeys_add_spec()
    }

    open spec fn add_req(self, other: T) -> bool {
        self.x.add_req(other) && self.y.add_req(other) && self.z.add_req(other)
    }

    open spec fn add_spec(self, other: T) -> XYZ<T> {
        XYZ { x: self.x.add_spec(other), y: self.y.add_spec(other), z: self.z.add_spec(other) }
    }
}

/// Component-wise difference with another value, in place.
impl<T: Scalar> SubAssign<&XYZ<T>> for XYZ<T> {
    fn sub_assign(&mut self, other: &XYZ<T>)
        requires
            T::obeys_sub_spec(),
            old(self).x.sub_req(other.x),
            old(self).y.sub_req(other.y),
            old(self).z.sub_req(other.z),
        ensures
            *final(self) == (XYZ {
                x: old(self).x.sub_spec(other.x),
                y: old(self).y.sub_spec(other.y),
                z: old(self).z.sub_spec(other.z),
            }),
    {
        *self = XYZ { x: self.x - other.x, y: self.y - other.y, z: self.z - other.z };
    }
}

/// The difference of each component and a scalar, in place.
impl<T: Scalar> SubAssign<T> for XYZ<T> {
    fn sub_assign(&mut self, other: T)
        requires
            T::obeys_sub_spec(),
            old(self).x.sub_req(other),
            old(self).y.sub_req(other),
            old(self).z.sub_req(other),
        ensures
            *final(self) == (XYZ {
                x: old(self).x.sub_spec(other),
                y: old(self).y.sub_spec(other),
                z: old(self).z.sub_spec(other),
            }),
    {
        *self = XYZ { x: self.x - other, y: self.y - other, z: self.z - other };
    }
}

/// Component-wise difference of two values.
impl<T: Scalar> Sub<&XYZ<T>> for &XYZ<T> {
    type Output = XYZ<T>;

    fn sub(self, other: &XYZ<T>) -> (r: XYZ<T>)
        ensures
            T::obeys_sub_spec() ==> r == (XYZ {
                x: self.x.sub_spec(other.x),
                y: self.y.sub_spec(other.y),
                z: self.z.sub_spec(other.z),
            }),
    {
        XYZ { x: self.x - other.x, y: self.y - other.y, z: self.z - other.z }
    }
}

impl<T: Scalar> vstd::std_specs::ops::SubSpecImpl<&XYZ<T>> for &XYZ<T> {
    open spec fn obeys_sub_spec() -> bool {
        T::obeys_sub_spec()
    }

    open spec fn sub_req(self, other: &XYZ<T>) -> bool {
        self.x.sub_req(other.x) && self.y.sub_req(other.y) && self.z.sub_req(other.z)
    }

    open spec fn sub_spec(self, other: &XYZ<T>) -> XYZ<T> {
        XYZ {
            x: self.x.sub_spec(other.x),
            y: self.y.sub_spec(other.y),
            z: self.z.sub_spec(other.z),
        }
    }
}

/// The difference of each component and a scalar.
impl<T: Scalar> Sub<T> for &XYZ<T> {
    type Output = XYZ<T>;

    fn sub(self, other: T) -> (r: XYZ<T>)
        ensures
            T::obeys_sub_spec() ==> r == (XYZ {
                x: self.x.sub_spec(other),
                y: self.y.sub_spec(other),
                z: self.z.sub_spec(other),
            }),
    {
        XYZ { x: self.x - other, y: self.y - other, z: self.z - other }
    }
}

impl<T: Scalar> vstd::std_specs::ops::SubSpecImpl<T> for &XYZ<T> {
    open spec fn obeys_sub_spec() -> bool {
        T::obeys_sub_spec()
    }

    open spec fn sub_req(self, other: T) -> bool {
        self.x.sub_req(other) && self.y.sub_req(other) && self.z.sub_req(other)
    }

    open spec fn sub_spec(self, other: T) -> XYZ<T> {
        XYZ { x: self.x.sub_spec(other), y: self.y.sub_spec(other), z: self.z.sub_spec(other) }
    }
}

/// Component-wise quotient with another value, in place.
impl<T: Scalar> DivAssign<&XYZ<T>> for XYZ<T> {
    fn div_assign(&mut self, other: &XYZ<T>)
        requires
            T::obeys_div_spec(),
            old(self).x.div_req(other.x),
            old(self).y.div_req(other.y),
            old(self).z.div_req(other.z),
        ensures
            *final(self) == (XYZ {
                x: old(self).x.div_spec(other.x),
                y: old(self).y.div_spec(other.y),
                z: old(self).z.div_spec(other.z),
            }),
    {
        *self = XYZ { x: self.x / other.x, y: self.y / other.y, z: self.z / other.z };
    }
}

/// The quotient of each component and a scalar, in place.
impl<T: Scalar> DivAssign<T> for XYZ<T> {
    fn div_assign(&mut self, other: T)
        requires
            T::obeys_div_spec(),
            old(self).x.div_req(other),
            old(self).y.div_req(other),
            old(self).z.div_req(other),
        ensures
            *final(self) == (XYZ {
                x: old(self).x.div_spec(other),
                y: old(self).y.div_spec(other),
                z: old(self).z.div_spec(other),
            }),
    {
        *self = XYZ { x: self.x / other, y: self.y / other, z: self.z / other };
    }
}

/// Component-wise quotient of two values.
impl<T: Scalar> Div<&XYZ<T>> for &XYZ<T> {
    type Output = XYZ<T>;

    fn div(self, other: &XYZ<T>) -> (r: XYZ<T>)
        ensures
            T::obeys_div_spec() ==> r == (XYZ {
                x: self.x.div_spec(other.x),
                y: self.y.div_spec(other.y),
                z: self.z.div_spec(other.z),
            }),
    {
        XYZ { x: self.x / other.x, y: self.y / other.y, z: self.z / other.z }
    }
}

impl<T: Scalar> vstd::std_specs::ops::DivSpecImpl<&XYZ<T>> for &XYZ<T> {
    open spec fn obeys_div_spec() -> bool {
        T::obeys_div_spec()
    }

    open spec fn div_req(self, other: &XYZ<T>) -> bool {
        self.x.div_req(other.x) && self.y.div_req(other.y) && self.z.div_req(other.z)
    }

    open spec fn div_spec(self, other: &XYZ<T>) -> XYZ<T> {
        XYZ {
            x: self.x.div_spec(other.x),
            y: self.y.div_spec(other.y),
            z: self.z.div_spec(other.z),
        }
    }
}

/// The quotient of each component and a scalar.
impl<T: Scalar> Div<T> for &XYZ<T> {
    type Output = XYZ<T>;

    fn div(self, other: T) -> (r: XYZ<T>)
        ensures
            T::obeys_div_spec() ==> r == (XYZ {
                x: self.x.div_spec(other),
                y: self.y.div_spec(other),
                z: self.z.div_spec(other),
            }),
    {
        XYZ { x: self.x / other, y: self.y / other, z: self.z / other }
    }
}

impl<T: Scalar> vstd::std_specs::ops::DivSpecImpl<T> for &XYZ<T> {
    open spec fn obeys_div_spec() -> bool {
        T::obeys_div_spec()
    }

    open spec fn div_req(self, other: T) -> bool {
        self.x.div_req(other) && self.y.div_req(other) && self.z.div_req(other)
    }

    open spec fn div_spec(self, other: T) -> XYZ<T> {
        XYZ { x: self.x.div_spec(other), y: self.y.div_spec(other), z: self.z.div_spec(other) }
    }
}

/// Component-wise product with another value, in place.
impl<T: Scalar> MulAssign<&XYZ<T>> for XYZ<T> {
    fn mul_assign(&mut self, other: &XYZ<T>)
        requires
            T::obeys_mul_spec(),
            old(self).x.mul_req(other.x),
            old(self).y.mul_req(other.y),
            old(self).z.mul_req(other.z),
        ensures
            *final(self) == (XYZ {
                x: old(self).x.mul_spec(other.x),
                y: old(self).y.mul_spec(other.y),
                z: old(self).z.mul_spec(other.z),
            }),
    {
        *self = XYZ { x: self.x * other.x, y: self.y * other.y, z: self.z * other.z };
    }
}

/// The product of each component and a scalar, in place.
impl<T: Scalar> MulAssign<T> for XYZ<T> {
    fn mul_assign(&mut self, other: T)
        requires
            T::obeys_mul_spec(),
            old(self).x.mul_req(other),
            old(self).y.mul_req(other),
            old(self).z.mul_req(other),
        ensures
            *final(self) == (XYZ {
                x: old(self).x.mul_spec(other),
                y: old(self).y.mul_spec(other),
                z: old(self).z.mul_spec(other),
            }),
    {
        *self = XYZ { x: self.x * other, y: self.y * other, z: self.z * other };
    }
}

/// Component-wise product of two values.
impl<T: Scalar> Mul<&XYZ<T>> for &XYZ<T> {
    type Output = XYZ<T>;

    fn mul(self, other: &XYZ<T>) -> (r: XYZ<T>)
        ensures
            T::obeys_mul_spec() ==> r == (XYZ {
                x: self.x.mul_spec(other.x),
                y: self.y.mul_spec(other.y),
                z: self.z.mul_spec(other.z),
            }),
    {
        XYZ { x: self.x * other.x, y: self.y * other.y, z: self.z * other.z }
    }
}

impl<T: Scalar> vstd::std_specs::ops::MulSpecImpl<&XYZ<T>> for &XYZ<T> {
    open spec fn obeys_mul_spec() -> bool {
        T::obeys_mul_spec()
    }

    open spec fn mul_req(self, other: &XYZ<T>) -> bool {
        self.x.mul_req(other.x) && self.y.mul_req(other.y) && self.z.mul_req(other.z)
    }

    open spec fn mul_spec(self, other: &XYZ<T>) -> XYZ<T> {
        XYZ {
            x: self.x.mul_spec(other.x),
            y: self.y.mul_spec(other.y),
            z: self.z.mul_spec(other.z),
        }
    }
}

/// The product of each component and a scalar.
impl<T: Scalar> Mul<T> for &XYZ<T> {
    type Output = XYZ<T>;

    fn mul(self, other: T) -> (r: XYZ<T>)
        ensures
            T::obeys_mul_spec() ==> r == (XYZ {
                x: self.x.mul_spec(other),
                y: self.y.mul_spec(other),
                z: self.z.mul_spec(other),
            }),
    {
        XYZ { x: self.x * other, y: self.y * other, z: self.z * other }
    }
}

impl<T: Scalar> vstd::std_specs::ops::MulSpecImpl<T> for &XYZ<T> {
    open spec fn obeys_mul_spec() -> bool {
        T::obeys_mul_spec()
    }

    open spec fn mul_req(self, other: T) -> bool {
        self.x.mul_req(other) && self.y.mul_req(other) && self.z.mul_req(other)
    }

    open spec fn mul_spec(self, other: T) -> XYZ<T> {
        XYZ { x: self.x.mul_spec(other), y: self.y.mul_spec(other), z: self.z.mul_spec(other) }
    }
}

impl<T: Scalar + std::fmt::Display> XYZ<T> {
    /// `s` is the text of the value: the name and the coordinates, as `XYZ(x, y, z)`.
    pub open spec fn is_text(self, s: Seq<char>) -> bool {
        exists|part0: Seq<char>|
            {
                &&& lists(seq![self.x, self.y, self.z], part0)
                &&& s == "XYZ("@ + part0 + ")"@
            }
    }

    pub fn to_string(&self) -> (r: String)
        ensures
            self.is_text(r@),
    {
        let mut s = String::from_str("XYZ(");
        let ghost b0 = s@;
        let a0 = [self.x, self.y, self.z];
        push_list(&mut s, a0.as_slice());
        let ghost part0 = choose|p: Seq<char>| lists(a0@, p) && s@ == b0 + p;
        assert(a0@ =~= seq![self.x, self.y, self.z]);
        s.append(")");
        assert(s@ =~= "XYZ("@ + part0 + ")"@);
        s
    }
}

} // verus!
