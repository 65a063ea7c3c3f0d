//! A direction of space.
use crate::angle::{spatial_formula, spatial_formula_spec, AngleFormula};
use crate::scalar::{ge, gt, lawful, one, zero, Scalar};
use crate::text::{lists, push_list};
use crate::xyz::XYZ;
use vstd::prelude::*;
use vstd::std_specs::ops::NegSpec;
use vstd::string::StringExecFns;

verus! {

/// A vector meant to have the length 1. A direction is made from
/// coordinates by dividing them by their length, which the caller measures:
/// the square root is not an operator of the scalar.
#[derive(Debug, Clone, Copy, PartialEq)]
pub struct Direction3d<T> {
    pub xyz: XYZ<T>,
}

impl<T: Scalar> Direction3d<T> {
    /// The direction of the first axis, `(1, 0, 0)`.
    pub open spec fn first_axis() -> Self {
        Direction3d { xyz: XYZ { x: one::<T>(), y: zero::<T>(), z: zero::<T>() } }
    }

    /// The angle `ang` to a reference direction, signed by the side on which
    /// the reference lies: kept where `normal . vref >= 0`, negated elsewhere.
    pub open spec fn signed_spec(ang: T, normal: XYZ<T>, vref: Self) -> T {
        if ge(normal.dot_spec(vref.xyz), zero::<T>()) {
            ang
        } else {
            ang.neg_spec()
        }
    }

    /// The direction `(1, 0, 0)`.
    pub fn new() -> (r: Self)
        ensures
            lawful::<T>() ==> r == Self::first_axis(),
    {
        Direction3d { xyz: XYZ::from_coords(T::from(1i8), T::from(0i8), T::from(0i8)) }
    }

    /// The direction of `xyz`, whose length is `modulus`.
    pub fn from_xyz(xyz: XYZ<T>, modulus: T) -> (r: Self)
        requires
            lawful::<T>(),
            gt(modulus, zero::<T>()),
            xyz.divided_req(modulus),
        ensures
            r.xyz == xyz.divided_spec(modulus),
    {
        let mut d = Direction3d { xyz };
        d.xyz.normalize(modulus);
        d
    }

    /// The direction of `(x, y, z)`, whose length is `modulus`.
    pub fn from_coords(x: T, y: T, z: T, modulus: T) -> (r: Self)
        requires
            lawful::<T>(),
            gt(modulus, zero::<T>()),
            (XYZ { x, y, z }).divided_req(modulus),
        ensures
            r.xyz == (XYZ { x, y, z }).divided_spec(modulus),
    {
        let mut d = Direction3d { xyz: XYZ::from_coords(x, y, z) };
        d.xyz.normalize(modulus);
        d
    }

    pub fn get_coords(&self) -> (r: (T, T, T))
        ensures
            r == self.xyz.coord_spec(),
    {
        (self.xyz.x, self.xyz.y, self.xyz.z)
    }

    /// Sets the direction of `(x, y, z)`, whose length is `modulus`.
    pub fn set_coords(&mut self, x: T, y: T, z: T, modulus: T)
        requires
            lawful::<T>(),
            gt(modulus, zero::<T>()),
            (XYZ { x, y, z }).divided_req(modulus),
        ensures
            final(self).xyz == (XYZ { x, y, z }).divided_spec(modulus),
    {
        self.xyz.x = x;
        self.xyz.y = y;
        self.xyz.z = z;
        self.xyz.normalize(modulus);
    }

    pub fn get_x(&self) -> (r: T)
        ensures
            r == self.xyz.x,
    {
        self.xyz.x
    }

    pub fn get_y(&self) -> (r: T)
        ensures
            r == self.xyz.y,
    {
        self.xyz.y
    }

    pub fn get_z(&self) -> (r: T)
        ensures
            r == self.xyz.z,
    {
        self.xyz.z
    }

    pub fn get_xyz(&self) -> (r: &XYZ<T>)
        ensures
            *r == self.xyz,
    {
        &self.xyz
    }

    /// Sets the direction of `xyz`, whose length is `modulus`.
    pub fn set_xyz(&mut self, xyz: XYZ<T>, modulus: T)
        requires
            lawful::<T>(),
            gt(modulus, zero::<T>()),
            xyz.divided_req(modulus),
        ensures
            final(self).xyz == xyz.divided_spec(modulus),
    {
        self.xyz = xyz;
        self.xyz.normalize(modulus);
    }

    /// Whether each coordinate lies within `tolerance` of `other`'s.
    pub fn is_equal(&self, other: &Self, tolerance: T) -> (r: bool)
        requires
            lawful::<T>(),
            self.xyz.is_equal_req(other.xyz, tolerance),
        ensures
            r == self.xyz.is_equal_spec(other.xyz, tolerance),
    {
        self.xyz.is_equal(&other.xyz, tolerance)
    }

    /// The formula that gives the unsigned angle to `other`. Between
    /// directions the dot product is the cosine; the sine is the length of
    /// the vector product.
    pub fn angle_formula(&self, other: &Self, bound: T) -> (r: AngleFormula)
        requires
            lawful::<T>(),
            bound.neg_req(),
            self.xyz.dot_req(other.xyz),
        ensures
            r == spatial_formula_spec(self.xyz.dot_spec(other.xyz), bound),
    {
        let cosinus = self.xyz.dot(&other.xyz);
        spatial_formula(cosinus, bound)
    }

    /// Gives the unsigned angle `ang` to `vref` its sign: `normal` is the
    /// vector product of this direction with `vref`.
    pub fn angle_with_ref(ang: T, normal: &XYZ<T>, vref: &Self) -> (r: T)
        requires
            lawful::<T>(),
            normal.dot_req(vref.xyz),
            ang.neg_req(),
        ensures
            r == Self::signed_spec(ang, *normal, *vref),
    {
        if normal.dot(&vref.xyz) >= T::from(0i8) {
            ang
        } else {
            ang.neg()
        }
    }
}

impl<T: Scalar> Default for Direction3d<T> {
    fn default() -> (r: Self)
        ensures
            lawful::<T>() ==> r == Self::first_axis(),
    {
        Direction3d { xyz: XYZ::from_coords(T::from(1i8), T::from(0i8), T::from(0i8)) }
    }
}

impl<T: Scalar + std::fmt::Display> Direction3d<T> {
    /// `s` is the text of the value: the name and the coordinates, as `Direction3d(x, y, z)`.
    pub open spec fn is_text(self, s: Seq<char>) -> bool {
        exists|part0: Seq<char>|
            {
                &&& lists(seq![self.xyz.x, self.xyz.y, self.xyz.z], part0)
                &&& s == "Direction3d("@ + part0 + ")"@
            }
    }

    pub fn to_string(&self) -> (r: String)
        ensures
            self.is_text(r@),
    {
        let mut s = String::from_str("Direction3d(");
        let ghost b0 = s@;
        let a0 = [self.xyz.x, self.xyz.y, self.xyz.z];
        push_list(&mut s, a0.as_slice());
        let ghost part0 = choose|p: Seq<char>| lists(a0@, p) && s@ == b0 + p;
        assert(a0@ =~= seq![self.xyz.x, self.xyz.y, self.xyz.z]);
        s.append(")");
        assert(s@ =~= "Direction3d("@ + part0 + ")"@);
        s
    }
}

} // verus!
