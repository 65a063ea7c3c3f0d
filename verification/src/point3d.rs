//! A point of space.
use crate::scalar::{lawful, mul_add, mul_add_req, one, two, Scalar};
use crate::text::{lists, push_list};
use crate::xyz::XYZ;
use std::ops::{AddAssign, DivAssign, Index, IndexMut, MulAssign, SubAssign};
use vstd::prelude::*;
use vstd::std_specs::ops::{AddSpec, DivSpec, MulSpec, NegSpec, SubSpec};
use vstd::string::StringExecFns;

verus! {

/// A location in space, held as its three coordinates.
#[derive(Debug, Clone, Copy, PartialEq)]
pub struct Point3d<T> {
    pub xyz: XYZ<T>,
}

impl<T: Scalar> Point3d<T> {
    /// `(self.x - other.x)^2 + (self.y - other.y)^2 + (self.z - other.z)^2`.
    pub open spec fn square_distance_spec(self, other: Self) -> T {
        let dx = self.xyz.x.sub_spec(other.xyz.x);
        let dy = self.xyz.y.sub_spec(other.xyz.y);
        let dz = self.xyz.z.sub_spec(other.xyz.z);
        dx.mul_spec(dx).add_spec(dy.mul_spec(dy)).add_spec(dz.mul_spec(dz))
    }

    pub open spec fn square_distance_req(self, other: Self) -> bool {
        let dx = self.xyz.x.sub_spec(other.xyz.x);
        let dy = self.xyz.y.sub_spec(other.xyz.y);
        let dz = self.xyz.z.sub_spec(other.xyz.z);
        &&& self.xyz.x.sub_req(other.xyz.x)
        &&& self.xyz.y.sub_req(other.xyz.y)
        &&& self.xyz.z.sub_req(other.xyz.z)
        &&& dx.mul_req(dx)
        &&& dy.mul_req(dy)
        &&& dz.mul_req(dz)
        &&& dx.mul_spec(dx).add_req(dy.mul_spec(dy))
        &&& dx.mul_spec(dx).add_spec(dy.mul_spec(dy)).add_req(dz.mul_spec(dz))
    }

    /// The image of `c` under the point reflection through `center`:
    /// `-c + 2 * center`.
    pub open spec fn mirror_coord(c: T, center: T) -> T {
        c.neg_spec().add_spec(center.mul_spec(two::<T>()))
    }

    pub open spec fn mirror_coord_req(c: T, center: T) -> bool {
        &&& c.neg_req()
        &&& center.mul_req(two::<T>())
        &&& c.neg_spec().add_req(center.mul_spec(two::<T>()))
    }

    /// The image of `c` under the scaling by `scale` about `center`:
    /// `c * scale + center * (1 - scale)`.
    pub open spec fn scale_coord(c: T, center: T, scale: T) -> T {
        c.mul_spec(scale).add_spec(center.mul_spec(one::<T>().sub_spec(scale)))
    }

    pub open spec fn scale_coord_req(c: T, center: T, scale: T) -> bool {
        &&& one::<T>().sub_req(scale)
        &&& center.mul_req(one::<T>().sub_spec(scale))
        &&& c.mul_req(scale)
        &&& c.mul_spec(scale).add_req(center.mul_spec(one::<T>().sub_spec(scale)))
    }

    /// The image of `c` under the translation that takes `from` to `to`:
    /// `c + to - from`.
    pub open spec fn translate_coord(c: T, from: T, to: T) -> T {
        c.add_spec(to).sub_spec(from)
    }

    pub open spec fn translate_coord_req(c: T, from: T, to: T) -> bool {
        c.add_req(to) && c.add_spec(to).sub_req(from)
    }

    /// The coordinate of the barycentre of two weighted points:
    /// `(alpha * c + beta * p) / (alpha + beta)`.
    pub open spec fn bary_coord(c: T, alpha: T, p: T, beta: T) -> T {
        mul_add(alpha, c, beta, p).div_spec(alpha.add_spec(beta))
    }

    pub open spec fn bary_coord_req(c: T, alpha: T, p: T, beta: T) -> bool {
        &&& mul_add_req(alpha, c, beta, p)
        &&& alpha.add_req(beta)
        &&& mul_add(alpha, c, beta, p).div_req(alpha.add_spec(beta))
    }

    pub open spec fn bary_center_spec(self, alpha: T, p: Self, beta: T) -> Self {
        Point3d {
            xyz: XYZ {
                x: Self::bary_coord(self.xyz.x, alpha, p.xyz.x, beta),
                y: Self::bary_coord(self.xyz.y, alpha, p.xyz.y, beta),
                z: Self::bary_coord(self.xyz.z, alpha, p.xyz.z, beta),
            },
        }
    }

    pub open spec fn bary_center_req(self, alpha: T, p: Self, beta: T) -> bool {
        &&& Self::bary_coord_req(self.xyz.x, alpha, p.xyz.x, beta)
        &&& Self::bary_coord_req(self.xyz.y, alpha, p.xyz.y, beta)
        &&& Self::bary_coord_req(self.xyz.z, alpha, p.xyz.z, beta)
    }

    pub open spec fn mirror_spec(self, other: Self) -> Self {
        Point3d {
            xyz: XYZ {
                x: Self::mirror_coord(self.xyz.x, other.xyz.x),
                y: Self::mirror_coord(self.xyz.y, other.xyz.y),
                z: Self::mirror_coord(self.xyz.z, other.xyz.z),
            },
        }
    }

    pub open spec fn mirror_req(self, other: Self) -> bool {
        &&& Self::mirror_coord_req(self.xyz.x, other.xyz.x)
        &&& Self::mirror_coord_req(self.xyz.y, other.xyz.y)
        &&& Self::mirror_coord_req(self.xyz.z, other.xyz.z)
    }

    pub open spec fn scale_spec(self, other: Self, scale: T) -> Self {
        Point3d {
            xyz: XYZ {
                x: Self::scale_coord(self.xyz.x, other.xyz.x, scale),
                y: Self::scale_coord(self.xyz.y, other.xyz.y, scale),
                z: Self::scale_coord(self.xyz.z, other.xyz.z, scale),
            },
        }
    }

    pub open spec fn scale_req(self, other: Self, scale: T) -> bool {
        &&& Self::scale_coord_req(self.xyz.x, other.xyz.x, scale)
        &&& Self::scale_coord_req(self.xyz.y, other.xyz.y, scale)
        &&& Self::scale_coord_req(self.xyz.z, other.xyz.z, scale)
    }

    pub open spec fn translate_spec(self, from: Self, to: Self) -> Self {
        Point3d {
            xyz: XYZ {
                x: Self::translate_coord(self.xyz.x, from.xyz.x, to.xyz.x),
                y: Self::translate_coord(self.xyz.y, from.xyz.y, to.xyz.y),
                z: Self::translate_coord(self.xyz.z, from.xyz.z, to.xyz.z),
            },
        }
    }

    pub open spec fn translate_req(self, from: Self, to: Self) -> bool {
        &&& Self::translate_coord_req(self.xyz.x, from.xyz.x, to.xyz.x)
        &&& Self::translate_coord_req(self.xyz.y, from.xyz.y, to.xyz.y)
        &&& Self::translate_coord_req(self.xyz.z, from.xyz.z, to.xyz.z)
    }

    /// The point at the origin.
    pub fn new() -> (r: Self)
        ensures
            lawful::<T>() ==> r.xyz == XYZ::<T>::origin(),
    {
        Point3d { xyz: XYZ::new() }
    }

    pub fn from_xyz(xyz: XYZ<T>) -> (r: Self)
        ensures
            r.xyz == xyz,
    {
        Point3d { xyz }
    }

    pub fn from_coordinates(x: T, y: T, z: T) -> (r: Self)
        ensures
            r.xyz == (XYZ { x, y, z }),
    {
        Point3d { xyz: XYZ { x, y, z } }
    }

    pub fn from_coords(x: T, y: T, z: T) -> (r: Self)
        ensures
            r.xyz == (XYZ { x, y, z }),
    {
        Point3d { xyz: XYZ { x, y, z } }
    }

    pub fn x(&self) -> (r: T)
        ensures
            r == self.xyz.x,
    {
        self.xyz.x
    }

    pub fn get_x(&self) -> (r: T)
        ensures
            r == self.xyz.x,
    {
        self.xyz.x
    }

    pub fn set_x(&mut self, x: T)
        ensures
            final(self).xyz == (XYZ { x, ..old(self).xyz }),
    {
        self.xyz.x = x;
    }

    pub fn y(&self) -> (r: T)
        ensures
            r == self.xyz.y,
    {
        self.xyz.y
    }

    pub fn get_y(&self) -> (r: T)
        ensures
            r == self.xyz.y,
    {
        self.xyz.y
    }

    pub fn set_y(&mut self, y: T)
        ensures
            final(self).xyz == (XYZ { y, ..old(self).xyz }),
    {
        self.xyz.y = y;
    }

    pub fn z(&self) -> (r: T)
        ensures
            r == self.xyz.z,
    {
        self.xyz.z
    }

    pub fn get_z(&self) -> (r: T)
        ensures
            r == self.xyz.z,
    {
        self.xyz.z
    }

    pub fn set_z(&mut self, z: T)
        ensures
            final(self).xyz == (XYZ { z, ..old(self).xyz }),
    {
        self.xyz.z = z;
    }

    /// The coordinates, borrowed.
    pub fn xyz(&self) -> (r: &XYZ<T>)
        ensures
            *r == self.xyz,
    {
        &self.xyz
    }

    /// The coordinates, copied.
    pub fn get_xyz(&self) -> (r: XYZ<T>)
        ensures
            r == self.xyz,
    {
        self.xyz
    }

    pub fn set_xyz(&mut self, xyz: XYZ<T>)
        ensures
            final(self).xyz == xyz,
    {
        self.xyz = xyz;
    }

    pub fn coord(&self) -> (r: (T, T, T))
        ensures
            r == self.xyz.coord_spec(),
    {
        (self.xyz.x, self.xyz.y, self.xyz.z)
    }

    pub fn get_coords(&self) -> (r: (T, T, T))
        ensures
            r == self.xyz.coord_spec(),
    {
        (self.xyz.x, self.xyz.y, self.xyz.z)
    }

    pub fn set_coord(&mut self, x: T, y: T, z: T)
        ensures
            final(self).xyz == (XYZ { x, y, z }),
    {
        self.xyz = XYZ { x, y, z };
    }

    pub fn set_coords(&mut self, x: T, y: T, z: T)
        ensures
            final(self).xyz == (XYZ { x, y, z }),
    {
        self.xyz = XYZ { x, y, z };
    }

    /// The squared distance to `other`.
    pub fn square_distance(&self, other: &Self) -> (r: T)
        requires
            lawful::<T>(),
            self.square_distance_req(*other),
        ensures
            r == self.square_distance_spec(*other),
    {
        let dx = self.xyz.x - other.xyz.x;
        let dy = self.xyz.y - other.xyz.y;
        let dz = self.xyz.z - other.xyz.z;
        dx * dx + dy * dy + dz * dz
    }

    /// Whether each coordinate lies within `tolerance` of `other`'s.
    pub fn is_equal(&self, other: &Self, tolerance: T) -> (r: bool)
        requires
            lawful::<T>(),
            self.xyz.is_equal_req(other.xyz, tolerance),
        ensures
            r == self.xyz.is_equal_spec(other.xyz, tolerance),
    {
        self.xyz.is_equal(&other.xyz, tolerance)
    }

    /// Moves the point to the barycentre of itself, weighted `alpha`, and
    /// `p`, weighted `beta`.
    pub fn bary_center(&mut self, alpha: T, p: &Self, beta: T)
        requires
            lawful::<T>(),
            old(self).bary_center_req(alpha, *p, beta),
        ensures
            *final(self) == old(self).bary_center_spec(alpha, *p, beta),
    {
        let xyz = self.xyz;
        self.xyz.set_linear_form_2(alpha, &xyz, beta, &p.xyz);
        self.xyz.div_assign(alpha + beta);
    }

    /// Reflects the point through `other`.
    pub fn mirror_by_point3d(&mut self, other: &Self)
        requires
            lawful::<T>(),
            old(self).mirror_req(*other),
        ensures
            *final(self) == old(self).mirror_spec(*other),
    {
        self.xyz.reverse();
        let mut xyz1: XYZ<T> = other.xyz;
        xyz1.mul_assign(T::from(2i8));
        self.xyz.add_assign(&xyz1);
    }

    pub fn mirror_by_point3d_new(&self, other: &Self) -> (r: Self)
        requires
            lawful::<T>(),
            self.mirror_req(*other),
        ensures
            r == self.mirror_spec(*other),
    {
        let mut result = *self;
        result.mirror_by_point3d(other);
        result
    }

    /// Scales the point by `scale` about `other`.
    pub fn scale_by_point3d(&mut self, other: &Self, scale: T)
        requires
            lawful::<T>(),
            old(self).scale_req(*other, scale),
        ensures
            *final(self) == old(self).scale_spec(*other, scale),
    {
        let mut xyz1 = other.xyz;
        xyz1.mul_assign(T::from(1i8) - scale);
        self.xyz.mul_assign(scale);
        self.xyz.add_assign(&xyz1);
    }

    pub fn scale_by_point3d_new(&self, other: &Self, scale: T) -> (r: Self)
        requires
            lawful::<T>(),
            self.scale_req(*other, scale),
        ensures
            r == self.scale_spec(*other, scale),
    {
        let mut result = *self;
        result.scale_by_point3d(other, scale);
        result
    }

    /// Moves the point by the translation that takes `from` to `to`.
    pub fn translate_by_2point3d(&mut self, from: &Self, to: &Self)
        requires
            lawful::<T>(),
            old(self).translate_req(*from, *to),
        ensures
            *final(self) == old(self).translate_spec(*from, *to),
    {
        self.xyz.add_assign(&to.xyz);
        self.xyz.sub_assign(&from.xyz);
    }

    pub fn translate_by_2point3d_new(&self, from: &Self, to: &Self) -> (r: Self)
        requires
            lawful::<T>(),
            self.translate_req(*from, *to),
        ensures
            r == self.translate_spec(*from, *to),
    {
        let mut result = *self;
        result.translate_by_2point3d(from, to);
        result
    }
}

impl<T: Scalar> From<(T, T, T)> for Point3d<T> {
    fn from(coords: (T, T, T)) -> (r: Self)
        ensures
            r.xyz == (XYZ { x: coords.0, y: coords.1, z: coords.2 }),
    {
        Point3d { xyz: XYZ { x: coords.0, y: coords.1, z: coords.2 } }
    }
}

impl<T: Scalar> vstd::std_specs::convert::FromSpecImpl<(T, T, T)> for Point3d<T> {
    open spec fn obeys_from_spec() -> bool {
        true
    }

    open spec fn from_spec(coords: (T, T, T)) -> Self {
        Point3d { xyz: XYZ { x: coords.0, y: coords.1, z: coords.2 } }
    }
}

/// Coordinate `0` is `x`, `1` is `y`, `2` is `z`.
impl<T: Scalar> Index<usize> for Point3d<T> {
    type Output = T;

    fn index(&self, index: usize) -> (r: &T)
        ensures
            *r == self.xyz.at(index as int),
    {
        match index {
            0 => &self.xyz.x,
            1 => &self.xyz.y,
            2 => &self.xyz.z,
            _ => unreached(),
        }
    }
}

impl<T: Scalar> vstd::std_specs::core::IndexSpecImpl<usize> for Point3d<T> {
    open spec fn index_req(&self, index: &usize) -> bool {
        *index < 3
    }
}

impl<T: Scalar> IndexMut<usize> for Point3d<T> {
    fn index_mut(&mut self, index: usize) -> (r: &mut T)
        requires
            index < 3,
        ensures
            *r == old(self).xyz.at(index as int),
            final(self).xyz == old(self).xyz.with(index as int, *final(r)),
    {
        match index {
            0 => &mut self.xyz.x,
            1 => &mut self.xyz.y,
            2 => &mut self.xyz.z,
            _ => unreached(),
        }
    }
}

impl<T: Scalar + std::fmt::Display> Point3d<T> {
    /// `s` is the text of the value: the name and the coordinates, as `Point3d(x, y, z)`.
    pub open spec fn is_text(self, s: Seq<char>) -> bool {
        exists|part0: Seq<char>|
            {
                &&& lists(seq![self.xyz.x, self.xyz.y, self.xyz.z], part0)
                &&& s == "Point3d("@ + part0 + ")"@
            }
    }

    pub fn to_string(&self) -> (r: String)
        ensures
            self.is_text(r@),
    {
        let mut s = String::from_str("Point3d(");
        let ghost b0 = s@;
        let a0 = [self.xyz.x, self.xyz.y, self.xyz.z];
        push_list(&mut s, a0.as_slice());
        let ghost part0 = choose|p: Seq<char>| lists(a0@, p) && s@ == b0 + p;
        assert(a0@ =~= seq![self.xyz.x, self.xyz.y, self.xyz.z]);
        s.append(")");
        assert(s@ =~= "Point3d("@ + part0 + ")"@);
        s
    }
}

} // verus!
