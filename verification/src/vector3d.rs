//! A vector of space.
use crate::scalar::{lawful, Scalar};
use crate::text::{lists, push_list};
use crate::xyz::XYZ;
use std::ops::{Index, IndexMut};
use vstd::prelude::*;
use vstd::string::StringExecFns;

verus! {

/// A displacement in space, held as its three coordinates.
#[derive(Debug, Clone, Copy, PartialEq)]
pub struct Vector3d<T> {
    pub xyz: XYZ<T>,
}

impl<T: Scalar> Vector3d<T> {
    /// The vector at the origin.
    pub fn new() -> (r: Self)
        ensures
            lawful::<T>() ==> r.xyz == XYZ::<T>::origin(),
    {
        Vector3d { xyz: XYZ::new() }
    }

    pub fn from_xyz(xyz: XYZ<T>) -> (r: Self)
        ensures
            r.xyz == xyz,
    {
        Vector3d { xyz }
    }

    pub fn from_coordinates(x: T, y: T, z: T) -> (r: Self)
        ensures
            r.xyz == (XYZ { x, y, z }),
    {
        Vector3d { xyz: XYZ { x, y, z } }
    }

    pub fn from_coords(x: T, y: T, z: T) -> (r: Self)
        ensures
            r.xyz == (XYZ { x, y, z }),
    {
        Vector3d { xyz: XYZ { x, y, z } }
    }

    pub fn x(&self) -> (r: T)
        ensures
            r == self.xyz.x,
    {
        self.xyz.x
    }

    pub fn get_x(&self) -> (r: T)
        ensures
            r == self.xyz.x,
    {
        self.xyz.x
    }

    pub fn set_x(&mut self, x: T)
        ensures
            final(self).xyz == (XYZ { x, ..old(self).xyz }),
    {
        self.xyz.x = x;
    }

    pub fn y(&self) -> (r: T)
        ensures
            r == self.xyz.y,
    {
        self.xyz.y
    }

    pub fn get_y(&self) -> (r: T)
        ensures
            r == self.xyz.y,
    {
        self.xyz.y
    }

    pub fn set_y(&mut self, y: T)
        ensures
            final(self).xyz == (XYZ { y, ..old(self).xyz }),
    {
        self.xyz.y = y;
    }

    pub fn z(&self) -> (r: T)
        ensures
            r == self.xyz.z,
    {
        self.xyz.z
    }

    pub fn get_z(&self) -> (r: T)
        ensures
            r == self.xyz.z,
    {
        self.xyz.z
    }

    pub fn set_z(&mut self, z: T)
        ensures
            final(self).xyz == (XYZ { z, ..old(self).xyz }),
    {
        self.xyz.z = z;
    }

    /// The coordinates, borrowed.
    pub fn xyz(&self) -> (r: &XYZ<T>)
        ensures
            *r == self.xyz,
    {
        &self.xyz
    }

    /// The coordinates, copied.
    pub fn get_xyz(&self) -> (r: XYZ<T>)
        ensures
            r == self.xyz,
    {
        self.xyz
    }

    pub fn set_xyz(&mut self, xyz: XYZ<T>)
        ensures
            final(self).xyz == xyz,
    {
        self.xyz = xyz;
    }

    pub fn coord(&self) -> (r: (T, T, T))
        ensures
            r == self.xyz.coord_spec(),
    {
        (self.xyz.x, self.xyz.y, self.xyz.z)
    }

    pub fn get_coords(&self) -> (r: (T, T, T))
        ensures
            r == self.xyz.coord_spec(),
    {
        (self.xyz.x, self.xyz.y, self.xyz.z)
    }

    pub fn set_coord(&mut self, x: T, y: T, z: T)
        ensures
            final(self).xyz == (XYZ { x, y, z }),
    {
        self.xyz = XYZ { x, y, z };
    }

    pub fn set_coords(&mut self, x: T, y: T, z: T)
        ensures
            final(self).xyz == (XYZ { x, y, z }),
    {
        self.xyz = XYZ { x, y, z };
    }

    /// Whether each coordinate lies within `epsilon` of `other`'s.
    pub fn is_equal(&self, other: &Self, epsilon: T) -> (r: bool)
        requires
            lawful::<T>(),
            self.xyz.is_equal_req(other.xyz, epsilon),
        ensures
            r == self.xyz.is_equal_spec(other.xyz, epsilon),
    {
        self.xyz.is_equal(&other.xyz, epsilon)
    }

    /// The squared length, `x * x + y * y + z * z`.
    pub fn squared_length(&self) -> (r: T)
        requires
            lawful::<T>(),
            self.xyz.dot_req(self.xyz),
        ensures
            r == self.xyz.dot_spec(self.xyz),
    {
        self.xyz.squared_length()
    }
}

impl<T: Scalar> From<(T, T, T)> for Vector3d<T> {
    fn from(coords: (T, T, T)) -> (r: Self)
        ensures
            r.xyz == (XYZ { x: coords.0, y: coords.1, z: coords.2 }),
    {
        Vector3d { xyz: XYZ { x: coords.0, y: coords.1, z: coords.2 } }
    }
}

impl<T: Scalar> vstd::std_specs::convert::FromSpecImpl<(T, T, T)> for Vector3d<T> {
    open spec fn obeys_from_spec() -> bool {
        true
    }

    open spec fn from_spec(coords: (T, T, T)) -> Self {
        Vector3d { xyz: XYZ { x: coords.0, y: coords.1, z: coords.2 } }
    }
}

/// Coordinate `0` is `x`, `1` is `y`, `2` is `z`.
impl<T: Scalar> Index<usize> for Vector3d<T> {
    type Output = T;

    fn index(&self, index: usize) -> (r: &T)
        ensures
            *r == self.xyz.at(index as int),
    {
        match index {
            0 => &self.xyz.x,
            1 => &self.xyz.y,
            2 => &self.xyz.z,
            _ => unreached(),
        }
    }
}

impl<T: Scalar> vstd::std_specs::core::IndexSpecImpl<usize> for Vector3d<T> {
    open spec fn index_req(&self, index: &usize) -> bool {
        *index < 3
    }
}

impl<T: Scalar> IndexMut<usize> for Vector3d<T> {
    fn index_mut(&mut self, index: usize) -> (r: &mut T)
        requires
            index < 3,
        ensures
            *r == old(self).xyz.at(index as int),
            final(self).xyz == old(self).xyz.with(index as int, *final(r)),
    {
        match index {
            0 => &mut self.xyz.x,
            1 => &mut self.xyz.y,
            2 => &mut self.xyz.z,
            _ => unreached(),
        }
    }
}

impl<T: Scalar + std::fmt::Display> Vector3d<T> {
    /// `s` is the text of the value: the name and the coordinates, as `Vector3d(x, y, z)`.
    pub open spec fn is_text(self, s: Seq<char>) -> bool {
        exists|part0: Seq<char>|
            {
                &&& lists(seq![self.xyz.x, self.xyz.y, self.xyz.z], part0)
                &&& s == "Vector3d("@ + part0 + ")"@
            }
    }

    pub fn to_string(&self) -> (r: String)
        ensures
            self.is_text(r@),
    {
        let mut s = String::from_str("Vector3d(");
        let ghost b0 = s@;
        let a0 = [self.xyz.x, self.xyz.y, self.xyz.z];
        push_list(&mut s, a0.as_slice());
        let ghost part0 = choose|p: Seq<char>| lists(a0@, p) && s@ == b0 + p;
        assert(a0@ =~= seq![self.xyz.x, self.xyz.y, self.xyz.z]);
        s.append(")");
        assert(s@ =~= "Vector3d("@ + part0 + ")"@);
        s
    }
}

} // verus!
