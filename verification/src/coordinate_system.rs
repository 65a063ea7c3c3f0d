//! Coordinate systems: an origin and the directions of the axes.
use crate::axis::Axis3d;
use crate::direction2d::Direction2d;
use crate::direction3d::Direction3d;
use crate::point2d::Point2d;
use crate::point3d::Point3d;
use crate::scalar::{lawful, Scalar};
use crate::xy::XY;
use vstd::prelude::*;
use vstd::string::StringExecFns;

verus! {

/// A coordinate system of the plane: its origin and the direction of its
/// first axis.
#[derive(Debug, Clone, Copy, PartialEq)]
pub struct CoordinateSystem2d<T> {
    pub origin: Point2d<T>,
    pub vdir: Direction2d<T>,
}

impl<T: Scalar> CoordinateSystem2d<T> {
    /// What a new value holds: the origin and the direction of the
    /// first axis.
    pub open spec fn initial() -> Self {
        CoordinateSystem2d {
            origin: Point2d { xy: XY::<T>::origin() },
            vdir: Direction2d::<T>::first_axis(),
        }
    }

    /// The value with `origin` replaced.
    pub open spec fn with_origin(self, origin: Point2d<T>) -> Self {
        CoordinateSystem2d { origin: origin, ..self }
    }

    /// The value with `vdir` replaced.
    pub open spec fn with_vdir(self, vdir: Direction2d<T>) -> Self {
        CoordinateSystem2d { vdir: vdir, ..self }
    }

    /// The coordinate system that the coordinates are given in.
    pub fn new() -> (r: Self)
        ensures
            lawful::<T>() ==> r == Self::initial(),
    {
        CoordinateSystem2d { origin: Point2d::new(), vdir: Direction2d::new() }
    }

    pub fn from_origin_vydir_vxdir(origin: Point2d<T>, vdir: Direction2d<T>) -> (r: Self)
        ensures
            r == (CoordinateSystem2d { origin, vdir }),
    {
        CoordinateSystem2d { origin, vdir }
    }

    pub fn get_origin(&self) -> (r: &Point2d<T>)
        ensures
            *r == self.origin,
    {
        &self.origin
    }

    pub fn set_origin(&mut self, origin: Point2d<T>)
        ensures
            *final(self) == old(self).with_origin(origin),
    {
        self.origin = origin;
    }

    pub fn get_dir(&self) -> (r: &Direction2d<T>)
        ensures
            *r == self.vdir,
    {
        &self.vdir
    }

    pub fn set_dir(&mut self, vdir: Direction2d<T>)
        ensures
            *final(self) == old(self).with_vdir(vdir),
    {
        self.vdir = vdir;
    }
}

/// A coordinate system of space: its main axis and the directions of the
/// other two.
#[derive(Debug, Clone, Copy, PartialEq)]
pub struct CoordinateSystem3d<T> {
    pub axis: Axis3d<T>,
    pub vydir: Direction3d<T>,
    pub vxdir: Direction3d<T>,
}

impl<T: Scalar> CoordinateSystem3d<T> {
    /// What a new value holds: the first axis of the coordinates, three
    /// times.
    pub open spec fn initial() -> Self {
        CoordinateSystem3d {
            axis: Axis3d::<T>::initial(),
            vydir: Direction3d::<T>::first_axis(),
            vxdir: Direction3d::<T>::first_axis(),
        }
    }

    /// The value with `axis.location` replaced.
    pub open spec fn with_axis_location(self, origin: Point3d<T>) -> Self {
        CoordinateSystem3d { axis: Axis3d { location: origin, ..self.axis }, ..self }
    }

    /// The value with `axis` replaced.
    pub open spec fn with_axis(self, axis: Axis3d<T>) -> Self {
        CoordinateSystem3d { axis: axis, ..self }
    }

    /// The value with `vydir` replaced.
    pub open spec fn with_vydir(self, vydir: Direction3d<T>) -> Self {
        CoordinateSystem3d { vydir: vydir, ..self }
    }

    /// The value with `vxdir` replaced.
    pub open spec fn with_vxdir(self, vxdir: Direction3d<T>) -> Self {
        CoordinateSystem3d { vxdir: vxdir, ..self }
    }

    /// The coordinate system whose three directions are all the first axis.
    pub fn new() -> (r: Self)
        ensures
            lawful::<T>() ==> r == Self::initial(),
    {
        CoordinateSystem3d { axis: Axis3d::new(), vydir: Direction3d::new(), vxdir: Direction3d::new() }
    }

    pub fn from_axis_vydir_vxdir(axis: Axis3d<T>, vydir: Direction3d<T>, vxdir: Direction3d<T>) -> (r: Self)
        ensures
            r == (CoordinateSystem3d { axis, vydir, vxdir }),
    {
        CoordinateSystem3d { axis, vydir, vxdir }
    }

    pub fn get_origin(&self) -> (r: &Point3d<T>)
        ensures
            *r == self.axis.location,
    {
        &self.axis.location
    }

    pub fn set_origin(&mut self, origin: Point3d<T>)
        ensures
            *final(self) == old(self).with_axis_location(origin),
    {
        self.axis.location = origin;
    }

    pub fn get_axis(&self) -> (r: &Axis3d<T>)
        ensures
            *r == self.axis,
    {
        &self.axis
    }

    pub fn set_axis(&mut self, axis: Axis3d<T>)
        ensures
            *final(self) == old(self).with_axis(axis),
    {
        self.axis = axis;
    }

    pub fn get_vydir(&self) -> (r: &Direction3d<T>)
        ensures
            *r == self.vydir,
    {
        &self.vydir
    }

    pub fn set_vydir(&mut self, vydir: Direction3d<T>)
        ensures
            *final(self) == old(self).with_vydir(vydir),
    {
        self.vydir = vydir;
    }

    pub fn get_vxdir(&self) -> (r: &Direction3d<T>)
        ensures
            *r == self.vxdir,
    {
        &self.vxdir
    }

    pub fn set_vxdir(&mut self, vxdir: Direction3d<T>)
        ensures
            *final(self) == old(self).with_vxdir(vxdir),
    {
        self.vxdir = vxdir;
    }
}

/// A coordinate system of space whose axes need not be at right angles.
#[derive(Debug, Clone, Copy, PartialEq)]
pub struct GeneralCoordinateSystem3d<T> {
    pub axis: Axis3d<T>,
    pub vydir: Direction3d<T>,
    pub vxdir: Direction3d<T>,
}

impl<T: Scalar + std::fmt::Display> CoordinateSystem2d<T> {
    /// `s` is the text of the value: its parts by name.
    pub open spec fn is_text(self, s: Seq<char>) -> bool {
        exists|part0: Seq<char>, part1: Seq<char>|
            {
                &&& self.origin.is_text(part0)
                &&& self.vdir.is_text(part1)
                &&& s == "CoordinateSystem2d(origin: "@ + part0 + ", vdir: "@ + part1 + ")"@
            }
    }

    pub fn to_string(&self) -> (r: String)
        ensures
            self.is_text(r@),
    {
        let mut s = String::from_str("CoordinateSystem2d(origin: ");
        let t0 = self.origin.to_string();
        s.append(t0.as_str());
        let ghost part0 = t0@;
        s.append(", vdir: ");
        let t1 = self.vdir.to_string();
        s.append(t1.as_str());
        let ghost part1 = t1@;
        s.append(")");
        assert(s@ =~= "CoordinateSystem2d(origin: "@ + part0 + ", vdir: "@ + part1 + ")"@);
        s
    }
}

impl<T: Scalar + std::fmt::Display> CoordinateSystem3d<T> {
    /// `s` is the text of the value: its parts by name.
    pub open spec fn is_text(self, s: Seq<char>) -> bool {
        exists|part0: Seq<char>, part1: Seq<char>, part2: Seq<char>|
            {
                &&& self.axis.is_text(part0)
                &&& self.vydir.is_text(part1)
                &&& self.vxdir.is_text(part2)
                &&& s == "CoordinateSystem3d(axis: "@ + part0 + ", vydir: "@ + part1 + ", vxdir: "@ + part2 + ")"@
            }
    }

    pub fn to_string(&self) -> (r: String)
        ensures
            self.is_text(r@),
    {
        let mut s = String::from_str("CoordinateSystem3d(axis: ");
        let t0 = self.axis.to_string();
        s.append(t0.as_str());
        let ghost part0 = t0@;
        s.append(", vydir: ");
        let t1 = self.vydir.to_string();
        s.append(t1.as_str());
        let ghost part1 = t1@;
        s.append(", vxdir: ");
        let t2 = self.vxdir.to_string();
        s.append(t2.as_str());
        let ghost part2 = t2@;
        s.append(")");
        assert(s@ =~= "CoordinateSystem3d(axis: "@ + part0 + ", vydir: "@ + part1 + ", vxdir: "@ + part2 + ")"@);
        s
    }
}

impl<T: Scalar + std::fmt::Display> GeneralCoordinateSystem3d<T> {
    /// `s` is the text of the value: its parts by name.
    pub open spec fn is_text(self, s: Seq<char>) -> bool {
        exists|part0: Seq<char>, part1: Seq<char>, part2: Seq<char>|
            {
                &&& self.axis.is_text(part0)
                &&& self.vydir.is_text(part1)
                &&& self.vxdir.is_text(part2)
                &&& s == "GeneralCoordinateSystem3d(axis: "@ + part0 + ", vydir: "@ + part1 + ", vxdir: "@ + part2 + ")"@
            }
    }

    pub fn to_string(&self) -> (r: String)
        ensures
            self.is_text(r@),
    {
        let mut s = String::from_str("GeneralCoordinateSystem3d(axis: ");
        let t0 = self.axis.to_string();
        s.append(t0.as_str());
        let ghost part0 = t0@;
        s.append(", vydir: ");
        let t1 = self.vydir.to_string();
        s.append(t1.as_str());
        let ghost part1 = t1@;
        s.append(", vxdir: ");
        let t2 = self.vxdir.to_string();
        s.append(t2.as_str());
        let ghost part2 = t2@;
        s.append(")");
        assert(s@ =~= "GeneralCoordinateSystem3d(axis: "@ + part0 + ", vydir: "@ + part1 + ", vxdir: "@ + part2 + ")"@);
        s
    }
}

} // verus!
