//! Axes: a point and a direction through it.
use crate::direction2d::Direction2d;
use crate::direction3d::Direction3d;
use crate::point2d::Point2d;
use crate::point3d::Point3d;
use crate::scalar::{lawful, Scalar};
use crate::xy::XY;
use crate::xyz::XYZ;
use vstd::prelude::*;
use vstd::string::StringExecFns;

verus! {

/// An axis of the plane: the point it passes through and its direction.
#[derive(Debug, Clone, Copy, PartialEq)]
pub struct Axis2<T> {
    pub location: Point2d<T>,
    pub direction: Direction2d<T>,
}

impl<T: Scalar> Axis2<T> {
    /// What a new value holds: the origin and the direction of the
    /// first axis.
    pub open spec fn initial() -> Self {
        Axis2 {
            location: Point2d { xy: XY::<T>::origin() },
            direction: Direction2d::<T>::first_axis(),
        }
    }

    /// The first axis of the coordinates.
    pub fn new() -> (r: Self)
        ensures
            lawful::<T>() ==> r == Self::initial(),
    {
        Axis2 { location: Point2d::new(), direction: Direction2d::new() }
    }

    pub fn from_location_direction(location: Point2d<T>, direction: Direction2d<T>) -> (r: Self)
        ensures
            r == (Axis2 { location, direction }),
    {
        Axis2 { location, direction }
    }
}

/// An axis of the plane: the point it passes through and its direction.
#[derive(Debug, Clone, Copy, PartialEq)]
pub struct Axis2d<T> {
    pub location: Point2d<T>,
    pub direction: Direction2d<T>,
}

impl<T: Scalar> Axis2d<T> {
    /// What a new value holds: the origin and the direction of the
    /// first axis.
    pub open spec fn initial() -> Self {
        Axis2d {
            location: Point2d { xy: XY::<T>::origin() },
            direction: Direction2d::<T>::first_axis(),
        }
    }

    /// The value with `location` replaced.
    pub open spec fn with_location(self, location: Point2d<T>) -> Self {
        Axis2d { location: location, ..self }
    }

    /// The value with `direction` replaced.
    pub open spec fn with_direction(self, direction: Direction2d<T>) -> Self {
        Axis2d { direction: direction, ..self }
    }

    /// The first axis of the coordinates.
    pub fn new() -> (r: Self)
        ensures
            lawful::<T>() ==> r == Self::initial(),
    {
        Axis2d { location: Point2d::new(), direction: Direction2d::new() }
    }

    pub fn from_location_direction(location: Point2d<T>, direction: Direction2d<T>) -> (r: Self)
        ensures
            r == (Axis2d { location, direction }),
    {
        Axis2d { location, direction }
    }

    pub fn get_location(&self) -> (r: &Point2d<T>)
        ensures
            *r == self.location,
    {
        &self.location
    }

    pub fn set_location(&mut self, location: Point2d<T>)
        ensures
            *final(self) == old(self).with_location(location),
    {
        self.location = location;
    }

    pub fn get_direction(&self) -> (r: &Direction2d<T>)
        ensures
            *r == self.direction,
    {
        &self.direction
    }

    pub fn set_direction(&mut self, direction: Direction2d<T>)
        ensures
            *final(self) == old(self).with_direction(direction),
    {
        self.direction = direction;
    }
}

/// An axis of the space: the point it passes through and its direction.
#[derive(Debug, Clone, Copy, PartialEq)]
pub struct Axis3<T> {
    pub location: Point3d<T>,
    pub direction: Direction3d<T>,
}

impl<T: Scalar> Axis3<T> {
    /// What a new value holds: the origin and the direction of the
    /// first axis.
    pub open spec fn initial() -> Self {
        Axis3 {
            location: Point3d { xyz: XYZ::<T>::origin() },
            direction: Direction3d::<T>::first_axis(),
        }
    }

    /// The first axis of the coordinates.
    pub fn new() -> (r: Self)
        ensures
            lawful::<T>() ==> r == Self::initial(),
    {
        Axis3 { location: Point3d::new(), direction: Direction3d::new() }
    }
}

/// An axis of the space: the point it passes through and its direction.
#[derive(Debug, Clone, Copy, PartialEq)]
pub struct Axis3d<T> {
    pub location: Point3d<T>,
    pub direction: Direction3d<T>,
}

impl<T: Scalar> Axis3d<T> {
    /// What a new value holds: the origin and the direction of the
    /// first axis.
    pub open spec fn initial() -> Self {
        Axis3d {
            location: Point3d { xyz: XYZ::<T>::origin() },
            direction: Direction3d::<T>::first_axis(),
        }
    }

    /// The value with `location` replaced.
    pub open spec fn with_location(self, location: Point3d<T>) -> Self {
        Axis3d { location: location, ..self }
    }

    /// The value with `direction` replaced.
    pub open spec fn with_direction(self, direction: Direction3d<T>) -> Self {
        Axis3d { direction: direction, ..self }
    }

    /// The first axis of the coordinates.
    pub fn new() -> (r: Self)
        ensures
            lawful::<T>() ==> r == Self::initial(),
    {
        Axis3d { location: Point3d::new(), direction: Direction3d::new() }
    }

    pub fn from_location_direction(location: Point3d<T>, direction: Direction3d<T>) -> (r: Self)
        ensures
            r == (Axis3d { location, direction }),
    {
        Axis3d { location, direction }
    }

    pub fn get_location(&self) -> (r: &Point3d<T>)
        ensures
            *r == self.location,
    {
        &self.location
    }

    pub fn set_location(&mut self, location: Point3d<T>)
        ensures
            *final(self) == old(self).with_location(location),
    {
        self.location = location;
    }

    pub fn get_direction(&self) -> (r: &Direction3d<T>)
        ensures
            *r == self.direction,
    {
        &self.direction
    }

    pub fn set_direction(&mut self, direction: Direction3d<T>)
        ensures
            *final(self) == old(self).with_direction(direction),
    {
        self.direction = direction;
    }
}

impl<T: Scalar + std::fmt::Display> Axis2<T> {
    /// `s` is the text of the value: the point and the direction, as
    /// `Axis2(location, direction)`.
    pub open spec fn is_text(self, s: Seq<char>) -> bool {
        exists|part0: Seq<char>, part1: Seq<char>|
            {
                &&& self.location.is_text(part0)
                &&& self.direction.is_text(part1)
                &&& s == "Axis2("@ + part0 + ", "@ + part1 + ")"@
            }
    }

    pub fn to_string(&self) -> (r: String)
        ensures
            self.is_text(r@),
    {
        let mut s = String::from_str("Axis2(");
        let t0 = self.location.to_string();
        s.append(t0.as_str());
        let ghost part0 = t0@;
        s.append(", ");
        let t1 = self.direction.to_string();
        s.append(t1.as_str());
        let ghost part1 = t1@;
        s.append(")");
        assert(s@ =~= "Axis2("@ + part0 + ", "@ + part1 + ")"@);
        s
    }
}

impl<T: Scalar + std::fmt::Display> Axis2d<T> {
    /// `s` is the text of the value: the point and the direction, as
    /// `Axis2(location, direction)`.
    pub open spec fn is_text(self, s: Seq<char>) -> bool {
        exists|part0: Seq<char>, part1: Seq<char>|
            {
                &&& self.location.is_text(part0)
                &&& self.direction.is_text(part1)
                &&& s == "Axis2("@ + part0 + ", "@ + part1 + ")"@
            }
    }

    pub fn to_string(&self) -> (r: String)
        ensures
            self.is_text(r@),
    {
        let mut s = String::from_str("Axis2(");
        let t0 = self.location.to_string();
        s.append(t0.as_str());
        let ghost part0 = t0@;
        s.append(", ");
        let t1 = self.direction.to_string();
        s.append(t1.as_str());
        let ghost part1 = t1@;
        s.append(")");
        assert(s@ =~= "Axis2("@ + part0 + ", "@ + part1 + ")"@);
        s
    }
}

impl<T: Scalar + std::fmt::Display> Axis3<T> {
    /// `s` is the text of the value: the point and the direction, as
    /// `Axis3(location, direction)`.
    pub open spec fn is_text(self, s: Seq<char>) -> bool {
        exists|part0: Seq<char>, part1: Seq<char>|
            {
                &&& self.location.is_text(part0)
                &&& self.direction.is_text(part1)
                &&& s == "Axis3("@ + part0 + ", "@ + part1 + ")"@
            }
    }

    pub fn to_string(&self) -> (r: String)
        ensures
            self.is_text(r@),
    {
        let mut s = String::from_str("Axis3(");
        let t0 = self.location.to_string();
        s.append(t0.as_str());
        let ghost part0 = t0@;
        s.append(", ");
        let t1 = self.direction.to_string();
        s.append(t1.as_str());
        let ghost part1 = t1@;
        s.append(")");
        assert(s@ =~= "Axis3("@ + part0 + ", "@ + part1 + ")"@);
        s
    }
}

impl<T: Scalar + std::fmt::Display> Axis3d<T> {
    /// `s` is the text of the value: the point and the direction, as
    /// `Axis3(location, direction)`.
    pub open spec fn is_text(self, s: Seq<char>) -> bool {
        exists|part0: Seq<char>, part1: Seq<char>|
            {
                &&& self.location.is_text(part0)
                &&& self.direction.is_text(part1)
                &&& s == "Axis3("@ + part0 + ", "@ + part1 + ")"@
            }
    }

    pub fn to_string(&self) -> (r: String)
        ensures
            self.is_text(r@),
    {
        let mut s = String::from_str("Axis3(");
        let t0 = self.location.to_string();
        s.append(t0.as_str());
        let ghost part0 = t0@;
        s.append(", ");
        let t1 = self.direction.to_string();
        s.append(t1.as_str());
        let ghost part1 = t1@;
        s.append(")");
        assert(s@ =~= "Axis3("@ + part0 + ", "@ + part1 + ")"@);
        s
    }
}

} // verus!
