//! Curves and surfaces, each a position and its measures.
use crate::coordinate_system::{CoordinateSystem2d, CoordinateSystem3d, GeneralCoordinateSystem3d};
use crate::matrix3::Matrix3;
use crate::scalar::Scalar;
use crate::text::{push_shown, shows};
use crate::trsfform::TrsfForm;
use crate::xyz::XYZ;
use vstd::prelude::*;
use vstd::string::StringExecFns;

verus! {

/// A circle of the plane.
#[derive(Debug, Clone, Copy, PartialEq)]
pub struct Circle2d<T> {
    pub position: CoordinateSystem2d<T>,
    pub radius: T,
}

/// A circle of space, in the plane of its position.
#[derive(Debug, Clone, Copy, PartialEq)]
pub struct Circle3d<T> {
    pub position: CoordinateSystem3d<T>,
    pub radius: T,
}

/// An ellipse of space.
#[derive(Debug, Clone, Copy, PartialEq)]
pub struct Ellipse3d<T> {
    pub position: CoordinateSystem3d<T>,
    pub major_radius: T,
    pub minor_radius: T,
}

/// A hyperbola of the plane.
#[derive(Debug, Clone, Copy, PartialEq)]
pub struct Hyperbola2d<T> {
    pub position: CoordinateSystem2d<T>,
    pub major_radius: T,
    pub minor_radius: T,
}

/// A parabola of the plane.
#[derive(Debug, Clone, Copy, PartialEq)]
pub struct Parabola2d<T> {
    pub pos: CoordinateSystem2d<T>,
    pub focal_length: T,
}

/// A parabola of space.
#[derive(Debug, Clone, Copy, PartialEq)]
pub struct Parabola3d<T> {
    pub pos: CoordinateSystem3d<T>,
    pub focal_length: T,
}

/// A cone: the radius at its position and half its opening angle.
#[derive(Debug, Clone, Copy, PartialEq)]
pub struct Cone<T> {
    pub position: GeneralCoordinateSystem3d<T>,
    pub radius: T,
    pub semi_angle: T,
}

/// A cylinder about the main axis of its position.
#[derive(Debug, Clone, Copy, PartialEq)]
pub struct Cylinder<T> {
    pub position: GeneralCoordinateSystem3d<T>,
    pub radius: T,
}

/// A plane, spanned by the two directions of its position.
#[derive(Debug, Clone, Copy, PartialEq)]
pub struct Plane<T> {
    pub pos: GeneralCoordinateSystem3d<T>,
}

/// A sphere about the origin of its position.
#[derive(Debug, Clone, Copy, PartialEq)]
pub struct Sphere<T> {
    pub pos: GeneralCoordinateSystem3d<T>,
    pub radius: T,
}

/// A torus about the main axis of its position.
#[derive(Debug, Clone, Copy, PartialEq)]
pub struct Torus<T> {
    pub pos: GeneralCoordinateSystem3d<T>,
    pub major_radius: T,
    pub minor_radius: T,
}

/// A quaternion `w + x i + y j + z k`.
#[derive(Debug, Clone, Copy, PartialEq)]
pub struct Quaternion<T> {
    pub x: T,
    pub y: T,
    pub z: T,
    pub w: T,
}

/// The two ends of a normalised linear interpolation of rotations.
#[derive(Debug, Clone, Copy, PartialEq)]
pub struct QuaternionNlerp<T> {
    pub start: Quaternion<T>,
    pub end: Quaternion<T>,
}

/// The two ends of a spherical interpolation of rotations and the angle
/// between them.
#[derive(Debug, Clone, Copy, PartialEq)]
pub struct QuaternionSlerp<T> {
    pub start: Quaternion<T>,
    pub end: Quaternion<T>,
    pub omega: T,
}

/// A transform of space: `p' = scale * matrix * p + loc`, with the tag of
/// the kind it was set as.
#[derive(Debug, Clone, Copy, PartialEq)]
pub struct Trsf3d<T> {
    pub matrix: Matrix3<T>,
    pub loc: XYZ<T>,
    pub trsf_type: TrsfForm,
    pub scale: T,
}

impl<T: Scalar + std::fmt::Display> Circle2d<T> {
    /// `s` is the text of the value: its parts by name.
    pub open spec fn is_text(self, s: Seq<char>) -> bool {
        exists|part0: Seq<char>, part1: Seq<char>|
            {
                &&& self.position.is_text(part0)
                &&& shows(self.radius, part1)
                &&& s == "Circle2d(position: "@ + part0 + ", radius: "@ + part1 + ")"@
            }
    }

    pub fn to_string(&self) -> (r: String)
        ensures
            self.is_text(r@),
    {
        let mut s = String::from_str("Circle2d(position: ");
        let t0 = self.position.to_string();
        s.append(t0.as_str());
        let ghost part0 = t0@;
        s.append(", radius: ");
        let ghost b1 = s@;
        push_shown(&mut s, &self.radius);
        let ghost part1 = choose|p: Seq<char>| shows(self.radius, p) && s@ == b1 + p;
        s.append(")");
        assert(s@ =~= "Circle2d(position: "@ + part0 + ", radius: "@ + part1 + ")"@);
        s
    }
}

impl<T: Scalar + std::fmt::Display> Circle3d<T> {
    /// `s` is the text of the value: its parts by name.
    pub open spec fn is_text(self, s: Seq<char>) -> bool {
        exists|part0: Seq<char>, part1: Seq<char>|
            {
                &&& self.position.is_text(part0)
                &&& shows(self.radius, part1)
                &&& s == "Circle3d(position: "@ + part0 + ", radius: "@ + part1 + ")"@
            }
    }

    pub fn to_string(&self) -> (r: String)
        ensures
            self.is_text(r@),
    {
        let mut s = String::from_str("Circle3d(position: ");
        let t0 = self.position.to_string();
        s.append(t0.as_str());
        let ghost part0 = t0@;
        s.append(", radius: ");
        let ghost b1 = s@;
        push_shown(&mut s, &self.radius);
        let ghost part1 = choose|p: Seq<char>| shows(self.radius, p) && s@ == b1 + p;
        s.append(")");
        assert(s@ =~= "Circle3d(position: "@ + part0 + ", radius: "@ + part1 + ")"@);
        s
    }
}

impl<T: Scalar + std::fmt::Display> Cone<T> {
    /// `s` is the text of the value: its parts by name.
    pub open spec fn is_text(self, s: Seq<char>) -> bool {
        exists|part0: Seq<char>, part1: Seq<char>, part2: Seq<char>|
            {
                &&& self.position.is_text(part0)
                &&& shows(self.radius, part1)
                &&& shows(self.semi_angle, part2)
                &&& s == "Cone(position: "@ + part0 + ", radius: "@ + part1 + ", semi_angle: "@ + part2 + ")"@
            }
    }

    pub fn to_string(&self) -> (r: String)
        ensures
            self.is_text(r@),
    {
        let mut s = String::from_str("Cone(position: ");
        let t0 = self.position.to_string();
        s.append(t0.as_str());
        let ghost part0 = t0@;
        s.append(", radius: ");
        let ghost b1 = s@;
        push_shown(&mut s, &self.radius);
        let ghost part1 = choose|p: Seq<char>| shows(self.radius, p) && s@ == b1 + p;
        s.append(", semi_angle: ");
        let ghost b2 = s@;
        push_shown(&mut s, &self.semi_angle);
        let ghost part2 = choose|p: Seq<char>| shows(self.semi_angle, p) && s@ == b2 + p;
        s.append(")");
        assert(s@ =~= "Cone(position: "@ + part0 + ", radius: "@ + part1 + ", semi_angle: "@ + part2 + ")"@);
        s
    }
}

} // verus!
