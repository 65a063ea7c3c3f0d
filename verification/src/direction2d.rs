//! A direction of the plane.
use crate::angle::{planar_formula, planar_formula_spec, AngleFormula};
use crate::scalar::{abs, gt, lawful, le, magnitude, one, zero, Scalar};
use crate::text::{lists, push_list};
use crate::xy::XY;
use vstd::prelude::*;
use vstd::std_specs::ops::{NegSpec, SubSpec};
use vstd::string::StringExecFns;

verus! {

/// A vector meant to have the length 1. A direction is made from
/// coordinates by dividing them by their length, which the caller measures:
/// the square root is not an operator of the scalar.
#[derive(Debug, Clone, Copy, PartialEq)]
pub struct Direction2d<T> {
    pub xy: XY<T>,
}

impl<T: Scalar> Direction2d<T> {
    /// The direction of the first axis, `(1, 0)`.
    pub open spec fn first_axis() -> Self {
        Direction2d { xy: XY { x: one::<T>(), y: zero::<T>() } }
    }

    /// `|pi/2 - |angle|| <= tolerance`.
    pub open spec fn orthogonal_angle(angle: T, frac_pi_2: T, tolerance: T) -> bool {
        le(magnitude(frac_pi_2.sub_spec(magnitude(angle))), tolerance)
    }

    /// `pi - |angle| <= tolerance`.
    pub open spec fn opposite_angle(angle: T, pi: T, tolerance: T) -> bool {
        le(pi.sub_spec(magnitude(angle)), tolerance)
    }

    /// `|angle| <= tolerance` or `pi - |angle| <= tolerance`.
    pub open spec fn parallel_angle(angle: T, pi: T, tolerance: T) -> bool {
        le(magnitude(angle), tolerance) || Self::opposite_angle(angle, pi, tolerance)
    }

    /// The direction `(1, 0)`.
    pub fn new() -> (r: Self)
        ensures
            lawful::<T>() ==> r == Self::first_axis(),
    {
        Direction2d { xy: XY::from_coords(T::from(1i8), T::from(0i8)) }
    }

    /// The direction of `xy`, whose length is `modulus`.
    pub fn from_xy(xy: XY<T>, modulus: T) -> (r: Self)
        requires
            lawful::<T>(),
            gt(modulus, zero::<T>()),
            xy.divided_req(modulus),
        ensures
            r.xy == xy.divided_spec(modulus),
    {
        let mut d = Direction2d { xy };
        d.xy.normalize(modulus);
        d
    }

    /// The direction of `(x, y)`, whose length is `modulus`.
    pub fn from_coords(x: T, y: T, modulus: T) -> (r: Self)
        requires
            lawful::<T>(),
            gt(modulus, zero::<T>()),
            (XY { x, y }).divided_req(modulus),
        ensures
            r.xy == (XY { x, y }).divided_spec(modulus),
    {
        let mut d = Direction2d { xy: XY::from_coords(x, y) };
        d.xy.normalize(modulus);
        d
    }

    pub fn get_coords(&self) -> (r: (T, T))
        ensures
            r == self.xy.coord_spec(),
    {
        (self.xy.x, self.xy.y)
    }

    /// Sets the direction of `(x, y)`, whose length is `modulus`.
    pub fn set_coords(&mut self, x: T, y: T, modulus: T)
        requires
            lawful::<T>(),
            gt(modulus, zero::<T>()),
            (XY { x, y }).divided_req(modulus),
        ensures
            final(self).xy == (XY { x, y }).divided_spec(modulus),
    {
        self.xy.x = x;
        self.xy.y = y;
        self.xy.normalize(modulus);
    }

    pub fn get_x(&self) -> (r: T)
        ensures
            r == self.xy.x,
    {
        self.xy.x
    }

    pub fn get_y(&self) -> (r: T)
        ensures
            r == self.xy.y,
    {
        self.xy.y
    }

    pub fn get_xy(&self) -> (r: &XY<T>)
        ensures
            *r == self.xy,
    {
        &self.xy
    }

    /// Sets the direction of `xy`, whose length is `modulus`.
    pub fn set_xy(&mut self, xy: XY<T>, modulus: T)
        requires
            lawful::<T>(),
            gt(modulus, zero::<T>()),
            xy.divided_req(modulus),
        ensures
            final(self).xy == xy.divided_spec(modulus),
    {
        self.xy = xy;
        self.xy.normalize(modulus);
    }

    /// Whether each coordinate lies within `tolerance` of `other`'s.
    pub fn is_equal(&self, other: &Self, tolerance: T) -> (r: bool)
        requires
            lawful::<T>(),
            self.xy.is_equal_req(other.xy, tolerance),
        ensures
            r == self.xy.is_equal_spec(other.xy, tolerance),
    {
        self.xy.is_equal(&other.xy, tolerance)
    }

    /// The formula that gives the signed angle from this direction to
    /// `other`. Between directions the dot product is the cosine and the
    /// cross product the sine.
    pub fn angle_formula(&self, other: &Self, bound: T) -> (r: AngleFormula)
        requires
            lawful::<T>(),
            bound.neg_req(),
            self.xy.dot_req(other.xy),
            self.xy.cross_req(other.xy),
        ensures
            r == planar_formula_spec(
                self.xy.dot_spec(other.xy),
                self.xy.cross_spec(other.xy),
                bound,
            ),
    {
        let cosinus = self.xy.dot(&other.xy);
        let sinus = self.xy.cross(&other.xy);
        planar_formula(cosinus, sinus, bound)
    }

    /// Whether `angle` is a right angle within the tolerance.
    pub fn is_orthogonal(angle: T, frac_pi_2: T, tolerance: T) -> (r: bool)
        requires
            lawful::<T>(),
            angle.neg_req(),
            frac_pi_2.sub_req(magnitude(angle)),
            frac_pi_2.sub_spec(magnitude(angle)).neg_req(),
        ensures
            r == Self::orthogonal_angle(angle, frac_pi_2, tolerance),
    {
        let ang = abs(frac_pi_2 - abs(angle));
        ang <= tolerance
    }

    /// Whether `angle` is a straight angle within the tolerance.
    pub fn is_opposite(angle: T, pi: T, tolerance: T) -> (r: bool)
        requires
            lawful::<T>(),
            angle.neg_req(),
            pi.sub_req(magnitude(angle)),
        ensures
            r == Self::opposite_angle(angle, pi, tolerance),
    {
        let ang = pi - abs(angle);
        ang <= tolerance
    }

    /// Whether `angle` is zero or a straight angle within the tolerance.
    pub fn is_parallel(angle: T, pi: T, tolerance: T) -> (r: bool)
        requires
            lawful::<T>(),
            angle.neg_req(),
            !le(magnitude(angle), tolerance) ==> pi.sub_req(magnitude(angle)),
        ensures
            r == Self::parallel_angle(angle, pi, tolerance),
    {
        let ang = abs(angle);
        ang <= tolerance || (pi - ang) <= tolerance
    }

    pub fn cross(&self, other: &Self) -> (r: T)
        requires
            lawful::<T>(),
            self.xy.cross_req(other.xy),
        ensures
            r == self.xy.cross_spec(other.xy),
    {
        self.xy.cross(&other.xy)
    }

    pub fn dot(&self, other: &Self) -> (r: T)
        requires
            lawful::<T>(),
            self.xy.dot_req(other.xy),
        ensures
            r == self.xy.dot_spec(other.xy),
    {
        self.xy.dot(&other.xy)
    }

    pub fn reverse(&mut self)
        requires
            lawful::<T>(),
            old(self).xy.reverse_req(),
        ensures
            final(self).xy == old(self).xy.reverse_spec(),
    {
        self.xy.reverse();
    }

    pub fn reverse_new(&self) -> (r: Self)
        requires
            lawful::<T>(),
            self.xy.reverse_req(),
        ensures
            r.xy == self.xy.reverse_spec(),
    {
        let mut new_dir = *self;
        new_dir.reverse();
        new_dir
    }
}

impl<T: Scalar> Default for Direction2d<T> {
    fn default() -> (r: Self)
        ensures
            lawful::<T>() ==> r == Self::first_axis(),
    {
        Direction2d { xy: XY::from_coords(T::from(1i8), T::from(0i8)) }
    }
}

impl<T: Scalar + std::fmt::Display> Direction2d<T> {
    /// `s` is the text of the value: the name and the coordinates, as `Direction2d(x, y)`.
    pub open spec fn is_text(self, s: Seq<char>) -> bool {
        exists|part0: Seq<char>|
            {
                &&& lists(seq![self.xy.x, self.xy.y], part0)
                &&& s == "Direction2d("@ + part0 + ")"@
            }
    }

    pub fn to_string(&self) -> (r: String)
        ensures
            self.is_text(r@),
    {
        let mut s = String::from_str("Direction2d(");
        let ghost b0 = s@;
        let a0 = [self.xy.x, self.xy.y];
        push_list(&mut s, a0.as_slice());
        let ghost part0 = choose|p: Seq<char>| lists(a0@, p) && s@ == b0 + p;
        assert(a0@ =~= seq![self.xy.x, self.xy.y]);
        s.append(")");
        assert(s@ =~= "Direction2d("@ + part0 + ")"@);
        s
    }
}

} // verus!
