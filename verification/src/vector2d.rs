//! A vector of the plane.
use crate::point2d::Point2d;
use crate::scalar::{
    abs, gt, lawful, le, lt, magnitude, mul_add, mul_add_req, one, two, zero, Scalar,
};
use crate::text::{lists, push_list};
use crate::xy::XY;
use std::ops::{
    Add, AddAssign, Div, DivAssign, Index, IndexMut, Mul, MulAssign, Neg, Sub, SubAssign,
};
use vstd::prelude::*;
use vstd::std_specs::ops::{AddSpec, DivSpec, MulSpec, NegSpec, SubSpec};
use vstd::string::StringExecFns;

verus! {

/// A displacement in the plane, held as its two coordinates.
#[derive(Debug, Clone, Copy, PartialEq)]
pub struct Vector2d<T> {
    pub xy: XY<T>,
}

impl<T: Scalar> Vector2d<T> {
    /// The displacement from `from` to `to`.
    pub open spec fn between(from: Point2d<T>, to: Point2d<T>) -> Self {
        Vector2d { xy: XY { x: to.xy.x.sub_spec(from.xy.x), y: to.xy.y.sub_spec(from.xy.y) } }
    }

    /// Either length is too small to carry a direction.
    pub open spec fn degenerate(mag: T, other_mag: T, min_positive: T) -> bool {
        le(mag, min_positive) || le(other_mag, min_positive)
    }

    /// The cosine and the sine of the angle to `other`: the dot and the cross
    /// product, each divided by the product of the two lengths.
    pub open spec fn cos_sin_spec(self, other: Self, mag: T, other_mag: T) -> (T, T) {
        let d = mag.mul_spec(other_mag);
        (self.xy.dot_spec(other.xy).div_spec(d), self.xy.cross_spec(other.xy).div_spec(d))
    }

    pub open spec fn cos_sin_req(self, other: Self, mag: T, other_mag: T) -> bool {
        let d = mag.mul_spec(other_mag);
        &&& mag.mul_req(other_mag)
        &&& self.xy.dot_req(other.xy)
        &&& self.xy.dot_spec(other.xy).div_req(d)
        &&& self.xy.cross_req(other.xy)
        &&& self.xy.cross_spec(other.xy).div_req(d)
    }

    /// The two lengths differ by no more than the tolerance.
    pub open spec fn equal_length(mag: T, other_mag: T, linear_tolerance: T) -> bool {
        le(magnitude(mag.sub_spec(other_mag)), linear_tolerance)
    }

    /// Both lengths are above the tolerance, so that the angle counts.
    pub open spec fn angle_counts(mag: T, other_mag: T, linear_tolerance: T) -> bool {
        gt(mag, linear_tolerance) && gt(other_mag, linear_tolerance)
    }

    /// The angle is within the tolerance of a right angle:
    /// `|pi/2 - |angle|| < tolerance`.
    pub open spec fn orthogonal_angle(angle: T, frac_pi_2: T, tolerance: T) -> bool {
        lt(magnitude(frac_pi_2.sub_spec(magnitude(angle))), tolerance)
    }

    /// The angle is within the tolerance of a straight angle:
    /// `|pi - |angle|| < tolerance`.
    pub open spec fn opposite_angle(angle: T, pi: T, tolerance: T) -> bool {
        lt(magnitude(pi.sub_spec(magnitude(angle))), tolerance)
    }

    /// The angle is within the tolerance of zero or of a straight angle.
    pub open spec fn parallel_angle(angle: T, pi: T, tolerance: T) -> bool {
        Self::opposite_angle(angle, pi, tolerance) || lt(magnitude(angle), tolerance)
    }

    /// The operators accept each step of `|c - |angle||`.
    pub open spec fn angle_gap_req(angle: T, c: T) -> bool {
        &&& angle.neg_req()
        &&& c.sub_req(magnitude(angle))
        &&& c.sub_spec(magnitude(angle)).neg_req()
    }

    /// What `mirror_by_vector2d` leaves where `other` has the length `d`.
    /// With `a = x/d`, `b = y/d` for `other`'s coordinates `x`, `y`:
    /// `((2aa - 1) x + 2ab y, 2ab x + (2bb - 1) y)`.
    pub open spec fn mirror_spec(other: Self, d: T) -> Self {
        let x = other.xy.x;
        let y = other.xy.y;
        let a = x.div_spec(d);
        let b = y.div_spec(d);
        let m1 = two::<T>().mul_spec(a).mul_spec(b);
        let p = two::<T>().mul_spec(a).mul_spec(a).sub_spec(one::<T>());
        let q = two::<T>().mul_spec(b).mul_spec(b).sub_spec(one::<T>());
        Vector2d { xy: XY { x: mul_add(p, x, m1, y), y: mul_add(m1, x, q, y) } }
    }

    pub open spec fn mirror_req(other: Self, d: T) -> bool {
        let x = other.xy.x;
        let y = other.xy.y;
        let a = x.div_spec(d);
        let b = y.div_spec(d);
        let m1 = two::<T>().mul_spec(a).mul_spec(b);
        let p = two::<T>().mul_spec(a).mul_spec(a).sub_spec(one::<T>());
        let q = two::<T>().mul_spec(b).mul_spec(b).sub_spec(one::<T>());
        &&& x.div_req(d)
        &&& y.div_req(d)
        &&& two::<T>().mul_req(a)
        &&& two::<T>().mul_spec(a).mul_req(b)
        &&& two::<T>().mul_spec(a).mul_req(a)
        &&& two::<T>().mul_spec(a).mul_spec(a).sub_req(one::<T>())
        &&& two::<T>().mul_req(b)
        &&& two::<T>().mul_spec(b).mul_req(b)
        &&& two::<T>().mul_spec(b).mul_spec(b).sub_req(one::<T>())
        &&& mul_add_req(p, x, m1, y)
        &&& mul_add_req(m1, x, q, y)
    }

    /// The vector at the origin.
    pub fn new() -> (r: Self)
        ensures
            lawful::<T>() ==> r.xy == XY::<T>::origin(),
    {
        Vector2d { xy: XY::new() }
    }

    pub fn from_xy(xy: XY<T>) -> (r: Self)
        ensures
            r.xy == xy,
    {
        Vector2d { xy }
    }

    pub fn from_coordinates(x: T, y: T) -> (r: Self)
        ensures
            r.xy == (XY { x, y }),
    {
        Vector2d { xy: XY { x, y } }
    }

    pub fn from_coords(x: T, y: T) -> (r: Self)
        ensures
            r.xy == (XY { x, y }),
    {
        Vector2d { xy: XY { x, y } }
    }

    pub fn x(&self) -> (r: T)
        ensures
            r == self.xy.x,
    {
        self.xy.x
    }

    pub fn get_x(&self) -> (r: T)
        ensures
            r == self.xy.x,
    {
        self.xy.x
    }

    pub fn set_x(&mut self, x: T)
        ensures
            final(self).xy == (XY { x, ..old(self).xy }),
    {
        self.xy.x = x;
    }

    pub fn y(&self) -> (r: T)
        ensures
            r == self.xy.y,
    {
        self.xy.y
    }

    pub fn get_y(&self) -> (r: T)
        ensures
            r == self.xy.y,
    {
        self.xy.y
    }

    pub fn set_y(&mut self, y: T)
        ensures
            final(self).xy == (XY { y, ..old(self).xy }),
    {
        self.xy.y = y;
    }

    /// The coordinates, borrowed.
    pub fn xy(&self) -> (r: &XY<T>)
        ensures
            *r == self.xy,
    {
        &self.xy
    }

    /// The coordinates, copied.
    pub fn get_xy(&self) -> (r: XY<T>)
        ensures
            r == self.xy,
    {
        self.xy
    }

    pub fn set_xy(&mut self, xy: XY<T>)
        ensures
            final(self).xy == xy,
    {
        self.xy = xy;
    }

    pub fn coord(&self) -> (r: (T, T))
        ensures
            r == self.xy.coord_spec(),
    {
        (self.xy.x, self.xy.y)
    }

    pub fn get_coords(&self) -> (r: (T, T))
        ensures
            r == self.xy.coord_spec(),
    {
        (self.xy.x, self.xy.y)
    }

    pub fn set_coord(&mut self, x: T, y: T)
        ensures
            final(self).xy == (XY { x, y }),
    {
        self.xy = XY { x, y };
    }

    pub fn set_coords(&mut self, x: T, y: T)
        ensures
            final(self).xy == (XY { x, y }),
    {
        self.xy = XY { x, y };
    }

    /// The vector from `from` to `to`.
    pub fn from_2point2d(from: &Point2d<T>, to: &Point2d<T>) -> (r: Self)
        requires
            lawful::<T>(),
            to.xy.x.sub_req(from.xy.x),
            to.xy.y.sub_req(from.xy.y),
        ensures
            r == Self::between(*from, *to),
    {
        Vector2d { xy: XY::from_coordinates(to.x() - from.x(), to.y() - from.y()) }
    }

    /// The squared length, `x * x + y * y`.
    pub fn square_length(&self) -> (r: T)
        requires
            lawful::<T>(),
            self.xy.dot_req(self.xy),
        ensures
            r == self.xy.dot_spec(self.xy),
    {
        self.xy.square_modulus()
    }

    /// The squared length, `x * x + y * y`.
    pub fn squared_length(&self) -> (r: T)
        requires
            lawful::<T>(),
            self.xy.dot_req(self.xy),
        ensures
            r == self.xy.dot_spec(self.xy),
    {
        self.xy.square_modulus()
    }

    /// The cosine and the sine of the angle from this vector to `other`,
    /// given the lengths of the two as the caller measured them. A vector
    /// whose length does not exceed `min_positive` has no angle to any other.
    pub fn cos_sin_to(&self, other: &Self, mag: T, other_mag: T, min_positive: T) -> (r: Result<
        (T, T),
        &'static str,
    >)
        requires
            lawful::<T>(),
            !Self::degenerate(mag, other_mag, min_positive) ==> self.cos_sin_req(
                *other,
                mag,
                other_mag,
            ),
        ensures
            Self::degenerate(mag, other_mag, min_positive) ==> {
                &&& r matches Err(e)
                &&& e@ == "Cannot calculate angle to zero vector"@
            },
            !Self::degenerate(mag, other_mag, min_positive) ==> r == Ok::<(T, T), &'static str>(
                self.cos_sin_spec(*other, mag, other_mag),
            ),
    {
        if mag <= min_positive || other_mag <= min_positive {
            return Err("Cannot calculate angle to zero vector");
        }
        let d = mag * other_mag;
        let cosinus = self.xy.dot(&other.xy) / d;
        let sinus = self.xy.cross(&other.xy) / d;
        Ok((cosinus, sinus))
    }

    /// Whether two vectors agree in length and direction, told from their
    /// lengths and the angle between them. The lengths must agree within
    /// `linear_tolerance`; where both exceed it, the angle must exist and lie
    /// within `angular_tolerance` of zero.
    pub fn is_equal(
        mag: T,
        other_mag: T,
        linear_tolerance: T,
        angle: Result<T, &'static str>,
        angular_tolerance: T,
    ) -> (r: Result<bool, &'static str>)
        requires
            lawful::<T>(),
            mag.sub_req(other_mag),
            mag.sub_spec(other_mag).neg_req(),
            angle matches Ok(a) ==> a.neg_req(),
        ensures
            !Self::angle_counts(mag, other_mag, linear_tolerance) ==> r == Ok::<
                bool,
                &'static str,
            >(Self::equal_length(mag, other_mag, linear_tolerance)),
            Self::angle_counts(mag, other_mag, linear_tolerance) ==> match angle {
                Ok(a) => r == Ok::<bool, &'static str>(
                    Self::equal_length(mag, other_mag, linear_tolerance) && le(
                        magnitude(a),
                        angular_tolerance,
                    ),
                ),
                Err(e) => r == Err::<bool, &'static str>(e),
            },
    {
        let val = abs(mag - other_mag);
        let is_equal_length = val <= linear_tolerance;
        if mag > linear_tolerance && other_mag > linear_tolerance {
            match angle {
                Ok(a) => {
                    let ang = abs(a);
                    return Ok(is_equal_length && ang <= angular_tolerance);
                },
                Err(e) => {
                    return Err(e);
                },
            }
        }
        Ok(is_equal_length)
    }

    /// Whether the angle between two vectors is a right angle within the
    /// tolerance. An angle that could not be taken stays an error.
    pub fn is_orthogonal(angle: Result<T, &'static str>, frac_pi_2: T, ang_tolerance: T) -> (r:
        Result<bool, &'static str>)
        requires
            lawful::<T>(),
            angle matches Ok(a) ==> Self::angle_gap_req(a, frac_pi_2),
        ensures
            match angle {
                Ok(a) => r == Ok::<bool, &'static str>(
                    Self::orthogonal_angle(a, frac_pi_2, ang_tolerance),
                ),
                Err(e) => r == Err::<bool, &'static str>(e),
            },
    {
        match angle {
            Ok(a) => {
                let ang = abs(frac_pi_2 - abs(a));
                Ok(ang < ang_tolerance)
            },
            Err(e) => Err(e),
        }
    }

    /// Whether the angle between two vectors is a straight angle within the
    /// tolerance. An angle that could not be taken stays an error.
    pub fn is_opposite(angle: Result<T, &'static str>, pi: T, ang_tolerance: T) -> (r: Result<
        bool,
        &'static str,
    >)
        requires
            lawful::<T>(),
            angle matches Ok(a) ==> Self::angle_gap_req(a, pi),
        ensures
            match angle {
                Ok(a) => r == Ok::<bool, &'static str>(Self::opposite_angle(a, pi, ang_tolerance)),
                Err(e) => r == Err::<bool, &'static str>(e),
            },
    {
        match angle {
            Ok(a) => {
                let ang = abs(a);
                Ok(abs(pi - ang) < ang_tolerance)
            },
            Err(e) => Err(e),
        }
    }

    /// Whether the angle between two vectors is zero or a straight angle
    /// within the tolerance. An angle that could not be taken stays an error.
    pub fn is_parallel(angle: Result<T, &'static str>, pi: T, ang_tolerance: T) -> (r: Result<
        bool,
        &'static str,
    >)
        requires
            lawful::<T>(),
            angle matches Ok(a) ==> Self::angle_gap_req(a, pi),
        ensures
            match angle {
                Ok(a) => r == Ok::<bool, &'static str>(Self::parallel_angle(a, pi, ang_tolerance)),
                Err(e) => r == Err::<bool, &'static str>(e),
            },
    {
        match angle {
            Ok(a) => {
                let ang = abs(a);
                Ok(abs(pi - ang) < ang_tolerance || ang < ang_tolerance)
            },
            Err(e) => Err(e),
        }
    }

    /// The signed area spanned with `other`.
    pub fn cross(&self, other: &Self) -> (r: T)
        requires
            lawful::<T>(),
            self.xy.cross_req(other.xy),
        ensures
            r == self.xy.cross_spec(other.xy),
    {
        self.xy.cross(&other.xy)
    }

    /// The area spanned with `other`, without its sign.
    pub fn cross_abs(&self, other: &Self) -> (r: T)
        requires
            lawful::<T>(),
            self.xy.cross_req(other.xy),
            self.xy.cross_spec(other.xy).neg_req(),
        ensures
            r == magnitude(self.xy.cross_spec(other.xy)),
    {
        abs(self.xy.cross(&other.xy))
    }

    /// The square of the area spanned with `other`.
    pub fn square_cross_abs(&self, other: &Self) -> (r: T)
        requires
            lawful::<T>(),
            self.xy.square_cross_req(other.xy),
        ensures
            r == self.xy.square_cross_spec(other.xy),
    {
        self.xy.square_cross(&other.xy)
    }

    pub fn dot(&self, other: &Self) -> (r: T)
        requires
            lawful::<T>(),
            self.xy.dot_req(other.xy),
        ensures
            r == self.xy.dot_spec(other.xy),
    {
        self.xy.dot(&other.xy)
    }

    /// Divides the vector by `modulus`, its length as the caller measured it.
    pub fn normalize(&mut self, modulus: T)
        requires
            lawful::<T>(),
            gt(modulus, zero::<T>()),
            old(self).xy.divided_req(modulus),
        ensures
            final(self).xy == old(self).xy.divided_spec(modulus),
    {
        self.xy.normalize(modulus);
    }

    pub fn normalize_new(&self, modulus: T) -> (r: Self)
        requires
            lawful::<T>(),
            gt(modulus, zero::<T>()),
            self.xy.divided_req(modulus),
        ensures
            r.xy == self.xy.divided_spec(modulus),
    {
        let mut result = *self;
        result.normalize(modulus);
        result
    }

    pub fn reverse(&mut self)
        requires
            lawful::<T>(),
            old(self).xy.reverse_req(),
        ensures
            final(self).xy == old(self).xy.reverse_spec(),
    {
        self.xy.reverse();
    }

    pub fn reverse_new(&self) -> (r: Self)
        requires
            lawful::<T>(),
            self.xy.reverse_req(),
        ensures
            r.xy == self.xy.reverse_spec(),
    {
        let mut result = *self;
        result.reverse();
        result
    }

    /// Sets the vector to `a1 * v1 + a2 * v2`.
    pub fn set_linear_form_2(&mut self, a1: T, v1: &Vector2d<T>, a2: T, v2: &Vector2d<T>)
        requires
            lawful::<T>(),
            XY::linear_form_2_req(a1, v1.xy, a2, v2.xy),
        ensures
            final(self).xy == XY::linear_form_2(a1, v1.xy, a2, v2.xy),
    {
        self.xy.set_linear_form_2(a1, &v1.xy, a2, &v2.xy);
    }

    /// Sets the vector to `a1 * v1 + v2`.
    pub fn set_linear_form_2a(&mut self, a1: T, v1: &Vector2d<T>, v2: &Vector2d<T>)
        requires
            lawful::<T>(),
            XY::linear_form_2a_req(a1, v1.xy, v2.xy),
        ensures
            final(self).xy == XY::linear_form_2a(a1, v1.xy, v2.xy),
    {
        self.xy.set_linear_form_2a(a1, &v1.xy, &v2.xy);
    }

    /// Sets the vector to `v1 + v2`.
    pub fn set_linear_form_2b(&mut self, v1: &Vector2d<T>, v2: &Vector2d<T>)
        requires
            lawful::<T>(),
            XY::linear_form_2b_req(v1.xy, v2.xy),
        ensures
            final(self).xy == XY::linear_form_2b(v1.xy, v2.xy),
    {
        self.xy.set_linear_form_2b(&v1.xy, &v2.xy);
    }

    /// Sets the vector to `a1 * v1 + a2 * v2 + v3`.
    pub fn set_linear_form_3(
        &mut self,
        a1: T,
        v1: &Vector2d<T>,
        a2: T,
        v2: &Vector2d<T>,
        v3: &Vector2d<T>,
    )
        requires
            lawful::<T>(),
            XY::linear_form_3_req(a1, v1.xy, a2, v2.xy, v3.xy),
        ensures
            final(self).xy == XY::linear_form_3(a1, v1.xy, a2, v2.xy, v3.xy),
    {
        self.xy.set_linear_form_3(a1, &v1.xy, a2, &v2.xy, &v3.xy);
    }

    /// Mirrors the vector by the line along `other`, whose length `d` the
    /// caller measured. Where `d` does not exceed `min_positive` the vector
    /// stays as it is. The image is built from `other`'s coordinates alone.
    pub fn mirror_by_vector2d(&mut self, other: &Self, d: T, min_positive: T)
        requires
            lawful::<T>(),
            gt(d, min_positive) ==> Self::mirror_req(*other, d),
        ensures
            gt(d, min_positive) ==> *final(self) == Self::mirror_spec(*other, d),
            !gt(d, min_positive) ==> *final(self) == *old(self),
    {
        if d > min_positive {
            let x = other.x();
            let y = other.y();
            let a = x / d;
            let b = y / d;
            let one = T::from(1i8);
            let two = T::from(2i8);
            let m1 = two * a * b;
            self.set_x(((two * a * a) - one) * x + m1 * y);
            self.set_y(m1 * x + ((two * b * b - one) * y));
        }
    }

    pub fn mirror_by_vector2d_new(&self, other: &Self, d: T, min_positive: T) -> (r: Self)
        requires
            lawful::<T>(),
            gt(d, min_positive) ==> Self::mirror_req(*other, d),
        ensures
            gt(d, min_positive) ==> r == Self::mirror_spec(*other, d),
            !gt(d, min_positive) ==> r == *self,
    {
        let mut result = *self;
        result.mirror_by_vector2d(other, d, min_positive);
        result
    }

    /// Multiplies both coordinates by `scale`.
    pub fn scale(&mut self, scale: T)
        requires
            lawful::<T>(),
            old(self).xy.x.mul_req(scale),
            old(self).xy.y.mul_req(scale),
        ensures
            final(self).xy == (XY {
                x: old(self).xy.x.mul_spec(scale),
                y: old(self).xy.y.mul_spec(scale),
            }),
    {
        self.xy.mul_assign(scale);
    }

    pub fn scale_new(&self, scale: T) -> (r: Self)
        requires
            lawful::<T>(),
            self.xy.x.mul_req(scale),
            self.xy.y.mul_req(scale),
        ensures
            r.xy == (XY { x: self.xy.x.mul_spec(scale), y: self.xy.y.mul_spec(scale) }),
    {
        let mut result = *self;
        result.scale(scale);
        result
    }
}

impl<T: Scalar> From<(T, T)> for Vector2d<T> {
    fn from(coords: (T, T)) -> (r: Self)
        ensures
            r.xy == (XY { x: coords.0, y: coords.1 }),
    {
        Vector2d { xy: XY { x: coords.0, y: coords.1 } }
    }
}

impl<T: Scalar> vstd::std_specs::convert::FromSpecImpl<(T, T)> for Vector2d<T> {
    open spec fn obeys_from_spec() -> bool {
        true
    }

    open spec fn from_spec(coords: (T, T)) -> Self {
        Vector2d { xy: XY { x: coords.0, y: coords.1 } }
    }
}

impl<T: Scalar> From<[T; 2]> for Vector2d<T> {
    fn from(coords: [T; 2]) -> (r: Self)
        ensures
            r.xy == (XY { x: coords[0], y: coords[1] }),
    {
        Vector2d { xy: XY { x: coords[0], y: coords[1] } }
    }
}

impl<T: Scalar> vstd::std_specs::convert::FromSpecImpl<[T; 2]> for Vector2d<T> {
    open spec fn obeys_from_spec() -> bool {
        true
    }

    open spec fn from_spec(coords: [T; 2]) -> Self {
        Vector2d { xy: XY { x: coords[0], y: coords[1] } }
    }
}

/// Coordinate `0` is `x`, `1` is `y`.
impl<T: Scalar> Index<usize> for Vector2d<T> {
    type Output = T;

    fn index(&self, index: usize) -> (r: &T)
        ensures
            *r == self.xy.at(index as int),
    {
        match index {
            0 => &self.xy.x,
            1 => &self.xy.y,
            _ => unreached(),
        }
    }
}

impl<T: Scalar> vstd::std_specs::core::IndexSpecImpl<usize> for Vector2d<T> {
    open spec fn index_req(&self, index: &usize) -> bool {
        *index < 2
    }
}

impl<T: Scalar> IndexMut<usize> for Vector2d<T> {
    fn index_mut(&mut self, index: usize) -> (r: &mut T)
        requires
            index < 2,
        ensures
            *r == old(self).xy.at(index as int),
            final(self).xy == old(self).xy.with(index as int, *final(r)),
    {
        match index {
            0 => &mut self.xy.x,
            1 => &mut self.xy.y,
            _ => unreached(),
        }
    }
}

/// The value with every coordinate negated.
impl<T: Scalar> Neg for &Vector2d<T> {
    type Output = Vector2d<T>;

    fn neg(self) -> (r: Vector2d<T>)
        ensures
            T::obeys_neg_spec() ==> r == (Vector2d {
                xy: XY {
                    x: self.xy.x.neg_spec(),
                    y: self.xy.y.neg_spec(),
                },
            }),
    {
        Vector2d { xy: XY { x: self.xy.x.neg(), y: self.xy.y.neg() } }
    }
}

impl<T: Scalar> vstd::std_specs::ops::NegSpecImpl for &Vector2d<T> {
    open spec fn obeys_neg_spec() -> bool {
        T::obeys_neg_spec()
    }

    open spec fn neg_req(self) -> bool {
        self.xy.x.neg_req() && self.xy.y.neg_req()
    }

    open spec fn neg_spec(self) -> Vector2d<T> {
        Vector2d { xy: XY { x: self.xy.x.neg_spec(), y: self.xy.y.neg_spec() } }
    }
}

/// Coordinate-wise sum with another value, in place.
impl<T: Scalar> AddAssign<&Vector2d<T>> for Vector2d<T> {
    fn add_assign(&mut self, other: &Vector2d<T>)
        requires
            T::obeys_add_spec(),
            old(self).xy.x.add_req(other.xy.x),
            old(self).xy.y.add_req(other.xy.y),
        ensures
            *final(self) == (Vector2d {
                xy: XY {
                    x: old(self).xy.x.add_spec(other.xy.x),
                    y: old(self).xy.y.add_spec(other.xy.y),
                },
            }),
    {
        self.xy = XY { x: self.xy.x + other.xy.x, y: self.xy.y + other.xy.y };
    }
}

/// The sum of each coordinate and a scalar, in place.
impl<T: Scalar> AddAssign<T> for Vector2d<T> {
    fn add_assign(&mut self, other: T)
        requires
            T::obeys_add_spec(),
            old(self).xy.x.add_req(other),
            old(self).xy.y.add_req(other),
        ensures
            *final(self) == (Vector2d {
                xy: XY {
                    x: old(self).xy.x.add_spec(other),
                    y: old(self).xy.y.add_spec(other),
                },
            }),
    {
        self.xy = XY { x: self.xy.x + other, y: self.xy.y + other };
    }
}

/// Coordinate-wise sum of two values.
impl<T: Scalar> Add<&Vector2d<T>> for &Vector2d<T> {
    type Output = Vector2d<T>;

    fn add(self, other: &Vector2d<T>) -> (r: Vector2d<T>)
        ensures
            T::obeys_add_spec() ==> r == (Vector2d {
                xy: XY {
                    x: self.xy.x.add_spec(other.xy.x),
                    y: self.xy.y.add_spec(other.xy.y),
                },
            }),
    {
        Vector2d { xy: XY { x: self.xy.x + other.xy.x, y: self.xy.y + other.xy.y } }
    }
}

impl<T: Scalar> vstd::std_specs::ops::AddSpecImpl<&Vector2d<T>> for &Vector2d<T> {
    open spec fn obeys_add_spec() -> bool {
        T::obeys_add_spec()
    }

    open spec fn add_req(self, other: &Vector2d<T>) -> bool {
        self.xy.x.add_req(other.xy.x) && self.xy.y.add_req(other.xy.y)
    }

    open spec fn add_spec(self, other: &Vector2d<T>) -> Vector2d<T> {
        Vector2d { xy: XY { x: self.xy.x.add_spec(other.xy.x), y: self.xy.y.add_spec(other.xy.y) } }
    }
}

/// The sum of each coordinate and a scalar.
impl<T: Scalar> Add<T> for &Vector2d<T> {
    type Output = Vector2d<T>;

    fn add(self, other: T) -> (r: Vector2d<T>)
        ensures
            T::obeys_add_spec() ==> r == (Vector2d {
                xy: XY {
                    x: self.xy.x.add_spec(other),
                    y: self.xy.y.add_spec(other),
                },
            }),
    {
        Vector2d { xy: XY { x: self.xy.x + other, y: self.xy.y + other } }
    }
}

impl<T: Scalar> vstd::std_specs::ops::AddSpecImpl<T> for &Vector2d<T> {
    open spec fn obeys_add_spec() -> bool {
        T::obeys_add_spec()
    }

    open spec fn add_req(self, other: T) -> bool {
        self.xy.x.add_req(other) && self.xy.y.add_req(other)
    }

    open spec fn add_spec(self, other: T) -> Vector2d<T> {
        Vector2d { xy: XY { x: self.xy.x.add_spec(other), y: self.xy.y.add_spec(other) } }
    }
}

/// Coordinate-wise difference with another value, in place.
impl<T: Scalar> SubAssign<&Vector2d<T>> for Vector2d<T> {
    fn sub_assign(&mut self, other: &Vector2d<T>)
        requires
            T::obeys_sub_spec(),
            old(self).xy.x.sub_req(other.xy.x),
            old(self).xy.y.sub_req(other.xy.y),
        ensures
            *final(self) == (Vector2d {
                xy: XY {
                    x: old(self).xy.x.sub_spec(other.xy.x),
                    y: old(self).xy.y.sub_spec(other.xy.y),
                },
            }),
    {
        self.xy = XY { x: self.xy.x - other.xy.x, y: self.xy.y - other.xy.y };
    }
}

/// The difference of each coordinate and a scalar, in place.
impl<T: Scalar> SubAssign<T> for Vector2d<T> {
    fn sub_assign(&mut self, other: T)
        requires
            T::obeys_sub_spec(),
            old(self).xy.x.sub_req(other),
            old(self).xy.y.sub_req(other),
        ensures
            *final(self) == (Vector2d {
                xy: XY {
                    x: old(self).xy.x.sub_spec(other),
                    y: old(self).xy.y.sub_spec(other),
                },
            }),
    {
        self.xy = XY { x: self.xy.x - other, y: self.xy.y - other };
    }
}

/// Coordinate-wise difference of two values.
impl<T: Scalar> Sub<&Vector2d<T>> for &Vector2d<T> {
    type Output = Vector2d<T>;

    fn sub(self, other: &Vector2d<T>) -> (r: Vector2d<T>)
        ensures
            T::obeys_sub_spec() ==> r == (Vector2d {
                xy: XY {
                    x: self.xy.x.sub_spec(other.xy.x),
                    y: self.xy.y.sub_spec(other.xy.y),
                },
            }),
    {
        Vector2d { xy: XY { x: self.xy.x - other.xy.x, y: self.xy.y - other.xy.y } }
    }
}

impl<T: Scalar> vstd::std_specs::ops::SubSpecImpl<&Vector2d<T>> for &Vector2d<T> {
    open spec fn obeys_sub_spec() -> bool {
        T::obeys_sub_spec()
    }

    open spec fn sub_req(self, other: &Vector2d<T>) -> bool {
        self.xy.x.sub_req(other.xy.x) && self.xy.y.sub_req(other.xy.y)
    }

    open spec fn sub_spec(self, other: &Vector2d<T>) -> Vector2d<T> {
        Vector2d { xy: XY { x: self.xy.x.sub_spec(other.xy.x), y: self.xy.y.sub_spec(other.xy.y) } }
    }
}

/// The difference of each coordinate and a scalar.
impl<T: Scalar> Sub<T> for &Vector2d<T> {
    type Output = Vector2d<T>;

    fn sub(self, other: T) -> (r: Vector2d<T>)
        ensures
            T::obeys_sub_spec() ==> r == (Vector2d {
                xy: XY {
                    x: self.xy.x.sub_spec(other),
                    y: self.xy.y.sub_spec(other),
                },
            }),
    {
        Vector2d { xy: XY { x: self.xy.x - other, y: self.xy.y - other } }
    }
}

impl<T: Scalar> vstd::std_specs::ops::SubSpecImpl<T> for &Vector2d<T> {
    open spec fn obeys_sub_spec() -> bool {
        T::obeys_sub_spec()
    }

    open spec fn sub_req(self, other: T) -> bool {
        self.xy.x.sub_req(other) && self.xy.y.sub_req(other)
    }

    open spec fn sub_spec(self, other: T) -> Vector2d<T> {
        Vector2d { xy: XY { x: self.xy.x.sub_spec(other), y: self.xy.y.sub_spec(other) } }
    }
}

/// The quotient of each coordinate and a scalar, in place.
impl<T: Scalar> DivAssign<T> for Vector2d<T> {
    fn div_assign(&mut self, other: T)
        requires
            T::obeys_div_spec(),
            old(self).xy.x.div_req(other),
            old(self).xy.y.div_req(other),
        ensures
            *final(self) == (Vector2d {
                xy: XY {
                    x: old(self).xy.x.div_spec(other),
                    y: old(self).xy.y.div_spec(other),
                },
            }),
    {
        self.xy = XY { x: self.xy.x / other, y: self.xy.y / other };
    }
}

/// The quotient of each coordinate and a scalar.
impl<T: Scalar> Div<T> for &Vector2d<T> {
    type Output = Vector2d<T>;

    fn div(self, other: T) -> (r: Vector2d<T>)
        ensures
            T::obeys_div_spec() ==> r == (Vector2d {
                xy: XY {
                    x: self.xy.x.div_spec(other),
                    y: self.xy.y.div_spec(other),
                },
            }),
    {
        Vector2d { xy: XY { x: self.xy.x / other, y: self.xy.y / other } }
    }
}

impl<T: Scalar> vstd::std_specs::ops::DivSpecImpl<T> for &Vector2d<T> {
    open spec fn obeys_div_spec() -> bool {
        T::obeys_div_spec()
    }

    open spec fn div_req(self, other: T) -> bool {
        self.xy.x.div_req(other) && self.xy.y.div_req(other)
    }

    open spec fn div_spec(self, other: T) -> Vector2d<T> {
        Vector2d { xy: XY { x: self.xy.x.div_spec(other), y: self.xy.y.div_spec(other) } }
    }
}

/// The product of each coordinate and a scalar, in place.
impl<T: Scalar> MulAssign<T> for Vector2d<T> {
    fn mul_assign(&mut self, other: T)
        requires
            T::obeys_mul_spec(),
            old(self).xy.x.mul_req(other),
            old(self).xy.y.mul_req(other),
        ensures
            *final(self) == (Vector2d {
                xy: XY {
                    x: old(self).xy.x.mul_spec(other),
                    y: old(self).xy.y.mul_spec(other),
                },
            }),
    {
        self.xy = XY { x: self.xy.x * other, y: self.xy.y * other };
    }
}

/// The product of each coordinate and a scalar.
impl<T: Scalar> Mul<T> for &Vector2d<T> {
    type Output = Vector2d<T>;

    fn mul(self, other: T) -> (r: Vector2d<T>)
        ensures
            T::obeys_mul_spec() ==> r == (Vector2d {
                xy: XY {
                    x: self.xy.x.mul_spec(other),
                    y: self.xy.y.mul_spec(other),
                },
            }),
    {
        Vector2d { xy: XY { x: self.xy.x * other, y: self.xy.y * other } }
    }
}

impl<T: Scalar> vstd::std_specs::ops::MulSpecImpl<T> for &Vector2d<T> {
    open spec fn obeys_mul_spec() -> bool {
        T::obeys_mul_spec()
    }

    open spec fn mul_req(self, other: T) -> bool {
        self.xy.x.mul_req(other) && self.xy.y.mul_req(other)
    }

    open spec fn mul_spec(self, other: T) -> Vector2d<T> {
        Vector2d { xy: XY { x: self.xy.x.mul_spec(other), y: self.xy.y.mul_spec(other) } }
    }
}

/// Multiplying a vector by a vector in place leaves it as it is: the product
/// of two vectors is a number, which a vector cannot hold.
impl<T: Scalar> MulAssign<&Vector2d<T>> for Vector2d<T> {
    fn mul_assign(&mut self, other: &Vector2d<T>)
        ensures
            *final(self) == *old(self),
    {
    }
}

/// The dot product of two vectors.
impl<T: Scalar> Mul<&Vector2d<T>> for &Vector2d<T> {
    type Output = T;

    fn mul(self, other: &Vector2d<T>) -> (r: T)
        ensures
            lawful::<T>() ==> r == self.xy.dot_spec(other.xy),
    {
        self.xy.dot(&other.xy)
    }
}

impl<T: Scalar> vstd::std_specs::ops::MulSpecImpl<&Vector2d<T>> for &Vector2d<T> {
    open spec fn obeys_mul_spec() -> bool {
        lawful::<T>()
    }

    open spec fn mul_req(self, other: &Vector2d<T>) -> bool {
        lawful::<T>() && self.xy.dot_req(other.xy)
    }

    open spec fn mul_spec(self, other: &Vector2d<T>) -> T {
        self.xy.dot_spec(other.xy)
    }
}

impl<T: Scalar + std::fmt::Display> Vector2d<T> {
    /// `s` is the text of the value: the name and the coordinates, as `Vector2d(x, y)`.
    pub open spec fn is_text(self, s: Seq<char>) -> bool {
        exists|part0: Seq<char>|
            {
                &&& lists(seq![self.xy.x, self.xy.y], part0)
                &&& s == "Vector2d("@ + part0 + ")"@
            }
    }

    pub fn to_string(&self) -> (r: String)
        ensures
            self.is_text(r@),
    {
        let mut s = String::from_str("Vector2d(");
        let ghost b0 = s@;
        let a0 = [self.xy.x, self.xy.y];
        push_list(&mut s, a0.as_slice());
        let ghost part0 = choose|p: Seq<char>| lists(a0@, p) && s@ == b0 + p;
        assert(a0@ =~= seq![self.xy.x, self.xy.y]);
        s.append(")");
        assert(s@ =~= "Vector2d("@ + part0 + ")"@);
        s
    }
}

} // verus!
