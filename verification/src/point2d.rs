//! A point of the plane.
use crate::scalar::{lawful, one, two, Scalar};
use crate::text::{lists, push_list};
use crate::xy::XY;
use std::ops::{AddAssign, Index, IndexMut, MulAssign, SubAssign};
use vstd::prelude::*;
use vstd::std_specs::ops::{AddSpec, MulSpec, NegSpec, SubSpec};
use vstd::string::StringExecFns;

verus! {

/// A location in the plane, held as its two coordinates.
#[derive(Debug, Clone, Copy, PartialEq)]
pub struct Point2d<T> {
    pub xy: XY<T>,
}

impl<T: Scalar> Point2d<T> {
    /// `(self.x - other.x)^2 + (self.y - other.y)^2`.
    pub open spec fn square_distance_spec(self, other: Self) -> T {
        let dx = self.xy.x.sub_spec(other.xy.x);
        let dy = self.xy.y.sub_spec(other.xy.y);
        dx.mul_spec(dx).add_spec(dy.mul_spec(dy))
    }

    pub open spec fn square_distance_req(self, other: Self) -> bool {
        let dx = self.xy.x.sub_spec(other.xy.x);
        let dy = self.xy.y.sub_spec(other.xy.y);
        &&& self.xy.x.sub_req(other.xy.x)
        &&& self.xy.y.sub_req(other.xy.y)
        &&& dx.mul_req(dx)
        &&& dy.mul_req(dy)
        &&& dx.mul_spec(dx).add_req(dy.mul_spec(dy))
    }

    /// The image of `c` under the point reflection through `center`:
    /// `-c + 2 * center`.
    pub open spec fn mirror_coord(c: T, center: T) -> T {
        c.neg_spec().add_spec(center.mul_spec(two::<T>()))
    }

    pub open spec fn mirror_coord_req(c: T, center: T) -> bool {
        &&& c.neg_req()
        &&& center.mul_req(two::<T>())
        &&& c.neg_spec().add_req(center.mul_spec(two::<T>()))
    }

    /// The image of `c` under the scaling by `scale` about `center`:
    /// `c * scale + center * (1 - scale)`.
    pub open spec fn scale_coord(c: T, center: T, scale: T) -> T {
        c.mul_spec(scale).add_spec(center.mul_spec(one::<T>().sub_spec(scale)))
    }

    pub open spec fn scale_coord_req(c: T, center: T, scale: T) -> bool {
        &&& one::<T>().sub_req(scale)
        &&& center.mul_req(one::<T>().sub_spec(scale))
        &&& c.mul_req(scale)
        &&& c.mul_spec(scale).add_req(center.mul_spec(one::<T>().sub_spec(scale)))
    }

    /// The image of `c` under the translation that takes `from` to `to`:
    /// `c + to - from`.
    pub open spec fn translate_coord(c: T, from: T, to: T) -> T {
        c.add_spec(to).sub_spec(from)
    }

    pub open spec fn translate_coord_req(c: T, from: T, to: T) -> bool {
        c.add_req(to) && c.add_spec(to).sub_req(from)
    }

    pub open spec fn mirror_spec(self, other: Self) -> Self {
        Point2d {
            xy: XY {
                x: Self::mirror_coord(self.xy.x, other.xy.x),
                y: Self::mirror_coord(self.xy.y, other.xy.y),
            },
        }
    }

    pub open spec fn mirror_req(self, other: Self) -> bool {
        &&& Self::mirror_coord_req(self.xy.x, other.xy.x)
        &&& Self::mirror_coord_req(self.xy.y, other.xy.y)
    }

    pub open spec fn scale_spec(self, other: Self, scale: T) -> Self {
        Point2d {
            xy: XY {
                x: Self::scale_coord(self.xy.x, other.xy.x, scale),
                y: Self::scale_coord(self.xy.y, other.xy.y, scale),
            },
        }
    }

    pub open spec fn scale_req(self, other: Self, scale: T) -> bool {
        &&& Self::scale_coord_req(self.xy.x, other.xy.x, scale)
        &&& Self::scale_coord_req(self.xy.y, other.xy.y, scale)
    }

    pub open spec fn translate_spec(self, from: Self, to: Self) -> Self {
        Point2d {
            xy: XY {
                x: Self::translate_coord(self.xy.x, from.xy.x, to.xy.x),
                y: Self::translate_coord(self.xy.y, from.xy.y, to.xy.y),
            },
        }
    }

    pub open spec fn translate_req(self, from: Self, to: Self) -> bool {
        &&& Self::translate_coord_req(self.xy.x, from.xy.x, to.xy.x)
        &&& Self::translate_coord_req(self.xy.y, from.xy.y, to.xy.y)
    }

    /// The point at the origin.
    pub fn new() -> (r: Self)
        ensures
            lawful::<T>() ==> r.xy == XY::<T>::origin(),
    {
        Point2d { xy: XY::new() }
    }

    pub fn from_xy(xy: XY<T>) -> (r: Self)
        ensures
            r.xy == xy,
    {
        Point2d { xy }
    }

    pub fn from_coordinates(x: T, y: T) -> (r: Self)
        ensures
            r.xy == (XY { x, y }),
    {
        Point2d { xy: XY { x, y } }
    }

    pub fn from_coords(x: T, y: T) -> (r: Self)
        ensures
            r.xy == (XY { x, y }),
    {
        Point2d { xy: XY { x, y } }
    }

    pub fn x(&self) -> (r: T)
        ensures
            r == self.xy.x,
    {
        self.xy.x
    }

    pub fn get_x(&self) -> (r: T)
        ensures
            r == self.xy.x,
    {
        self.xy.x
    }

    pub fn set_x(&mut self, x: T)
        ensures
            final(self).xy == (XY { x, ..old(self).xy }),
    {
        self.xy.x = x;
    }

    pub fn y(&self) -> (r: T)
        ensures
            r == self.xy.y,
    {
        self.xy.y
    }

    pub fn get_y(&self) -> (r: T)
        ensures
            r == self.xy.y,
    {
        self.xy.y
    }

    pub fn set_y(&mut self, y: T)
        ensures
            final(self).xy == (XY { y, ..old(self).xy }),
    {
        self.xy.y = y;
    }

    /// The coordinates, borrowed.
    pub fn xy(&self) -> (r: &XY<T>)
        ensures
            *r == self.xy,
    {
        &self.xy
    }

    /// The coordinates, copied.
    pub fn get_xy(&self) -> (r: XY<T>)
        ensures
            r == self.xy,
    {
        self.xy
    }

    pub fn set_xy(&mut self, xy: XY<T>)
        ensures
            final(self).xy == xy,
    {
        self.xy = xy;
    }

    pub fn coord(&self) -> (r: (T, T))
        ensures
            r == self.xy.coord_spec(),
    {
        (self.xy.x, self.xy.y)
    }

    pub fn get_coords(&self) -> (r: (T, T))
        ensures
            r == self.xy.coord_spec(),
    {
        (self.xy.x, self.xy.y)
    }

    pub fn set_coord(&mut self, x: T, y: T)
        ensures
            final(self).xy == (XY { x, y }),
    {
        self.xy = XY { x, y };
    }

    pub fn set_coords(&mut self, x: T, y: T)
        ensures
            final(self).xy == (XY { x, y }),
    {
        self.xy = XY { x, y };
    }

    /// The squared distance to `other`.
    pub fn square_distance(&self, other: &Self) -> (r: T)
        requires
            lawful::<T>(),
            self.square_distance_req(*other),
        ensures
            r == self.square_distance_spec(*other),
    {
        let dx = self.xy.x - other.xy.x;
        let dy = self.xy.y - other.xy.y;
        dx * dx + dy * dy
    }

    /// Whether each coordinate lies within `tolerance` of `other`'s.
    pub fn is_equal(&self, other: &Self, tolerance: T) -> (r: bool)
        requires
            lawful::<T>(),
            self.xy.is_equal_req(other.xy, tolerance),
        ensures
            r == self.xy.is_equal_spec(other.xy, tolerance),
    {
        self.xy.is_equal(&other.xy, tolerance)
    }

    /// Reflects the point through `other`.
    pub fn mirror_by_point2d(&mut self, other: &Self)
        requires
            lawful::<T>(),
            old(self).mirror_req(*other),
        ensures
            *final(self) == old(self).mirror_spec(*other),
    {
        self.xy.reverse();
        let mut xy1: XY<T> = other.xy;
        xy1.mul_assign(T::from(2i8));
        self.xy.add_assign(&xy1);
    }

    pub fn mirror_by_point2d_new(&self, other: &Self) -> (r: Self)
        requires
            lawful::<T>(),
            self.mirror_req(*other),
        ensures
            r == self.mirror_spec(*other),
    {
        let mut result = *self;
        result.mirror_by_point2d(other);
        result
    }

    /// Scales the point by `scale` about `other`.
    pub fn scale_by_point2d(&mut self, other: &Self, scale: T)
        requires
            lawful::<T>(),
            old(self).scale_req(*other, scale),
        ensures
            *final(self) == old(self).scale_spec(*other, scale),
    {
        let mut xy1 = other.xy;
        xy1.mul_assign(T::from(1i8) - scale);
        self.xy.mul_assign(scale);
        self.xy.add_assign(&xy1);
    }

    pub fn scale_by_point2d_new(&self, other: &Self, scale: T) -> (r: Self)
        requires
            lawful::<T>(),
            self.scale_req(*other, scale),
        ensures
            r == self.scale_spec(*other, scale),
    {
        let mut result = *self;
        result.scale_by_point2d(other, scale);
        result
    }

    /// Moves the point by the translation that takes `from` to `to`.
    pub fn translate_by_2point2d(&mut self, from: &Self, to: &Self)
        requires
            lawful::<T>(),
            old(self).translate_req(*from, *to),
        ensures
            *final(self) == old(self).translate_spec(*from, *to),
    {
        self.xy.add_assign(&to.xy);
        self.xy.sub_assign(&from.xy);
    }

    pub fn translate_by_2point2d_new(&self, from: &Self, to: &Self) -> (r: Self)
        requires
            lawful::<T>(),
            self.translate_req(*from, *to),
        ensures
            r == self.translate_spec(*from, *to),
    {
        let mut result = *self;
        result.translate_by_2point2d(from, to);
        result
    }
}

/// Coordinate `0` is `x`, `1` is `y`.
impl<T: Scalar> Index<usize> for Point2d<T> {
    type Output = T;

    fn index(&self, index: usize) -> (r: &T)
        ensures
            *r == self.xy.at(index as int),
    {
        match index {
            0 => &self.xy.x,
            1 => &self.xy.y,
            _ => unreached(),
        }
    }
}

impl<T: Scalar> vstd::std_specs::core::IndexSpecImpl<usize> for Point2d<T> {
    open spec fn index_req(&self, index: &usize) -> bool {
        *index < 2
    }
}

impl<T: Scalar> IndexMut<usize> for Point2d<T> {
    fn index_mut(&mut self, index: usize) -> (r: &mut T)
        requires
            index < 2,
        ensures
            *r == old(self).xy.at(index as int),
            final(self).xy == old(self).xy.with(index as int, *final(r)),
    {
        match index {
            0 => &mut self.xy.x,
            1 => &mut self.xy.y,
            _ => unreached(),
        }
    }
}

impl<T: Scalar + std::fmt::Display> Point2d<T> {
    /// `s` is the text of the value: the name and the coordinates, as `Point2d(x, y)`.
    pub open spec fn is_text(self, s: Seq<char>) -> bool {
        exists|part0: Seq<char>|
            {
                &&& lists(seq![self.xy.x, self.xy.y], part0)
                &&& s == "Point2d("@ + part0 + ")"@
            }
    }

    pub fn to_string(&self) -> (r: String)
        ensures
            self.is_text(r@),
    {
        let mut s = String::from_str("Point2d(");
        let ghost b0 = s@;
        let a0 = [self.xy.x, self.xy.y];
        push_list(&mut s, a0.as_slice());
        let ghost part0 = choose|p: Seq<char>| lists(a0@, p) && s@ == b0 + p;
        assert(a0@ =~= seq![self.xy.x, self.xy.y]);
        s.append(")");
        assert(s@ =~= "Point2d("@ + part0 + ")"@);
        s
    }
}

} // verus!
