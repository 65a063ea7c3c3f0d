//! Transforms of the plane: `p' = scalefac * matrix * p + trans`.
use crate::matrix2d::{Mat2, Matrix2d};
use crate::point2d::Point2d;
use crate::scalar::{lawful, one, small, two, zero, Scalar};
use crate::text::{push_shown, shows};
use crate::trsfform::TrsfForm;
use crate::vector2d::Vector2d;
use crate::xy::XY;
use std::ops::MulAssign;
use vstd::prelude::*;
use vstd::std_specs::ops::{MulSpec, SubSpec};
use vstd::string::StringExecFns;

verus! {

/// A transform of the plane that maps `p` to `scalefac * matrix * p + trans`.
/// `form` records how the other three were last set; nothing holds them to it.
#[derive(Debug, Clone, Copy, PartialEq)]
pub struct Trsf2d<T> {
    pub scalefac: T,
    pub form: TrsfForm,
    pub matrix: Matrix2d<T>,
    pub trans: XY<T>,
}

/// What a transform holds, with the matrix by its entries.
pub ghost struct Trsf2dView<T> {
    pub scalefac: T,
    pub form: TrsfForm,
    pub matrix: Mat2<T>,
    pub trans: XY<T>,
}

impl<T: Scalar> View for Trsf2d<T> {
    type V = Trsf2dView<T>;

    open spec fn view(&self) -> Trsf2dView<T> {
        Trsf2dView {
            scalefac: self.scalefac,
            form: self.form,
            matrix: self.matrix@,
            trans: self.trans,
        }
    }
}

impl<T: Scalar> Trsf2dView<T> {
    /// What a new transform holds: the factor 1 and the tag `Identity`, over
    /// a matrix and a translation that are still all zero.
    pub open spec fn initial() -> Self {
        Trsf2dView {
            scalefac: one::<T>(),
            form: TrsfForm::Identity,
            matrix: Mat2::<T>::scaling(zero::<T>()),
            trans: XY::<T>::origin(),
        }
    }

    /// The point reflection through `p`: `p' = -p + 2 * center`.
    pub open spec fn point_mirror(center: XY<T>) -> Self {
        Trsf2dView {
            scalefac: small::<T>(-1i8),
            form: TrsfForm::PointMirror,
            matrix: Mat2::<T>::identity(),
            trans: XY { x: center.x.mul_spec(two::<T>()), y: center.y.mul_spec(two::<T>()) },
        }
    }

    /// The scaling by `scale` about `center`: `p' = scale * p + (1 - scale) * center`.
    pub open spec fn scaling(center: XY<T>, scale: T) -> Self {
        Trsf2dView {
            scalefac: scale,
            form: TrsfForm::Scale,
            matrix: Mat2::<T>::identity(),
            trans: XY {
                x: center.x.mul_spec(one::<T>().sub_spec(scale)),
                y: center.y.mul_spec(one::<T>().sub_spec(scale)),
            },
        }
    }

    /// The operators accept each step of the scaling's translation part.
    pub open spec fn scaling_req(center: XY<T>, scale: T) -> bool {
        &&& one::<T>().sub_req(scale)
        &&& center.x.mul_req(one::<T>().sub_spec(scale))
        &&& center.y.mul_req(one::<T>().sub_spec(scale))
    }

    /// The translation by `v`: `p' = p + v`.
    pub open spec fn translation(v: XY<T>) -> Self {
        Trsf2dView {
            scalefac: one::<T>(),
            form: TrsfForm::Translation,
            matrix: Mat2::<T>::identity(),
            trans: v,
        }
    }
}

impl<T: Scalar> Trsf2d<T> {
    pub fn new() -> (r: Self)
        ensures
            lawful::<T>() ==> r@ == Trsf2dView::<T>::initial(),
    {
        Trsf2d {
            scalefac: T::from(1i8),
            form: TrsfForm::Identity,
            matrix: Matrix2d::new(),
            trans: XY::new(),
        }
    }

    pub fn scalefac(&self) -> (r: T)
        ensures
            r == self.scalefac,
    {
        self.scalefac
    }

    pub fn set_scalefac(&mut self, scale: T)
        ensures
            *final(self) == (Trsf2d { scalefac: scale, ..*old(self) }),
    {
        self.scalefac = scale;
    }

    pub fn form(&self) -> (r: TrsfForm)
        ensures
            r == self.form,
    {
        self.form
    }

    pub fn set_form(&mut self, form: TrsfForm)
        ensures
            *final(self) == (Trsf2d { form, ..*old(self) }),
    {
        self.form = form;
    }

    pub fn matrix(&self) -> (r: &Matrix2d<T>)
        ensures
            *r == self.matrix,
    {
        &self.matrix
    }

    /// The matrix, to be changed in place.
    pub fn matrix_mut(&mut self) -> (r: &mut Matrix2d<T>)
        ensures
            *r == old(self).matrix,
            *final(self) == (Trsf2d { matrix: *final(r), ..*old(self) }),
    {
        &mut self.matrix
    }

    pub fn set_matrix(&mut self, matrix: Matrix2d<T>)
        ensures
            *final(self) == (Trsf2d { matrix, ..*old(self) }),
    {
        self.matrix = matrix;
    }

    pub fn trans(&self) -> (r: &XY<T>)
        ensures
            *r == self.trans,
    {
        &self.trans
    }

    /// The translation, to be changed in place.
    pub fn trans_mut(&mut self) -> (r: &mut XY<T>)
        ensures
            *r == old(self).trans,
            *final(self) == (Trsf2d { trans: *final(r), ..*old(self) }),
    {
        &mut self.trans
    }

    pub fn set_trans(&mut self, translation: XY<T>)
        ensures
            *final(self) == (Trsf2d { trans: translation, ..*old(self) }),
    {
        self.trans = translation;
    }

    /// Makes the transform the point reflection through `p`.
    pub fn set_mirror(&mut self, p: &Point2d<T>)
        requires
            lawful::<T>(),
            p.xy.x.mul_req(two::<T>()),
            p.xy.y.mul_req(two::<T>()),
        ensures
            final(self)@ == Trsf2dView::point_mirror(p.xy),
    {
        self.form = TrsfForm::PointMirror;
        self.scalefac = T::from(-1i8);
        self.matrix.set_identity();
        self.set_trans(*p.xy());
        self.trans.mul_assign(T::from(2i8));
    }

    /// Makes the transform the scaling by `scale` about `p`.
    pub fn set_scale(&mut self, p: &Point2d<T>, scale: T)
        requires
            lawful::<T>(),
            Trsf2dView::scaling_req(p.xy, scale),
        ensures
            final(self)@ == Trsf2dView::scaling(p.xy, scale),
    {
        self.form = TrsfForm::Scale;
        self.scalefac = scale;
        self.matrix.set_identity();
        self.set_trans(*p.xy());
        self.trans.mul_assign(T::from(1i8) - scale);
    }

    /// Makes the transform the translation by `vec`.
    pub fn set_translation_by_vec(&mut self, vec: &Vector2d<T>)
        ensures
            lawful::<T>() ==> final(self)@ == Trsf2dView::translation(vec.xy),
    {
        self.form = TrsfForm::Translation;
        self.scalefac = T::from(1i8);
        self.matrix.set_identity();
        self.trans = *vec.xy();
    }
}

impl<T: Scalar + std::fmt::Display> Trsf2d<T> {
    /// `s` is the text of the transform: its four parts by name, the tag in
    /// double quotes.
    pub open spec fn is_text(self, s: Seq<char>) -> bool {
        exists|part0: Seq<char>, part1: Seq<char>, part2: Seq<char>|
            {
                &&& shows(self.scalefac, part0)
                &&& self.matrix.is_text(part1)
                &&& self.trans.is_text(part2)
                &&& s == "Trsf2d(scale: "@ + part0 + ", form: \""@ + self.form.name() + "\", matrix: "@
                    + part1 + ", translation: "@ + part2 + ")"@
            }
    }

    pub fn to_string(&self) -> (r: String)
        ensures
            self.is_text(r@),
    {
        let mut s = String::from_str("Trsf2d(scale: ");
        let ghost b0 = s@;
        push_shown(&mut s, &self.scalefac);
        let ghost part0 = choose|p: Seq<char>| shows(self.scalefac, p) && s@ == b0 + p;
        s.append(", form: \"");
        s.append(self.form.as_str());
        s.append("\", matrix: ");
        let t1 = self.matrix.to_string();
        s.append(t1.as_str());
        let ghost part1 = t1@;
        s.append(", translation: ");
        let t2 = self.trans.to_string();
        s.append(t2.as_str());
        let ghost part2 = t2@;
        s.append(")");
        assert(s@ =~= "Trsf2d(scale: "@ + part0 + ", form: \""@ + self.form.name() + "\", matrix: "@
            + part1 + ", translation: "@ + part2 + ")"@);
        s
    }
}

} // verus!
