//! Reading an angle from its cosine and sine.
//!
//! Near 0 and pi the arc cosine loses precision, near the right angles the arc
//! sine does. The angle is therefore read from the cosine where the cosine is
//! small (inside a band around zero, usually of half-width `1/sqrt(2)`) and
//! from the sine elsewhere, with the quadrant told by the signs.
use crate::scalar::{gt, lawful, lt, zero, Scalar};
use vstd::prelude::*;
use vstd::std_specs::ops::{NegSpec, SubSpec};

verus! {

/// The formula by which an angle is read from the arc cosine of its cosine or
/// the arc sine of its sine.
#[derive(Debug, Clone, Copy, PartialEq, Eq, Structural)]
pub enum AngleFormula {
    /// `acos(cos)`
    Acos,
    /// `-acos(cos)`
    NegAcos,
    /// `asin(sin)`
    Asin,
    /// `pi - asin(sin)`
    PiMinusAsin,
    /// `-pi - asin(sin)`
    NegPiMinusAsin,
}

/// `cosinus` lies strictly inside the band from `-bound` to `bound`.
pub open spec fn in_band<T: Scalar>(cosinus: T, bound: T) -> bool {
    gt(cosinus, bound.neg_spec()) && lt(cosinus, bound)
}

/// The formula for a signed angle of the plane, in `(-pi, pi]`: inside the
/// band the arc cosine, signed by the sine; outside it the arc sine, moved to
/// the second or third quadrant where the cosine is not positive.
pub open spec fn planar_formula_spec<T: Scalar>(cosinus: T, sinus: T, bound: T) -> AngleFormula {
    if in_band(cosinus, bound) {
        if gt(sinus, zero::<T>()) {
            AngleFormula::Acos
        } else {
            AngleFormula::NegAcos
        }
    } else if gt(cosinus, zero::<T>()) {
        AngleFormula::Asin
    } else if gt(sinus, zero::<T>()) {
        AngleFormula::PiMinusAsin
    } else {
        AngleFormula::NegPiMinusAsin
    }
}

/// The formula for an unsigned angle of space, in `[0, pi]`, whose sine is
/// never negative: inside the band the arc cosine, outside it the arc sine,
/// taken from pi where the cosine is negative.
pub open spec fn spatial_formula_spec<T: Scalar>(cosinus: T, bound: T) -> AngleFormula {
    if in_band(cosinus, bound) {
        AngleFormula::Acos
    } else if lt(cosinus, zero::<T>()) {
        AngleFormula::PiMinusAsin
    } else {
        AngleFormula::Asin
    }
}

impl AngleFormula {
    /// Whether the formula reads the arc cosine of the cosine; the others
    /// read the arc sine of the sine.
    pub open spec fn reads_cosine(self) -> bool {
        self == AngleFormula::Acos || self == AngleFormula::NegAcos
    }

    /// The formula for the same two directions taken in the other order.
    pub open spec fn mirrored(self) -> AngleFormula {
        match self {
            AngleFormula::Acos => AngleFormula::NegAcos,
            AngleFormula::NegAcos => AngleFormula::Acos,
            AngleFormula::Asin => AngleFormula::Asin,
            AngleFormula::PiMinusAsin => AngleFormula::NegPiMinusAsin,
            AngleFormula::NegPiMinusAsin => AngleFormula::PiMinusAsin,
        }
    }

    /// The angle that the formula gives for `arc`, the arc cosine or arc sine
    /// that it reads.
    pub open spec fn value<T: Scalar>(self, arc: T, pi: T) -> T {
        match self {
            AngleFormula::Acos => arc,
            AngleFormula::NegAcos => arc.neg_spec(),
            AngleFormula::Asin => arc,
            AngleFormula::PiMinusAsin => pi.sub_spec(arc),
            AngleFormula::NegPiMinusAsin => pi.neg_spec().sub_spec(arc),
        }
    }

    /// The operators accept each step of the formula.
    pub open spec fn value_req<T: Scalar>(self, arc: T, pi: T) -> bool {
        match self {
            AngleFormula::Acos => true,
            AngleFormula::NegAcos => arc.neg_req(),
            AngleFormula::Asin => true,
            AngleFormula::PiMinusAsin => pi.sub_req(arc),
            AngleFormula::NegPiMinusAsin => pi.neg_req() && pi.neg_spec().sub_req(arc),
        }
    }

    /// The angle that the formula gives in exact arithmetic.
    pub open spec fn exact_value(self, arc: int, pi: int) -> int {
        match self {
            AngleFormula::Acos => arc,
            AngleFormula::NegAcos => -arc,
            AngleFormula::Asin => arc,
            AngleFormula::PiMinusAsin => pi - arc,
            AngleFormula::NegPiMinusAsin => -pi - arc,
        }
    }

    /// Whether the formula reads the arc cosine of the cosine.
    pub fn uses_arc_cosine(&self) -> (r: bool)
        ensures
            r == self.reads_cosine(),
    {
        match self {
            AngleFormula::Acos => true,
            AngleFormula::NegAcos => true,
            _ => false,
        }
    }

    /// Evaluates the formula on `arc`, the arc cosine of the cosine where
    /// the formula reads the cosine, the arc sine of the sine otherwise.
    pub fn evaluate<T: Scalar>(&self, arc: T, pi: T) -> (r: T)
        requires
            lawful::<T>(),
            self.value_req(arc, pi),
        ensures
            r == self.value(arc, pi),
    {
        match self {
            AngleFormula::Acos => arc,
            AngleFormula::NegAcos => arc.neg(),
            AngleFormula::Asin => arc,
            AngleFormula::PiMinusAsin => pi - arc,
            AngleFormula::NegPiMinusAsin => pi.neg() - arc,
        }
    }
}

/// Chooses the formula for the signed angle of the plane whose cosine and
/// sine are given. `bound` is the half-width of the band in which the cosine
/// is read.
pub fn planar_formula<T: Scalar>(cosinus: T, sinus: T, bound: T) -> (r: AngleFormula)
    requires
        lawful::<T>(),
        bound.neg_req(),
    ensures
        r == planar_formula_spec(cosinus, sinus, bound),
{
    let zero = T::from(0i8);
    if cosinus > bound.neg() && cosinus < bound {
        if sinus > zero {
            AngleFormula::Acos
        } else {
            AngleFormula::NegAcos
        }
    } else {
        if cosinus > zero {
            AngleFormula::Asin
        } else {
            if sinus > zero {
                AngleFormula::PiMinusAsin
            } else {
                AngleFormula::NegPiMinusAsin
            }
        }
    }
}

/// Chooses the formula for the unsigned angle of space whose cosine is
/// given; its sine is the length of a vector product and so never negative.
pub fn spatial_formula<T: Scalar>(cosinus: T, bound: T) -> (r: AngleFormula)
    requires
        lawful::<T>(),
        bound.neg_req(),
    ensures
        r == spatial_formula_spec(cosinus, bound),
{
    if cosinus > bound.neg() && cosinus < bound {
        AngleFormula::Acos
    } else {
        if cosinus < T::from(0i8) {
            AngleFormula::PiMinusAsin
        } else {
            AngleFormula::Asin
        }
    }
}

/// Swapping the two directions keeps the cosine and turns the sine's sign.
/// Where exactly one of the two sines is positive, or where the angle is read
/// from the arc sine alone, the swapped pair gets the mirrored formula.
pub proof fn lemma_swap_mirrors_formula<T: Scalar>(cosinus: T, sinus: T, swapped_sinus: T, bound: T)
    requires
        gt(sinus, zero::<T>()) != gt(swapped_sinus, zero::<T>()) || planar_formula_spec(
            cosinus,
            sinus,
            bound,
        ) == AngleFormula::Asin,
    ensures
        planar_formula_spec(cosinus, swapped_sinus, bound) == planar_formula_spec(
            cosinus,
            sinus,
            bound,
        ).mirrored(),
{
}

/// In exact arithmetic the mirrored formula gives the opposite angle: the arc
/// cosine is the same for both orders, the arc sine changes its sign.
pub proof fn lemma_mirrored_negates(formula: AngleFormula, arc: int, pi: int)
    ensures
        formula.mirrored().exact_value(
            if formula.reads_cosine() {
                arc
            } else {
                -arc
            },
            pi,
        ) == -formula.exact_value(arc, pi),
{
}

/// Mirroring twice gives the formula back.
pub proof fn lemma_mirrored_twice(formula: AngleFormula)
    ensures
        formula.mirrored().mirrored() == formula,
{
}

} // verus!
