use geom_primitive::angle::{planar_formula, AngleFormula};
use geom_primitive::point2d::Point2d;
use geom_primitive::vector2d::Vector2d;
use geom_primitive::xy::XY;
use std::f64::consts::{FRAC_PI_2, PI};

/// Half the width of the band in which the angle is read from the cosine.
const BOUND: f64 = 0.70710678118655;

fn length(v: &Vector2d<f64>) -> f64 {
    f64::sqrt(v.square_length())
}

/// The signed angle from `v` to `other`, put together from the library's
/// steps and the arc functions of the floating-point type.
fn angle_to_vector(v: &Vector2d<f64>, other: &Vector2d<f64>) -> Result<f64, &'static str> {
    let (cosinus, sinus) = v.cos_sin_to(other, length(v), length(other), f64::MIN_POSITIVE)?;
    let formula = planar_formula(cosinus, sinus, BOUND);
    let arc = if formula.uses_arc_cosine() {
        cosinus.acos()
    } else {
        sinus.asin()
    };
    Ok(formula.evaluate(arc, PI))
}

fn is_equal(
    v: &Vector2d<f64>,
    other: &Vector2d<f64>,
    linear_tolerance: f64,
    angular_tolerance: f64,
) -> Result<bool, &'static str> {
    Vector2d::is_equal(
        length(v),
        length(other),
        linear_tolerance,
        angle_to_vector(v, other),
        angular_tolerance,
    )
}

#[test]
fn test_vector_test_init() {
    let v1 = Vector2d::<f64>::new();
    assert_eq!(v1.xy.x, 0.0);
    assert_eq!(v1.xy.y, 0.0);

    let v2 = Vector2d::from_coordinates(1.0, 2.0);
    assert_eq!(v2.xy.x, 1.0);
    assert_eq!(v2.xy.y, 2.0);

    let mut v3 = Vector2d::from_xy(XY::<f64>::new());
    v3.xy.x = 3.0;
    v3.xy.y = 4.0;
    assert_eq!(v3.xy.x, 3.0);

    let p1 = Point2d::from_coordinates(10.0, 15.0);
    let p2 = Point2d::from_coordinates(20.0, 25.0);
    let v4 = Vector2d::from_2point2d(&p1, &p2);
    assert_eq!(v4.xy.x, 10.0);
    assert_eq!(v4.xy.y, 10.0);
}

#[test]
fn test_magnitude() {
    let v = Vector2d::from_coordinates(3.0, 4.0);
    assert_eq!(length(&v), 5.0);
    assert_eq!(v.square_length(), 25.0);
}

#[test]
fn test_angle_to_vector() {
    let v1 = Vector2d::from_coordinates(1.0, 0.0);
    let v2 = Vector2d::from_coordinates(0.0, 1.0);
    let v3 = Vector2d::from_coordinates(1.0, 1.0);
    let v4 = Vector2d::from_coordinates(-1.0, 1.0);
    assert_eq!(
        angle_to_vector(&v1, &v2).unwrap(),
        std::f64::consts::FRAC_PI_2
    );
    assert_eq!(
        (angle_to_vector(&v1, &v3).unwrap() - std::f64::consts::FRAC_PI_4).abs() < 1e-10,
        true
    );
    assert_eq!(
        (angle_to_vector(&v1, &v4).unwrap() - std::f64::consts::PI * 0.75).abs() < 1e-10,
        true
    );
}

#[test]
fn test_vector_test_is_equal() {
    let v1 = Vector2d::from_coordinates(1.0, 2.0);
    let v2 = Vector2d::from_coordinates(1.0, 2.0);
    let v3 = Vector2d::from_coordinates(1.0, 3.0);
    assert_eq!(is_equal(&v1, &v2, 1e-10, 1e-5).unwrap(), true);
    assert_eq!(is_equal(&v1, &v3, 1e-10, 1e-5).unwrap(), false);
}

#[test]
fn test_vector_test_is_orthogonal() {
    let v1 = Vector2d::from_coordinates(1.0, 0.0);
    let v2 = Vector2d::from_coordinates(0.0, 1.0);
    let v3 = Vector2d::from_coordinates(1.0, 1.0);
    assert_eq!(Vector2d::is_orthogonal(angle_to_vector(&v1, &v2), FRAC_PI_2, 1e-7).unwrap(), true);
    assert_eq!(Vector2d::is_orthogonal(angle_to_vector(&v1, &v3), FRAC_PI_2, 1e-7).unwrap(), false);
}

#[test]
fn test_vector_test_is_opposite() {
    let v1 = Vector2d::from_coordinates(1.0, 0.0);
    let v2 = Vector2d::from_coordinates(-1.0, 0.0);
    let v3 = Vector2d::from_coordinates(1.0, 1.0);
    assert_eq!(Vector2d::is_opposite(angle_to_vector(&v1, &v2), PI, 1e-7).unwrap(), true);
    assert_eq!(Vector2d::is_opposite(angle_to_vector(&v1, &v1), PI, 1e-7).unwrap(), false);
    assert_eq!(Vector2d::is_opposite(angle_to_vector(&v1, &v3), PI, 1e-7).unwrap(), false);
}

#[test]
fn test_vector_test_is_parallel() {
    let v1 = Vector2d::from_coordinates(1.0, 0.0);
    let v2 = Vector2d::from_coordinates(10.0, 0.0);
    let v3 = Vector2d::from_coordinates(-1.0, 0.0);
    let v4 = Vector2d::from_coordinates(0.0, 1.0);
    assert_eq!(Vector2d::is_parallel(angle_to_vector(&v1, &v2), PI, 1e-7).unwrap(), true);
    assert_eq!(Vector2d::is_parallel(angle_to_vector(&v1, &v3), PI, 1e-7).unwrap(), true);
    assert_eq!(Vector2d::is_parallel(angle_to_vector(&v1, &v4), PI, 1e-7).unwrap(), false);
}

#[test]
fn test_vector_test_neg() {
    let v1 = Vector2d::from_coordinates(1.0, 2.0);
    let v2 = -&v1;
    assert_eq!(v2.xy.x, -1.0);
    assert_eq!(v2.xy.y, -2.0);
}

#[test]
fn test_vector_test_add() {
    let v1 = Vector2d::from_coordinates(1.0, 2.0);
    let v2 = Vector2d::from_coordinates(3.0, 4.0);
    let v3 = &v1 + &v2;
    assert_eq!(v3.xy.x, 4.0);
    assert_eq!(v3.xy.y, 6.0);
    let v4 = &v1 + 2.0;
    assert_eq!(v4.xy.x, 3.0);
    assert_eq!(v4.xy.y, 4.0);
}

#[test]
fn test_vector_test_cross() {
    let v1 = Vector2d::from_coordinates(1.0, 2.0);
    let v2 = Vector2d::from_coordinates(3.0, 4.0);
    assert_eq!(v1.cross(&v2), -2.0);
    assert_eq!(v1.cross_abs(&v2), 2.0);
    assert_eq!(v1.square_cross_abs(&v2), 4.0);
}

#[test]
fn test_vector_test_dot() {
    let v1 = Vector2d::from_coordinates(1.0, 2.0);
    let v2 = Vector2d::from_coordinates(3.0, 4.0);
    assert_eq!(v1.dot(&v2), 11.0);
    assert_eq!(&v1 * &v2, 11.0);
}

#[test]
fn test_vector_test_normalize() {
    let mut v1 = Vector2d::from_coordinates(3.0, 4.0);
    let modulus = length(&v1);
    v1.normalize(modulus);
    assert_eq!(v1.xy.x, 0.6);
    assert_eq!(v1.xy.y, 0.8);

    let v2 = Vector2d::from_coordinates(3.0, 4.0);
    let v3 = v2.normalize_new(length(&v2));
    assert_eq!(v3.xy.x, 0.6);
    assert_eq!(v3.xy.y, 0.8);
}

#[test]
fn test_vector_test_reverse() {
    let mut v1 = Vector2d::from_coordinates(3.0, 4.0);
    v1.reverse();
    assert_eq!(v1.xy.x, -3.0);
    assert_eq!(v1.xy.y, -4.0);

    let v2 = Vector2d::from_coordinates(3.0, 4.0);
    let v3 = v2.reverse_new();
    assert_eq!(v3.xy.x, -3.0);
    assert_eq!(v3.xy.y, -4.0);
}

#[test]
fn test_mirror() {
    let mut v1 = Vector2d::from_coordinates(1.0, -1.0);
    let v2 = Vector2d::from_coordinates(0.0, 1.0);
    v1.mirror_by_vector2d(&v2, length(&v2), f64::MIN_POSITIVE);
    assert_eq!(v1.x(), 0.0);
    assert_eq!(v1.y(), 1.0);

    let mut v1 = Vector2d::from_coordinates(10.0, 0.0);
    let v2 = Vector2d::from_coordinates(1.0, 1.0);
    v1.mirror_by_vector2d(&v2, length(&v2), f64::MIN_POSITIVE);
    assert_eq!((v1.x()-1.0).abs() < 1e-10, true);
    assert_eq!((v1.y()-1.0).abs() < 1e-10, true);
}

#[test]
fn test_angle_to_zero_vector_is_an_error() {
    let v1 = Vector2d::from_coordinates(1.0, 0.0);
    let zero = Vector2d::from_coordinates(0.0, 0.0);
    assert_eq!(
        angle_to_vector(&v1, &zero),
        Err("Cannot calculate angle to zero vector")
    );
    assert_eq!(
        angle_to_vector(&zero, &v1),
        Err("Cannot calculate angle to zero vector")
    );
    assert_eq!(
        Vector2d::is_orthogonal(angle_to_vector(&v1, &zero), FRAC_PI_2, 1e-7),
        Err("Cannot calculate angle to zero vector")
    );
    // the lengths differ and one is below the tolerance: the angle is not asked for
    assert_eq!(is_equal(&v1, &zero, 1e-10, 1e-5), Ok(false));
}

#[test]
fn test_angle_changes_sign_when_the_vectors_are_swapped() {
    let vs = [
        Vector2d::from_coordinates(1.0, 0.0),
        Vector2d::from_coordinates(1.0, 2.0),
        Vector2d::from_coordinates(-3.0, 0.5),
        Vector2d::from_coordinates(-1.0, -4.0),
        Vector2d::from_coordinates(0.25, -1.0),
    ];
    for a in vs.iter() {
        for b in vs.iter() {
            if a.cross(b) != 0.0 {
                let ab = angle_to_vector(a, b).unwrap();
                let ba = angle_to_vector(b, a).unwrap();
                assert_eq!(ab, -ba);
            }
        }
    }
}

#[test]
fn test_each_angle_formula() {
    // (cosine, sine) -> formula, for the band of half-width BOUND
    assert_eq!(planar_formula(0.0, 1.0, BOUND), AngleFormula::Acos);
    assert_eq!(planar_formula(0.5, -0.8, BOUND), AngleFormula::NegAcos);
    assert_eq!(planar_formula(0.5, 0.0, BOUND), AngleFormula::NegAcos);
    assert_eq!(planar_formula(0.9, -0.4, BOUND), AngleFormula::Asin);
    assert_eq!(planar_formula(-0.9, 0.4, BOUND), AngleFormula::PiMinusAsin);
    assert_eq!(planar_formula(-0.9, -0.4, BOUND), AngleFormula::NegPiMinusAsin);
    assert_eq!(planar_formula(-1.0, 0.0, BOUND), AngleFormula::NegPiMinusAsin);
    // the band is open: its ends are read from the sine
    assert_eq!(planar_formula(BOUND, 0.7, BOUND), AngleFormula::Asin);
    assert_eq!(planar_formula(-BOUND, 0.7, BOUND), AngleFormula::PiMinusAsin);
    assert_eq!(AngleFormula::Acos.evaluate(0.5, PI), 0.5);
    assert_eq!(AngleFormula::NegAcos.evaluate(0.5, PI), -0.5);
    assert_eq!(AngleFormula::Asin.evaluate(0.5, PI), 0.5);
    assert_eq!(AngleFormula::PiMinusAsin.evaluate(0.5, PI), PI - 0.5);
    assert_eq!(AngleFormula::NegPiMinusAsin.evaluate(-0.5, PI), -PI + 0.5);
    assert!(AngleFormula::NegAcos.uses_arc_cosine());
    assert!(!AngleFormula::PiMinusAsin.uses_arc_cosine());
}

#[test]
fn test_vector2d_linear_forms_and_scale() {
    let v1 = Vector2d::from_coordinates(1.0, 2.0);
    let v2 = Vector2d::from_coordinates(3.0, 4.0);
    let v3 = Vector2d::from_coordinates(5.0, 6.0);
    let mut v = Vector2d::<f64>::new();
    v.set_linear_form_2(2.0, &v1, 3.0, &v2);
    assert_eq!(v.coord(), (11.0, 16.0));
    v.set_linear_form_2a(2.0, &v1, &v2);
    assert_eq!(v.coord(), (5.0, 8.0));
    v.set_linear_form_2b(&v1, &v2);
    assert_eq!(v.coord(), (4.0, 6.0));
    v.set_linear_form_3(2.0, &v1, 3.0, &v2, &v3);
    assert_eq!(v.coord(), (16.0, 22.0));
    v.scale(0.5);
    assert_eq!(v.coord(), (8.0, 11.0));
    assert_eq!(v.scale_new(2.0).coord(), (16.0, 22.0));
    // a vector too short to mirror by leaves the other as it is
    let kept = v.mirror_by_vector2d_new(&Vector2d::from_coordinates(0.0, 0.0), 0.0, f64::MIN_POSITIVE);
    assert_eq!(kept, v);
}

#[test]
fn test_vector2d_operators() {
    let mut v = Vector2d::from_coordinates(4.0, 8.0);
    let w = Vector2d::from_coordinates(1.0, 2.0);
    v += &w;
    v -= &w;
    v += 1.0;
    v -= 1.0;
    v /= 2.0;
    v *= 3.0;
    assert_eq!(v.coord(), (6.0, 12.0));
    // multiplying in place by a vector leaves the vector
    v *= &w;
    assert_eq!(v.coord(), (6.0, 12.0));
    assert_eq!((&v - &w).coord(), (5.0, 10.0));
    assert_eq!((&v - 1.0).coord(), (5.0, 11.0));
    assert_eq!((&v / 3.0).coord(), (2.0, 4.0));
    assert_eq!((&v * 0.5).coord(), (3.0, 6.0));
    assert_eq!(v[0], 6.0);
    v[1] = 0.0;
    assert_eq!(v.y(), 0.0);
}
