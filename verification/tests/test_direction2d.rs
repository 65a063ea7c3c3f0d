use geom_primitive::direction2d::Direction2d;
use geom_primitive::xy::XY;
use std::f64::consts::{FRAC_PI_2, PI};

/// Half the width of the band in which the angle is read from the cosine.
const BOUND: f64 = 0.70710678118655;

fn length(x: f64, y: f64) -> f64 {
    f64::sqrt(XY::from_coords(x, y).squared_length())
}

fn direction(x: f64, y: f64) -> Direction2d<f64> {
    Direction2d::from_coords(x, y, length(x, y))
}

/// The signed angle between two directions, put together from the library's
/// choice of formula and the arc functions of the floating-point type.
fn angle_between(d: &Direction2d<f64>, other: &Direction2d<f64>) -> f64 {
    let formula = d.angle_formula(other, BOUND);
    let arc = if formula.uses_arc_cosine() {
        d.dot(other).acos()
    } else {
        d.cross(other).asin()
    };
    formula.evaluate(arc, PI)
}

#[test]
fn test_direction2d_test_new() {
    let d1 = Direction2d::<f64>::new();
    assert_eq!(d1.xy.x, 1.0);
    assert_eq!(d1.xy.y, 0.0);
}

#[test]
fn test_direction2d_test_from_xy() {
    let xy = XY::from_coords(1.0, 2.0);
    let d2 = Direction2d::from_xy(xy, length(1.0, 2.0));
    assert_eq!(d2.xy.x, 0.4472135954999579);
    assert_eq!(d2.xy.y, 0.8944271909999159);
}

#[test]
fn test_direction2d_test_from_coords() {
    let d3 = direction(3.0, 4.0);
    assert_eq!(d3.xy.x, 0.6);
    assert_eq!(d3.xy.y, 0.8);
}

#[test]
fn test_direction2d_test_coords() {
    let mut d4 = direction(5.0, 6.0);
    assert_eq!(d4.xy.get_coords(), (0.6401843996644799, 0.7682212795973759));

    d4.set_coords(3.0, 4.0, length(3.0, 4.0));
    assert_eq!(d4.xy.get_coords(), (0.6, 0.8));
}

#[test]
fn test_direction2d_test_x_y() {
    let mut d5 = direction(6.0, 8.0);
    assert_eq!(d5.get_x(), 0.6);
    assert_eq!(d5.get_y(), 0.8);

    d5.set_coords(3.0, 4.0, length(3.0, 4.0));
    assert_eq!(d5.get_x(), 0.6);
    assert_eq!(d5.get_y(), 0.8);
}

#[test]
fn test_direction2d_test_xy() {
    let mut d = Direction2d::from_xy(XY::from_coords(3.0, 4.0), length(3.0, 4.0));
    assert_eq!(d.xy.get_coords(), (0.6, 0.8));
    d.set_xy(XY::from_coords(6.0, 8.0), length(6.0, 8.0));
    assert_eq!(d.xy.get_coords(), (0.6, 0.8));
}

#[test]
fn test_direction2d_test_display() {
    let d = direction(3.0, 4.0);
    assert_eq!(d.to_string(), "Direction2d(0.6, 0.8)");
}

#[test]
fn test_direction2d_test_is_equal() {
    let d1 = direction(1.0, 2.0);
    let d2 = direction(1.0, 2.0);
    let d3 = direction(1.1, 2.1);

    assert!(d1.is_equal(&d2, 0.01));
    assert!(!d1.is_equal(&d3, 0.01));
}

#[test]
fn test_direction2d_test_angle() {
    let d1 = direction(1.0, 0.0);
    let d2 = direction(0.0, 1.0);
    let d3 = direction(1.0, 1.0);
    let angle = angle_between(&d1, &d2);
    assert!((angle - std::f64::consts::FRAC_PI_2).abs() < 1e-10, "Angle should be π/2 radians");
    let angle2 = angle_between(&d1, &d3);
    assert!((angle2 - std::f64::consts::FRAC_PI_4).abs() < 1e-10, "Angle should be π/4 radians");
}

#[test]
fn test_direction2d_test_is_orthogonal() {
    let d1 = direction(1.0, 0.0);
    let d2 = direction(0.0, 1.0);
    let d3 = direction(1.0, 1.0);
    assert!(Direction2d::is_orthogonal(angle_between(&d1, &d2), FRAC_PI_2, 1e-10));
    assert!(!Direction2d::is_orthogonal(angle_between(&d1, &d3), FRAC_PI_2, 1e-10));
}

#[test]
fn test_direction2d_test_is_opposite() {
    let d1 = direction(1.0, 0.0);
    let d2 = direction(-1.0, 0.0);
    let d3 = direction(0.0, 1.0);
    assert!(Direction2d::is_opposite(angle_between(&d1, &d2), PI, 1e-10));
    assert!(!Direction2d::is_opposite(angle_between(&d1, &d3), PI, 1e-10));
}

#[test]
fn test_direction2d_test_is_parallel() {
    let d1 = direction(1.0, 0.0);
    let d2 = direction(2.0, 0.0);
    let d3 = direction(0.0, 1.0);
    let d4 = direction(-1.0, 0.0);
    assert!(Direction2d::is_parallel(angle_between(&d1, &d2), PI, 1e-10));
    assert!(!Direction2d::is_parallel(angle_between(&d1, &d3), PI, 1e-10));
    assert!(Direction2d::is_parallel(angle_between(&d1, &d4), PI, 1e-10));
}

#[test]
fn test_direction2d_default_and_reverse() {
    let d = Direction2d::<f64>::default();
    assert_eq!(d, Direction2d::new());
    assert_eq!(d.get_coords(), (1.0, 0.0));
    let r = d.reverse_new();
    assert_eq!(r.get_coords(), (-1.0, -0.0));
    let mut back = r;
    back.reverse();
    assert_eq!(back.get_xy(), d.get_xy());
    assert_eq!(d.dot(&r), -1.0);
    assert_eq!(d.cross(&direction(0.0, 2.0)), 1.0);
}

#[test]
fn test_direction2d_angle_is_signed() {
    let d1 = direction(1.0, 0.0);
    let d2 = direction(0.0, 1.0);
    assert!((angle_between(&d2, &d1) + FRAC_PI_2).abs() < 1e-10);
    let d3 = direction(-1.0, 1.0);
    assert!((angle_between(&d1, &d3) - 0.75 * PI).abs() < 1e-10);
    assert!((angle_between(&d3, &d1) + 0.75 * PI).abs() < 1e-10);
    // the closed tolerance counts: an angle at the tolerance is accepted
    assert!(Direction2d::is_parallel(0.25, PI, 0.25));
    assert!(!Direction2d::is_parallel(0.5, PI, 0.25));
    assert!(Direction2d::is_orthogonal(FRAC_PI_2 + 0.25, FRAC_PI_2, 0.25));
}
