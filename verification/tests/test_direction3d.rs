use geom_primitive::direction3d::Direction3d;
use geom_primitive::xyz::XYZ;
use std::f64::consts::{FRAC_PI_2, PI};

/// Half the width of the band in which the angle is read from the cosine.
const BOUND: f64 = 0.70710678118655;

fn length(x: f64, y: f64, z: f64) -> f64 {
    f64::sqrt(XYZ::from_coords(x, y, z).squared_length())
}

fn direction(x: f64, y: f64, z: f64) -> Direction3d<f64> {
    Direction3d::from_coords(x, y, z, length(x, y, z))
}

/// The unsigned angle between two directions, put together from the
/// library's choice of formula and the arc functions of the floating-point
/// type.
fn angle_between(d: &Direction3d<f64>, other: &Direction3d<f64>) -> f64 {
    let formula = d.angle_formula(other, BOUND);
    let arc = if formula.uses_arc_cosine() {
        d.xyz.dot(&other.xyz).acos()
    } else {
        f64::sqrt(d.xyz.square_cross(&other.xyz)).asin()
    };
    formula.evaluate(arc, PI)
}

#[test]
fn test_direction3d_test_new() {
    let d1 = Direction3d::<f64>::new();
    assert_eq!(d1.xyz.x, 1.0);
    assert_eq!(d1.xyz.y, 0.0);
    assert_eq!(d1.xyz.z, 0.0);
}

#[test]
fn test_direction3d_test_from_xyz() {
    let xyz = XYZ::from_coords(1.0, 2.0, 3.0);
    let d2 = Direction3d::from_xyz(xyz, length(1.0, 2.0, 3.0));
    assert_eq!(d2.xyz.x, 0.2672612419124244);
    assert_eq!(d2.xyz.y, 0.5345224838248488);
    assert_eq!(d2.xyz.z, 0.8017837257372732);
}

#[test]
fn test_direction3d_test_from_coords() {
    let d3 = direction(2.0, 3.0, 6.0);
    assert_eq!(d3.xyz.x, 2.0 / 7.0);
    assert_eq!(d3.xyz.y, 3.0 / 7.0);
    assert_eq!(d3.xyz.z, 6.0 / 7.0);
}

#[test]
fn test_direction3d_test_coords() {
    let mut d4 = direction(1.0, 2.0, 2.0);
    assert_eq!(d4.xyz.get_coords(), (1.0 / 3.0, 2.0 / 3.0, 2.0 / 3.0));

    d4.set_coords(2.0, 3.0, 6.0, length(2.0, 3.0, 6.0));
    assert_eq!(d4.xyz.get_coords(), (2.0 / 7.0, 3.0 / 7.0, 6.0 / 7.0));
}

#[test]
fn test_direction3d_test_x_y_z() {
    let mut d5 = direction(1.0, 2.0, 2.0);
    assert_eq!(d5.xyz.get_x(), 1.0 / 3.0);
    assert_eq!(d5.xyz.get_y(), 2.0 / 3.0);
    assert_eq!(d5.xyz.get_z(), 2.0 / 3.0);

    d5.set_coords(2.0, 3.0, 6.0, length(2.0, 3.0, 6.0));
    assert_eq!(d5.xyz.get_x(), 2.0 / 7.0);
    assert_eq!(d5.xyz.get_y(), 3.0 / 7.0);
    assert_eq!(d5.xyz.get_z(), 6.0 / 7.0);
}

#[test]
fn test_direction3d_test_xyz() {
    let mut d = Direction3d::from_xyz(XYZ::from_coords(1.0, 2.0, 2.0), length(1.0, 2.0, 2.0));
    assert_eq!(d.xyz.get_coords(), (1.0 / 3.0, 2.0 / 3.0, 2.0 / 3.0));
    d.set_xyz(XYZ::from_coords(2.0, 3.0, 6.0), length(2.0, 3.0, 6.0));
    assert_eq!(d.xyz.get_coords(), (2.0 / 7.0, 3.0 / 7.0, 6.0 / 7.0));
}

#[test]
fn test_direction3d_test_is_equal() {
    let d1 = direction(1.0, 2.0, 3.0);
    let d2 = direction(1.0, 2.0, 3.0);
    let d3 = direction(1.1, 2.1, 3.1);

    assert!(d1.is_equal(&d2, 1e-6));
    assert!(!d1.is_equal(&d3, 1e-6));
}

#[test]
fn test_direction3d_test_display() {
    let d = direction(4.0, 5.0, 6.0);
    assert_eq!(
        d.to_string(),
        "Direction3d(0.4558423058385518, 0.5698028822981898, 0.6837634587578276)"
    );
}

#[test]
fn test_direction3d_test_angle() {
    let d1 = direction(1.0, 0.0, 0.0);
    let d2 = direction(0.0, 1.0, 0.0);
    let d3 = direction(1.0, 1.0, 1.0);

    let angle12 = angle_between(&d1, &d2);
    let angle13 = angle_between(&d1, &d3);

    assert!((angle12 - std::f64::consts::FRAC_PI_2).abs() < 1e-6);
    assert!((angle13 - 0.955).abs() < 1e-3);
}

#[test]
fn test_direction3d_obtuse_angle_and_sign() {
    let d1 = direction(1.0, 0.0, 0.0);
    let d2 = direction(-1.0, 0.1, 0.0);
    let d3 = direction(0.9, 0.1, 0.0);
    // outside the band the angle is read from the sine and, where the
    // cosine is negative, taken from pi
    assert!((angle_between(&d1, &d2) - (PI - (0.1f64).atan())).abs() < 1e-12);
    assert!((angle_between(&d1, &d3) - (0.1f64 / 0.9).atan()).abs() < 1e-12);
    assert!((angle_between(&d1, &direction(0.0, 0.0, 3.0)) - FRAC_PI_2).abs() < 1e-12);
    // the sign follows the reference: kept where the normal points along it
    let up = direction(0.0, 0.0, 1.0);
    let normal = XYZ::from_coords(0.0, 0.0, 0.5);
    assert_eq!(Direction3d::angle_with_ref(0.25, &normal, &up), 0.25);
    assert_eq!(Direction3d::angle_with_ref(0.25, &(-&normal), &up), -0.25);
    assert_eq!(Direction3d::angle_with_ref(0.25, &XYZ::from_coords(1.0, 0.0, 0.0), &up), 0.25);
    assert_eq!(Direction3d::<f64>::default(), Direction3d::new());
    assert_eq!(d2.get_xyz().get_coords(), d2.get_coords());
    assert_eq!((d1.get_x(), d1.get_y(), d1.get_z()), (1.0, 0.0, 0.0));
}
