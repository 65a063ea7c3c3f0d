use geom_primitive::point2d::Point2d;
use geom_primitive::trsf2d::Trsf2d;
use geom_primitive::trsfform::TrsfForm;
use geom_primitive::vector2d::Vector2d;

#[test]
fn test_trsf2d_test_init() {
    let t1 = Trsf2d::<f64>::new();
    assert_eq!(t1.scalefac(), 1.0);
    assert_eq!(t1.form(), TrsfForm::Identity);
    assert_eq!(t1.matrix().matrix(), [[0.0, 0.0], [0.0, 0.0]]);
    assert_eq!(t1.trans().coord(), (0.0, 0.0));

    // Test from_trsf
}

#[test]
fn test_set_mirror() {
    let mut trsf1 = Trsf2d::<f64>::new();
    let p = Point2d::from_coordinates(1.0, 2.0);
    trsf1.set_mirror(&p);

    assert_eq!(trsf1.form(), TrsfForm::PointMirror);
    assert_eq!(trsf1.scalefac(), -1.0);
    assert_eq!(trsf1.matrix().matrix(), [[1.0, 0.0], [0.0, 1.0]]);
    assert_eq!(trsf1.trans().coord(), (2.0, 4.0));
}

#[test]
fn test_set_scale() {
    let mut trsf1 = Trsf2d::<f64>::new();
    trsf1.set_scale(&Point2d::from_coordinates(1.0, 2.0), 2.0);
    assert_eq!(trsf1.scalefac(), 2.0);
    assert_eq!(trsf1.form(), TrsfForm::Scale);
    assert_eq!(trsf1.matrix().matrix(), [[1.0, 0.0], [0.0, 1.0]]);
    assert_eq!(trsf1.trans().coord(), (-1.0, -2.0));
}

#[test]
fn test_translation() {
    let v = Vector2d::from_coordinates(3.0, 4.0);
    let mut trsf1 = Trsf2d::<f64>::new();
    trsf1.set_translation_by_vec(&v);
    assert_eq!(trsf1.scalefac(), 1.0);
    assert_eq!(trsf1.form(), TrsfForm::Translation);
    assert_eq!(trsf1.matrix().matrix(), [[1.0, 0.0], [0.0, 1.0]]);
    assert_eq!(trsf1.trans().coord(), (3.0, 4.0));
}

#[test]
fn test_trsf2d_fields_are_set_one_by_one() {
    let mut t = Trsf2d::<f64>::new();
    t.set_scalefac(3.0);
    t.set_form(TrsfForm::Other);
    t.matrix_mut().set_identity();
    t.trans_mut().x = 7.0;
    assert_eq!(t.scalefac(), 3.0);
    assert_eq!(t.form(), TrsfForm::Other);
    assert_eq!(t.matrix().matrix(), [[1.0, 0.0], [0.0, 1.0]]);
    assert_eq!(t.trans().coord(), (7.0, 0.0));
    let m = *t.matrix();
    let v = *t.trans();
    let mut u = Trsf2d::<f64>::new();
    u.set_matrix(m);
    u.set_trans(v);
    assert_eq!(u.matrix(), t.matrix());
    assert_eq!(u.trans(), t.trans());
    // a setter of a kind overwrites all four
    u.set_scale(&Point2d::from_coordinates(0.0, 0.0), 1.0);
    assert_eq!(u.form(), TrsfForm::Scale);
    assert_eq!(u.trans().coord(), (0.0, 0.0));
}

#[test]
fn test_trsf_form_names() {
    let all = [
        (TrsfForm::Identity, "Identity"),
        (TrsfForm::Rotation, "Rotation"),
        (TrsfForm::Translation, "Translation"),
        (TrsfForm::PointMirror, "PointMirror"),
        (TrsfForm::Ax1Mirror, "Ax1Mirror"),
        (TrsfForm::Ax2Mirror, "Ax2Mirror"),
        (TrsfForm::Scale, "Scale"),
        (TrsfForm::CompoundTrsf, "CompoundTrsf"),
        (TrsfForm::Other, "Other"),
    ];
    for (form, name) in all.iter() {
        assert_eq!(form.as_str(), *name);
    }
}
