use geom_primitive::point2d::Point2d;

#[test]
fn test_point2d_test_init() {

    let p2 = Point2d::<f64>::new();
    assert_eq!(p2.x(), 0.0);
    assert_eq!(p2.y(), 0.0);



    let p3 = Point2d::from_coordinates(3.0, 4.0);
    assert_eq!(p3.x(), 3.0);
    assert_eq!(p3.y(), 4.0);
}

#[test]
fn test_point2d_test_index() {
    let p = Point2d::from_coordinates(1.0, 2.0);
    assert_eq!(p[0], 1.0);
    assert_eq!(p[1], 2.0);

    let mut p_mut = p;
    p_mut[0] = 3.0;
    p_mut[1] = 4.0;
    assert_eq!(p_mut[0], 3.0);
    assert_eq!(p_mut[1], 4.0);
}

#[test]
fn test_point2d_test_coord() {
    let mut p = Point2d::<f64>::new();
    p.set_coord(5.0, 6.0);
    assert_eq!(p.x(), 5.0);
    assert_eq!(p.y(), 6.0);

    let (x, y) = p.coord();
    assert_eq!(x, 5.0);
    assert_eq!(y, 6.0);
}

#[test]
fn test_point2d_test_distance() {
    let p1 = Point2d::from_coordinates(1.0, 2.0);
    let p2 = Point2d::from_coordinates(4.0, 6.0);
    let distance = f64::sqrt(p1.square_distance(&p2));
    assert_eq!(distance, 5.0);
    let distance_squared = p1.square_distance(&p2);
    assert_eq!(distance_squared, 25.0);
}

#[test]
fn test_point2d_test_is_equal() {
    let p1 = Point2d::from_coordinates(1.0, 2.0);
    let p2 = Point2d::from_coordinates(1.0, 2.0);
    let p3 = Point2d::from_coordinates(1.0, 3.0);
    assert!(p1.is_equal(&p2, 1e-6));
    assert!(!p1.is_equal(&p3, 1e-6));
}

#[test]
fn test_mirror_by_point2d() {
    let mut p1 = Point2d::from_coordinates(1.0, 2.0);
    let p2 = Point2d::from_coordinates(3.0, 4.0);
    p1.mirror_by_point2d(&p2);
    assert_eq!(p1.x(), 5.0);
    assert_eq!(p1.y(), 6.0);
}

#[test]
fn test_scale_by_point2d(){
    let mut p1 = Point2d::from_coordinates(1.0, 2.0);
    let p2 = Point2d::from_coordinates(3.0, 4.0);
    p1.scale_by_point2d(&p2, 0.5);
    assert_eq!(p1.x(), 2.0);
    assert_eq!(p1.y(), 3.0);
}

#[test]
fn test_point2d_translate_and_new_variants() {
    let p = Point2d::from_coordinates(1.0, 2.0);
    let from = Point2d::from_coordinates(3.0, 4.0);
    let to = Point2d::from_coordinates(10.0, 20.0);
    assert_eq!(p.translate_by_2point2d_new(&from, &to).coord(), (8.0, 18.0));
    let mut q = p;
    q.translate_by_2point2d(&from, &to);
    assert_eq!(q.coord(), (8.0, 18.0));
    assert_eq!(p.mirror_by_point2d_new(&from).coord(), (5.0, 6.0));
    assert_eq!(p.scale_by_point2d_new(&from, 3.0).coord(), (-3.0, -2.0));
    // scaling by 1 about any point, and mirroring through the point itself, keep the point
    assert_eq!(p.scale_by_point2d_new(&from, 1.0), p);
    assert_eq!(p.mirror_by_point2d_new(&p), p);
}

#[test]
fn test_point2d_accessors() {
    let mut p = Point2d::from_coords(1.0, 2.0);
    p.set_x(p.get_x() * 2.0);
    p.set_y(p.get_y() * 2.0);
    assert_eq!(p.get_coords(), (2.0, 4.0));
    assert_eq!(p.get_xy(), *p.xy());
    let xy = p.get_xy();
    p.set_coords(0.0, 0.0);
    p.set_xy(xy);
    assert_eq!(geom_primitive::point2d::Point2d::from_xy(xy), p);
    assert!(!p.is_equal(&Point2d::from_coords(2.0, 4.1), 0.05));
}
