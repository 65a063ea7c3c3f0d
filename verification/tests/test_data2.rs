use geom_primitive::data_types::data2::Data2;

type F32_2 = Data2<f32>;

#[test]
fn test_data2_test_init() {
    let a = F32_2::new(1.0, 2.0);
    assert_eq!(a.x, 1.0);
    assert_eq!(a.y, 2.0);
}

#[test]
fn test_data2_test_index() {
    let a = F32_2::new(1.0, 2.0);
    assert_eq!(a[0], 1.0);
    assert_eq!(a[1], 2.0);

    let mut b = a;
    b[0] = 3.0;
    b[1] = 4.0;
    assert_eq!(b[0], 3.0);
    assert_eq!(b[1], 4.0);
}

#[test]
fn test_data2_test_to_string() {
    let a = F32_2::new(1.0, 2.5);
    assert_eq!(a.to_string("f32"), "f32(1, 2.5)");
}
