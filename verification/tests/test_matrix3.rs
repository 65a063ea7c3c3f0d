use geom_primitive::matrix3::Matrix3;
use geom_primitive::xyz::XYZ;

#[test]
fn test_matrix3_test_new() {
    let m1 = Matrix3::<f64>::new();
    assert_eq!(
        m1.get_values(),
        [[0.0, 0.0, 0.0], [0.0, 0.0, 0.0], [0.0, 0.0, 0.0]]
    );
}

#[test]
fn test_matrix3_test_from_array() {
    let m2 = Matrix3::from_array([[1.0, 2.0, 3.0], [4.0, 5.0, 6.0], [7.0, 8.0, 9.0]]);
    assert_eq!(
        m2.get_values(),
        [[1.0, 2.0, 3.0], [4.0, 5.0, 6.0], [7.0, 8.0, 9.0]]
    );
}

#[test]
fn test_matrix3_test_from_values() {
    let m3 = Matrix3::from_values(1.0, 2.0, 3.0, 4.0, 5.0, 6.0, 7.0, 8.0, 9.0);
    assert_eq!(
        m3.get_values(),
        [[1.0, 2.0, 3.0], [4.0, 5.0, 6.0], [7.0, 8.0, 9.0]]
    );
}

#[test]
fn test_matrix3_test_get_set_values() {
    let mut m4 = Matrix3::<f64>::new();
    m4.set_values(1.0, 2.0, 3.0, 4.0, 5.0, 6.0, 7.0, 8.0, 9.0);
    assert_eq!(
        m4.get_values(),
        [[1.0, 2.0, 3.0], [4.0, 5.0, 6.0], [7.0, 8.0, 9.0]]
    );
}

#[test]
fn test_matrix3_test_get_set_col() {
    let mut m5 = Matrix3::from_values(1.0, 2.0, 3.0, 4.0, 5.0, 6.0, 7.0, 8.0, 9.0);
    assert_eq!(m5.get_col(0), [1.0, 4.0, 7.0]);
    m5.set_col(0, [10.0, 11.0, 12.0]);
    assert_eq!(m5.get_col(0), [10.0, 11.0, 12.0]);
}

#[test]
fn test_matrix3_test_get_set_row() {
    let mut m6 = Matrix3::from_values(1.0, 2.0, 3.0, 4.0, 5.0, 6.0, 7.0, 8.0, 9.0);
    assert_eq!(m6.get_row(1), [4.0, 5.0, 6.0]);
    m6.set_row(1, [10.0, 11.0, 12.0]);
    assert_eq!(m6.get_row(1), [10.0, 11.0, 12.0]);
}

#[test]
fn test_matrix3_test_get_set_diagonal() {
    let mut m7 = Matrix3::from_values(1.0, 2.0, 3.0, 4.0, 5.0, 6.0, 7.0, 8.0, 9.0);
    assert_eq!(m7.get_diagonal(), [1.0, 5.0, 9.0]);
    m7.set_diagonal([10.0, 11.0, 12.0]);
    assert_eq!(m7.get_diagonal(), [10.0, 11.0, 12.0]);
}

#[test]
fn test_matrix3_test_display() {
    let m8 = Matrix3::from_values(1.0, 2.0, 3.0, 4.0, 5.0, 6.0, 7.0, 8.0, 9.0);
    assert_eq!(
        m8.to_string(),
        "Matrix3([[1, 2, 3], [4, 5, 6], [7, 8, 9]])"
    );
}

#[test]
fn test_matrix3_test_is_equal() {
    let m1 = Matrix3::from_values(1.0, 2.0, 3.0, 4.0, 5.0, 6.0, 7.0, 8.0, 9.0);
    let m2 = Matrix3::from_values(1.0, 2.0, 3.0, 4.0, 5.0, 6.0, 7.0, 8.0, 9.0);
    let m3 = Matrix3::from_values(1.1, 2.1, 3.1, 4.1, 5.1, 6.1, 7.1, 8.1, 9.1);

    assert!(m1.is_equal(&m2, 1e-5));
    assert!(!m1.is_equal(&m3, 1e-5));
}

#[test]
fn test_matrix3_each_column_and_row() {
    let start = Matrix3::from_values(1, 2, 3, 4, 5, 6, 7, 8, 9);
    for k in 0..3 {
        let mut m = start;
        m.set_col(k, [10, 20, 30]);
        assert_eq!(m.get_col(k), [10, 20, 30]);
        for j in 0..3 {
            if j != k {
                assert_eq!(m.get_col(j), start.get_col(j));
            }
        }
        let mut m = start;
        m.set_row(k, [10, 20, 30]);
        assert_eq!(m.get_row(k), [10, 20, 30]);
        for j in 0..3 {
            if j != k {
                assert_eq!(m.get_row(j), start.get_row(j));
            }
        }
    }
    let mut m = start;
    m.set_diagonal([0, 0, 0]);
    assert_eq!(m.get_values(), [[0, 2, 3], [4, 0, 6], [7, 8, 0]]);
    assert_eq!(Matrix3::from([[1, 2, 3], [4, 5, 6], [7, 8, 9]]), start);
}

#[test]
fn test_matrix3_is_equal_one_entry_apart() {
    let m1 = Matrix3::from_values(1.0, 2.0, 3.0, 4.0, 5.0, 6.0, 7.0, 8.0, 9.0);
    for k in 0..9 {
        let mut rows = m1.get_values();
        rows[k / 3][k % 3] += 0.5;
        let m2 = Matrix3::from_array(rows);
        assert!(!m1.is_equal(&m2, 0.25));
        assert!(!m2.is_equal(&m1, 0.25));
        assert!(m1.is_equal(&m2, 0.5));
    }
}

#[test]
fn test_xyz_times_matrix3() {
    let m = Matrix3::from_values(1.0, 2.0, 3.0, 4.0, 5.0, 6.0, 7.0, 8.0, 9.0);
    let p = XYZ::from_coords(1.0, 0.0, -1.0);
    assert_eq!((&p * &m).get_coords(), (-2.0, -2.0, -2.0));
}
