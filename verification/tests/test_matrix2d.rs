use geom_primitive::matrix2d::Matrix2d;
use geom_primitive::xy::XY;

#[test]
fn test_matrix2d_test_init() {
    let m1 = Matrix2d::<f64>::new();
    assert_eq!(m1[0][0], 0.0);
    assert_eq!(m1[0][1], 0.0);
    assert_eq!(m1[1][0], 0.0);
    assert_eq!(m1[1][1], 0.0);

    let m2 = Matrix2d::from_coordinates(1.0, 2.0, 3.0, 4.0);
    assert_eq!(m2[0][0], 1.0);
    assert_eq!(m2[0][1], 2.0);
    assert_eq!(m2[1][0], 3.0);
    assert_eq!(m2[1][1], 4.0);

    let mut m3 = Matrix2d::<f64>::new();
    m3.set_col(0, [5.0, 6.0]);
    m3.set_row(1, [7.0, 8.0]);
    assert_eq!(m3.col(0), [5.0, 7.0]);
    assert_eq!(m3.row(1), [7.0, 8.0]);

    let m4 = Matrix2d::from_array([[1.0, 2.0], [3.0, 4.0]]);
    assert_eq!(m4[0][0], 1.0);
    assert_eq!(m4[0][1], 2.0);
    assert_eq!(m4[1][0], 3.0);
    assert_eq!(m4[1][1], 4.0);
}

#[test]
fn test_matrix2d_test_xy() {
    let m = Matrix2d::from_coordinates(1.0, 2.0, 3.0, 4.0);
    let xy1 = m.col_xy(0);
    let xy2 = m.row_xy(1);
    assert_eq!(xy1.x, 1.0);
    assert_eq!(xy1.y, 3.0);
    assert_eq!(xy2.x, 3.0);
    assert_eq!(xy2.y, 4.0);
}

#[test]
fn test_diagonal() {
    let mut m = Matrix2d::<f64>::new();
    m.set_diagonal([5.0, 6.0]);
    assert_eq!(m.diagonal(), [5.0, 6.0]);
    assert_eq!(m[0][0], 5.0);
    assert_eq!(m[1][1], 6.0);
}

#[test]
fn test_identity() {
    let mut m = Matrix2d::<f64>::new();
    m.set_identity();
    assert_eq!(m[0][0], 1.0);
    assert_eq!(m[1][1], 1.0);
    assert_eq!(m[0][1], 0.0);
    assert_eq!(m[1][0], 0.0);
}

#[test]
fn test_rotation() {
    let mut m = Matrix2d::<f64>::new();
    let angle = 45_f64.to_radians();
    m.set_rotation(angle.cos(), angle.sin());
    assert!((m[0][0] - 0.7071).abs() < 0.0001);
    assert!((m[0][1] + 0.7071).abs() < 0.0001);
    assert!((m[1][0] - 0.7071).abs() < 0.0001);
    assert!((m[1][1] - 0.7071).abs() < 0.0001);
}

#[test]
fn test_determinant() {
    let m = Matrix2d::from_coordinates(1.0, 2.0, 3.0, 4.0);
    assert_eq!(m.determinant(), -2.0);
}

#[test]
fn test_matrix2d_test_add_assign() {
    let mut m1 = Matrix2d::from_coordinates(1.0, 2.0, 3.0, 4.0);
    let m2 = Matrix2d::from_coordinates(5.0, 6.0, 7.0, 8.0);
    m1 += &m2;
    assert_eq!(m1[0][0], 6.0);
    assert_eq!(m1[0][1], 8.0);
    assert_eq!(m1[1][0], 10.0);
    assert_eq!(m1[1][1], 12.0);

    let m3 = &m1 + &m2;
    assert_eq!(m3[0][0], 11.0);
    assert_eq!(m3[0][1], 14.0);
    assert_eq!(m3[1][0], 17.0);
    assert_eq!(m3[1][1], 20.0);

    let m4 = &m1 + 2.0;
    assert_eq!(m4[0][0], 8.0);
    assert_eq!(m4[0][1], 10.0);
    assert_eq!(m4[1][0], 12.0);
    assert_eq!(m4[1][1], 14.0);
}

#[test]
fn test_invert() {
    let mut m = Matrix2d::from_coordinates(1.0, 2.0, 3.0, 4.0);
    assert!(!m.is_singular(f64::MIN_POSITIVE));
    m.invert(f64::MIN_POSITIVE).unwrap();
    assert!((m[0][0] + 2.0).abs() < 0.0001);
    assert!((m[0][1] - 1.0).abs() < 0.0001);
    assert!((m[1][0] - 1.5).abs() < 0.0001);
    assert!((m[1][1] + 0.5).abs() < 0.0001);

    let mut m_singular = Matrix2d::from_coordinates(1.0, 2.0, 2.0, 4.0);
    assert!(m_singular.is_singular(f64::MIN_POSITIVE));
    assert!(m_singular.invert(f64::MIN_POSITIVE).is_err());
}

#[test]
fn test_matmul(){
    let mut m1 = Matrix2d::from_coordinates(1.0, 2.0, 3.0, 4.0);
    let m2 = Matrix2d::from_coordinates(5.0, 6.0, 7.0, 8.0);
    m1.matmul(&m2);
    assert_eq!(m1[0][0], 19.0);
    assert_eq!(m1[0][1], 22.0);
    assert_eq!(m1[1][0], 43.0);
    assert_eq!(m1[1][1], 50.0);

    let m3 = m1.matmul_new(&m2);
    assert_eq!(m3[0][0], 249.0);
    assert_eq!(m3[0][1], 290.0);
    assert_eq!(m3[1][0], 565.0);
    assert_eq!(m3[1][1], 658.0);
}

#[test]
fn test_left_matmul(){
    let mut m1 = Matrix2d::from_coordinates(1.0, 2.0, 3.0, 4.0);
    let m2 = Matrix2d::from_coordinates(5.0, 6.0, 7.0, 8.0);
    m1.left_matmul(&m2);
    assert_eq!(m1[0][0], 23.0);
    assert_eq!(m1[0][1], 34.0);
    assert_eq!(m1[1][0], 31.0);
    assert_eq!(m1[1][1], 46.0);

    let m3 = m1.left_matmul_new(&m2);
    assert_eq!(m3[0][0], 301.0);
    assert_eq!(m3[0][1], 446.0);
    assert_eq!(m3[1][0], 409.0);
    assert_eq!(m3[1][1], 606.0);
}

#[test]
fn test_matpowi() {
    let mut m = Matrix2d::from_coordinates(1.0, 2.0, 3.0, 4.0);
    m.matpowi(2, f64::MIN_POSITIVE);
    assert_eq!(m[0][0], 7.0);
    assert_eq!(m[0][1], 10.0);
    assert_eq!(m[1][0], 15.0);
    assert_eq!(m[1][1], 22.0);

    let m2 = m.matpowi_new(2, f64::MIN_POSITIVE);
    assert_eq!(m2[0][0], 199.0);
    assert_eq!(m2[0][1], 290.0);
    assert_eq!(m2[1][0], 435.0);
    assert_eq!(m2[1][1], 634.0);
}

#[test]
fn test_xy_times_matrix2d() {
    let m = Matrix2d::from_coordinates(1.0, 2.0, 3.0, 4.0);
    let mut p = XY::from_coordinates(5.0, 6.0);
    assert_eq!((&p * &m).coord(), (17.0, 39.0));
    p *= &m;
    assert_eq!(p.coord(), (17.0, 39.0));
    // a quarter turn takes the first axis to the second
    let mut turn = Matrix2d::<f64>::new();
    turn.set_rotation(0.0, 1.0);
    assert_eq!((&XY::from_coordinates(1.0, 0.0) * &turn).coord(), (0.0, 1.0));
    let mut n = Matrix2d::<f64>::new();
    n.set_matrix_xy([m.row_xy(0), m.row_xy(1)]);
    assert_eq!(n, m);
    n.set_col_xy(0, XY::from_coordinates(9.0, 8.0));
    n.set_row_xy(1, XY::from_coordinates(7.0, 6.0));
    n.set_diagonal_xy(XY::from_coordinates(0.0, 0.5));
    assert_eq!(n.matrix(), [[0.0, 2.0], [7.0, 0.5]]);
    assert_eq!(n.col_xy(1).coord(), (2.0, 0.5));
}

#[test]
fn test_matpowi_small_exponents() {
    let m = Matrix2d::from_coordinates(1.0, 2.0, 3.0, 4.0);
    let tiny = f64::MIN_POSITIVE;
    // the power 0 is the identity, the power 1 the matrix itself
    assert_eq!(m.matpowi_new(0, tiny).matrix(), [[1.0, 0.0], [0.0, 1.0]]);
    assert_eq!(m.matpowi_new(1, tiny).matrix(), m.matrix());
    // the power 2 is one multiplication by itself
    assert_eq!(m.matpowi_new(2, tiny), m.matmul_new(&m));
    // the power -1 is the inverse
    assert_eq!(m.matpowi_new(-1, tiny), m.invert_new(tiny).unwrap());
    // 3 = 1 + 2 and 5 = 1 + 4: one factor and a squared one
    assert_eq!(m.matpowi_new(3, tiny).matrix(), [[37.0, 54.0], [81.0, 118.0]]);
    assert_eq!(m.matpowi_new(5, tiny).matrix(), [[1069.0, 1558.0], [2337.0, 3406.0]]);
    assert_eq!(m.matpowi_new(6, tiny).matrix(), [[5743.0, 8370.0], [12555.0, 18298.0]]);
}

#[test]
fn test_matpowi_negative_exponent() {
    // a shear: its powers add the upper right entry up
    let m = Matrix2d::from_coordinates(1.0, 1.0, 0.0, 1.0);
    let tiny = f64::MIN_POSITIVE;
    assert_eq!(m.matpowi_new(-1, tiny).matrix(), [[1.0, -1.0], [0.0, 1.0]]);
    assert_eq!(m.matpowi_new(-4, tiny).matrix(), [[1.0, -4.0], [0.0, 1.0]]);
    assert_eq!(m.matpowi_new(7, tiny).matrix(), [[1.0, 7.0], [0.0, 1.0]]);
    let big = Matrix2d::from_coordinates(1i64, 1, 0, 1).matpowi_new(i32::MAX, 1);
    assert_eq!(big.matrix(), [[1, 2147483647], [0, 1]]);
}

#[test]
fn test_invert_then_multiply_is_identity() {
    let m = Matrix2d::from_coordinates(4.0, 7.0, 2.0, 6.0);
    let mut inv = m.invert_new(f64::MIN_POSITIVE).unwrap();
    inv.matmul(&m);
    let id = inv.matrix();
    assert!((id[0][0] - 1.0).abs() < 1e-12);
    assert!(id[0][1].abs() < 1e-12);
    assert!(id[1][0].abs() < 1e-12);
    assert!((id[1][1] - 1.0).abs() < 1e-12);
}

#[test]
fn test_invert_singular_leaves_matrix() {
    let mut m = Matrix2d::from_coordinates(1.0, 2.0, 2.0, 4.0);
    assert_eq!(
        m.invert(f64::MIN_POSITIVE),
        Err("Matrix is singular and cannot be inverted")
    );
    assert_eq!(m.matrix(), [[1.0, 2.0], [2.0, 4.0]]);
    assert_eq!(
        m.invert_new(f64::MIN_POSITIVE),
        Err("Matrix is singular and cannot be inverted")
    );
}

#[test]
fn test_transpose_and_scale() {
    let mut m = Matrix2d::from_coordinates(1.0, 2.0, 3.0, 4.0);
    m.transpose();
    assert_eq!(m.matrix(), [[1.0, 3.0], [2.0, 4.0]]);
    assert_eq!(m.transpose_new().matrix(), [[1.0, 2.0], [3.0, 4.0]]);
    m.set_scale(2.5);
    assert_eq!(m.matrix(), [[2.5, 0.0], [0.0, 2.5]]);
}

#[test]
fn test_matrix2d_setters_and_index() {
    let mut m = Matrix2d::from_coordinates(1.0, 2.0, 3.0, 4.0);
    m.set_col(1, [5.0, 6.0]);
    assert_eq!(m.matrix(), [[1.0, 5.0], [3.0, 6.0]]);
    m.set_row(0, [7.0, 8.0]);
    assert_eq!(m.matrix(), [[7.0, 8.0], [3.0, 6.0]]);
    m[1][0] = 9.0;
    assert_eq!(m.row(1), [9.0, 6.0]);
    assert_eq!(m.col(1), [8.0, 6.0]);
    assert_eq!(m.diagonal_xy().coord(), (7.0, 6.0));
    m.set_matrix([[1.0, 0.0], [0.0, 1.0]]);
    assert_eq!(m.determinant(), 1.0);
}

#[test]
fn test_matrix2d_operators() {
    let m1 = Matrix2d::from_coordinates(1.0, 2.0, 3.0, 4.0);
    let m2 = Matrix2d::from_coordinates(2.0, 4.0, 6.0, 8.0);
    assert_eq!((-&m1).matrix(), [[-1.0, -2.0], [-3.0, -4.0]]);
    assert_eq!((&m2 - &m1).matrix(), [[1.0, 2.0], [3.0, 4.0]]);
    assert_eq!((&m2 - 1.0).matrix(), [[1.0, 3.0], [5.0, 7.0]]);
    assert_eq!((&m2 / &m1).matrix(), [[2.0, 2.0], [2.0, 2.0]]);
    assert_eq!((&m2 / 2.0).matrix(), [[1.0, 2.0], [3.0, 4.0]]);
    assert_eq!((&m1 * 3.0).matrix(), [[3.0, 6.0], [9.0, 12.0]]);
    // the product of two matrices by `*` is taken entry by entry
    assert_eq!((m1 * &m2).matrix(), [[2.0, 8.0], [18.0, 32.0]]);
    let mut m = m1;
    m -= &m2;
    m *= 2.0;
    m /= 4.0;
    m += 1.0;
    assert_eq!(m.matrix(), [[0.5, 0.0], [-0.5, -1.0]]);
}
