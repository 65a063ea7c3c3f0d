//! Two-by-two matrices: entries, determinant, inverse, products and powers.
use crate::power::{
    associative, by_squaring, lemma_by_squaring_is_repeated, lemma_repeated_adds, repeated,
};
use crate::scalar::{
    is_within, lawful, mul_add, mul_add_req, mul_sub, mul_sub_req, one, within, zero, Scalar,
};
use crate::text::{lists, push_list};
use crate::xy::XY;
use std::ops::{
    Add, AddAssign, Div, DivAssign, Index, IndexMut, Mul, MulAssign, Neg, Sub, SubAssign,
};
use vstd::prelude::*;
use vstd::std_specs::ops::{AddSpec, DivSpec, MulSpec, NegSpec, SubSpec};
use vstd::string::StringExecFns;

verus! {

/// The four entries of a two-by-two matrix, row by row:
/// `a b` over `c d`.
pub ghost struct Mat2<T> {
    pub a: T,
    pub b: T,
    pub c: T,
    pub d: T,
}

/// A two-by-two matrix, stored as two rows. Nothing is asked of the entries:
/// a matrix may be singular.
#[derive(Debug, Clone, Copy, PartialEq)]
pub struct Matrix2d<T> {
    pub m: [[T; 2]; 2],
}

impl<T: Scalar> View for Matrix2d<T> {
    type V = Mat2<T>;

    open spec fn view(&self) -> Mat2<T> {
        Mat2 { a: self.m[0][0], b: self.m[0][1], c: self.m[1][0], d: self.m[1][1] }
    }
}

impl<T: Scalar> Mat2<T> {
    /// The matrix with 1 on the diagonal and 0 elsewhere.
    pub open spec fn identity() -> Self {
        Mat2 { a: one::<T>(), b: zero::<T>(), c: zero::<T>(), d: one::<T>() }
    }

    /// The matrix with `s` on the diagonal and 0 elsewhere.
    pub open spec fn scaling(s: T) -> Self {
        Mat2 { a: s, b: zero::<T>(), c: zero::<T>(), d: s }
    }

    /// The rotation whose angle has the given cosine and sine:
    /// `cos -sin` over `sin cos`.
    pub open spec fn rotation(cos: T, sin: T) -> Self {
        Mat2 { a: cos, b: sin.neg_spec(), c: sin, d: cos }
    }

    /// Element `(row, col)`; both are 0 or 1.
    pub open spec fn entry(self, row: int, col: int) -> T {
        if row == 0 {
            if col == 0 {
                self.a
            } else {
                self.b
            }
        } else {
            if col == 0 {
                self.c
            } else {
                self.d
            }
        }
    }

    /// The matrix with the entries of column `col` replaced by `top` and `bottom`.
    pub open spec fn with_col(self, col: int, top: T, bottom: T) -> Self {
        if col == 0 {
            Mat2 { a: top, c: bottom, ..self }
        } else {
            Mat2 { b: top, d: bottom, ..self }
        }
    }

    /// The matrix with the entries of row `row` replaced by `left` and `right`.
    pub open spec fn with_row(self, row: int, left: T, right: T) -> Self {
        if row == 0 {
            Mat2 { a: left, b: right, ..self }
        } else {
            Mat2 { c: left, d: right, ..self }
        }
    }

    /// The mirror image across the diagonal.
    pub open spec fn transposed(self) -> Self {
        Mat2 { a: self.a, b: self.c, c: self.b, d: self.d }
    }

    /// `a * d - b * c`.
    pub open spec fn determinant(self) -> T {
        mul_sub(self.a, self.d, self.b, self.c)
    }

    pub open spec fn determinant_req(self) -> bool {
        mul_sub_req(self.a, self.d, self.b, self.c)
    }

    /// The determinant's absolute value lies below `min_positive`.
    pub open spec fn singular(self, min_positive: T) -> bool {
        within(self.determinant(), min_positive)
    }

    /// The operators accept each step of the test for singularity.
    pub open spec fn singular_req(self) -> bool {
        self.determinant_req() && self.determinant().neg_req()
    }

    /// The reciprocal of the determinant, `1 / det`.
    pub open spec fn reciprocal_determinant(self) -> T {
        one::<T>().div_spec(self.determinant())
    }

    /// The closed form of the inverse: the adjugate `d -b` over `-c a`, each
    /// entry multiplied by `1 / det`.
    pub open spec fn inverse(self) -> Self {
        let r = self.reciprocal_determinant();
        Mat2 {
            a: self.d.mul_spec(r),
            b: self.b.neg_spec().mul_spec(r),
            c: self.c.neg_spec().mul_spec(r),
            d: self.a.mul_spec(r),
        }
    }

    /// The operators accept each step of the closed form of the inverse.
    pub open spec fn inverse_req(self) -> bool {
        let r = self.reciprocal_determinant();
        &&& self.determinant_req()
        &&& one::<T>().div_req(self.determinant())
        &&& self.b.neg_req()
        &&& self.c.neg_req()
        &&& self.d.mul_req(r)
        &&& self.b.neg_spec().mul_req(r)
        &&& self.c.neg_spec().mul_req(r)
        &&& self.a.mul_req(r)
    }

    /// The matrix product `self * other`, rows of `self` into columns of `other`.
    pub open spec fn matmul(self, other: Self) -> Self {
        Mat2 {
            a: mul_add(self.a, other.a, self.b, other.c),
            b: mul_add(self.a, other.b, self.b, other.d),
            c: mul_add(self.c, other.a, self.d, other.c),
            d: mul_add(self.c, other.b, self.d, other.d),
        }
    }

    pub open spec fn matmul_req(self, other: Self) -> bool {
        &&& mul_add_req(self.a, other.a, self.b, other.c)
        &&& mul_add_req(self.a, other.b, self.b, other.d)
        &&& mul_add_req(self.c, other.a, self.d, other.c)
        &&& mul_add_req(self.c, other.b, self.d, other.d)
    }

    /// The matrix product as a function of its two factors.
    pub open spec fn product() -> spec_fn(Mat2<T>, Mat2<T>) -> Mat2<T> {
        |x: Mat2<T>, y: Mat2<T>| x.matmul(y)
    }

    /// `acc * base^k` by squaring. The products are taken in the order of
    /// the schedule, which matters where the scalar's multiplication is not
    /// associative.
    pub open spec fn power_by_squaring(acc: Self, base: Self, k: nat) -> Self {
        by_squaring(Self::product(), acc, base, k)
    }

    /// The operators accept each product that `power_by_squaring` takes.
    pub open spec fn power_by_squaring_req(acc: Self, base: Self, k: nat) -> bool
        decreases k,
    {
        if k == 0 {
            true
        } else {
            let acc1 = if k % 2 == 1 {
                acc.matmul(base)
            } else {
                acc
            };
            &&& k % 2 == 1 ==> acc.matmul_req(base)
            &&& k > 1 ==> {
                &&& base.matmul_req(base)
                &&& Self::power_by_squaring_req(acc1, base.matmul(base), k / 2)
            }
        }
    }

    /// The matrix that `power` raises: the matrix itself for a positive
    /// exponent, its inverse for a negative one.
    pub open spec fn power_base(self, n: int) -> Self {
        if n < 0 {
            self.inverse()
        } else {
            self
        }
    }

    /// The `n`-th power: the identity for 0, else `|n|` factors of the
    /// matrix (of its inverse where `n` is negative), multiplied by squaring.
    pub open spec fn power(self, n: int) -> Self {
        if n == 0 {
            Self::identity()
        } else {
            let base = self.power_base(n);
            let k = if n < 0 {
                -n
            } else {
                n
            };
            Self::power_by_squaring(base, base, (k - 1) as nat)
        }
    }

    /// What `power` needs: for a negative exponent a matrix that is not
    /// singular, and operators that accept each step.
    pub open spec fn power_req(self, n: int, min_positive: T) -> bool {
        let base = self.power_base(n);
        let k = if n < 0 {
            -n
        } else {
            n
        };
        &&& n < 0 ==> self.singular_req() && !self.singular(min_positive) && self.inverse_req()
        &&& n != 0 ==> Self::power_by_squaring_req(base, base, (k - 1) as nat)
    }
}

impl<T: Scalar> Matrix2d<T> {
    /// The matrix whose entries are all 0.
    pub fn new() -> (r: Self)
        ensures
            lawful::<T>() ==> r@ == Mat2::<T>::scaling(zero::<T>()),
    {
        let z = T::from(0i8);
        Matrix2d { m: [[z, z], [z, z]] }
    }

    /// The matrix with the given rows.
    pub fn from_array(m: [[T; 2]; 2]) -> (r: Self)
        ensures
            r.m == m,
    {
        Matrix2d { m }
    }

    /// The matrix `v1 v2` over `v3 v4`.
    pub fn from_coordinates(v1: T, v2: T, v3: T, v4: T) -> (r: Self)
        ensures
            r@ == (Mat2 { a: v1, b: v2, c: v3, d: v4 }),
    {
        Matrix2d { m: [[v1, v2], [v3, v4]] }
    }

    /// Column `index`, top entry first.
    pub fn col(&self, index: usize) -> (r: [T; 2])
        requires
            index < 2,
        ensures
            r[0] == self@.entry(0, index as int),
            r[1] == self@.entry(1, index as int),
    {
        [self.m[0][index], self.m[1][index]]
    }

    /// Column `index` as a pair.
    pub fn col_xy(&self, index: usize) -> (r: XY<T>)
        requires
            index < 2,
        ensures
            r == (XY { x: self@.entry(0, index as int), y: self@.entry(1, index as int) }),
    {
        XY::from_coordinates(self.m[0][index], self.m[1][index])
    }

    /// Row `index`, left entry first.
    pub fn row(&self, index: usize) -> (r: [T; 2])
        requires
            index < 2,
        ensures
            r[0] == self@.entry(index as int, 0),
            r[1] == self@.entry(index as int, 1),
    {
        self.m[index]
    }

    /// Row `index` as a pair.
    pub fn row_xy(&self, index: usize) -> (r: XY<T>)
        requires
            index < 2,
        ensures
            r == (XY { x: self@.entry(index as int, 0), y: self@.entry(index as int, 1) }),
    {
        XY::from_coordinates(self.m[index][0], self.m[index][1])
    }

    pub fn set_col(&mut self, index: usize, col: [T; 2])
        requires
            index < 2,
        ensures
            final(self)@ == old(self)@.with_col(index as int, col[0], col[1]),
    {
        if index == 0 {
            self.m = [[col[0], self.m[0][1]], [col[1], self.m[1][1]]];
        } else if index == 1 {
            self.m = [[self.m[0][0], col[0]], [self.m[1][0], col[1]]];
        } else {
            unreached::<()>();
        }
    }

    pub fn set_col_xy(&mut self, index: usize, xy: XY<T>)
        requires
            index < 2,
        ensures
            final(self)@ == old(self)@.with_col(index as int, xy.x, xy.y),
    {
        self.set_col(index, [xy.x, xy.y]);
    }

    pub fn set_row(&mut self, index: usize, row: [T; 2])
        requires
            index < 2,
        ensures
            final(self)@ == old(self)@.with_row(index as int, row[0], row[1]),
    {
        if index == 0 {
            self.m = [row, self.m[1]];
        } else if index == 1 {
            self.m = [self.m[0], row];
        } else {
            unreached::<()>();
        }
    }

    pub fn set_row_xy(&mut self, index: usize, xy: XY<T>)
        requires
            index < 2,
        ensures
            final(self)@ == old(self)@.with_row(index as int, xy.x, xy.y),
    {
        self.set_row(index, [xy.x, xy.y]);
    }

    /// The two rows.
    pub fn matrix(&self) -> (r: [[T; 2]; 2])
        ensures
            r == self.m,
    {
        self.m
    }

    pub fn set_matrix(&mut self, m: [[T; 2]; 2])
        ensures
            final(self).m == m,
    {
        self.m = m;
    }

    /// Sets the rows from two pairs.
    pub fn set_matrix_xy(&mut self, m: [XY<T>; 2])
        ensures
            final(self)@ == (Mat2 { a: m[0].x, b: m[0].y, c: m[1].x, d: m[1].y }),
    {
        self.m = [[m[0].x, m[0].y], [m[1].x, m[1].y]];
    }

    pub fn diagonal(&self) -> (r: [T; 2])
        ensures
            r[0] == self@.a,
            r[1] == self@.d,
    {
        [self.m[0][0], self.m[1][1]]
    }

    pub fn diagonal_xy(&self) -> (r: XY<T>)
        ensures
            r == (XY { x: self@.a, y: self@.d }),
    {
        XY::from_coordinates(self.m[0][0], self.m[1][1])
    }

    pub fn set_diagonal(&mut self, diag: [T; 2])
        ensures
            final(self)@ == (Mat2 { a: diag[0], d: diag[1], ..old(self)@ }),
    {
        self.m = [[diag[0], self.m[0][1]], [self.m[1][0], diag[1]]];
    }

    pub fn set_diagonal_xy(&mut self, diag: XY<T>)
        ensures
            final(self)@ == (Mat2 { a: diag.x, d: diag.y, ..old(self)@ }),
    {
        self.set_diagonal([diag.x, diag.y]);
    }

    pub fn set_identity(&mut self)
        ensures
            lawful::<T>() ==> final(self)@ == Mat2::<T>::identity(),
    {
        let o = T::from(1i8);
        let z = T::from(0i8);
        self.m = [[o, z], [z, o]];
    }

    /// Sets the rotation by the angle whose cosine and sine are given.
    pub fn set_rotation(&mut self, cos_angle: T, sin_angle: T)
        requires
            lawful::<T>(),
            sin_angle.neg_req(),
        ensures
            final(self)@ == Mat2::rotation(cos_angle, sin_angle),
    {
        self.m = [[cos_angle, sin_angle.neg()], [sin_angle, cos_angle]];
    }

    /// Sets `scale` times the identity.
    pub fn set_scale(&mut self, scale: T)
        ensures
            lawful::<T>() ==> final(self)@ == Mat2::scaling(scale),
    {
        let z = T::from(0i8);
        self.m = [[scale, z], [z, scale]];
    }

    pub fn determinant(&self) -> (r: T)
        requires
            lawful::<T>(),
            self@.determinant_req(),
        ensures
            r == self@.determinant(),
    {
        self.m[0][0] * self.m[1][1] - self.m[0][1] * self.m[1][0]
    }

    /// Whether the determinant's absolute value lies below `min_positive`,
    /// the smallest positive value the caller's scalar can hold.
    pub fn is_singular(&self, min_positive: T) -> (r: bool)
        requires
            lawful::<T>(),
            self@.singular_req(),
        ensures
            r == self@.singular(min_positive),
    {
        is_within(self.determinant(), min_positive)
    }

    /// Replaces the matrix by its inverse, unless it is singular.
    pub fn invert(&mut self, min_positive: T) -> (r: Result<(), &'static str>)
        requires
            lawful::<T>(),
            old(self)@.singular_req(),
            !old(self)@.singular(min_positive) ==> old(self)@.inverse_req(),
        ensures
            old(self)@.singular(min_positive) ==> {
                &&& r matches Err(e)
                &&& e@ == "Matrix is singular and cannot be inverted"@
                &&& *final(self) == *old(self)
            },
            !old(self)@.singular(min_positive) ==> {
                &&& r is Ok
                &&& final(self)@ == old(self)@.inverse()
            },
    {
        let det = self.determinant();
        if is_within(det, min_positive) {
            return Err("Matrix is singular and cannot be inverted");
        }
        let nm = self.m;
        let a_det = T::from(1i8) / det;
        self.m = [
            [nm[1][1] * a_det, nm[0][1].neg() * a_det],
            [nm[1][0].neg() * a_det, nm[0][0] * a_det],
        ];
        Ok(())
    }

    /// The inverse, unless the matrix is singular.
    pub fn invert_new(&self, min_positive: T) -> (r: Result<Matrix2d<T>, &'static str>)
        requires
            lawful::<T>(),
            self@.singular_req(),
            !self@.singular(min_positive) ==> self@.inverse_req(),
        ensures
            self@.singular(min_positive) ==> {
                &&& r matches Err(e)
                &&& e@ == "Matrix is singular and cannot be inverted"@
            },
            !self@.singular(min_positive) ==> {
                &&& r matches Ok(inv)
                &&& inv@ == self@.inverse()
            },
    {
        let mut m = *self;
        match m.invert(min_positive) {
            Ok(()) => Ok(m),
            Err(e) => Err(e),
        }
    }

    /// Multiplies by `other` on the right: the matrix becomes `self * other`.
    pub fn matmul(&mut self, other: &Matrix2d<T>)
        requires
            lawful::<T>(),
            old(self)@.matmul_req(other@),
        ensures
            final(self)@ == old(self)@.matmul(other@),
    {
        let a = self.m[0][0] * other.m[0][0] + self.m[0][1] * other.m[1][0];
        let b = self.m[0][0] * other.m[0][1] + self.m[0][1] * other.m[1][1];
        let c = self.m[1][0] * other.m[0][0] + self.m[1][1] * other.m[1][0];
        let d = self.m[1][0] * other.m[0][1] + self.m[1][1] * other.m[1][1];
        self.m = [[a, b], [c, d]];
    }

    pub fn matmul_new(&self, other: &Matrix2d<T>) -> (r: Matrix2d<T>)
        requires
            lawful::<T>(),
            self@.matmul_req(other@),
        ensures
            r@ == self@.matmul(other@),
    {
        let mut m = *self;
        m.matmul(other);
        m
    }

    /// Multiplies by `other` on the left: the matrix becomes `other * self`.
    pub fn left_matmul(&mut self, other: &Matrix2d<T>)
        requires
            lawful::<T>(),
            other@.matmul_req(old(self)@),
        ensures
            final(self)@ == other@.matmul(old(self)@),
    {
        let a = other.m[0][0] * self.m[0][0] + other.m[0][1] * self.m[1][0];
        let b = other.m[0][0] * self.m[0][1] + other.m[0][1] * self.m[1][1];
        let c = other.m[1][0] * self.m[0][0] + other.m[1][1] * self.m[1][0];
        let d = other.m[1][0] * self.m[0][1] + other.m[1][1] * self.m[1][1];
        self.m = [[a, b], [c, d]];
    }

    pub fn left_matmul_new(&self, other: &Matrix2d<T>) -> (r: Matrix2d<T>)
        requires
            lawful::<T>(),
            other@.matmul_req(self@),
        ensures
            r@ == other@.matmul(self@),
    {
        let mut m = *self;
        m.left_matmul(other);
        m
    }

    /// Raises the matrix to the `n`-th power by repeated squaring. The power
    /// 0 is the identity; a negative power is the power of the inverse, which
    /// a singular matrix does not have.
    pub fn matpowi(&mut self, n: i32, min_positive: T)
        requires
            lawful::<T>(),
            old(self)@.power_req(n as int, min_positive),
        ensures
            final(self)@ == old(self)@.power(n as int),
    {
        if n == 0 {
            self.set_identity();
            return ;
        }
        if n < 0 {
            let inverted = self.invert(min_positive);
            assert(inverted is Ok);
        }
        let magnitude: u32 = if n < 0 {
            (-(n as i64)) as u32
        } else {
            n as u32
        };
        let mut n_power: u32 = magnitude - 1;
        if n_power == 0 {
            return ;
        }
        let mut tmp_m = *self;
        let ghost target = old(self)@.power(n as int);
        loop
            invariant_except_break
                lawful::<T>(),
                n_power >= 1,
                Mat2::power_by_squaring_req(self@, tmp_m@, n_power as nat),
                Mat2::power_by_squaring(self@, tmp_m@, n_power as nat) == target,
            ensures
                self@ == target,
            decreases n_power,
        {
            if n_power % 2 == 1 {
                self.matmul(&tmp_m);
            }
            if n_power == 1 {
                break ;
            }
            let squared = tmp_m;
            tmp_m.matmul(&squared);
            n_power = n_power / 2;
        }
    }

    pub fn matpowi_new(&self, n: i32, min_positive: T) -> (r: Matrix2d<T>)
        requires
            lawful::<T>(),
            self@.power_req(n as int, min_positive),
        ensures
            r@ == self@.power(n as int),
    {
        let mut m = *self;
        m.matpowi(n, min_positive);
        m
    }

    /// Swaps the two entries off the diagonal.
    pub fn transpose(&mut self)
        ensures
            final(self)@ == old(self)@.transposed(),
    {
        self.m = [[self.m[0][0], self.m[1][0]], [self.m[0][1], self.m[1][1]]];
    }

    pub fn transpose_new(&self) -> (r: Matrix2d<T>)
        ensures
            r@ == self@.transposed(),
    {
        let mut m = *self;
        m.transpose();
        m
    }
}

/// The power 0 of any matrix is the identity.
pub proof fn lemma_power_zero<T: Scalar>(m: Mat2<T>)
    ensures
        m.power(0) == Mat2::<T>::identity(),
{
}

/// The power 1 of a matrix is the matrix itself.
pub proof fn lemma_power_one<T: Scalar>(m: Mat2<T>)
    ensures
        m.power(1) == m,
{
}

/// The power 2 of a matrix is one multiplication of the matrix by itself.
pub proof fn lemma_power_two<T: Scalar>(m: Mat2<T>)
    ensures
        m.power(2) == m.matmul(m),
{
    reveal_with_fuel(by_squaring, 2);
}

/// The power -1 of a matrix is its inverse.
pub proof fn lemma_power_minus_one<T: Scalar>(m: Mat2<T>)
    ensures
        m.power(-1) == m.inverse(),
{
}

/// A negative power is the positive power of the inverse.
pub proof fn lemma_power_negative<T: Scalar>(m: Mat2<T>, n: int)
    requires
        n < 0,
    ensures
        m.power(n) == m.inverse().power(-n),
{
}

/// Where the product of matrices is associative, as it is in exact
/// arithmetic, the power `n >= 1` is the product of `n` factors.
pub proof fn lemma_power_is_repeated_product<T: Scalar>(m: Mat2<T>, n: int)
    requires
        n >= 1,
        associative(Mat2::<T>::product()),
    ensures
        m.power(n) == repeated(Mat2::<T>::product(), m, n as nat),
{
    if n > 1 {
        lemma_by_squaring_is_repeated(Mat2::<T>::product(), m, m, (n - 1) as nat);
        lemma_repeated_adds(Mat2::<T>::product(), m, 1, (n - 1) as nat);
    }
}

/// Why the closed form inverts: in exact arithmetic the adjugate `d -b` over
/// `-c a`, multiplied into the matrix `a b` over `c d` from either side,
/// gives the determinant on the diagonal and 0 elsewhere. Dividing the
/// adjugate by the determinant therefore gives the inverse, up to the
/// rounding of the scalar.
pub proof fn lemma_adjugate_inverts(a: int, b: int, c: int, d: int)
    ensures
        d * a + (-b) * c == a * d - b * c,
        d * b + (-b) * d == 0,
        (-c) * a + a * c == 0,
        (-c) * b + a * d == a * d - b * c,
        a * d + b * (-c) == a * d - b * c,
        a * (-b) + b * a == 0,
        c * d + d * (-c) == 0,
        c * (-b) + d * a == a * d - b * c,
{
    assert(d * a + (-b) * c == a * d - b * c) by (nonlinear_arith);
    assert(d * b + (-b) * d == 0) by (nonlinear_arith);
    assert((-c) * a + a * c == 0) by (nonlinear_arith);
    assert((-c) * b + a * d == a * d - b * c) by (nonlinear_arith);
    assert(a * d + b * (-c) == a * d - b * c) by (nonlinear_arith);
    assert(a * (-b) + b * a == 0) by (nonlinear_arith);
    assert(c * d + d * (-c) == 0) by (nonlinear_arith);
    assert(c * (-b) + d * a == a * d - b * c) by (nonlinear_arith);
}

/// Transposing twice gives the matrix back.
pub proof fn lemma_transposed_twice<T: Scalar>(m: Mat2<T>)
    ensures
        m.transposed().transposed() == m,
{
}

/// Row `0` is the upper row, row `1` the lower one.
impl<T: Scalar> Index<usize> for Matrix2d<T> {
    type Output = [T; 2];

    fn index(&self, index: usize) -> (r: &[T; 2])
        ensures
            *r == self.m[index as int],
    {
        &self.m[index]
    }
}

impl<T: Scalar> vstd::std_specs::core::IndexSpecImpl<usize> for Matrix2d<T> {
    open spec fn index_req(&self, index: &usize) -> bool {
        *index < 2
    }
}

impl<T: Scalar> IndexMut<usize> for Matrix2d<T> {
    fn index_mut(&mut self, index: usize) -> (r: &mut [T; 2])
        requires
            index < 2,
        ensures
            *r == old(self).m[index as int],
            final(self).m@ == old(self).m@.update(index as int, *final(r)),
    {
        &mut self.m[index]
    }
}

/// The value with every entry negated.
impl<T: Scalar> Neg for &Matrix2d<T> {
    type Output = Matrix2d<T>;

    fn neg(self) -> (r: Matrix2d<T>)
        ensures
            T::obeys_neg_spec() ==> r == (Matrix2d {
                m: [
                    [self.m[0][0].neg_spec(), self.m[0][1].neg_spec()],
                    [self.m[1][0].neg_spec(), self.m[1][1].neg_spec()],
                ],
            }),
    {
        Matrix2d {
            m: [
                [self.m[0][0].neg(), self.m[0][1].neg()],
                [self.m[1][0].neg(), self.m[1][1].neg()],
            ],
        }
    }
}

impl<T: Scalar> vstd::std_specs::ops::NegSpecImpl for &Matrix2d<T> {
    open spec fn obeys_neg_spec() -> bool {
        T::obeys_neg_spec()
    }

    open spec fn neg_req(self) -> bool {
        &&& self.m[0][0].neg_req()
        &&& self.m[0][1].neg_req()
        &&& self.m[1][0].neg_req()
        &&& self.m[1][1].neg_req()
    }

    open spec fn neg_spec(self) -> Matrix2d<T> {
        Matrix2d {
            m: [
                [self.m[0][0].neg_spec(), self.m[0][1].neg_spec()],
                [self.m[1][0].neg_spec(), self.m[1][1].neg_spec()],
            ],
        }
    }
}

/// The sum of each entry and a scalar, in place.
impl<T: Scalar> AddAssign<T> for Matrix2d<T> {
    fn add_assign(&mut self, other: T)
        requires
            T::obeys_add_spec(),
            old(self).m[0][0].add_req(other),
            old(self).m[0][1].add_req(other),
            old(self).m[1][0].add_req(other),
            old(self).m[1][1].add_req(other),
        ensures
            *final(self) == (Matrix2d {
                m: [
                    [old(self).m[0][0].add_spec(other), old(self).m[0][1].add_spec(other)],
                    [old(self).m[1][0].add_spec(other), old(self).m[1][1].add_spec(other)],
                ],
            }),
    {
        self.m = [
            [self.m[0][0] + other, self.m[0][1] + other],
            [self.m[1][0] + other, self.m[1][1] + other],
        ];
    }
}

/// Entry-wise sum with another value, in place.
impl<T: Scalar> AddAssign<&Matrix2d<T>> for Matrix2d<T> {
    fn add_assign(&mut self, other: &Matrix2d<T>)
        requires
            T::obeys_add_spec(),
            old(self).m[0][0].add_req(other.m[0][0]),
            old(self).m[0][1].add_req(other.m[0][1]),
            old(self).m[1][0].add_req(other.m[1][0]),
            old(self).m[1][1].add_req(other.m[1][1]),
        ensures
            *final(self) == (Matrix2d {
                m: [
                    [
                        old(self).m[0][0].add_spec(other.m[0][0]),
                        old(self).m[0][1].add_spec(other.m[0][1]),
                    ],
                    [
                        old(self).m[1][0].add_spec(other.m[1][0]),
                        old(self).m[1][1].add_spec(other.m[1][1]),
                    ],
                ],
            }),
    {
        self.m = [
            [self.m[0][0] + other.m[0][0], self.m[0][1] + other.m[0][1]],
            [self.m[1][0] + other.m[1][0], self.m[1][1] + other.m[1][1]],
        ];
    }
}

/// The sum of each entry and a scalar.
impl<T: Scalar> Add<T> for &Matrix2d<T> {
    type Output = Matrix2d<T>;

    fn add(self, other: T) -> (r: Matrix2d<T>)
        ensures
            T::obeys_add_spec() ==> r == (Matrix2d {
                m: [
                    [self.m[0][0].add_spec(other), self.m[0][1].add_spec(other)],
                    [self.m[1][0].add_spec(other), self.m[1][1].add_spec(other)],
                ],
            }),
    {
        Matrix2d {
            m: [
                [self.m[0][0] + other, self.m[0][1] + other],
                [self.m[1][0] + other, self.m[1][1] + other],
            ],
        }
    }
}

impl<T: Scalar> vstd::std_specs::ops::AddSpecImpl<T> for &Matrix2d<T> {
    open spec fn obeys_add_spec() -> bool {
        T::obeys_add_spec()
    }

    open spec fn add_req(self, other: T) -> bool {
        &&& self.m[0][0].add_req(other)
        &&& self.m[0][1].add_req(other)
        &&& self.m[1][0].add_req(other)
        &&& self.m[1][1].add_req(other)
    }

    open spec fn add_spec(self, other: T) -> Matrix2d<T> {
        Matrix2d {
            m: [
                [self.m[0][0].add_spec(other), self.m[0][1].add_spec(other)],
                [self.m[1][0].add_spec(other), self.m[1][1].add_spec(other)],
            ],
        }
    }
}

/// Entry-wise sum of two values.
impl<T: Scalar> Add<&Matrix2d<T>> for &Matrix2d<T> {
    type Output = Matrix2d<T>;

    fn add(self, other: &Matrix2d<T>) -> (r: Matrix2d<T>)
        ensures
            T::obeys_add_spec() ==> r == (Matrix2d {
                m: [
                    [self.m[0][0].add_spec(other.m[0][0]), self.m[0][1].add_spec(other.m[0][1])],
                    [self.m[1][0].add_spec(other.m[1][0]), self.m[1][1].add_spec(other.m[1][1])],
                ],
            }),
    {
        Matrix2d {
            m: [
                [self.m[0][0] + other.m[0][0], self.m[0][1] + other.m[0][1]],
                [self.m[1][0] + other.m[1][0], self.m[1][1] + other.m[1][1]],
            ],
        }
    }
}

impl<T: Scalar> vstd::std_specs::ops::AddSpecImpl<&Matrix2d<T>> for &Matrix2d<T> {
    open spec fn obeys_add_spec() -> bool {
        T::obeys_add_spec()
    }

    open spec fn add_req(self, other: &Matrix2d<T>) -> bool {
        &&& self.m[0][0].add_req(other.m[0][0])
        &&& self.m[0][1].add_req(other.m[0][1])
        &&& self.m[1][0].add_req(other.m[1][0])
        &&& self.m[1][1].add_req(other.m[1][1])
    }

    open spec fn add_spec(self, other: &Matrix2d<T>) -> Matrix2d<T> {
        Matrix2d {
            m: [
                [self.m[0][0].add_spec(other.m[0][0]), self.m[0][1].add_spec(other.m[0][1])],
                [self.m[1][0].add_spec(other.m[1][0]), self.m[1][1].add_spec(other.m[1][1])],
            ],
        }
    }
}

/// The quotient of each entry and a scalar, in place.
impl<T: Scalar> DivAssign<T> for Matrix2d<T> {
    fn div_assign(&mut self, other: T)
        requires
            T::obeys_div_spec(),
            old(self).m[0][0].div_req(other),
            old(self).m[0][1].div_req(other),
            old(self).m[1][0].div_req(other),
            old(self).m[1][1].div_req(other),
        ensures
            *final(self) == (Matrix2d {
                m: [
                    [old(self).m[0][0].div_spec(other), old(self).m[0][1].div_spec(other)],
                    [old(self).m[1][0].div_spec(other), old(self).m[1][1].div_spec(other)],
                ],
            }),
    {
        self.m = [
            [self.m[0][0] / other, self.m[0][1] / other],
            [self.m[1][0] / other, self.m[1][1] / other],
        ];
    }
}

/// Entry-wise quotient with another value, in place.
impl<T: Scalar> DivAssign<&Matrix2d<T>> for Matrix2d<T> {
    fn div_assign(&mut self, other: &Matrix2d<T>)
        requires
            T::obeys_div_spec(),
            old(self).m[0][0].div_req(other.m[0][0]),
            old(self).m[0][1].div_req(other.m[0][1]),
            old(self).m[1][0].div_req(other.m[1][0]),
            old(self).m[1][1].div_req(other.m[1][1]),
        ensures
            *final(self) == (Matrix2d {
                m: [
                    [
                        old(self).m[0][0].div_spec(other.m[0][0]),
                        old(self).m[0][1].div_spec(other.m[0][1]),
                    ],
                    [
                        old(self).m[1][0].div_spec(other.m[1][0]),
                        old(self).m[1][1].div_spec(other.m[1][1]),
                    ],
                ],
            }),
    {
        self.m = [
            [self.m[0][0] / other.m[0][0], self.m[0][1] / other.m[0][1]],
            [self.m[1][0] / other.m[1][0], self.m[1][1] / other.m[1][1]],
        ];
    }
}

/// The quotient of each entry and a scalar.
impl<T: Scalar> Div<T> for &Matrix2d<T> {
    type Output = Matrix2d<T>;

    fn div(self, other: T) -> (r: Matrix2d<T>)
        ensures
            T::obeys_div_spec() ==> r == (Matrix2d {
                m: [
                    [self.m[0][0].div_spec(other), self.m[0][1].div_spec(other)],
                    [self.m[1][0].div_spec(other), self.m[1][1].div_spec(other)],
                ],
            }),
    {
        Matrix2d {
            m: [
                [self.m[0][0] / other, self.m[0][1] / other],
                [self.m[1][0] / other, self.m[1][1] / other],
            ],
        }
    }
}

impl<T: Scalar> vstd::std_specs::ops::DivSpecImpl<T> for &Matrix2d<T> {
    open spec fn obeys_div_spec() -> bool {
        T::obeys_div_spec()
    }

    open spec fn div_req(self, other: T) -> bool {
        &&& self.m[0][0].div_req(other)
        &&& self.m[0][1].div_req(other)
        &&& self.m[1][0].div_req(other)
        &&& self.m[1][1].div_req(other)
    }

    open spec fn div_spec(self, other: T) -> Matrix2d<T> {
        Matrix2d {
            m: [
                [self.m[0][0].div_spec(other), self.m[0][1].div_spec(other)],
                [self.m[1][0].div_spec(other), self.m[1][1].div_spec(other)],
            ],
        }
    }
}

/// Entry-wise quotient of two values.
impl<T: Scalar> Div<&Matrix2d<T>> for &Matrix2d<T> {
    type Output = Matrix2d<T>;

    fn div(self, other: &Matrix2d<T>) -> (r: Matrix2d<T>)
        ensures
            T::obeys_div_spec() ==> r == (Matrix2d {
                m: [
                    [self.m[0][0].div_spec(other.m[0][0]), self.m[0][1].div_spec(other.m[0][1])],
                    [self.m[1][0].div_spec(other.m[1][0]), self.m[1][1].div_spec(other.m[1][1])],
                ],
            }),
    {
        Matrix2d {
            m: [
                [self.m[0][0] / other.m[0][0], self.m[0][1] / other.m[0][1]],
                [self.m[1][0] / other.m[1][0], self.m[1][1] / other.m[1][1]],
            ],
        }
    }
}

impl<T: Scalar> vstd::std_specs::ops::DivSpecImpl<&Matrix2d<T>> for &Matrix2d<T> {
    open spec fn obeys_div_spec() -> bool {
        T::obeys_div_spec()
    }

    open spec fn div_req(self, other: &Matrix2d<T>) -> bool {
        &&& self.m[0][0].div_req(other.m[0][0])
        &&& self.m[0][1].div_req(other.m[0][1])
        &&& self.m[1][0].div_req(other.m[1][0])
        &&& self.m[1][1].div_req(other.m[1][1])
    }

    open spec fn div_spec(self, other: &Matrix2d<T>) -> Matrix2d<T> {
        Matrix2d {
            m: [
                [self.m[0][0].div_spec(other.m[0][0]), self.m[0][1].div_spec(other.m[0][1])],
                [self.m[1][0].div_spec(other.m[1][0]), self.m[1][1].div_spec(other.m[1][1])],
            ],
        }
    }
}

/// The product of each entry and a scalar, in place.
impl<T: Scalar> MulAssign<T> for Matrix2d<T> {
    fn mul_assign(&mut self, other: T)
        requires
            T::obeys_mul_spec(),
            old(self).m[0][0].mul_req(other),
            old(self).m[0][1].mul_req(other),
            old(self).m[1][0].mul_req(other),
            old(self).m[1][1].mul_req(other),
        ensures
            *final(self) == (Matrix2d {
                m: [
                    [old(self).m[0][0].mul_spec(other), old(self).m[0][1].mul_spec(other)],
                    [old(self).m[1][0].mul_spec(other), old(self).m[1][1].mul_spec(other)],
                ],
            }),
    {
        self.m = [
            [self.m[0][0] * other, self.m[0][1] * other],
            [self.m[1][0] * other, self.m[1][1] * other],
        ];
    }
}

/// Entry-wise product with another value, in place.
impl<T: Scalar> MulAssign<&Matrix2d<T>> for Matrix2d<T> {
    fn mul_assign(&mut self, other: &Matrix2d<T>)
        requires
            T::obeys_mul_spec(),
            old(self).m[0][0].mul_req(other.m[0][0]),
            old(self).m[0][1].mul_req(other.m[0][1]),
            old(self).m[1][0].mul_req(other.m[1][0]),
            old(self).m[1][1].mul_req(other.m[1][1]),
        ensures
            *final(self) == (Matrix2d {
                m: [
                    [
                        old(self).m[0][0].mul_spec(other.m[0][0]),
                        old(self).m[0][1].mul_spec(other.m[0][1]),
                    ],
                    [
                        old(self).m[1][0].mul_spec(other.m[1][0]),
                        old(self).m[1][1].mul_spec(other.m[1][1]),
                    ],
                ],
            }),
    {
        self.m = [
            [self.m[0][0] * other.m[0][0], self.m[0][1] * other.m[0][1]],
            [self.m[1][0] * other.m[1][0], self.m[1][1] * other.m[1][1]],
        ];
    }
}

/// The product of each entry and a scalar.
impl<T: Scalar> Mul<T> for &Matrix2d<T> {
    type Output = Matrix2d<T>;

    fn mul(self, other: T) -> (r: Matrix2d<T>)
        ensures
            T::obeys_mul_spec() ==> r == (Matrix2d {
                m: [
                    [self.m[0][0].mul_spec(other), self.m[0][1].mul_spec(other)],
                    [self.m[1][0].mul_spec(other), self.m[1][1].mul_spec(other)],
                ],
            }),
    {
        Matrix2d {
            m: [
                [self.m[0][0] * other, self.m[0][1] * other],
                [self.m[1][0] * other, self.m[1][1] * other],
            ],
        }
    }
}

impl<T: Scalar> vstd::std_specs::ops::MulSpecImpl<T> for &Matrix2d<T> {
    open spec fn obeys_mul_spec() -> bool {
        T::obeys_mul_spec()
    }

    open spec fn mul_req(self, other: T) -> bool {
        &&& self.m[0][0].mul_req(other)
        &&& self.m[0][1].mul_req(other)
        &&& self.m[1][0].mul_req(other)
        &&& self.m[1][1].mul_req(other)
    }

    open spec fn mul_spec(self, other: T) -> Matrix2d<T> {
        Matrix2d {
            m: [
                [self.m[0][0].mul_spec(other), self.m[0][1].mul_spec(other)],
                [self.m[1][0].mul_spec(other), self.m[1][1].mul_spec(other)],
            ],
        }
    }
}

/// Entry-wise product of two values.
impl<T: Scalar> Mul<&Matrix2d<T>> for Matrix2d<T> {
    type Output = Matrix2d<T>;

    fn mul(self, other: &Matrix2d<T>) -> (r: Matrix2d<T>)
        ensures
            T::obeys_mul_spec() ==> r == (Matrix2d {
                m: [
                    [self.m[0][0].mul_spec(other.m[0][0]), self.m[0][1].mul_spec(other.m[0][1])],
                    [self.m[1][0].mul_spec(other.m[1][0]), self.m[1][1].mul_spec(other.m[1][1])],
                ],
            }),
    {
        Matrix2d {
            m: [
                [self.m[0][0] * other.m[0][0], self.m[0][1] * other.m[0][1]],
                [self.m[1][0] * other.m[1][0], self.m[1][1] * other.m[1][1]],
            ],
        }
    }
}

impl<T: Scalar> vstd::std_specs::ops::MulSpecImpl<&Matrix2d<T>> for Matrix2d<T> {
    open spec fn obeys_mul_spec() -> bool {
        T::obeys_mul_spec()
    }

    open spec fn mul_req(self, other: &Matrix2d<T>) -> bool {
        &&& self.m[0][0].mul_req(other.m[0][0])
        &&& self.m[0][1].mul_req(other.m[0][1])
        &&& self.m[1][0].mul_req(other.m[1][0])
        &&& self.m[1][1].mul_req(other.m[1][1])
    }

    open spec fn mul_spec(self, other: &Matrix2d<T>) -> Matrix2d<T> {
        Matrix2d {
            m: [
                [self.m[0][0].mul_spec(other.m[0][0]), self.m[0][1].mul_spec(other.m[0][1])],
                [self.m[1][0].mul_spec(other.m[1][0]), self.m[1][1].mul_spec(other.m[1][1])],
            ],
        }
    }
}

/// The difference of each entry and a scalar, in place.
impl<T: Scalar> SubAssign<T> for Matrix2d<T> {
    fn sub_assign(&mut self, other: T)
        requires
            T::obeys_sub_spec(),
            old(self).m[0][0].sub_req(other),
            old(self).m[0][1].sub_req(other),
            old(self).m[1][0].sub_req(other),
            old(self).m[1][1].sub_req(other),
        ensures
            *final(self) == (Matrix2d {
                m: [
                    [old(self).m[0][0].sub_spec(other), old(self).m[0][1].sub_spec(other)],
                    [old(self).m[1][0].sub_spec(other), old(self).m[1][1].sub_spec(other)],
                ],
            }),
    {
        self.m = [
            [self.m[0][0] - other, self.m[0][1] - other],
            [self.m[1][0] - other, self.m[1][1] - other],
        ];
    }
}

/// Entry-wise difference with another value, in place.
impl<T: Scalar> SubAssign<&Matrix2d<T>> for Matrix2d<T> {
    fn sub_assign(&mut self, other: &Matrix2d<T>)
        requires
            T::obeys_sub_spec(),
            old(self).m[0][0].sub_req(other.m[0][0]),
            old(self).m[0][1].sub_req(other.m[0][1]),
            old(self).m[1][0].sub_req(other.m[1][0]),
            old(self).m[1][1].sub_req(other.m[1][1]),
        ensures
            *final(self) == (Matrix2d {
                m: [
                    [
                        old(self).m[0][0].sub_spec(other.m[0][0]),
                        old(self).m[0][1].sub_spec(other.m[0][1]),
                    ],
                    [
                        old(self).m[1][0].sub_spec(other.m[1][0]),
                        old(self).m[1][1].sub_spec(other.m[1][1]),
                    ],
                ],
            }),
    {
        self.m = [
            [self.m[0][0] - other.m[0][0], self.m[0][1] - other.m[0][1]],
            [self.m[1][0] - other.m[1][0], self.m[1][1] - other.m[1][1]],
        ];
    }
}

/// The difference of each entry and a scalar.
impl<T: Scalar> Sub<T> for &Matrix2d<T> {
    type Output = Matrix2d<T>;

    fn sub(self, other: T) -> (r: Matrix2d<T>)
        ensures
            T::obeys_sub_spec() ==> r == (Matrix2d {
                m: [
                    [self.m[0][0].sub_spec(other), self.m[0][1].sub_spec(other)],
                    [self.m[1][0].sub_spec(other), self.m[1][1].sub_spec(other)],
                ],
            }),
    {
        Matrix2d {
            m: [
                [self.m[0][0] - other, self.m[0][1] - other],
                [self.m[1][0] - other, self.m[1][1] - other],
            ],
        }
    }
}

impl<T: Scalar> vstd::std_specs::ops::SubSpecImpl<T> for &Matrix2d<T> {
    open spec fn obeys_sub_spec() -> bool {
        T::obeys_sub_spec()
    }

    open spec fn sub_req(self, other: T) -> bool {
        &&& self.m[0][0].sub_req(other)
        &&& self.m[0][1].sub_req(other)
        &&& self.m[1][0].sub_req(other)
        &&& self.m[1][1].sub_req(other)
    }

    open spec fn sub_spec(self, other: T) -> Matrix2d<T> {
        Matrix2d {
            m: [
                [self.m[0][0].sub_spec(other), self.m[0][1].sub_spec(other)],
                [self.m[1][0].sub_spec(other), self.m[1][1].sub_spec(other)],
            ],
        }
    }
}

/// Entry-wise difference of two values.
impl<T: Scalar> Sub<&Matrix2d<T>> for &Matrix2d<T> {
    type Output = Matrix2d<T>;

    fn sub(self, other: &Matrix2d<T>) -> (r: Matrix2d<T>)
        ensures
            T::obeys_sub_spec() ==> r == (Matrix2d {
                m: [
                    [self.m[0][0].sub_spec(other.m[0][0]), self.m[0][1].sub_spec(other.m[0][1])],
                    [self.m[1][0].sub_spec(other.m[1][0]), self.m[1][1].sub_spec(other.m[1][1])],
                ],
            }),
    {
        Matrix2d {
            m: [
                [self.m[0][0] - other.m[0][0], self.m[0][1] - other.m[0][1]],
                [self.m[1][0] - other.m[1][0], self.m[1][1] - other.m[1][1]],
            ],
        }
    }
}

impl<T: Scalar> vstd::std_specs::ops::SubSpecImpl<&Matrix2d<T>> for &Matrix2d<T> {
    open spec fn obeys_sub_spec() -> bool {
        T::obeys_sub_spec()
    }

    open spec fn sub_req(self, other: &Matrix2d<T>) -> bool {
        &&& self.m[0][0].sub_req(other.m[0][0])
        &&& self.m[0][1].sub_req(other.m[0][1])
        &&& self.m[1][0].sub_req(other.m[1][0])
        &&& self.m[1][1].sub_req(other.m[1][1])
    }

    open spec fn sub_spec(self, other: &Matrix2d<T>) -> Matrix2d<T> {
        Matrix2d {
            m: [
                [self.m[0][0].sub_spec(other.m[0][0]), self.m[0][1].sub_spec(other.m[0][1])],
                [self.m[1][0].sub_spec(other.m[1][0]), self.m[1][1].sub_spec(other.m[1][1])],
            ],
        }
    }
}

impl<T: Scalar + std::fmt::Display> Matrix2d<T> {
    /// `s` is the text of the value: the two rows, as `Matrix2d[[a, b], [c, d]]`.
    pub open spec fn is_text(self, s: Seq<char>) -> bool {
        exists|part0: Seq<char>, part1: Seq<char>|
            {
                &&& lists(seq![self.m[0][0], self.m[0][1]], part0)
                &&& lists(seq![self.m[1][0], self.m[1][1]], part1)
                &&& s == "Matrix2d[["@ + part0 + "], ["@ + part1 + "]]"@
            }
    }

    pub fn to_string(&self) -> (r: String)
        ensures
            self.is_text(r@),
    {
        let mut s = String::from_str("Matrix2d[[");
        let ghost b0 = s@;
        let a0 = [self.m[0][0], self.m[0][1]];
        push_list(&mut s, a0.as_slice());
        let ghost part0 = choose|p: Seq<char>| lists(a0@, p) && s@ == b0 + p;
        assert(a0@ =~= seq![self.m[0][0], self.m[0][1]]);
        s.append("], [");
        let ghost b1 = s@;
        let a1 = [self.m[1][0], self.m[1][1]];
        push_list(&mut s, a1.as_slice());
        let ghost part1 = choose|p: Seq<char>| lists(a1@, p) && s@ == b1 + p;
        assert(a1@ =~= seq![self.m[1][0], self.m[1][1]]);
        s.append("]]");
        assert(s@ =~= "Matrix2d[["@ + part0 + "], ["@ + part1 + "]]"@);
        s
    }
}

} // verus!
