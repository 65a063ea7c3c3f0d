//! Two-by-two matrices as plain storage: rows, columns and the diagonal.
use crate::scalar::{lawful, mul_add, mul_add_req, zero, Scalar};
use crate::text::{lists, push_list};
use crate::xy::XY;
use std::ops::Mul;
use vstd::prelude::*;
use vstd::string::StringExecFns;

verus! {

/// Two rows of two entries each, with nothing asked of them.
#[derive(Debug, Clone, Copy, PartialEq)]
pub struct Matrix2<T> {
    pub m: [[T; 2]; 2],
}

impl<T: Scalar> Matrix2<T> {
    /// Every entry is `v`.
    pub open spec fn filled_with(self, v: T) -> bool {
        forall|i: int, j: int| 0 <= i < 2 && 0 <= j < 2 ==> self.m[i][j] == v
    }

    /// The entries are those of `old`, but for column `col`, which holds
    /// `values`.
    pub open spec fn is_with_col(self, old: Self, col: int, values: [T; 2]) -> bool {
        forall|i: int, j: int|
            0 <= i < 2 && 0 <= j < 2 ==> self.m[i][j] == (if j == col {
                values[i]
            } else {
                old.m[i][j]
            })
    }

    /// The entries are those of `old`, but for row `row`, which holds `values`.
    pub open spec fn is_with_row(self, old: Self, row: int, values: [T; 2]) -> bool {
        forall|i: int, j: int|
            0 <= i < 2 && 0 <= j < 2 ==> self.m[i][j] == (if i == row {
                values[j]
            } else {
                old.m[i][j]
            })
    }

    /// The entries are those of `old`, but for the diagonal, which holds
    /// `values`.
    pub open spec fn is_with_diagonal(self, old: Self, values: [T; 2]) -> bool {
        forall|i: int, j: int|
            0 <= i < 2 && 0 <= j < 2 ==> self.m[i][j] == (if i == j {
                values[i]
            } else {
                old.m[i][j]
            })
    }

    /// The matrix whose entries are all 0.
    pub fn new() -> (r: Self)
        ensures
            lawful::<T>() ==> r.filled_with(zero::<T>()),
    {
        let z = T::from(0i8);
        Matrix2 { m: [[z, z], [z, z]] }
    }

    pub fn from_array(m: [[T; 2]; 2]) -> (r: Self)
        ensures
            r.m == m,
    {
        Matrix2 { m }
    }

    /// The matrix `m00 m01` over `m10 m11`.
    pub fn from_values(m00: T, m01: T, m10: T, m11: T) -> (r: Self)
        ensures
            r.m[0][0] == m00,
            r.m[0][1] == m01,
            r.m[1][0] == m10,
            r.m[1][1] == m11,
    {
        Matrix2 { m: [[m00, m01], [m10, m11]] }
    }

    pub fn get_values(&self) -> (r: [[T; 2]; 2])
        ensures
            r == self.m,
    {
        self.m
    }

    pub fn set_values(&mut self, m00: T, m01: T, m10: T, m11: T)
        ensures
            final(self).m[0][0] == m00,
            final(self).m[0][1] == m01,
            final(self).m[1][0] == m10,
            final(self).m[1][1] == m11,
    {
        self.m = [[m00, m01], [m10, m11]];
    }

    /// Column `col`, top entry first.
    pub fn get_col(&self, col: usize) -> (r: [T; 2])
        requires
            col < 2,
        ensures
            r[0] == self.m[0][col as int],
            r[1] == self.m[1][col as int],
    {
        [self.m[0][col], self.m[1][col]]
    }

    pub fn set_col(&mut self, col: usize, values: [T; 2])
        requires
            col < 2,
        ensures
            final(self).is_with_col(*old(self), col as int, values),
    {
        if col == 0 {
            self.m = [[values[0], self.m[0][1]], [values[1], self.m[1][1]]];
        } else if col == 1 {
            self.m = [[self.m[0][0], values[0]], [self.m[1][0], values[1]]];
        } else {
            unreached::<()>();
        }
    }

    /// Row `row`, left entry first.
    pub fn get_row(&self, row: usize) -> (r: [T; 2])
        requires
            row < 2,
        ensures
            r == self.m[row as int],
    {
        self.m[row]
    }

    pub fn set_row(&mut self, row: usize, values: [T; 2])
        requires
            row < 2,
        ensures
            final(self).is_with_row(*old(self), row as int, values),
    {
        if row == 0 {
            self.m = [values, self.m[1]];
        } else if row == 1 {
            self.m = [self.m[0], values];
        } else {
            unreached::<()>();
        }
    }

    pub fn get_diagonal(&self) -> (r: [T; 2])
        ensures
            r[0] == self.m[0][0],
            r[1] == self.m[1][1],
    {
        [self.m[0][0], self.m[1][1]]
    }

    pub fn set_diagonal(&mut self, values: [T; 2])
        ensures
            final(self).is_with_diagonal(*old(self), values),
    {
        self.m = [[values[0], self.m[0][1]], [self.m[1][0], values[1]]];
    }
}

/// The pair multiplied by a matrix: row `i` of the matrix times the pair
/// gives coordinate `i`.
impl<T: Scalar> Mul<&Matrix2<T>> for &XY<T> {
    type Output = XY<T>;

    fn mul(self, other: &Matrix2<T>) -> (r: XY<T>)
        ensures
            lawful::<T>() ==> r == (XY {
                x: mul_add(other.m[0][0], self.x, other.m[0][1], self.y),
                y: mul_add(other.m[1][0], self.x, other.m[1][1], self.y),
            }),
    {
        let x = self.x;
        let y = self.y;
        XY {
            x: other.m[0][0] * x + other.m[0][1] * y,
            y: other.m[1][0] * x + other.m[1][1] * y,
        }
    }
}

impl<T: Scalar> vstd::std_specs::ops::MulSpecImpl<&Matrix2<T>> for &XY<T> {
    open spec fn obeys_mul_spec() -> bool {
        lawful::<T>()
    }

    open spec fn mul_req(self, other: &Matrix2<T>) -> bool {
        &&& lawful::<T>()
        &&& mul_add_req(other.m[0][0], self.x, other.m[0][1], self.y)
        &&& mul_add_req(other.m[1][0], self.x, other.m[1][1], self.y)
    }

    open spec fn mul_spec(self, other: &Matrix2<T>) -> XY<T> {
        XY {
            x: mul_add(other.m[0][0], self.x, other.m[0][1], self.y),
            y: mul_add(other.m[1][0], self.x, other.m[1][1], self.y),
        }
    }
}

impl<T: Scalar + std::fmt::Display> Matrix2<T> {
    /// `s` is the text of the value: the two rows, as `Matrix2([[a, b], [c, d]])`.
    pub open spec fn is_text(self, s: Seq<char>) -> bool {
        exists|part0: Seq<char>, part1: Seq<char>|
            {
                &&& lists(seq![self.m[0][0], self.m[0][1]], part0)
                &&& lists(seq![self.m[1][0], self.m[1][1]], part1)
                &&& s == "Matrix2([["@ + part0 + "], ["@ + part1 + "]])"@
            }
    }

    pub fn to_string(&self) -> (r: String)
        ensures
            self.is_text(r@),
    {
        let mut s = String::from_str("Matrix2([[");
        let ghost b0 = s@;
        let a0 = [self.m[0][0], self.m[0][1]];
        push_list(&mut s, a0.as_slice());
        let ghost part0 = choose|p: Seq<char>| lists(a0@, p) && s@ == b0 + p;
        assert(a0@ =~= seq![self.m[0][0], self.m[0][1]]);
        s.append("], [");
        let ghost b1 = s@;
        let a1 = [self.m[1][0], self.m[1][1]];
        push_list(&mut s, a1.as_slice());
        let ghost part1 = choose|p: Seq<char>| lists(a1@, p) && s@ == b1 + p;
        assert(a1@ =~= seq![self.m[1][0], self.m[1][1]]);
        s.append("]])");
        assert(s@ =~= "Matrix2([["@ + part0 + "], ["@ + part1 + "]])"@);
        s
    }
}

} // verus!
