//! Three-by-three matrices as plain storage, compared within a tolerance.
use crate::scalar::{exceeds, is_beyond, lawful, mul_add3, mul_add3_req, zero, Scalar};
use crate::text::{lists, push_list};
use crate::xyz::XYZ;
use std::ops::Mul;
use vstd::prelude::*;
use vstd::std_specs::ops::{NegSpec, SubSpec};
use vstd::string::StringExecFns;

verus! {

/// Three rows of three entries each, with nothing asked of them.
#[derive(Debug, Clone, Copy, PartialEq)]
pub struct Matrix3<T> {
    pub m: [[T; 3]; 3],
}

impl<T: Scalar> Matrix3<T> {
    /// Every entry is `v`.
    pub open spec fn filled_with(self, v: T) -> bool {
        forall|i: int, j: int| 0 <= i < 3 && 0 <= j < 3 ==> self.m[i][j] == v
    }

    /// The entries are those of `old`, but for column `col`, which holds
    /// `values`.
    pub open spec fn is_with_col(self, old: Self, col: int, values: [T; 3]) -> bool {
        forall|i: int, j: int|
            0 <= i < 3 && 0 <= j < 3 ==> self.m[i][j] == (if j == col {
                values[i]
            } else {
                old.m[i][j]
            })
    }

    /// The entries are those of `old`, but for row `row`, which holds `values`.
    pub open spec fn is_with_row(self, old: Self, row: int, values: [T; 3]) -> bool {
        forall|i: int, j: int|
            0 <= i < 3 && 0 <= j < 3 ==> self.m[i][j] == (if i == row {
                values[j]
            } else {
                old.m[i][j]
            })
    }

    /// The entries are those of `old`, but for the diagonal, which holds
    /// `values`.
    pub open spec fn is_with_diagonal(self, old: Self, values: [T; 3]) -> bool {
        forall|i: int, j: int|
            0 <= i < 3 && 0 <= j < 3 ==> self.m[i][j] == (if i == j {
                values[i]
            } else {
                old.m[i][j]
            })
    }

    /// Entry `k` in reading order: row `k / 3`, column `k % 3`.
    pub open spec fn entry(self, k: int) -> T {
        self.m[k / 3][k % 3]
    }

    /// Entry `k` of the two matrices differs by more than `tolerance`.
    pub open spec fn differs_at(self, other: Self, k: int, tolerance: T) -> bool {
        exceeds(self.entry(k).sub_spec(other.entry(k)), tolerance)
    }

    /// No entry differs from `other`'s by more than `tolerance`.
    pub open spec fn is_equal_spec(self, other: Self, tolerance: T) -> bool {
        forall|k: int| 0 <= k < 9 ==> !self.differs_at(other, k, tolerance)
    }

    /// The operators accept each step of the comparison, as far as it goes:
    /// the entries are read in reading order up to the first that differs.
    pub open spec fn is_equal_req(self, other: Self, tolerance: T) -> bool {
        forall|k: int|
            0 <= k < 9 && (forall|j: int| 0 <= j < k ==> !self.differs_at(other, j, tolerance))
                ==> {
                &&& #[trigger] self.entry(k).sub_req(other.entry(k))
                &&& self.entry(k).sub_spec(other.entry(k)).neg_req()
            }
    }

    /// The matrix whose entries are all 0.
    pub fn new() -> (r: Self)
        ensures
            lawful::<T>() ==> r.filled_with(zero::<T>()),
    {
        let z = T::from(0i8);
        Matrix3 { m: [[z, z, z], [z, z, z], [z, z, z]] }
    }

    pub fn from_array(m: [[T; 3]; 3]) -> (r: Self)
        ensures
            r.m == m,
    {
        Matrix3 { m }
    }

    /// The matrix with the given entries, row by row.
    pub fn from_values(
        m00: T,
        m01: T,
        m02: T,
        m10: T,
        m11: T,
        m12: T,
        m20: T,
        m21: T,
        m22: T,
    ) -> (r: Self)
        ensures
            r.m[0][0] == m00 && r.m[0][1] == m01 && r.m[0][2] == m02,
            r.m[1][0] == m10 && r.m[1][1] == m11 && r.m[1][2] == m12,
            r.m[2][0] == m20 && r.m[2][1] == m21 && r.m[2][2] == m22,
    {
        Matrix3 { m: [[m00, m01, m02], [m10, m11, m12], [m20, m21, m22]] }
    }

    pub fn get_values(&self) -> (r: [[T; 3]; 3])
        ensures
            r == self.m,
    {
        self.m
    }

    pub fn set_values(
        &mut self,
        m00: T,
        m01: T,
        m02: T,
        m10: T,
        m11: T,
        m12: T,
        m20: T,
        m21: T,
        m22: T,
    )
        ensures
            final(self).m[0][0] == m00 && final(self).m[0][1] == m01 && final(self).m[0][2] == m02,
            final(self).m[1][0] == m10 && final(self).m[1][1] == m11 && final(self).m[1][2] == m12,
            final(self).m[2][0] == m20 && final(self).m[2][1] == m21 && final(self).m[2][2] == m22,
    {
        self.m = [[m00, m01, m02], [m10, m11, m12], [m20, m21, m22]];
    }

    /// Column `col`, top entry first.
    pub fn get_col(&self, col: usize) -> (r: [T; 3])
        requires
            col < 3,
        ensures
            r[0] == self.m[0][col as int],
            r[1] == self.m[1][col as int],
            r[2] == self.m[2][col as int],
    {
        [self.m[0][col], self.m[1][col], self.m[2][col]]
    }

    pub fn set_col(&mut self, col: usize, values: [T; 3])
        requires
            col < 3,
        ensures
            final(self).is_with_col(*old(self), col as int, values),
    {
        let r0 = self.m[0];
        let r1 = self.m[1];
        let r2 = self.m[2];
        if col == 0 {
            self.m = [
                [values[0], r0[1], r0[2]],
                [values[1], r1[1], r1[2]],
                [values[2], r2[1], r2[2]],
            ];
        } else if col == 1 {
            self.m = [
                [r0[0], values[0], r0[2]],
                [r1[0], values[1], r1[2]],
                [r2[0], values[2], r2[2]],
            ];
        } else if col == 2 {
            self.m = [
                [r0[0], r0[1], values[0]],
                [r1[0], r1[1], values[1]],
                [r2[0], r2[1], values[2]],
            ];
        } else {
            unreached::<()>();
        }
    }

    /// Row `row`, left entry first.
    pub fn get_row(&self, row: usize) -> (r: [T; 3])
        requires
            row < 3,
        ensures
            r == self.m[row as int],
    {
        self.m[row]
    }

    pub fn set_row(&mut self, row: usize, values: [T; 3])
        requires
            row < 3,
        ensures
            final(self).is_with_row(*old(self), row as int, values),
    {
        if row == 0 {
            self.m = [values, self.m[1], self.m[2]];
        } else if row == 1 {
            self.m = [self.m[0], values, self.m[2]];
        } else if row == 2 {
            self.m = [self.m[0], self.m[1], values];
        } else {
            unreached::<()>();
        }
    }

    pub fn get_diagonal(&self) -> (r: [T; 3])
        ensures
            r[0] == self.m[0][0],
            r[1] == self.m[1][1],
            r[2] == self.m[2][2],
    {
        [self.m[0][0], self.m[1][1], self.m[2][2]]
    }

    pub fn set_diagonal(&mut self, values: [T; 3])
        ensures
            final(self).is_with_diagonal(*old(self), values),
    {
        let r0 = self.m[0];
        let r1 = self.m[1];
        let r2 = self.m[2];
        self.m = [[values[0], r0[1], r0[2]], [r1[0], values[1], r1[2]], [r2[0], r2[1], values[2]]];
    }

    /// Whether every entry lies within `tolerance` of `other`'s.
    pub fn is_equal(&self, other: &Self, tolerance: T) -> (r: bool)
        requires
            lawful::<T>(),
            self.is_equal_req(*other, tolerance),
        ensures
            r == self.is_equal_spec(*other, tolerance),
    {
        let mut k: usize = 0;
        while k < 9
            invariant
                k <= 9,
                lawful::<T>(),
                self.is_equal_req(*other, tolerance),
                forall|j: int| 0 <= j < k ==> !self.differs_at(*other, j, tolerance),
            decreases 9 - k,
        {
            let i = k / 3;
            let j = k % 3;
            assert(self.entry(k as int).sub_req(other.entry(k as int)));
            if is_beyond(self.m[i][j] - other.m[i][j], tolerance) {
                assert(self.differs_at(*other, k as int, tolerance));
                return false;
            }
            k = k + 1;
        }
        true
    }
}

impl<T: Scalar> From<[[T; 3]; 3]> for Matrix3<T> {
    fn from(m: [[T; 3]; 3]) -> (r: Self)
        ensures
            r == (Matrix3 { m }),
    {
        Matrix3 { m }
    }
}

impl<T: Scalar> vstd::std_specs::convert::FromSpecImpl<[[T; 3]; 3]> for Matrix3<T> {
    open spec fn obeys_from_spec() -> bool {
        true
    }

    open spec fn from_spec(m: [[T; 3]; 3]) -> Self {
        Matrix3 { m }
    }
}

/// The triple multiplied by a matrix: row `i` of the matrix times the triple
/// gives coordinate `i`.
impl<T: Scalar> Mul<&Matrix3<T>> for &XYZ<T> {
    type Output = XYZ<T>;

    fn mul(self, other: &Matrix3<T>) -> (r: XYZ<T>)
        ensures
            lawful::<T>() ==> r == (XYZ {
                x: mul_add3(other.m[0][0], self.x, other.m[0][1], self.y, other.m[0][2], self.z),
                y: mul_add3(other.m[1][0], self.x, other.m[1][1], self.y, other.m[1][2], self.z),
                z: mul_add3(other.m[2][0], self.x, other.m[2][1], self.y, other.m[2][2], self.z),
            }),
    {
        let x = self.x;
        let y = self.y;
        XYZ {
            x: other.m[0][0] * x + other.m[0][1] * y + other.m[0][2] * self.z,
            y: other.m[1][0] * x + other.m[1][1] * y + other.m[1][2] * self.z,
            z: other.m[2][0] * x + other.m[2][1] * y + other.m[2][2] * self.z,
        }
    }
}

impl<T: Scalar> vstd::std_specs::ops::MulSpecImpl<&Matrix3<T>> for &XYZ<T> {
    open spec fn obeys_mul_spec() -> bool {
        lawful::<T>()
    }

    open spec fn mul_req(self, other: &Matrix3<T>) -> bool {
        &&& lawful::<T>()
        &&& mul_add3_req(other.m[0][0], self.x, other.m[0][1], self.y, other.m[0][2], self.z)
        &&& mul_add3_req(other.m[1][0], self.x, other.m[1][1], self.y, other.m[1][2], self.z)
        &&& mul_add3_req(other.m[2][0], self.x, other.m[2][1], self.y, other.m[2][2], self.z)
    }

    open spec fn mul_spec(self, other: &Matrix3<T>) -> XYZ<T> {
        XYZ {
            x: mul_add3(other.m[0][0], self.x, other.m[0][1], self.y, other.m[0][2], self.z),
            y: mul_add3(other.m[1][0], self.x, other.m[1][1], self.y, other.m[1][2], self.z),
            z: mul_add3(other.m[2][0], self.x, other.m[2][1], self.y, other.m[2][2], self.z),
        }
    }
}

impl<T: Scalar + std::fmt::Display> Matrix3<T> {
    /// `s` is the text of the value: the three rows, as
    /// `Matrix3([[a, b, c], [d, e, f], [g, h, i]])`.
    pub open spec fn is_text(self, s: Seq<char>) -> bool {
        exists|part0: Seq<char>, part1: Seq<char>, part2: Seq<char>|
            {
                &&& lists(seq![self.m[0][0], self.m[0][1], self.m[0][2]], part0)
                &&& lists(seq![self.m[1][0], self.m[1][1], self.m[1][2]], part1)
                &&& lists(seq![self.m[2][0], self.m[2][1], self.m[2][2]], part2)
                &&& s == "Matrix3([["@ + part0 + "], ["@ + part1 + "], ["@ + part2 + "]])"@
            }
    }

    pub fn to_string(&self) -> (r: String)
        ensures
            self.is_text(r@),
    {
        let mut s = String::from_str("Matrix3([[");
        let ghost b0 = s@;
        let a0 = [self.m[0][0], self.m[0][1], self.m[0][2]];
        push_list(&mut s, a0.as_slice());
        let ghost part0 = choose|p: Seq<char>| lists(a0@, p) && s@ == b0 + p;
        assert(a0@ =~= seq![self.m[0][0], self.m[0][1], self.m[0][2]]);
        s.append("], [");
        let ghost b1 = s@;
        let a1 = [self.m[1][0], self.m[1][1], self.m[1][2]];
        push_list(&mut s, a1.as_slice());
        let ghost part1 = choose|p: Seq<char>| lists(a1@, p) && s@ == b1 + p;
        assert(a1@ =~= seq![self.m[1][0], self.m[1][1], self.m[1][2]]);
        s.append("], [");
        let ghost b2 = s@;
        let a2 = [self.m[2][0], self.m[2][1], self.m[2][2]];
        push_list(&mut s, a2.as_slice());
        let ghost part2 = choose|p: Seq<char>| lists(a2@, p) && s@ == b2 + p;
        assert(a2@ =~= seq![self.m[2][0], self.m[2][1], self.m[2][2]]);
        s.append("]])");
        assert(s@ =~= "Matrix3([["@ + part0 + "], ["@ + part1 + "], ["@ + part2 + "]])"@);
        s
    }
}

} // verus!
