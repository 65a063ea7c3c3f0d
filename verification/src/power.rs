//! Powers by repeated squaring, for any multiplication.
//!
//! The schedule multiplies in a fixed order. Where the multiplication is
//! associative, as that of matrices is in exact arithmetic, the order does
//! not matter and the schedule gives the product of `k` equal factors.
use vstd::prelude::*;

verus! {

/// `acc * base^k` by squaring: the lowest bit of `k` says whether `base` is
/// multiplied into `acc`; then `base` is squared and `k` halved, until `k`
/// is used up.
pub open spec fn by_squaring<M>(op: spec_fn(M, M) -> M, acc: M, base: M, k: nat) -> M
    decreases k,
{
    if k == 0 {
        acc
    } else {
        let acc1 = if k % 2 == 1 {
            op(acc, base)
        } else {
            acc
        };
        if k == 1 {
            acc1
        } else {
            by_squaring(op, acc1, op(base, base), k / 2)
        }
    }
}

/// The product of `k` factors `base`, taken from the left; one factor for
/// `k` below 2.
pub open spec fn repeated<M>(op: spec_fn(M, M) -> M, base: M, k: nat) -> M
    decreases k,
{
    if k <= 1 {
        base
    } else {
        op(repeated(op, base, (k - 1) as nat), base)
    }
}

/// `(x * y) * z == x * (y * z)` for all `x`, `y`, `z`.
pub open spec fn associative<M>(op: spec_fn(M, M) -> M) -> bool {
    forall|x: M, y: M, z: M| #[trigger] op(op(x, y), z) == op(x, op(y, z))
}

/// Under an associative multiplication, `i` factors times `j` factors are
/// `i + j` factors.
pub proof fn lemma_repeated_adds<M>(op: spec_fn(M, M) -> M, base: M, i: nat, j: nat)
    requires
        associative(op),
        i >= 1,
        j >= 1,
    ensures
        op(repeated(op, base, i), repeated(op, base, j)) == repeated(op, base, i + j),
    decreases j,
{
    if j > 1 {
        let before = repeated(op, base, (j - 1) as nat);
        lemma_repeated_adds(op, base, i, (j - 1) as nat);
        assert(op(op(repeated(op, base, i), before), base) == op(
            repeated(op, base, i),
            op(before, base),
        ));
    }
}

/// Under an associative multiplication, `j` factors of the square are `2 j`
/// factors.
pub proof fn lemma_repeated_square<M>(op: spec_fn(M, M) -> M, base: M, j: nat)
    requires
        associative(op),
        j >= 1,
    ensures
        repeated(op, op(base, base), j) == repeated(op, base, 2 * j),
    decreases j,
{
    assert(repeated(op, base, 2) == op(base, base)) by {
        assert(repeated(op, base, 1) == base);
    }
    if j > 1 {
        lemma_repeated_square(op, base, (j - 1) as nat);
        lemma_repeated_adds(op, base, (2 * (j - 1)) as nat, 2);
    }
}

/// Under an associative multiplication, the schedule gives `acc` times the
/// product of `k` factors `base`.
pub proof fn lemma_by_squaring_is_repeated<M>(op: spec_fn(M, M) -> M, acc: M, base: M, k: nat)
    requires
        associative(op),
        k >= 1,
    ensures
        by_squaring(op, acc, base, k) == op(acc, repeated(op, base, k)),
    decreases k,
{
    if k > 1 {
        let half = k / 2;
        let square = op(base, base);
        lemma_repeated_square(op, base, half);
        if k % 2 == 1 {
            lemma_by_squaring_is_repeated(op, op(acc, base), square, half);
            lemma_repeated_adds(op, base, 1, (k - 1) as nat);
            assert(2 * half == k - 1);
            assert(op(op(acc, base), repeated(op, base, (k - 1) as nat)) == op(
                acc,
                op(base, repeated(op, base, (k - 1) as nat)),
            ));
        } else {
            lemma_by_squaring_is_repeated(op, acc, square, half);
            assert(2 * half == k);
        }
    }
}

/// A two-by-two matrix of integers: the matrices of exact arithmetic.
pub ghost struct ExactMat2 {
    pub a: int,
    pub b: int,
    pub c: int,
    pub d: int,
}

impl ExactMat2 {
    /// The matrix product, rows into columns.
    pub open spec fn times(self, other: ExactMat2) -> ExactMat2 {
        ExactMat2 {
            a: self.a * other.a + self.b * other.c,
            b: self.a * other.b + self.b * other.d,
            c: self.c * other.a + self.d * other.c,
            d: self.c * other.b + self.d * other.d,
        }
    }

    /// The matrix product as a function of the two factors.
    pub open spec fn product() -> spec_fn(ExactMat2, ExactMat2) -> ExactMat2 {
        |x: ExactMat2, y: ExactMat2| x.times(y)
    }
}

/// One entry of a product of three matrices, bracketed either way:
/// `(p q + r s) t + (p u + r v) w == p (q t + u w) + r (s t + v w)`.
proof fn lemma_entry_associates(p: int, q: int, r: int, s: int, t: int, u: int, v: int, w: int)
    ensures
        (p * q + r * s) * t + (p * u + r * v) * w == p * (q * t + u * w) + r * (s * t + v * w),
{
    assert((p * q + r * s) * t == (p * q) * t + (r * s) * t) by (nonlinear_arith);
    assert((p * u + r * v) * w == (p * u) * w + (r * v) * w) by (nonlinear_arith);
    assert(p * (q * t + u * w) == p * (q * t) + p * (u * w)) by (nonlinear_arith);
    assert(r * (s * t + v * w) == r * (s * t) + r * (v * w)) by (nonlinear_arith);
    assert((p * q) * t == p * (q * t)) by (nonlinear_arith);
    assert((r * s) * t == r * (s * t)) by (nonlinear_arith);
    assert((p * u) * w == p * (u * w)) by (nonlinear_arith);
    assert((r * v) * w == r * (v * w)) by (nonlinear_arith);
}

/// The product of matrices of integers is associative.
pub proof fn lemma_exact_times_associative(x: ExactMat2, y: ExactMat2, z: ExactMat2)
    ensures
        x.times(y).times(z) == x.times(y.times(z)),
{
    lemma_entry_associates(x.a, y.a, x.b, y.c, z.a, y.b, y.d, z.c);
    lemma_entry_associates(x.a, y.a, x.b, y.c, z.b, y.b, y.d, z.d);
    lemma_entry_associates(x.c, y.a, x.d, y.c, z.a, y.b, y.d, z.c);
    lemma_entry_associates(x.c, y.a, x.d, y.c, z.b, y.b, y.d, z.d);
}

/// In exact arithmetic, raising a matrix to the power `n >= 1` by the
/// schedule gives the product of `n` factors.
pub proof fn lemma_exact_power(m: ExactMat2, n: nat)
    requires
        n >= 1,
    ensures
        by_squaring(ExactMat2::product(), m, m, (n - 1) as nat) == repeated(
            ExactMat2::product(),
            m,
            n,
        ),
{
    let op = ExactMat2::product();
    assert(associative(op)) by {
        assert forall|x: ExactMat2, y: ExactMat2, z: ExactMat2| #[trigger]
            op(op(x, y), z) == op(x, op(y, z)) by {
            lemma_exact_times_associative(x, y, z);
        }
    }
    if n > 1 {
        lemma_by_squaring_is_repeated(op, m, m, (n - 1) as nat);
        lemma_repeated_adds(op, m, 1, (n - 1) as nat);
    }
}

} // verus!
