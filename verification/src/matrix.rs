//! Square matrices of exact rationals, sizes 2, 3 and 4.
//!
//! One generic core, `Grid`, holds an `n x n` matrix as integer entries over
//! a single positive denominator; `Matrix2`, `Matrix3` and `Matrix4` are thin
//! dimension-fixing wrappers over it, so multiplication, transposition and
//! the recursive cofactor-expansion determinant are implemented once.
//!
//! The model of a matrix is `MatVal`: a dimension, a flat row-major sequence
//! of integer entries, and the common denominator. The entry at `(r, c)`
//! denotes the rational `elems[r*n + c] / den`.

use vstd::prelude::*;
use num_bigint::BigInt;
use crate::bignum::{big_value, big_from_i64, big_clone, big_add, big_sub, big_mul, big_eq, big_lt};
use crate::rational::{Rat, RatVal, rv_wf, rv_eq, rv_add, rv_mul, round_div, ROUND_SCALE};
use crate::tuple::{Tuple, TupleVal};
use vstd::arithmetic::power::pow;

verus! {

/// The mathematical model of a square matrix: `n`, the row-major integer
/// entries, and the common positive denominator.
pub struct MatVal {
    pub n: int,
    pub elems: Seq<int>,
    pub den: int,
}

pub open spec fn mat_wf(m: MatVal) -> bool {
    &&& m.den > 0
    &&& m.elems.len() == m.n * m.n
    &&& 1 <= m.n <= 4
}

/// The rational denoted by the flat entry `k`.
pub open spec fn mat_elem(m: MatVal, k: int) -> RatVal {
    RatVal { num: m.elems[k], den: m.den }
}

/// The rational denoted by the entry at row `r`, column `c`.
pub open spec fn mat_entry(m: MatVal, r: int, c: int) -> RatVal {
    mat_elem(m, r * m.n + c)
}

/// Entrywise value equality.
pub open spec fn mat_eq_val(a: MatVal, b: MatVal) -> bool {
    &&& a.n == b.n
    &&& forall|k: int|
        0 <= k < a.n * a.n ==> #[trigger] a.elems[k] * b.den == b.elems[k] * a.den
}

/// The identity: 1 on the diagonal, 0 elsewhere.
pub open spec fn mat_ident(n: int) -> MatVal {
    MatVal {
        n,
        elems: Seq::new((n * n) as nat, |k: int| if k / n == k % n { 1int } else { 0int }),
        den: 1,
    }
}

pub open spec fn mat_transpose(m: MatVal) -> MatVal {
    MatVal {
        n: m.n,
        elems: Seq::new((m.n * m.n) as nat, |k: int| m.elems[(k % m.n) * m.n + k / m.n]),
        den: m.den,
    }
}

/// Partial sum of the first `t` terms of the row-`i`, column-`j` product.
pub open spec fn mm_sum(a: MatVal, b: MatVal, i: int, j: int, t: int) -> int
    decreases t,
{
    if t <= 0 {
        0
    } else {
        mm_sum(a, b, i, j, t - 1) + a.elems[i * a.n + (t - 1)] * b.elems[(t - 1) * b.n + j]
    }
}

/// The matrix product: `result[i][j] = sum over k of a[i][k] * b[k][j]`.
pub open spec fn mat_mul(a: MatVal, b: MatVal) -> MatVal {
    MatVal {
        n: a.n,
        elems: Seq::new((a.n * a.n) as nat, |k: int| mm_sum(a, b, k / a.n, k % a.n, a.n)),
        den: a.den * b.den,
    }
}

/// Index into the parent grid for entry `k` of the submatrix that deletes
/// row `dr` and column `dc`.
pub open spec fn sub_idx(n: int, dr: int, dc: int, k: int) -> int {
    let r = k / (n - 1);
    let c = k % (n - 1);
    (if r < dr {
        r
    } else {
        r + 1
    }) * n + (if c < dc {
        c
    } else {
        c + 1
    })
}

/// The entries that remain when row `dr` and column `dc` are deleted,
/// relative order preserved.
pub open spec fn subgrid(s: Seq<int>, n: int, dr: int, dc: int) -> Seq<int> {
    Seq::new(((n - 1) * (n - 1)) as nat, |k: int| s[sub_idx(n, dr, dc, k)])
}

/// The cofactor sign: +1 when `k` is even, -1 when odd.
pub open spec fn pow_neg1(k: int) -> int {
    if k % 2 == 0 {
        1
    } else {
        -1
    }
}

/// The determinant by Laplace expansion along the first row: `a*d - b*c`
/// for a 2 x 2 grid, and `sum over c of s[c] * cofactor(0, c)` above that.
pub open spec fn det_seq(s: Seq<int>, n: int) -> int
    decreases n, 1int, 0int,
{
    if n <= 0 {
        1
    } else if n == 1 {
        s[0]
    } else if n == 2 {
        s[0] * s[3] - s[1] * s[2]
    } else {
        det_sum_to(s, n, n)
    }
}

/// The first-row expansion summed over columns below `c`.
pub open spec fn det_sum_to(s: Seq<int>, n: int, c: int) -> int
    decreases n, 0int, c,
{
    if c <= 0 || n <= 2 {
        0
    } else {
        det_sum_to(s, n, c - 1) + s[c - 1] * pow_neg1(c - 1) * det_seq(
            subgrid(s, n, 0, c - 1),
            n - 1,
        )
    }
}

/// The minor: the determinant of the submatrix deleting row `r`, column `c`.
pub open spec fn minor_seq(s: Seq<int>, n: int, r: int, c: int) -> int {
    det_seq(subgrid(s, n, r, c), n - 1)
}

/// The cofactor: the minor, negated when `r + c` is odd.
pub open spec fn cof_seq(s: Seq<int>, n: int, r: int, c: int) -> int {
    pow_neg1(r + c) * minor_seq(s, n, r, c)
}

/// The determinant of `m` as a rational: `det(elems) / den^n`.
pub open spec fn mat_det(m: MatVal) -> RatVal {
    RatVal { num: det_seq(m.elems, m.n), den: pow(m.den, m.n as nat) }
}

pub open spec fn mat_submatrix(m: MatVal, dr: int, dc: int) -> MatVal {
    MatVal { n: m.n - 1, elems: subgrid(m.elems, m.n, dr, dc), den: m.den }
}

/// The inverse by the adjugate method: entry `(r, c)` denotes
/// `cofactor(c, r) / det`; the sign of the determinant is normalized into
/// the entries so the common denominator stays positive.
pub open spec fn mat_inverse(m: MatVal) -> MatVal {
    let d = det_seq(m.elems, m.n);
    let sg: int = if d >= 0 {
        1
    } else {
        -1
    };
    MatVal {
        n: m.n,
        elems: Seq::new(
            (m.n * m.n) as nat,
            |k: int| sg * m.den * cof_seq(m.elems, m.n, k % m.n, k / m.n),
        ),
        den: sg * d,
    }
}

/// Every entry rounded to five decimal places, half away from zero.
pub open spec fn mat_round5(m: MatVal) -> MatVal {
    MatVal {
        n: m.n,
        elems: Seq::new(
            (m.n * m.n) as nat,
            |k: int| round_div(m.elems[k] * (ROUND_SCALE as int), m.den),
        ),
        den: ROUND_SCALE as int,
    }
}

/// Row `r` of `m` applied to the tuple: the homogeneous linear map.
pub open spec fn matvec_comp(m: MatVal, t: TupleVal, r: int) -> RatVal {
    rv_add(
        rv_add(
            rv_add(rv_mul(mat_entry(m, r, 0), t.x), rv_mul(mat_entry(m, r, 1), t.y)),
            rv_mul(mat_entry(m, r, 2), t.z),
        ),
        rv_mul(mat_entry(m, r, 3), t.w),
    )
}

/// A 4 x 4 matrix applied to a homogeneous tuple.
pub open spec fn matvec(m: MatVal, t: TupleVal) -> TupleVal {
    TupleVal {
        x: matvec_comp(m, t, 0),
        y: matvec_comp(m, t, 1),
        z: matvec_comp(m, t, 2),
        w: matvec_comp(m, t, 3),
    }
}

/// Small-dimension index arithmetic: squares and row-major offsets of a
/// grid of dimension at most 4 stay within bounds.
pub proof fn lemma_sq_small(n: int)
    requires
        0 <= n <= 4,
    ensures
        0 <= n * n <= 16,
{
    assert(0 <= n * n <= 16) by (nonlinear_arith)
        requires
            0 <= n <= 4,
    ;
}

/// Bounds for a row-major offset, and the step of one full row.
pub proof fn lemma_grid_bounds(n: int, r: int, c: int)
    requires
        1 <= n <= 4,
        0 <= r < n,
        0 <= c < n,
    ensures
        n * n <= 16,
        0 <= r * n + c < n * n,
        (r + 1) * n == r * n + n,
{
    assert(n * n <= 16 && 0 <= r * n + c < n * n && (r + 1) * n == r * n + n)
        by (nonlinear_arith)
        requires
            1 <= n <= 4,
            0 <= r < n,
            0 <= c < n,
    ;
}

/// Row-major flattening: `r*n + c` recovers `r` and `c`.
pub proof fn lemma_rowcol(n: int, r: int, c: int)
    requires
        n >= 1,
        0 <= r,
        0 <= c < n,
    ensures
        (r * n + c) / n == r,
        (r * n + c) % n == c,
{
    vstd::arithmetic::div_mod::lemma_fundamental_div_mod_converse(r * n + c, n, r, c);
}

/// Scaling numerator and denominator by the same factor preserves the
/// denoted value.
pub proof fn lemma_scale_preserves(o: int, den: int, d: int, e: RatVal)
    requires
        o * e.den == e.num * den,
    ensures
        (o * d) * e.den == e.num * (den * d),
{
    assert((o * d) * e.den == e.num * (den * d)) by (nonlinear_arith)
        requires
            o * e.den == e.num * den,
    ;
}

/// The integer values held by a sequence of big integers.
pub open spec fn int_vals(s: Seq<BigInt>) -> Seq<int> {
    Seq::new(s.len(), |i: int| big_value(s[i]))
}

/// The generic square-matrix core: `n x n` big-integer entries, row-major,
/// over one positive denominator.
#[derive(Debug)]
pub(crate) struct Grid {
    n: usize,
    elems: Vec<BigInt>,
    den: BigInt,
}

impl View for Grid {
    type V = MatVal;

    closed spec fn view(&self) -> MatVal {
        MatVal { n: self.n as int, elems: int_vals(self.elems@), den: big_value(self.den) }
    }
}

impl Grid {
    #[verifier::type_invariant]
    pub open spec fn type_wf(self) -> bool {
        mat_wf(self@)
    }

    /// Brings the given rationals to a common denominator.
    pub(crate) fn from_rats(n: usize, entries: &Vec<Rat>) -> (r: Grid)
        requires
            1 <= n <= 4,
            entries@.len() == n * n,
        ensures
            r@.n == n as int,
            mat_wf(r@),
            forall|k: int|
                0 <= k < n * n ==> #[trigger] rv_eq(mat_elem(r@, k), entries@[k]@),
    {
        proof {
            lemma_sq_small(n as int);
        }
        let total = n * n;
        let mut elems: Vec<BigInt> = Vec::new();
        let mut den: BigInt = big_from_i64(1);
        let mut j: usize = 0;
        while j < total
            invariant
                1 <= n <= 4,
                total == n * n,
                j <= total,
                entries@.len() == total,
                elems@.len() == j,
                big_value(den) > 0,
                forall|k: int|
                    0 <= k < j ==> #[trigger] rv_eq(
                        (RatVal { num: big_value(elems@[k]), den: big_value(den) }),
                        entries@[k]@,
                    ),
            decreases total - j,
        {
            let dj = entries[j].den_big();
            let nj = entries[j].num_big();
            let mut scaled: Vec<BigInt> = Vec::new();
            let mut k: usize = 0;
            while k < j
                invariant
                    k <= j,
                    j <= total,
                    elems@.len() == j,
                    entries@.len() == total,
                    scaled@.len() == k,
                    big_value(den) > 0,
                    big_value(dj) > 0,
                    forall|i: int|
                        0 <= i < j ==> #[trigger] rv_eq(
                            (RatVal { num: big_value(elems@[i]), den: big_value(den) }),
                            entries@[i]@,
                        ),
                    forall|i: int|
                        0 <= i < k ==> big_value(#[trigger] scaled@[i]) == big_value(elems@[i])
                            * big_value(dj),
                decreases j - k,
            {
                scaled.push(big_mul(&elems[k], &dj));
                k += 1;
            }
            let newden = big_mul(&den, &dj);
            scaled.push(big_mul(&nj, &den));
            proof {
                vstd::arithmetic::mul::lemma_mul_strictly_positive(
                    big_value(den),
                    big_value(dj),
                );
                assert forall|i: int| 0 <= i < j + 1 implies #[trigger] rv_eq(
                    (RatVal { num: big_value(scaled@[i]), den: big_value(newden) }),
                    entries@[i]@,
                ) by {
                    let e = entries@[i]@;
                    if i < j {
                        assert(rv_eq(
                            (RatVal { num: big_value(elems@[i]), den: big_value(den) }),
                            e,
                        ));
                        lemma_scale_preserves(
                            big_value(elems@[i]),
                            big_value(den),
                            big_value(dj),
                            e,
                        );
                    } else {
                        assert((big_value(nj) * big_value(den)) * e.den == e.num * (big_value(den)
                            * e.den)) by (nonlinear_arith)
                            requires
                                big_value(nj) == e.num,
                        ;
                    }
                }
            }
            elems = scaled;
            den = newden;
            j += 1;
        }
        Grid { n, elems, den }
    }

    pub(crate) fn dim(&self) -> (r: usize)
        ensures
            r as int == self@.n,
    {
        self.n
    }

    /// The entry at row `r`, column `c`, as a rational.
    pub(crate) fn at(&self, r: usize, c: usize) -> (res: Rat)
        requires
            r < self@.n,
            c < self@.n,
        ensures
            res@ == mat_entry(self@, r as int, c as int),
            rv_wf(res@),
    {
        proof {
            use_type_invariant(self);
            lemma_grid_bounds(self@.n, r as int, c as int);
        }
        let k = r * self.n + c;
        Rat::from_parts(big_clone(&self.elems[k]), big_clone(&self.den))
    }

    /// The identity of dimension `n`.
    pub(crate) fn identity(n: usize) -> (r: Grid)
        requires
            1 <= n <= 4,
        ensures
            r@ == mat_ident(n as int),
    {
        let mut elems: Vec<BigInt> = Vec::new();
        let mut row: usize = 0;
        while row < n
            invariant
                1 <= n <= 4,
                row <= n,
                elems@.len() == row * n,
                forall|k: int|
                    0 <= k < row * n ==> big_value(#[trigger] elems@[k]) == (if k / (n as int) == k
                        % (n as int) {
                        1int
                    } else {
                        0int
                    }),
            decreases n - row,
        {
            let mut col: usize = 0;
            while col < n
                invariant
                    1 <= n <= 4,
                    row < n,
                    col <= n,
                    elems@.len() == row * n + col,
                    forall|k: int|
                        0 <= k < row * n + col ==> big_value(#[trigger] elems@[k]) == (if k / (
                        n as int) == k % (n as int) {
                            1int
                        } else {
                            0int
                        }),
                decreases n - col,
            {
                let v = if row == col {
                    big_from_i64(1)
                } else {
                    big_from_i64(0)
                };
                elems.push(v);
                proof {
                    lemma_rowcol(n as int, row as int, col as int);
                }
                col += 1;
            }
            proof {
                lemma_grid_bounds(n as int, row as int, 0);
            }
            row += 1;
        }
        proof {
            lemma_sq_small(n as int);
            assert(mat_ident(n as int).elems =~= int_vals(elems@));
        }
        Grid { n, elems, den: big_from_i64(1) }
    }

    /// Swaps rows and columns.
    pub(crate) fn transpose(&self) -> (r: Grid)
        ensures
            r@ == mat_transpose(self@),
    {
        proof {
            use_type_invariant(self);
        }
        let n = self.n;
        let mut elems: Vec<BigInt> = Vec::new();
        let mut row: usize = 0;
        while row < n
            invariant
                mat_wf(self@),
                self@.n == n,
                row <= n,
                elems@.len() == row * n,
                forall|k: int|
                    0 <= k < row * n ==> big_value(#[trigger] elems@[k]) == self@.elems[(k % (
                    n as int)) * n + k / (n as int)],
            decreases n - row,
        {
            let mut col: usize = 0;
            while col < n
                invariant
                    mat_wf(self@),
                    self@.n == n,
                    row < n,
                    col <= n,
                    elems@.len() == row * n + col,
                    forall|k: int|
                        0 <= k < row * n + col ==> big_value(#[trigger] elems@[k]) == self@.elems[(
                        k % (n as int)) * n + k / (n as int)],
                decreases n - col,
            {
                proof {
                    lemma_rowcol(n as int, row as int, col as int);
                    lemma_grid_bounds(n as int, col as int, row as int);
                }
                elems.push(big_clone(&self.elems[col * n + row]));
                col += 1;
            }
            proof {
                lemma_grid_bounds(n as int, row as int, 0);
            }
            row += 1;
        }
        proof {
            assert(mat_transpose(self@).elems =~= int_vals(elems@));
        }
        Grid { n, elems, den: big_clone(&self.den) }
    }

    /// The standard matrix product.
    pub(crate) fn mul(&self, rhs: &Grid) -> (r: Grid)
        requires
            self@.n == rhs@.n,
        ensures
            r@ == mat_mul(self@, rhs@),
    {
        proof {
            use_type_invariant(self);
            use_type_invariant(rhs);
        }
        let n = self.n;
        let mut elems: Vec<BigInt> = Vec::new();
        let mut row: usize = 0;
        while row < n
            invariant
                mat_wf(self@),
                mat_wf(rhs@),
                self@.n == n,
                rhs@.n == n,
                row <= n,
                elems@.len() == row * n,
                forall|k: int|
                    0 <= k < row * n ==> big_value(#[trigger] elems@[k]) == mm_sum(
                        self@,
                        rhs@,
                        k / (n as int),
                        k % (n as int),
                        n as int,
                    ),
            decreases n - row,
        {
            let mut col: usize = 0;
            while col < n
                invariant
                    mat_wf(self@),
                    mat_wf(rhs@),
                    self@.n == n,
                    rhs@.n == n,
                    row < n,
                    col <= n,
                    elems@.len() == row * n + col,
                    forall|k: int|
                        0 <= k < row * n + col ==> big_value(#[trigger] elems@[k]) == mm_sum(
                            self@,
                            rhs@,
                            k / (n as int),
                            k % (n as int),
                            n as int,
                        ),
                decreases n - col,
            {
                let mut acc = big_from_i64(0);
                let mut t: usize = 0;
                while t < n
                    invariant
                        mat_wf(self@),
                        mat_wf(rhs@),
                        self@.n == n,
                        rhs@.n == n,
                        row < n,
                        col < n,
                        t <= n,
                        big_value(acc) == mm_sum(self@, rhs@, row as int, col as int, t as int),
                    decreases n - t,
                {
                    proof {
                        lemma_grid_bounds(n as int, row as int, t as int);
                        lemma_grid_bounds(n as int, t as int, col as int);
                    }
                    acc = big_add(&acc, &big_mul(&self.elems[row * n + t], &rhs.elems[t * n + col]));
                    t += 1;
                }
                elems.push(acc);
                proof {
                    lemma_rowcol(n as int, row as int, col as int);
                }
                col += 1;
            }
            proof {
                lemma_grid_bounds(n as int, row as int, 0);
            }
            row += 1;
        }
        proof {
            lemma_sq_small(n as int);
            vstd::arithmetic::mul::lemma_mul_strictly_positive(
                big_value(self.den),
                big_value(rhs.den),
            );
            assert(mat_mul(self@, rhs@).elems =~= int_vals(elems@));
        }
        Grid { n, elems, den: big_mul(&self.den, &rhs.den) }
    }

    /// Deletes row `dr` and column `dc`, preserving relative order.
    pub(crate) fn submatrix(&self, dr: usize, dc: usize) -> (r: Grid)
        requires
            self@.n >= 2,
            dr < self@.n,
            dc < self@.n,
        ensures
            r@ == mat_submatrix(self@, dr as int, dc as int),
    {
        proof {
            use_type_invariant(self);
        }
        let n = self.n;
        let m = n - 1;
        let mut elems: Vec<BigInt> = Vec::new();
        let mut row: usize = 0;
        while row < n
            invariant
                mat_wf(self@),
                self@.n == n,
                2 <= n,
                m == n - 1,
                dr < n,
                dc < n,
                row <= n,
                elems@.len() == (if row <= dr {
                    row * m
                } else {
                    (row - 1) * m
                }),
                forall|k: int|
                    0 <= k < elems@.len() ==> big_value(#[trigger] elems@[k]) == self@.elems[
                        sub_idx(n as int, dr as int, dc as int, k)],
            decreases n - row,
        {
            if row != dr {
                let rdone: usize = if row < dr {
                    row
                } else {
                    row - 1
                };
                let mut col: usize = 0;
                while col < n
                    invariant
                        mat_wf(self@),
                        self@.n == n,
                        2 <= n,
                        m == n - 1,
                        dr < n,
                        dc < n,
                        row < n,
                        row != dr,
                        rdone == (if row < dr {
                            row as int
                        } else {
                            row - 1
                        }),
                        col <= n,
                        elems@.len() == rdone * m + (if col <= dc {
                            col as int
                        } else {
                            col - 1
                        }),
                        forall|k: int|
                            0 <= k < elems@.len() ==> big_value(#[trigger] elems@[k]) == self@.elems[
                                sub_idx(n as int, dr as int, dc as int, k)],
                    decreases n - col,
                {
                    if col != dc {
                        let cdone: usize = if col < dc {
                            col
                        } else {
                            col - 1
                        };
                        proof {
                            lemma_rowcol(m as int, rdone as int, cdone as int);
                            lemma_grid_bounds(n as int, row as int, col as int);
                            lemma_grid_bounds(m as int, rdone as int, cdone as int);
                        }
                        elems.push(big_clone(&self.elems[row * n + col]));
                    }
                    col += 1;
                }
                proof {
                    lemma_grid_bounds(m as int, rdone as int, 0);
                }
            }
            row += 1;
        }
        proof {
            assert((m as int) * (m as int) == (n - 1) * (n - 1)) by (nonlinear_arith)
                requires
                    m == n - 1,
            ;
            assert(mat_submatrix(self@, dr as int, dc as int).elems =~= int_vals(elems@));
        }
        Grid { n: m, elems, den: big_clone(&self.den) }
    }

    /// The integer determinant of the entries, by recursive Laplace
    /// expansion along the first row.
    pub(crate) fn det_num(&self) -> (r: BigInt)
        ensures
            big_value(r) == det_seq(self@.elems, self@.n),
        decreases self@.n,
    {
        proof {
            use_type_invariant(self);
            assert(self.elems@.len() == self@.n * self@.n);
        }
        let n = self.n;
        if n == 1 {
            proof {
                assert(self@.n * self@.n == 1) by (nonlinear_arith)
                    requires
                        self@.n == 1,
                ;
            }
            big_clone(&self.elems[0])
        } else if n == 2 {
            proof {
                assert(self@.n * self@.n == 4) by (nonlinear_arith)
                    requires
                        self@.n == 2,
                ;
            }
            big_sub(
                &big_mul(&self.elems[0], &self.elems[3]),
                &big_mul(&self.elems[1], &self.elems[2]),
            )
        } else {
            let mut acc = big_from_i64(0);
            let mut c: usize = 0;
            while c < n
                invariant
                    mat_wf(self@),
                    self@.n == n,
                    3 <= n,
                    c <= n,
                    big_value(acc) == det_sum_to(self@.elems, self@.n, c as int),
                decreases n - c,
            {
                proof {
                    lemma_grid_bounds(n as int, 0, c as int);
                }
                let sub = self.submatrix(0, c);
                let d = sub.det_num();
                let term = big_mul(&self.elems[c], &d);
                let prev = acc;
                if c % 2 == 0 {
                    acc = big_add(&prev, &term);
                } else {
                    acc = big_sub(&prev, &term);
                }
                proof {
                    let s = self@.elems;
                    let ci = c as int;
                    let nn = n as int;
                    assert(sub@.elems == subgrid(s, nn, 0, ci));
                    assert(big_value(d) == det_seq(subgrid(s, nn, 0, ci), nn - 1));
                    assert(det_sum_to(s, nn, ci + 1) == det_sum_to(s, nn, ci) + s[ci]
                        * pow_neg1(ci) * det_seq(subgrid(s, nn, 0, ci), nn - 1));
                    if c % 2 == 0 {
                        assert(pow_neg1(ci) == 1);
                        assert(s[ci] * 1 * big_value(d) == s[ci] * big_value(d))
                            by (nonlinear_arith);
                    } else {
                        assert(pow_neg1(ci) == -1);
                        assert(s[ci] * -1 * big_value(d) == -(s[ci] * big_value(d)))
                            by (nonlinear_arith);
                    }
                    assert(big_value(acc) == det_sum_to(s, nn, ci + 1));
                }
                c += 1;
            }
            acc
        }
    }

    /// The determinant as a rational: integer determinant over `den^n`.
    pub(crate) fn determinant(&self) -> (r: Rat)
        ensures
            r@ == mat_det(self@),
            rv_wf(r@),
    {
        proof {
            use_type_invariant(self);
        }
        let d = self.det_num();
        let n = self.n;
        let mut p = big_from_i64(1);
        proof {
            vstd::arithmetic::power::lemma_pow0(self@.den);
        }
        let mut i: usize = 0;
        while i < n
            invariant
                mat_wf(self@),
                self@.n == n,
                i <= n,
                big_value(p) == pow(self@.den, i as nat),
                big_value(p) > 0,
            decreases n - i,
        {
            p = big_mul(&p, &self.den);
            proof {
                vstd::arithmetic::mul::lemma_mul_strictly_positive(
                    pow(self@.den, i as nat),
                    self@.den,
                );
                vstd::arithmetic::power::lemma_pow1(self@.den);
                vstd::arithmetic::power::lemma_pow_adds(self@.den, i as nat, 1);
                assert(pow(self@.den, (i + 1) as nat) == pow(self@.den, i as nat) * self@.den);
            }
            i += 1;
        }
        Rat::from_parts(d, p)
    }

    /// The integer cofactor of entry `(r, c)`.
    pub(crate) fn cof_num(&self, r: usize, c: usize) -> (res: BigInt)
        requires
            self@.n >= 2,
            r < self@.n,
            c < self@.n,
        ensures
            big_value(res) == cof_seq(self@.elems, self@.n, r as int, c as int),
    {
        proof {
            use_type_invariant(self);
        }
        let sub = self.submatrix(r, c);
        let d = sub.det_num();
        if (r + c) % 2 == 0 {
            d
        } else {
            let zero = big_from_i64(0);
            big_sub(&zero, &d)
        }
    }

    /// The minor of entry `(r, c)` as a rational.
    pub(crate) fn minor(&self, r: usize, c: usize) -> (res: Rat)
        requires
            self@.n >= 2,
            r < self@.n,
            c < self@.n,
        ensures
            res@ == (RatVal {
                num: minor_seq(self@.elems, self@.n, r as int, c as int),
                den: pow(self@.den, (self@.n - 1) as nat),
            }),
            rv_wf(res@),
    {
        self.submatrix(r, c).determinant()
    }

    /// The cofactor of entry `(r, c)` as a rational.
    pub(crate) fn cofactor(&self, r: usize, c: usize) -> (res: Rat)
        requires
            self@.n >= 2,
            r < self@.n,
            c < self@.n,
        ensures
            res@ == (RatVal {
                num: cof_seq(self@.elems, self@.n, r as int, c as int),
                den: pow(self@.den, (self@.n - 1) as nat),
            }),
            rv_wf(res@),
    {
        proof {
            use_type_invariant(self);
            vstd::arithmetic::power::lemma_pow_positive(self@.den, (self@.n - 1) as nat);
        }
        let cf = self.cof_num(r, c);
        let sub = self.submatrix(r, c);
        let d = sub.determinant();
        let p = d.den_big();
        Rat::from_parts(cf, p)
    }

    /// Whether the determinant is nonzero.
    pub(crate) fn is_invertibile(&self) -> (r: bool)
        ensures
            r == (det_seq(self@.elems, self@.n) != 0),
    {
        let d = self.det_num();
        let zero = big_from_i64(0);
        !big_eq(&d, &zero)
    }

    /// The inverse by the adjugate method; the determinant must be nonzero.
    pub(crate) fn inverse(&self) -> (r: Grid)
        requires
            self@.n >= 2,
            det_seq(self@.elems, self@.n) != 0,
        ensures
            r@ == mat_inverse(self@),
            mat_wf(r@),
    {
        proof {
            use_type_invariant(self);
        }
        let n = self.n;
        let det = self.det_num();
        let zero = big_from_i64(0);
        let negdet = big_lt(&det, &zero);
        let adjden = if negdet {
            big_sub(&zero, &det)
        } else {
            big_clone(&det)
        };
        let ghost sg: int = if det_seq(self@.elems, self@.n) >= 0 {
            1int
        } else {
            -1int
        };
        let mut elems: Vec<BigInt> = Vec::new();
        let mut row: usize = 0;
        while row < n
            invariant
                mat_wf(self@),
                self@.n == n,
                2 <= n,
                sg == (if det_seq(self@.elems, self@.n) >= 0 {
                    1int
                } else {
                    -1int
                }),
                negdet == (det_seq(self@.elems, self@.n) < 0),
                big_value(zero) == 0,
                row <= n,
                elems@.len() == row * n,
                forall|k: int|
                    0 <= k < row * n ==> big_value(#[trigger] elems@[k]) == sg * self@.den
                        * cof_seq(self@.elems, self@.n, k % (n as int), k / (n as int)),
            decreases n - row,
        {
            let mut col: usize = 0;
            while col < n
                invariant
                    mat_wf(self@),
                    self@.n == n,
                    2 <= n,
                    sg == (if det_seq(self@.elems, self@.n) >= 0 {
                        1int
                    } else {
                        -1int
                    }),
                    negdet == (det_seq(self@.elems, self@.n) < 0),
                    big_value(zero) == 0,
                    row < n,
                    col <= n,
                    elems@.len() == row * n + col,
                    forall|k: int|
                        0 <= k < row * n + col ==> big_value(#[trigger] elems@[k]) == sg * self@.den
                            * cof_seq(self@.elems, self@.n, k % (n as int), k / (n as int)),
                decreases n - col,
            {
                let cf = self.cof_num(col, row);
                let v = big_mul(&self.den, &cf);
                let v = if negdet {
                    big_sub(&zero, &v)
                } else {
                    v
                };
                elems.push(v);
                proof {
                    lemma_rowcol(n as int, row as int, col as int);
                    let nn = n as int;
                    let kk = (row as int) * nn + (col as int);
                    let cfv = cof_seq(self@.elems, self@.n, col as int, row as int);
                    assert(kk % nn == col as int && kk / nn == row as int);
                    if negdet {
                        assert(sg == -1);
                        assert(big_value(elems@[kk]) == -(self@.den * cfv));
                        assert(-(self@.den * cfv) == -1 * self@.den * cfv) by (nonlinear_arith);
                    } else {
                        assert(sg == 1);
                        assert(big_value(elems@[kk]) == self@.den * cfv);
                        assert(self@.den * cfv == 1 * self@.den * cfv) by (nonlinear_arith);
                    }
                    assert(big_value(elems@[kk]) == sg * self@.den * cof_seq(
                        self@.elems,
                        self@.n,
                        kk % nn,
                        kk / nn,
                    ));
                }
                col += 1;
            }
            proof {
                lemma_grid_bounds(n as int, row as int, 0);
            }
            row += 1;
        }
        proof {
            lemma_sq_small(n as int);
            assert(mat_inverse(self@).elems =~= int_vals(elems@));
            let d = det_seq(self@.elems, self@.n);
            assert(big_value(adjden) == sg * d) by {
                if d >= 0 {
                    assert(sg * d == d) by (nonlinear_arith)
                        requires
                            sg == 1,
                    ;
                } else {
                    assert(sg * d == -d) by (nonlinear_arith)
                        requires
                            sg == -1,
                    ;
                }
            }
            assert(big_value(adjden) == mat_inverse(self@).den);
        }
        Grid { n, elems, den: adjden }
    }

    /// Every entry rounded to five decimal places.
    pub(crate) fn round5(&self) -> (r: Grid)
        ensures
            r@ == mat_round5(self@),
    {
        proof {
            use_type_invariant(self);
            lemma_sq_small(self@.n);
        }
        let n = self.n;
        let total = n * n;
        let mut elems: Vec<BigInt> = Vec::new();
        let mut k: usize = 0;
        while k < total
            invariant
                mat_wf(self@),
                self@.n == n,
                total == n * n,
                k <= total,
                elems@.len() == k,
                forall|i: int|
                    0 <= i < k ==> big_value(#[trigger] elems@[i]) == round_div(
                        self@.elems[i] * (ROUND_SCALE as int),
                        self@.den,
                    ),
            decreases total - k,
        {
            let e = Rat::from_parts(big_clone(&self.elems[k]), big_clone(&self.den));
            let rounded = e.round5();
            elems.push(rounded.num_big());
            k += 1;
        }
        proof {
            assert(mat_round5(self@).elems =~= int_vals(elems@));
        }
        Grid { n, elems, den: big_from_i64(ROUND_SCALE) }
    }

    /// Entrywise value equality.
    pub(crate) fn eq_grid(&self, rhs: &Grid) -> (r: bool)
        ensures
            r == mat_eq_val(self@, rhs@),
    {
        proof {
            use_type_invariant(self);
            use_type_invariant(rhs);
        }
        if self.n != rhs.n {
            return false;
        }
        proof {
            lemma_sq_small(self@.n);
        }
        let total = self.n * self.n;
        let mut k: usize = 0;
        while k < total
            invariant
                mat_wf(self@),
                mat_wf(rhs@),
                self@.n == rhs@.n,
                total == self@.n * self@.n,
                k <= total,
                forall|i: int|
                    0 <= i < k ==> #[trigger] self@.elems[i] * rhs@.den == rhs@.elems[i]
                        * self@.den,
            decreases total - k,
        {
            if !big_eq(
                &big_mul(&self.elems[k], &rhs.den),
                &big_mul(&rhs.elems[k], &self.den),
            ) {
                proof {
                    assert(self@.elems[k as int] * rhs@.den != rhs@.elems[k as int] * self@.den);
                }
                return false;
            }
            k += 1;
        }
        true
    }

    /// Assembles a grid from already-scaled parts.
    pub(crate) fn from_parts(n: usize, elems: Vec<BigInt>, den: BigInt) -> (r: Grid)
        requires
            1 <= n <= 4,
            elems@.len() == n * n,
            big_value(den) > 0,
        ensures
            r@ == (MatVal { n: n as int, elems: int_vals(elems@), den: big_value(den) }),
    {
        Grid { n, elems, den }
    }

    /// An equal copy.
    pub(crate) fn duplicate(&self) -> (r: Grid)
        ensures
            r@ == self@,
    {
        proof {
            use_type_invariant(self);
            lemma_sq_small(self@.n);
        }
        let n = self.n;
        let total = n * n;
        let mut elems: Vec<BigInt> = Vec::new();
        let mut k: usize = 0;
        while k < total
            invariant
                mat_wf(self@),
                self@.n == n,
                total == n * n,
                k <= total,
                elems@.len() == k,
                forall|i: int|
                    0 <= i < k ==> big_value(#[trigger] elems@[i]) == self@.elems[i],
            decreases total - k,
        {
            elems.push(big_clone(&self.elems[k]));
            k += 1;
        }
        proof {
            assert(self@.elems =~= int_vals(elems@));
        }
        Grid { n, elems, den: big_clone(&self.den) }
    }
}


/// A 4 x 4 matrix of exact rationals.
#[derive(Debug)]
pub struct Matrix4 {
    g: Grid,
}

impl View for Matrix4 {
    type V = MatVal;

    closed spec fn view(&self) -> MatVal {
        self.g@
    }
}

impl Matrix4 {
    #[verifier::type_invariant]
    pub open spec fn type_wf(self) -> bool {
        mat_wf(self@) && self@.n == 4
    }

    /// Builds the matrix from its rows.
    pub fn new(rows: [[Rat; 4]; 4]) -> (r: Matrix4)
        ensures
            mat_wf(r@),
            r@.n == 4,
            forall|i: int, j: int|
                0 <= i < 4 && 0 <= j < 4 ==> rv_eq(#[trigger] mat_entry(r@, i, j), rows@[i]@[j]@),
    {
        let mut entries: Vec<Rat> = Vec::new();
        let mut rr: usize = 0;
        while rr < 4
            invariant
                rr <= 4,
                entries@.len() == rr * 4,
                forall|k: int|
                    0 <= k < rr * 4 ==> #[trigger] entries@[k]@ == rows@[k / 4]@[k % 4]@,
            decreases 4 - rr,
        {
            let mut cc: usize = 0;
            while cc < 4
                invariant
                    rr < 4,
                    cc <= 4,
                    entries@.len() == rr * 4 + cc,
                    forall|k: int|
                        0 <= k < rr * 4 + cc ==> #[trigger] entries@[k]@ == rows@[k / 4]@[k % 4]@,
                decreases 4 - cc,
            {
                entries.push(rows[rr][cc].duplicate());
                proof {
                    lemma_rowcol(4, rr as int, cc as int);
                }
                cc += 1;
            }
            rr += 1;
        }
        let g = Grid::from_rats(4, &entries);
        proof {
            assert forall|i: int, j: int| 0 <= i < 4 && 0 <= j < 4 implies rv_eq(
                #[trigger] mat_entry(g@, i, j),
                rows@[i]@[j]@,
            ) by {
                lemma_rowcol(4, i, j);
                assert(rv_eq(mat_elem(g@, i * 4 + j), entries@[i * 4 + j]@));
            }
        }
        Matrix4 { g }
    }

    /// The identity matrix: 1 on the diagonal, 0 elsewhere.
    pub fn identity_matrix() -> (r: Matrix4)
        ensures
            r@ == mat_ident(4),
    {
        Matrix4 { g: Grid::identity(4) }
    }

    /// The entry at row `r`, column `c`.
    pub fn at(&self, r: usize, c: usize) -> (res: Rat)
        requires
            r < 4,
            c < 4,
        ensures
            res@ == mat_entry(self@, r as int, c as int),
            rv_wf(res@),
    {
        proof {
            use_type_invariant(self);
        }
        self.g.at(r, c)
    }

    /// Swaps rows and columns.
    pub fn transpose(&self) -> (r: Matrix4)
        ensures
            r@ == mat_transpose(self@),
    {
        proof {
            use_type_invariant(self);
        }
        Matrix4 { g: self.g.transpose() }
    }

    /// The standard matrix product.
    pub fn mul(&self, rhs: &Matrix4) -> (r: Matrix4)
        ensures
            r@ == mat_mul(self@, rhs@),
    {
        proof {
            use_type_invariant(self);
            use_type_invariant(rhs);
        }
        let g = self.g.mul(&rhs.g);
        proof {
            use_type_invariant(&g);
        }
        Matrix4 { g }
    }

    /// The determinant, by recursive Laplace expansion along the first row.
    pub fn determinant(&self) -> (r: Rat)
        ensures
            r@ == mat_det(self@),
            rv_wf(r@),
    {
        self.g.determinant()
    }

    /// Whether the determinant is nonzero.
    pub fn is_invertibile(&self) -> (r: bool)
        ensures
            r == (det_seq(self@.elems, self@.n) != 0),
    {
        self.g.is_invertibile()
    }

    /// Every entry rounded to five decimal places.
    pub fn round(&self) -> (r: Matrix4)
        ensures
            r@ == mat_round5(self@),
    {
        proof {
            use_type_invariant(self);
        }
        Matrix4 { g: self.g.round5() }
    }

    /// An equal copy.
    pub fn duplicate(&self) -> (r: Matrix4)
        ensures
            r@ == self@,
    {
        proof {
            use_type_invariant(self);
        }
        Matrix4 { g: self.g.duplicate() }
    }

    /// The 3 x 3 matrix that deletes row `dr` and column `dc`.
    pub fn submatrix(&self, dr: usize, dc: usize) -> (r: Matrix3)
        requires
            dr < 4,
            dc < 4,
        ensures
            r@ == mat_submatrix(self@, dr as int, dc as int),
    {
        proof {
            use_type_invariant(self);
        }
        Matrix3 { g: self.g.submatrix(dr, dc) }
    }

    /// The minor: the determinant of `submatrix(r, c)`.
    pub fn minor(&self, r: usize, c: usize) -> (res: Rat)
        requires
            r < 4,
            c < 4,
        ensures
            res@ == (RatVal {
                num: minor_seq(self@.elems, self@.n, r as int, c as int),
                den: pow(self@.den, (self@.n - 1) as nat),
            }),
            rv_wf(res@),
    {
        proof {
            use_type_invariant(self);
        }
        self.g.minor(r, c)
    }

    /// The cofactor: the minor, negated when `r + c` is odd.
    pub fn cofactor(&self, r: usize, c: usize) -> (res: Rat)
        requires
            r < 4,
            c < 4,
        ensures
            res@ == (RatVal {
                num: cof_seq(self@.elems, self@.n, r as int, c as int),
                den: pow(self@.den, (self@.n - 1) as nat),
            }),
            rv_wf(res@),
    {
        proof {
            use_type_invariant(self);
        }
        self.g.cofactor(r, c)
    }

    /// Applies the matrix to a homogeneous tuple as a linear map over all
    /// four components.
    pub fn mul_tuple(&self, t: &Tuple) -> (r: Tuple)
        ensures
            r@ == matvec(self@, t@),
    {
        Tuple {
            x: self.row_apply(t, 0),
            y: self.row_apply(t, 1),
            z: self.row_apply(t, 2),
            w: self.row_apply(t, 3),
        }
    }

    fn row_apply(&self, t: &Tuple, r: usize) -> (res: Rat)
        requires
            r < 4,
        ensures
            res@ == matvec_comp(self@, t@, r as int),
    {
        proof {
            use_type_invariant(self);
        }
        self.at(r, 0).mul(&t.x).add(&self.at(r, 1).mul(&t.y)).add(&self.at(r, 2).mul(&t.z)).add(
            &self.at(r, 3).mul(&t.w),
        )
    }

    pub(crate) fn from_grid(g: Grid) -> (r: Matrix4)
        requires
            g@.n == 4,
        ensures
            r@ == g@,
    {
        proof {
            use_type_invariant(&g);
        }
        Matrix4 { g }
    }

    pub(crate) fn grid_ref(&self) -> (r: &Grid)
        ensures
            r@ == self@,
    {
        &self.g
    }
}

impl PartialEq for Matrix4 {
    /// Entrywise value equality.
    fn eq(&self, other: &Matrix4) -> (r: bool) {
        self.g.eq_grid(&other.g)
    }
}

impl vstd::std_specs::cmp::PartialEqSpecImpl for Matrix4 {
    open spec fn obeys_eq_spec() -> bool {
        true
    }

    open spec fn eq_spec(&self, other: &Matrix4) -> bool {
        mat_eq_val(self@, other@)
    }
}

/// A 3 x 3 matrix of exact rationals.
#[derive(Debug)]
pub struct Matrix3 {
    g: Grid,
}

impl View for Matrix3 {
    type V = MatVal;

    closed spec fn view(&self) -> MatVal {
        self.g@
    }
}

impl Matrix3 {
    #[verifier::type_invariant]
    pub open spec fn type_wf(self) -> bool {
        mat_wf(self@) && self@.n == 3
    }

    /// Builds the matrix from its rows.
    pub fn new(rows: [[Rat; 3]; 3]) -> (r: Matrix3)
        ensures
            mat_wf(r@),
            r@.n == 3,
            forall|i: int, j: int|
                0 <= i < 3 && 0 <= j < 3 ==> rv_eq(#[trigger] mat_entry(r@, i, j), rows@[i]@[j]@),
    {
        let mut entries: Vec<Rat> = Vec::new();
        let mut rr: usize = 0;
        while rr < 3
            invariant
                rr <= 3,
                entries@.len() == rr * 3,
                forall|k: int|
                    0 <= k < rr * 3 ==> #[trigger] entries@[k]@ == rows@[k / 3]@[k % 3]@,
            decreases 3 - rr,
        {
            let mut cc: usize = 0;
            while cc < 3
                invariant
                    rr < 3,
                    cc <= 3,
                    entries@.len() == rr * 3 + cc,
                    forall|k: int|
                        0 <= k < rr * 3 + cc ==> #[trigger] entries@[k]@ == rows@[k / 3]@[k % 3]@,
                decreases 3 - cc,
            {
                entries.push(rows[rr][cc].duplicate());
                proof {
                    lemma_rowcol(3, rr as int, cc as int);
                }
                cc += 1;
            }
            rr += 1;
        }
        let g = Grid::from_rats(3, &entries);
        proof {
            assert forall|i: int, j: int| 0 <= i < 3 && 0 <= j < 3 implies rv_eq(
                #[trigger] mat_entry(g@, i, j),
                rows@[i]@[j]@,
            ) by {
                lemma_rowcol(3, i, j);
                assert(rv_eq(mat_elem(g@, i * 3 + j), entries@[i * 3 + j]@));
            }
        }
        Matrix3 { g }
    }

    /// The identity matrix: 1 on the diagonal, 0 elsewhere.
    pub fn identity_matrix() -> (r: Matrix3)
        ensures
            r@ == mat_ident(3),
    {
        Matrix3 { g: Grid::identity(3) }
    }

    /// The entry at row `r`, column `c`.
    pub fn at(&self, r: usize, c: usize) -> (res: Rat)
        requires
            r < 3,
            c < 3,
        ensures
            res@ == mat_entry(self@, r as int, c as int),
            rv_wf(res@),
    {
        proof {
            use_type_invariant(self);
        }
        self.g.at(r, c)
    }

    /// Swaps rows and columns.
    pub fn transpose(&self) -> (r: Matrix3)
        ensures
            r@ == mat_transpose(self@),
    {
        proof {
            use_type_invariant(self);
        }
        Matrix3 { g: self.g.transpose() }
    }

    /// The standard matrix product.
    pub fn mul(&self, rhs: &Matrix3) -> (r: Matrix3)
        ensures
            r@ == mat_mul(self@, rhs@),
    {
        proof {
            use_type_invariant(self);
            use_type_invariant(rhs);
        }
        let g = self.g.mul(&rhs.g);
        proof {
            use_type_invariant(&g);
        }
        Matrix3 { g }
    }

    /// The determinant, by recursive Laplace expansion along the first row.
    pub fn determinant(&self) -> (r: Rat)
        ensures
            r@ == mat_det(self@),
            rv_wf(r@),
    {
        self.g.determinant()
    }

    /// Whether the determinant is nonzero.
    pub fn is_invertibile(&self) -> (r: bool)
        ensures
            r == (det_seq(self@.elems, self@.n) != 0),
    {
        self.g.is_invertibile()
    }

    /// Every entry rounded to five decimal places.
    pub fn round(&self) -> (r: Matrix3)
        ensures
            r@ == mat_round5(self@),
    {
        proof {
            use_type_invariant(self);
        }
        Matrix3 { g: self.g.round5() }
    }

    /// An equal copy.
    pub fn duplicate(&self) -> (r: Matrix3)
        ensures
            r@ == self@,
    {
        proof {
            use_type_invariant(self);
        }
        Matrix3 { g: self.g.duplicate() }
    }

    /// The 2 x 2 matrix that deletes row `dr` and column `dc`.
    pub fn submatrix(&self, dr: usize, dc: usize) -> (r: Matrix2)
        requires
            dr < 3,
            dc < 3,
        ensures
            r@ == mat_submatrix(self@, dr as int, dc as int),
    {
        proof {
            use_type_invariant(self);
        }
        Matrix2 { g: self.g.submatrix(dr, dc) }
    }

    /// The minor: the determinant of `submatrix(r, c)`.
    pub fn minor(&self, r: usize, c: usize) -> (res: Rat)
        requires
            r < 3,
            c < 3,
        ensures
            res@ == (RatVal {
                num: minor_seq(self@.elems, self@.n, r as int, c as int),
                den: pow(self@.den, (self@.n - 1) as nat),
            }),
            rv_wf(res@),
    {
        proof {
            use_type_invariant(self);
        }
        self.g.minor(r, c)
    }

    /// The cofactor: the minor, negated when `r + c` is odd.
    pub fn cofactor(&self, r: usize, c: usize) -> (res: Rat)
        requires
            r < 3,
            c < 3,
        ensures
            res@ == (RatVal {
                num: cof_seq(self@.elems, self@.n, r as int, c as int),
                den: pow(self@.den, (self@.n - 1) as nat),
            }),
            rv_wf(res@),
    {
        proof {
            use_type_invariant(self);
        }
        self.g.cofactor(r, c)
    }
}

impl PartialEq for Matrix3 {
    /// Entrywise value equality.
    fn eq(&self, other: &Matrix3) -> (r: bool) {
        self.g.eq_grid(&other.g)
    }
}

impl vstd::std_specs::cmp::PartialEqSpecImpl for Matrix3 {
    open spec fn obeys_eq_spec() -> bool {
        true
    }

    open spec fn eq_spec(&self, other: &Matrix3) -> bool {
        mat_eq_val(self@, other@)
    }
}

/// A 2 x 2 matrix of exact rationals.
#[derive(Debug)]
pub struct Matrix2 {
    g: Grid,
}

impl View for Matrix2 {
    type V = MatVal;

    closed spec fn view(&self) -> MatVal {
        self.g@
    }
}

impl Matrix2 {
    #[verifier::type_invariant]
    pub open spec fn type_wf(self) -> bool {
        mat_wf(self@) && self@.n == 2
    }

    /// Builds the matrix from its rows.
    pub fn new(rows: [[Rat; 2]; 2]) -> (r: Matrix2)
        ensures
            mat_wf(r@),
            r@.n == 2,
            forall|i: int, j: int|
                0 <= i < 2 && 0 <= j < 2 ==> rv_eq(#[trigger] mat_entry(r@, i, j), rows@[i]@[j]@),
    {
        let mut entries: Vec<Rat> = Vec::new();
        let mut rr: usize = 0;
        while rr < 2
            invariant
                rr <= 2,
                entries@.len() == rr * 2,
                forall|k: int|
                    0 <= k < rr * 2 ==> #[trigger] entries@[k]@ == rows@[k / 2]@[k % 2]@,
            decreases 2 - rr,
        {
            let mut cc: usize = 0;
            while cc < 2
                invariant
                    rr < 2,
                    cc <= 2,
                    entries@.len() == rr * 2 + cc,
                    forall|k: int|
                        0 <= k < rr * 2 + cc ==> #[trigger] entries@[k]@ == rows@[k / 2]@[k % 2]@,
                decreases 2 - cc,
            {
                entries.push(rows[rr][cc].duplicate());
                proof {
                    lemma_rowcol(2, rr as int, cc as int);
                }
                cc += 1;
            }
            rr += 1;
        }
        let g = Grid::from_rats(2, &entries);
        proof {
            assert forall|i: int, j: int| 0 <= i < 2 && 0 <= j < 2 implies rv_eq(
                #[trigger] mat_entry(g@, i, j),
                rows@[i]@[j]@,
            ) by {
                lemma_rowcol(2, i, j);
                assert(rv_eq(mat_elem(g@, i * 2 + j), entries@[i * 2 + j]@));
            }
        }
        Matrix2 { g }
    }

    /// The identity matrix: 1 on the diagonal, 0 elsewhere.
    pub fn identity_matrix() -> (r: Matrix2)
        ensures
            r@ == mat_ident(2),
    {
        Matrix2 { g: Grid::identity(2) }
    }

    /// The entry at row `r`, column `c`.
    pub fn at(&self, r: usize, c: usize) -> (res: Rat)
        requires
            r < 2,
            c < 2,
        ensures
            res@ == mat_entry(self@, r as int, c as int),
            rv_wf(res@),
    {
        proof {
            use_type_invariant(self);
        }
        self.g.at(r, c)
    }

    /// Swaps rows and columns.
    pub fn transpose(&self) -> (r: Matrix2)
        ensures
            r@ == mat_transpose(self@),
    {
        proof {
            use_type_invariant(self);
        }
        Matrix2 { g: self.g.transpose() }
    }

    /// The standard matrix product.
    pub fn mul(&self, rhs: &Matrix2) -> (r: Matrix2)
        ensures
            r@ == mat_mul(self@, rhs@),
    {
        proof {
            use_type_invariant(self);
            use_type_invariant(rhs);
        }
        let g = self.g.mul(&rhs.g);
        proof {
            use_type_invariant(&g);
        }
        Matrix2 { g }
    }

    /// The determinant, by recursive Laplace expansion along the first row.
    pub fn determinant(&self) -> (r: Rat)
        ensures
            r@ == mat_det(self@),
            rv_wf(r@),
    {
        self.g.determinant()
    }

    /// Whether the determinant is nonzero.
    pub fn is_invertibile(&self) -> (r: bool)
        ensures
            r == (det_seq(self@.elems, self@.n) != 0),
    {
        self.g.is_invertibile()
    }

    /// Every entry rounded to five decimal places.
    pub fn round(&self) -> (r: Matrix2)
        ensures
            r@ == mat_round5(self@),
    {
        proof {
            use_type_invariant(self);
        }
        Matrix2 { g: self.g.round5() }
    }

    /// An equal copy.
    pub fn duplicate(&self) -> (r: Matrix2)
        ensures
            r@ == self@,
    {
        proof {
            use_type_invariant(self);
        }
        Matrix2 { g: self.g.duplicate() }
    }
}

impl PartialEq for Matrix2 {
    /// Entrywise value equality.
    fn eq(&self, other: &Matrix2) -> (r: bool) {
        self.g.eq_grid(&other.g)
    }
}

impl vstd::std_specs::cmp::PartialEqSpecImpl for Matrix2 {
    open spec fn obeys_eq_spec() -> bool {
        true
    }

    open spec fn eq_spec(&self, other: &Matrix2) -> bool {
        mat_eq_val(self@, other@)
    }
}

} // verus!
