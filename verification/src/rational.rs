//! Exact rational scalars.
//!
//! A `Rat` is a fraction of arbitrary-precision integers with a positive
//! denominator. Its mathematical model is `RatVal`, a pair of unbounded
//! integers; two models denote the same rational exactly when they are
//! `rv_eq` (cross-multiplication). All kernel arithmetic is exact; the only
//! approximate operation is `sqrt_floor`, which returns the largest rational
//! with denominator `den * SQRT_SCALE` whose square does not exceed the
//! input, an exact floor specification.

use vstd::prelude::*;
use num_bigint::BigInt;
use crate::bignum::{big_value, big_from_i64, big_clone, big_add, big_sub, big_mul, big_div, big_eq, big_lt, big_sqrt};

verus! {

/// Rounding happens at five decimal places.
pub const ROUND_SCALE: i64 = 100000;

/// Square roots are computed at twelve decimal places.
pub const SQRT_SCALE: i64 = 1000000000000;

/// The mathematical model of a `Rat`: numerator and denominator.
pub struct RatVal {
    pub num: int,
    pub den: int,
}

/// A well-formed model has a positive denominator.
pub open spec fn rv_wf(a: RatVal) -> bool {
    a.den > 0
}

/// The rational with integer value `i`.
pub open spec fn rv_int(i: int) -> RatVal {
    RatVal { num: i, den: 1 }
}

/// Normalizes the sign so the denominator is positive.
pub open spec fn rv_new(n: int, d: int) -> RatVal {
    if d >= 0 {
        RatVal { num: n, den: d }
    } else {
        RatVal { num: -n, den: -d }
    }
}

/// Equality of the denoted rationals, by cross-multiplication.
pub open spec fn rv_eq(a: RatVal, b: RatVal) -> bool {
    a.num * b.den == b.num * a.den
}

/// `a <= b` on the denoted rationals; meaningful for positive denominators.
pub open spec fn rv_le(a: RatVal, b: RatVal) -> bool {
    a.num * b.den <= b.num * a.den
}

/// `a < b` on the denoted rationals; meaningful for positive denominators.
pub open spec fn rv_lt(a: RatVal, b: RatVal) -> bool {
    a.num * b.den < b.num * a.den
}

pub open spec fn rv_add(a: RatVal, b: RatVal) -> RatVal {
    RatVal { num: a.num * b.den + b.num * a.den, den: a.den * b.den }
}

pub open spec fn rv_neg(a: RatVal) -> RatVal {
    RatVal { num: -a.num, den: a.den }
}

pub open spec fn rv_sub(a: RatVal, b: RatVal) -> RatVal {
    rv_add(a, rv_neg(b))
}

pub open spec fn rv_mul(a: RatVal, b: RatVal) -> RatVal {
    RatVal { num: a.num * b.num, den: a.den * b.den }
}

/// Division; the sign moves into the numerator so the denominator stays
/// positive. Meaningful only when `b.num != 0`.
pub open spec fn rv_div(a: RatVal, b: RatVal) -> RatVal {
    if b.num >= 0 {
        RatVal { num: a.num * b.den, den: a.den * b.num }
    } else {
        RatVal { num: -(a.num * b.den), den: -(a.den * b.num) }
    }
}

/// Euclidean rounding of `m / d` to the nearest integer, halves away from
/// zero; meaningful for `d > 0`.
pub open spec fn round_div(m: int, d: int) -> int {
    if m >= 0 {
        (2 * m + d) / (2 * d)
    } else {
        -((2 * -m + d) / (2 * d))
    }
}

/// The input rounded to five decimal places, half away from zero.
pub open spec fn rv_round5(a: RatVal) -> RatVal {
    RatVal { num: round_div(a.num * (ROUND_SCALE as int), a.den), den: ROUND_SCALE as int }
}

/// The floor of the square root of a nonnegative integer.
pub open spec fn isqrt_int(x: int) -> int
    decreases (if x <= 0 { 0int } else { x }),
{
    if x <= 0 {
        0
    } else {
        let r = isqrt_int(x - 1);
        if (r + 1) * (r + 1) <= x {
            r + 1
        } else {
            r
        }
    }
}

/// The largest rational with denominator `q.den * SQRT_SCALE` whose square
/// does not exceed `q`; meaningful for well-formed `q` with `q.num >= 0`.
pub open spec fn rv_sqrt_approx(q: RatVal) -> RatVal {
    RatVal {
        num: isqrt_int(q.num * q.den * (SQRT_SCALE as int) * (SQRT_SCALE as int)),
        den: q.den * (SQRT_SCALE as int),
    }
}

/// `isqrt_int` is the floor of the square root.
pub proof fn lemma_isqrt_props(x: int)
    requires
        x >= 0,
    ensures
        isqrt_int(x) >= 0,
        isqrt_int(x) * isqrt_int(x) <= x,
        x < (isqrt_int(x) + 1) * (isqrt_int(x) + 1),
    decreases x,
{
    if x == 0 {
    } else {
        lemma_isqrt_props(x - 1);
        let r = isqrt_int(x - 1);
        if (r + 1) * (r + 1) <= x {
            assert(x < (r + 2) * (r + 2)) by (nonlinear_arith)
                requires
                    r >= 0,
                    x - 1 < (r + 1) * (r + 1),
            ;
        }
    }
}

/// The floor property determines the square root uniquely.
pub proof fn lemma_isqrt_unique(x: int, r: int)
    requires
        x >= 0,
        r >= 0,
        r * r <= x,
        x < (r + 1) * (r + 1),
    ensures
        r == isqrt_int(x),
{
    lemma_isqrt_props(x);
    let s = isqrt_int(x);
    assert(r == s) by (nonlinear_arith)
        requires
            r >= 0,
            s >= 0,
            r * r <= x,
            x < (r + 1) * (r + 1),
            s * s <= x,
            x < (s + 1) * (s + 1),
    ;
}

/// Transitivity of value equality, for a well-formed middle term.
pub proof fn lemma_rv_eq_trans(a: RatVal, b: RatVal, c: RatVal)
    requires
        b.den != 0,
        rv_eq(a, b),
        rv_eq(b, c),
    ensures
        rv_eq(a, c),
{
    assert(a.num * c.den == c.num * a.den) by (nonlinear_arith)
        requires
            b.den != 0,
            a.num * b.den == b.num * a.den,
            b.num * c.den == c.num * b.den,
    ;
}

/// Strict order composes with nonstrict order, for well-formed values.
pub proof fn lemma_rv_lt_le_trans(a: RatVal, b: RatVal, c: RatVal)
    requires
        rv_wf(a),
        rv_wf(b),
        rv_wf(c),
        rv_lt(a, b),
        rv_le(b, c),
    ensures
        rv_lt(a, c),
{
    assert(a.num * c.den < c.num * a.den) by (nonlinear_arith)
        requires
            a.den > 0,
            b.den > 0,
            c.den > 0,
            a.num * b.den < b.num * a.den,
            b.num * c.den <= c.num * b.den,
    ;
}

/// An exact rational scalar: a fraction of big integers with a positive
/// denominator.
#[derive(Debug)]
pub struct Rat {
    num: BigInt,
    den: BigInt,
}

impl View for Rat {
    type V = RatVal;

    closed spec fn view(&self) -> RatVal {
        RatVal { num: big_value(self.num), den: big_value(self.den) }
    }
}

impl Rat {
    /// Every `Rat` has a well-formed model; `use_type_invariant` recovers
    /// this fact for values whose origin is unknown.
    #[verifier::type_invariant]
    pub open spec fn type_wf(self) -> bool {
        rv_wf(self@)
    }

    /// The rational `num / den`, with the sign normalized into the numerator.
    pub fn new(num: i64, den: i64) -> (r: Rat)
        requires
            den != 0,
        ensures
            r@ == rv_new(num as int, den as int),
            rv_wf(r@),
    {
        let n = big_from_i64(num);
        let d = big_from_i64(den);
        let zero = big_from_i64(0);
        if big_lt(&d, &zero) {
            Rat { num: big_sub(&zero, &n), den: big_sub(&zero, &d) }
        } else {
            Rat { num: n, den: d }
        }
    }

    /// The rational with integer value `v`.
    pub fn from_i64(v: i64) -> (r: Rat)
        ensures
            r@ == rv_int(v as int),
            rv_wf(r@),
    {
        Rat { num: big_from_i64(v), den: big_from_i64(1) }
    }

    /// An equal copy.
    pub fn duplicate(&self) -> (r: Rat)
        ensures
            r@ == self@,
            rv_wf(r@),
    {
        proof {
            use_type_invariant(self);
        }
        Rat { num: big_clone(&self.num), den: big_clone(&self.den) }
    }

    pub(crate) fn num_big(&self) -> (r: BigInt)
        ensures
            big_value(r) == self@.num,
    {
        big_clone(&self.num)
    }

    pub(crate) fn den_big(&self) -> (r: BigInt)
        ensures
            big_value(r) == self@.den,
            big_value(r) > 0,
    {
        proof {
            use_type_invariant(self);
        }
        big_clone(&self.den)
    }

    pub(crate) fn from_parts(num: BigInt, den: BigInt) -> (r: Rat)
        requires
            big_value(den) > 0,
        ensures
            r@ == (RatVal { num: big_value(num), den: big_value(den) }),
    {
        Rat { num, den }
    }

    /// Exact sum.
    pub fn add(&self, rhs: &Rat) -> (r: Rat)
        ensures
            r@ == rv_add(self@, rhs@),
            rv_wf(r@),
    {
        proof {
            use_type_invariant(self);
            use_type_invariant(rhs);
        }
        let n = big_add(&big_mul(&self.num, &rhs.den), &big_mul(&rhs.num, &self.den));
        let d = big_mul(&self.den, &rhs.den);
        proof {
            vstd::arithmetic::mul::lemma_mul_strictly_positive(big_value(self.den), big_value(rhs.den));
        }
        Rat { num: n, den: d }
    }

    /// Exact negation.
    pub fn neg(&self) -> (r: Rat)
        ensures
            r@ == rv_neg(self@),
            rv_wf(r@),
    {
        proof {
            use_type_invariant(self);
        }
        let zero = big_from_i64(0);
        Rat { num: big_sub(&zero, &self.num), den: big_clone(&self.den) }
    }

    /// Exact difference.
    pub fn sub(&self, rhs: &Rat) -> (r: Rat)
        ensures
            r@ == rv_sub(self@, rhs@),
            rv_wf(r@),
    {
        self.add(&rhs.neg())
    }

    /// Exact product.
    pub fn mul(&self, rhs: &Rat) -> (r: Rat)
        ensures
            r@ == rv_mul(self@, rhs@),
            rv_wf(r@),
    {
        proof {
            use_type_invariant(self);
            use_type_invariant(rhs);
        }
        let n = big_mul(&self.num, &rhs.num);
        let d = big_mul(&self.den, &rhs.den);
        proof {
            vstd::arithmetic::mul::lemma_mul_strictly_positive(big_value(self.den), big_value(rhs.den));
        }
        Rat { num: n, den: d }
    }

    /// Exact quotient; the divisor must not denote zero.
    pub fn div(&self, rhs: &Rat) -> (r: Rat)
        requires
            rhs@.num != 0,
        ensures
            r@ == rv_div(self@, rhs@),
            rv_wf(r@),
    {
        proof {
            use_type_invariant(self);
            use_type_invariant(rhs);
        }
        let zero = big_from_i64(0);
        let n = big_mul(&self.num, &rhs.den);
        let d = big_mul(&self.den, &rhs.num);
        proof {
            vstd::arithmetic::mul::lemma_mul_nonzero(big_value(self.den), big_value(rhs.num));
        }
        if big_lt(&rhs.num, &zero) {
            proof {
                vstd::arithmetic::mul::lemma_mul_strictly_positive(
                    big_value(self.den),
                    -big_value(rhs.num),
                );
                assert(big_value(self.den) * -big_value(rhs.num)
                    == -(big_value(self.den) * big_value(rhs.num))) by (nonlinear_arith);
            }
            Rat { num: big_sub(&zero, &n), den: big_sub(&zero, &d) }
        } else {
            proof {
                vstd::arithmetic::mul::lemma_mul_strictly_positive(
                    big_value(self.den),
                    big_value(rhs.num),
                );
            }
            Rat { num: n, den: d }
        }
    }

    /// Whether this value denotes zero.
    pub fn is_zero(&self) -> (r: bool)
        ensures
            r == (self@.num == 0),
    {
        let zero = big_from_i64(0);
        big_eq(&self.num, &zero)
    }

    /// Strict order on the denoted rationals.
    pub fn lt(&self, rhs: &Rat) -> (r: bool)
        ensures
            r == rv_lt(self@, rhs@),
    {
        big_lt(&big_mul(&self.num, &rhs.den), &big_mul(&rhs.num, &self.den))
    }

    /// Nonstrict order on the denoted rationals.
    pub fn le(&self, rhs: &Rat) -> (r: bool)
        ensures
            r == rv_le(self@, rhs@),
    {
        !rhs.lt(self)
    }

    /// Rounds to five decimal places, half away from zero.
    pub fn round5(&self) -> (r: Rat)
        ensures
            r@ == rv_round5(self@),
            rv_wf(r@),
    {
        proof {
            use_type_invariant(self);
        }
        let zero = big_from_i64(0);
        let two = big_from_i64(2);
        let scale = big_from_i64(ROUND_SCALE);
        let m = big_mul(&self.num, &scale);
        let d2 = big_mul(&two, &self.den);
        let q = if big_lt(&m, &zero) {
            let mneg = big_sub(&zero, &m);
            proof {
                vstd::arithmetic::mul::lemma_mul_strictly_positive(2, big_value(self.den));
            }
            let qpos = big_div(&big_add(&big_mul(&two, &mneg), &self.den), &d2);
            big_sub(&zero, &qpos)
        } else {
            proof {
                vstd::arithmetic::mul::lemma_mul_strictly_positive(2, big_value(self.den));
            }
            big_div(&big_add(&big_mul(&two, &m), &self.den), &d2)
        };
        Rat { num: q, den: scale }
    }

    /// The largest rational with denominator `self.den * SQRT_SCALE` whose
    /// square does not exceed `self`.
    pub fn sqrt_floor(&self) -> (r: Rat)
        requires
            self@.num >= 0,
        ensures
            r@ == rv_sqrt_approx(self@),
            rv_wf(r@),
    {
        proof {
            use_type_invariant(self);
        }
        let k = big_from_i64(SQRT_SCALE);
        let arg = big_mul(&big_mul(&big_mul(&self.num, &self.den), &k), &k);
        proof {
            assert(big_value(arg) >= 0) by (nonlinear_arith)
                requires
                    big_value(arg) == big_value(self.num) * big_value(self.den)
                        * (SQRT_SCALE as int) * (SQRT_SCALE as int),
                    big_value(self.num) >= 0,
                    big_value(self.den) > 0,
            ;
        }
        let s = big_sqrt(&arg);
        proof {
            lemma_isqrt_unique(big_value(arg), big_value(s));
            vstd::arithmetic::mul::lemma_mul_strictly_positive(
                big_value(self.den),
                SQRT_SCALE as int,
            );
        }
        Rat { num: s, den: big_mul(&self.den, &k) }
    }
}

impl PartialEq for Rat {
    /// Equality of the denoted rationals, by cross-multiplication.
    fn eq(&self, other: &Rat) -> (r: bool) {
        big_eq(&big_mul(&self.num, &other.den), &big_mul(&other.num, &self.den))
    }
}

impl vstd::std_specs::cmp::PartialEqSpecImpl for Rat {
    open spec fn obeys_eq_spec() -> bool {
        true
    }

    open spec fn eq_spec(&self, other: &Rat) -> bool {
        rv_eq(self@, other@)
    }
}

} // verus!
