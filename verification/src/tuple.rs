//! Homogeneous four-component tuples: points (`w == 1`) and vectors
//! (`w == 0`), with componentwise exact-rational algebra.

use vstd::prelude::*;
use crate::rational::{
    Rat, RatVal, rv_wf, rv_int, rv_eq, rv_add, rv_neg, rv_sub, rv_mul, rv_div, rv_round5,
    rv_sqrt_approx, isqrt_int, SQRT_SCALE,
};

verus! {

/// The mathematical model of a `Tuple`: four rationals.
pub struct TupleVal {
    pub x: RatVal,
    pub y: RatVal,
    pub z: RatVal,
    pub w: RatVal,
}

pub open spec fn tv_wf(t: TupleVal) -> bool {
    rv_wf(t.x) && rv_wf(t.y) && rv_wf(t.z) && rv_wf(t.w)
}

/// All four components denote zero.
pub open spec fn tv_is_zero(t: TupleVal) -> bool {
    t.x.num == 0 && t.y.num == 0 && t.z.num == 0 && t.w.num == 0
}

/// Componentwise value equality.
pub open spec fn tv_eq(a: TupleVal, b: TupleVal) -> bool {
    rv_eq(a.x, b.x) && rv_eq(a.y, b.y) && rv_eq(a.z, b.z) && rv_eq(a.w, b.w)
}

pub open spec fn tv_add(a: TupleVal, b: TupleVal) -> TupleVal {
    TupleVal { x: rv_add(a.x, b.x), y: rv_add(a.y, b.y), z: rv_add(a.z, b.z), w: rv_add(a.w, b.w) }
}

pub open spec fn tv_neg(a: TupleVal) -> TupleVal {
    TupleVal { x: rv_neg(a.x), y: rv_neg(a.y), z: rv_neg(a.z), w: rv_neg(a.w) }
}

pub open spec fn tv_sub(a: TupleVal, b: TupleVal) -> TupleVal {
    TupleVal { x: rv_sub(a.x, b.x), y: rv_sub(a.y, b.y), z: rv_sub(a.z, b.z), w: rv_sub(a.w, b.w) }
}

/// Componentwise scaling, `w` included.
pub open spec fn tv_scale(a: TupleVal, s: RatVal) -> TupleVal {
    TupleVal { x: rv_mul(a.x, s), y: rv_mul(a.y, s), z: rv_mul(a.z, s), w: rv_mul(a.w, s) }
}

/// Componentwise division, `w` included.
pub open spec fn tv_div_scalar(a: TupleVal, s: RatVal) -> TupleVal {
    TupleVal { x: rv_div(a.x, s), y: rv_div(a.y, s), z: rv_div(a.z, s), w: rv_div(a.w, s) }
}

/// Sum of componentwise products over all four components.
pub open spec fn tv_dot(a: TupleVal, b: TupleVal) -> RatVal {
    rv_add(
        rv_add(rv_add(rv_mul(a.x, b.x), rv_mul(a.y, b.y)), rv_mul(a.z, b.z)),
        rv_mul(a.w, b.w),
    )
}

/// The cross product of the spatial parts; the result is a vector (`w == 0`).
pub open spec fn tv_cross(a: TupleVal, b: TupleVal) -> TupleVal {
    TupleVal {
        x: rv_sub(rv_mul(a.y, b.z), rv_mul(a.z, b.y)),
        y: rv_sub(rv_mul(a.z, b.x), rv_mul(a.x, b.z)),
        z: rv_sub(rv_mul(a.x, b.y), rv_mul(a.y, b.x)),
        w: rv_int(0),
    }
}

/// The five-decimal floor-square-root approximation of the magnitude.
pub open spec fn tv_magnitude(t: TupleVal) -> RatVal {
    rv_sqrt_approx(tv_dot(t, t))
}

/// Every component divided by the approximate magnitude.
pub open spec fn tv_normalize(t: TupleVal) -> TupleVal {
    tv_div_scalar(t, tv_magnitude(t))
}

/// Mirror reflection of `v` about the normal `n`.
pub open spec fn tv_reflect(v: TupleVal, n: TupleVal) -> TupleVal {
    tv_sub(v, tv_scale(tv_scale(n, rv_int(2)), tv_dot(v, n)))
}

/// `x`, `y`, `z` rounded to five decimal places; `w` untouched.
pub open spec fn tv_round5(t: TupleVal) -> TupleVal {
    TupleVal { x: rv_round5(t.x), y: rv_round5(t.y), z: rv_round5(t.z), w: t.w }
}

pub open spec fn tv_get(t: TupleVal, i: int) -> RatVal {
    if i == 0 {
        t.x
    } else if i == 1 {
        t.y
    } else if i == 2 {
        t.z
    } else {
        t.w
    }
}

/// The dot product of a well-formed tuple with itself is a nonnegative
/// rational, and it denotes zero exactly when every component does.
pub proof fn lemma_dot_self_nonneg(t: TupleVal)
    requires
        tv_wf(t),
    ensures
        tv_dot(t, t).den > 0,
        tv_dot(t, t).num >= 0,
        tv_dot(t, t).num == 0 <==> tv_is_zero(t),
{
    let xn = t.x.num;
    let xd = t.x.den;
    let yn = t.y.num;
    let yd = t.y.den;
    let zn = t.z.num;
    let zd = t.z.den;
    let wn = t.w.num;
    let wd = t.w.den;
    let q = tv_dot(t, t);
    assert(q.den == ((xd * xd * (yd * yd)) * (zd * zd)) * (wd * wd));
    assert(q.num == ((xn * xn * (yd * yd) + yn * yn * (xd * xd)) * (zd * zd) + zn * zn * (xd
        * xd * (yd * yd))) * (wd * wd) + wn * wn * ((xd * xd * (yd * yd)) * (zd * zd)));
    assert(q.den > 0) by (nonlinear_arith)
        requires
            xd > 0,
            yd > 0,
            zd > 0,
            wd > 0,
            q.den == ((xd * xd * (yd * yd)) * (zd * zd)) * (wd * wd),
    ;
    assert(q.num >= 0 && (q.num == 0 <==> (xn == 0 && yn == 0 && zn == 0 && wn == 0)))
        by (nonlinear_arith)
        requires
            xd > 0,
            yd > 0,
            zd > 0,
            wd > 0,
            q.num == ((xn * xn * (yd * yd) + yn * yn * (xd * xd)) * (zd * zd) + zn * zn * (xd
                * xd * (yd * yd))) * (wd * wd) + wn * wn * ((xd * xd * (yd * yd)) * (zd * zd)),
    ;
}

/// A homogeneous tuple of exact rationals.
#[derive(Debug)]
pub struct Tuple {
    pub x: Rat,
    pub y: Rat,
    pub z: Rat,
    pub w: Rat,
}

impl View for Tuple {
    type V = TupleVal;

    open spec fn view(&self) -> TupleVal {
        TupleVal { x: self.x@, y: self.y@, z: self.z@, w: self.w@ }
    }
}

impl Tuple {
    /// A point: `w` is 1.
    pub fn point(x: Rat, y: Rat, z: Rat) -> (r: Tuple)
        ensures
            r@.x == x@ && r@.y == y@ && r@.z == z@ && r@.w == rv_int(1),
    {
        Tuple { x, y, z, w: Rat::from_i64(1) }
    }

    /// A vector: `w` is 0.
    pub fn vector(x: Rat, y: Rat, z: Rat) -> (r: Tuple)
        ensures
            r@.x == x@ && r@.y == y@ && r@.z == z@ && r@.w == rv_int(0),
    {
        Tuple { x, y, z, w: Rat::from_i64(0) }
    }

    /// Whether `w` denotes 0.
    pub fn is_vector(&self) -> (r: bool)
        ensures
            r == rv_eq(self@.w, rv_int(0)),
    {
        self.w.is_zero()
    }

    /// Whether `w` denotes 1.
    pub fn is_point(&self) -> (r: bool)
        ensures
            r == rv_eq(self@.w, rv_int(1)),
    {
        let one = Rat::from_i64(1);
        self.w.eq(&one)
    }

    /// An equal copy.
    pub fn duplicate(&self) -> (r: Tuple)
        ensures
            r@ == self@,
    {
        Tuple {
            x: self.x.duplicate(),
            y: self.y.duplicate(),
            z: self.z.duplicate(),
            w: self.w.duplicate(),
        }
    }

    /// Componentwise exact sum, `w` included.
    pub fn add(&self, rhs: &Tuple) -> (r: Tuple)
        ensures
            r@ == tv_add(self@, rhs@),
    {
        Tuple {
            x: self.x.add(&rhs.x),
            y: self.y.add(&rhs.y),
            z: self.z.add(&rhs.z),
            w: self.w.add(&rhs.w),
        }
    }

    /// Componentwise exact negation.
    pub fn neg(&self) -> (r: Tuple)
        ensures
            r@ == tv_neg(self@),
    {
        Tuple { x: self.x.neg(), y: self.y.neg(), z: self.z.neg(), w: self.w.neg() }
    }

    /// Componentwise exact difference, `w` included.
    pub fn sub(&self, rhs: &Tuple) -> (r: Tuple)
        ensures
            r@ == tv_sub(self@, rhs@),
    {
        Tuple {
            x: self.x.sub(&rhs.x),
            y: self.y.sub(&rhs.y),
            z: self.z.sub(&rhs.z),
            w: self.w.sub(&rhs.w),
        }
    }

    /// Componentwise exact scaling, `w` included.
    pub fn mul(&self, s: &Rat) -> (r: Tuple)
        ensures
            r@ == tv_scale(self@, s@),
    {
        Tuple { x: self.x.mul(s), y: self.y.mul(s), z: self.z.mul(s), w: self.w.mul(s) }
    }

    /// Componentwise exact division, `w` included; `s` must not denote zero.
    pub fn div(&self, s: &Rat) -> (r: Tuple)
        requires
            s@.num != 0,
        ensures
            r@ == tv_div_scalar(self@, s@),
    {
        Tuple { x: self.x.div(s), y: self.y.div(s), z: self.z.div(s), w: self.w.div(s) }
    }

    /// Exact dot product over all four components.
    pub fn dot(&self, rhs: &Tuple) -> (r: Rat)
        ensures
            r@ == tv_dot(self@, rhs@),
    {
        self.x.mul(&rhs.x).add(&self.y.mul(&rhs.y)).add(&self.z.mul(&rhs.z)).add(
            &self.w.mul(&rhs.w),
        )
    }

    /// Exact cross product of the spatial parts; always returns a vector.
    pub fn cross(&self, rhs: &Tuple) -> (r: Tuple)
        ensures
            r@ == tv_cross(self@, rhs@),
    {
        Tuple::vector(
            self.y.mul(&rhs.z).sub(&self.z.mul(&rhs.y)),
            self.z.mul(&rhs.x).sub(&self.x.mul(&rhs.z)),
            self.x.mul(&rhs.y).sub(&self.y.mul(&rhs.x)),
        )
    }

    /// Whether every component denotes zero.
    pub fn is_zero(&self) -> (r: bool)
        ensures
            r == tv_is_zero(self@),
    {
        self.x.is_zero() && self.y.is_zero() && self.z.is_zero() && self.w.is_zero()
    }

    /// The Euclidean norm over all four components, as the floor-square-root
    /// approximation at `SQRT_SCALE` granularity.
    pub fn magnitude(&self) -> (r: Rat)
        ensures
            r@ == tv_magnitude(self@),
    {
        let q = self.dot(self);
        proof {
            use_type_invariant(&self.x);
            use_type_invariant(&self.y);
            use_type_invariant(&self.z);
            use_type_invariant(&self.w);
            lemma_dot_self_nonneg(self@);
        }
        q.sqrt_floor()
    }

    /// Every component divided by the approximate magnitude. The zero tuple
    /// has magnitude zero and is excluded.
    pub fn normalize(&self) -> (r: Tuple)
        requires
            !tv_is_zero(self@),
        ensures
            r@ == tv_normalize(self@),
    {
        let m = self.magnitude();
        proof {
            use_type_invariant(&self.x);
            use_type_invariant(&self.y);
            use_type_invariant(&self.z);
            use_type_invariant(&self.w);
            lemma_dot_self_nonneg(self@);
            let q = tv_dot(self@, self@);
            let arg = q.num * q.den * (SQRT_SCALE as int) * (SQRT_SCALE as int);
            assert(arg == q.num * q.den * (SQRT_SCALE as int) * (SQRT_SCALE as int) && arg >= 1)
                by (nonlinear_arith)
                requires
                    q.num >= 1,
                    q.den >= 1,
                    (SQRT_SCALE as int) >= 1,
                    arg == q.num * q.den * (SQRT_SCALE as int) * (SQRT_SCALE as int),
            ;
            crate::rational::lemma_isqrt_props(arg);
            assert(isqrt_int(arg) >= 1);
        }
        self.div(&m)
    }

    /// `x`, `y`, `z` rounded to five decimal places; `w` untouched.
    pub fn round(&self) -> (r: Tuple)
        ensures
            r@ == tv_round5(self@),
    {
        Tuple {
            x: self.x.round5(),
            y: self.y.round5(),
            z: self.z.round5(),
            w: self.w.duplicate(),
        }
    }

    /// Mirror reflection about the normal `n`.
    pub fn reflect(&self, n: &Tuple) -> (r: Tuple)
        ensures
            r@ == tv_reflect(self@, n@),
    {
        let d = self.dot(n);
        self.sub(&n.mul(&Rat::from_i64(2)).mul(&d))
    }

    /// Component access: 0, 1, 2, 3 map to `x`, `y`, `z`, `w`.
    pub fn index(&self, i: usize) -> (r: Rat)
        requires
            i < 4,
        ensures
            r@ == tv_get(self@, i as int),
    {
        if i == 0 {
            self.x.duplicate()
        } else if i == 1 {
            self.y.duplicate()
        } else if i == 2 {
            self.z.duplicate()
        } else {
            self.w.duplicate()
        }
    }
}

impl PartialEq for Tuple {
    /// Componentwise value equality.
    fn eq(&self, other: &Tuple) -> (r: bool) {
        self.x.eq(&other.x) && self.y.eq(&other.y) && self.z.eq(&other.z) && self.w.eq(&other.w)
    }
}

impl vstd::std_specs::cmp::PartialEqSpecImpl for Tuple {
    open spec fn obeys_eq_spec() -> bool {
        true
    }

    open spec fn eq_spec(&self, other: &Tuple) -> bool {
        tv_eq(self@, other@)
    }
}

} // verus!
