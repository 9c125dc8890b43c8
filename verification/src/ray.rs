//! Rays and ray/sphere intersection.
//!
//! `intersect` maps the ray into the sphere's local unit-sphere frame by
//! the inverse of the sphere's transform, solves the quadratic
//! `a*t^2 + b*t + c = 0`, and returns either no records (negative
//! discriminant) or exactly two, tagged with the original sphere, with
//! `t1 <= t2`. The square root of the discriminant is the exact floor
//! approximation at `SQRT_SCALE` granularity, so tangent and integral
//! cases come out exact.

use vstd::prelude::*;
use crate::rational::{
    Rat, RatVal, rv_wf, rv_int, rv_add, rv_sub, rv_neg, rv_mul, rv_div, rv_le, rv_lt,
    rv_sqrt_approx, lemma_isqrt_props,
};
use crate::tuple::{Tuple, TupleVal, tv_add, tv_sub, tv_scale, tv_dot, lemma_dot_self_nonneg};
use crate::matrix::{Matrix4, MatVal, matvec, mat_inverse, det_seq};
use crate::sphere::{Sphere, SphereVal};
use crate::intersection::{Intersection, Intersections, IsectVal};

verus! {

/// The mathematical model of a `Ray`: origin and direction tuples.
pub struct RayVal {
    pub origin: TupleVal,
    pub direction: TupleVal,
}

/// The object-space origin, as a point.
pub open spec fn origin_point() -> TupleVal {
    TupleVal { x: rv_int(0), y: rv_int(0), z: rv_int(0), w: rv_int(1) }
}

/// The position along the ray: `origin + direction * t`.
pub open spec fn ray_position_spec(r: RayVal, t: RatVal) -> TupleVal {
    tv_add(r.origin, tv_scale(r.direction, t))
}

/// Both origin and direction mapped by `m`.
pub open spec fn ray_transform_spec(r: RayVal, m: MatVal) -> RayVal {
    RayVal { origin: matvec(m, r.origin), direction: matvec(m, r.direction) }
}

/// The vector from the unit sphere's center to the ray origin.
pub open spec fn center_to_origin(r: RayVal) -> TupleVal {
    tv_sub(r.origin, origin_point())
}

/// The quadratic coefficient `a = dot(direction, direction)`.
pub open spec fn quad_a(r: RayVal) -> RatVal {
    tv_dot(r.direction, r.direction)
}

/// The quadratic coefficient `b = 2 * dot(direction, center_to_origin)`.
pub open spec fn quad_b(r: RayVal) -> RatVal {
    rv_mul(rv_int(2), tv_dot(r.direction, center_to_origin(r)))
}

/// The quadratic coefficient `c = dot(oc, oc) - 1`.
pub open spec fn quad_c(r: RayVal) -> RatVal {
    rv_sub(tv_dot(center_to_origin(r), center_to_origin(r)), rv_int(1))
}

/// The discriminant `b^2 - 4*a*c`.
pub open spec fn discriminant(r: RayVal) -> RatVal {
    rv_sub(rv_mul(quad_b(r), quad_b(r)), rv_mul(rv_int(4), rv_mul(quad_a(r), quad_c(r))))
}

/// What `intersect` returns: the ray is mapped into the sphere's local
/// frame; a negative discriminant (or a degenerate direction whose mapped
/// square is zero) gives no records, anything else exactly the two roots
/// `(-b -/+ sqrt(disc)) / (2a)` in that order, tagged with the sphere.
pub open spec fn intersect_spec(r: RayVal, s: SphereVal) -> Seq<IsectVal> {
    let tr = ray_transform_spec(r, mat_inverse(s.transform));
    let a = quad_a(tr);
    let b = quad_b(tr);
    let disc = discriminant(tr);
    if rv_lt(disc, rv_int(0)) || a.num == 0 {
        Seq::empty()
    } else {
        let sd = rv_sqrt_approx(disc);
        let t1 = rv_div(rv_sub(rv_neg(b), sd), rv_mul(rv_int(2), a));
        let t2 = rv_div(rv_add(rv_neg(b), sd), rv_mul(rv_int(2), a));
        seq![
            IsectVal { t: t1, object: s },
            IsectVal { t: t2, object: s },
        ]
    }
}

/// With `sd >= 0` and a positive divisor, `(-b - sd) / d <= (-b + sd) / d`.
proof fn lemma_roots_ordered(b: RatVal, sd: RatVal, d: RatVal)
    requires
        rv_wf(b),
        rv_wf(sd),
        rv_wf(d),
        sd.num >= 0,
        d.num > 0,
    ensures
        rv_le(rv_div(rv_sub(rv_neg(b), sd), d), rv_div(rv_add(rv_neg(b), sd), d)),
{
    let u1 = rv_sub(rv_neg(b), sd);
    let u2 = rv_add(rv_neg(b), sd);
    let t1 = rv_div(u1, d);
    let t2 = rv_div(u2, d);
    assert(t1.num * t2.den <= t2.num * t1.den) by (nonlinear_arith)
        requires
            t1.num == (-b.num * sd.den + -sd.num * b.den) * d.den,
            t2.num == (-b.num * sd.den + sd.num * b.den) * d.den,
            t1.den == (b.den * sd.den) * d.num,
            t2.den == (b.den * sd.den) * d.num,
            b.den > 0,
            sd.den > 0,
            d.den > 0,
            d.num > 0,
            sd.num >= 0,
    ;
}

/// An origin point and a direction vector.
#[derive(Debug)]
pub struct Ray {
    pub origin: Tuple,
    pub direction: Tuple,
}

impl View for Ray {
    type V = RayVal;

    open spec fn view(&self) -> RayVal {
        RayVal { origin: self.origin@, direction: self.direction@ }
    }
}

impl Ray {
    /// The position along the ray: `origin + direction * t`.
    pub fn position(&self, t: &Rat) -> (r: Tuple)
        ensures
            r@ == ray_position_spec(self@, t@),
    {
        self.origin.add(&self.direction.mul(t))
    }

    /// A new ray with both origin and direction mapped by `m`.
    pub fn transform(&self, m: &Matrix4) -> (r: Ray)
        ensures
            r@ == ray_transform_spec(self@, m@),
    {
        Ray { origin: m.mul_tuple(&self.origin), direction: m.mul_tuple(&self.direction) }
    }

    /// The quadratic coefficients of the unit-sphere intersection, for a
    /// ray already in the sphere's local frame.
    fn calculate_intersections(original_ray: &Ray) -> (r: (Rat, Rat, Rat))
        ensures
            r.0@ == quad_a(original_ray@),
            r.1@ == quad_b(original_ray@),
            r.2@ == quad_c(original_ray@),
    {
        let zero1 = Rat::from_i64(0);
        let zero2 = Rat::from_i64(0);
        let zero3 = Rat::from_i64(0);
        let sphere_to_ray = original_ray.origin.sub(&Tuple::point(zero1, zero2, zero3));
        let a = original_ray.direction.dot(&original_ray.direction);
        let b = Rat::from_i64(2).mul(&original_ray.direction.dot(&sphere_to_ray));
        let c = sphere_to_ray.dot(&sphere_to_ray).sub(&Rat::from_i64(1));
        (a, b, c)
    }

    /// Intersects the ray with a sphere. The sphere's transform must be
    /// invertible; callers guard with `is_invertibile`. Returns no records
    /// when the discriminant is negative, else exactly two with
    /// `t1 <= t2`, both tagged with the given sphere.
    pub fn intersect(&self, sphere: &Sphere) -> (r: Intersections)
        requires
            det_seq(sphere@.transform.elems, sphere@.transform.n) != 0,
        ensures
            r@ == intersect_spec(self@, sphere@),
            r@.len() == 2 ==> rv_le(r@[0].t, r@[1].t),
    {
        let inv_sphere_transform = sphere.transform.inverse();
        let transformed_ray = self.transform(&inv_sphere_transform);
        let (a, b, c) = Ray::calculate_intersections(&transformed_ray);
        let discriminate = b.mul(&b).sub(&Rat::from_i64(4).mul(&a.mul(&c)));
        let zero = Rat::from_i64(0);
        if discriminate.lt(&zero) || a.is_zero() {
            let res = Intersections::new();
            proof {
                assert(res@ =~= intersect_spec(self@, sphere@));
            }
            return res;
        }
        let sqrt_disc = discriminate.sqrt_floor();
        let two_a = Rat::from_i64(2).mul(&a);
        proof {
            use_type_invariant(&a);
            use_type_invariant(&b);
            use_type_invariant(&sqrt_disc);
            use_type_invariant(&transformed_ray.direction.x);
            use_type_invariant(&transformed_ray.direction.y);
            use_type_invariant(&transformed_ray.direction.z);
            use_type_invariant(&transformed_ray.direction.w);
            lemma_dot_self_nonneg(transformed_ray@.direction);
            use_type_invariant(&discriminate);
            let disc = discriminate@;
            let arg = disc.num * disc.den * (crate::rational::SQRT_SCALE as int) * (
            crate::rational::SQRT_SCALE as int);
            assert(arg >= 0) by (nonlinear_arith)
                requires
                    arg == disc.num * disc.den * (crate::rational::SQRT_SCALE as int) * (
                    crate::rational::SQRT_SCALE as int),
                    disc.num >= 0,
                    disc.den > 0,
                    (crate::rational::SQRT_SCALE as int) > 0,
            ;
            lemma_isqrt_props(arg);
            lemma_roots_ordered(b@, sqrt_disc@, two_a@);
        }
        let t1 = b.neg().sub(&sqrt_disc).div(&two_a);
        let t2 = b.neg().add(&sqrt_disc).div(&two_a);
        let i1 = Intersection { t: t1, object: sphere.duplicate() };
        let i2 = Intersection { t: t2, object: sphere.duplicate() };
        let mut values: Vec<Intersection> = Vec::new();
        values.push(i1);
        values.push(i2);
        let res = Intersections { values };
        proof {
            assert(res@ =~= intersect_spec(self@, sphere@));
        }
        res
    }
}

} // verus!
