//! The unit-sphere primitive: radius 1, centered at the object-space
//! origin, with an identity and an object-to-world transform.
//!
//! Identities come from an explicit allocator value owned by whoever
//! constructs spheres, so assignment is deterministic: ids are handed out
//! monotonically starting at 1 (0 stays reserved) and never reused.

use vstd::prelude::*;
use crate::rational::{Rat, rv_int};
use crate::tuple::{Tuple, TupleVal, tv_sub, tv_is_zero, tv_normalize};
use crate::matrix::{
    Matrix4, MatVal, mat_ident, mat_inverse, mat_transpose, mat_eq_val, matvec, det_seq,
};

verus! {

/// Hands out sphere identities: monotonically increasing, never reused.
pub struct IdAllocator {
    next: usize,
}

impl View for IdAllocator {
    type V = int;

    closed spec fn view(&self) -> int {
        self.next as int
    }
}

impl IdAllocator {
    /// A fresh allocator; the first identity handed out is 1 (0 is
    /// reserved).
    pub fn new() -> (r: IdAllocator)
        ensures
            r@ == 1,
    {
        IdAllocator { next: 1 }
    }

    /// The next identity; every later call returns a strictly larger one.
    pub fn fresh(&mut self) -> (id: usize)
        requires
            old(self)@ < usize::MAX,
        ensures
            id as int == old(self)@,
            final(self)@ == old(self)@ + 1,
    {
        let id = self.next;
        self.next = self.next + 1;
        id
    }
}

/// The mathematical model of a `Sphere`: its identity and the model of its
/// object-to-world transform.
pub struct SphereVal {
    pub id: int,
    pub transform: MatVal,
}

/// A unit sphere with an identity and an exclusively-owned object-to-world
/// transform.
#[derive(Debug)]
pub struct Sphere {
    pub id: usize,
    pub transform: Matrix4,
}

impl View for Sphere {
    type V = SphereVal;

    open spec fn view(&self) -> SphereVal {
        SphereVal { id: self.id as int, transform: self.transform@ }
    }
}

/// The object-space normal at `p`: the point mapped into object space,
/// minus the object-space origin.
pub open spec fn object_normal(m: MatVal, p: TupleVal) -> TupleVal {
    tv_sub(
        matvec(mat_inverse(m), p),
        (TupleVal { x: rv_int(0), y: rv_int(0), z: rv_int(0), w: rv_int(1) }),
    )
}

/// The world-space normal before normalization: the object normal mapped
/// through the inverse transpose, with `w` forced to 0.
pub open spec fn world_normal(m: MatVal, p: TupleVal) -> TupleVal {
    let wn = matvec(mat_transpose(mat_inverse(m)), object_normal(m, p));
    TupleVal { x: wn.x, y: wn.y, z: wn.z, w: rv_int(0) }
}

/// The surface normal: the world normal, normalized.
pub open spec fn normal_at_spec(m: MatVal, p: TupleVal) -> TupleVal {
    tv_normalize(world_normal(m, p))
}

impl Sphere {
    /// A fresh sphere: a newly allocated identity and the identity
    /// transform.
    pub fn new(ids: &mut IdAllocator) -> (r: Sphere)
        requires
            old(ids)@ < usize::MAX,
        ensures
            r@.id == old(ids)@,
            final(ids)@ == old(ids)@ + 1,
            r@.transform == mat_ident(4),
    {
        let id = ids.fresh();
        Sphere { id, transform: Matrix4::identity_matrix() }
    }

    /// Replaces the transform wholesale; no composition with the prior
    /// value.
    pub fn set_transform(&mut self, new_transform: Matrix4)
        ensures
            final(self)@.id == old(self)@.id,
            final(self)@.transform == new_transform@,
    {
        self.transform = new_transform;
    }

    /// An equal copy.
    pub fn duplicate(&self) -> (r: Sphere)
        ensures
            r@ == self@,
    {
        Sphere { id: self.id, transform: self.transform.duplicate() }
    }

    /// The world-space surface normal at a world point: the point is mapped
    /// into object space, the object normal is mapped back through the
    /// inverse transpose, `w` is forced to 0, and the result is normalized.
    /// The transform must be invertible, and the world normal must not be
    /// the zero vector (it never is for points on the sphere's surface).
    pub fn normal_at(&self, world_point: &Tuple) -> (r: Tuple)
        requires
            det_seq(self@.transform.elems, self@.transform.n) != 0,
            !tv_is_zero(world_normal(self@.transform, world_point@)),
        ensures
            r@ == normal_at_spec(self@.transform, world_point@),
    {
        let inv = self.transform.inverse();
        let zero = Rat::from_i64(0);
        let origin = Tuple::point(Rat::from_i64(0), Rat::from_i64(0), Rat::from_i64(0));
        let object_point = inv.mul_tuple(world_point);
        let object_normal = object_point.sub(&origin);
        let wt = inv.transpose();
        let wn = wt.mul_tuple(&object_normal);
        let world = Tuple { x: wn.x, y: wn.y, z: wn.z, w: zero };
        world.normalize()
    }
}

impl PartialEq for Sphere {
    /// Equal identity and value-equal transforms.
    fn eq(&self, other: &Sphere) -> (r: bool) {
        self.id == other.id && self.transform == other.transform
    }
}

impl vstd::std_specs::cmp::PartialEqSpecImpl for Sphere {
    open spec fn obeys_eq_spec() -> bool {
        true
    }

    open spec fn eq_spec(&self, other: &Sphere) -> bool {
        self@.id == other@.id && mat_eq_val(self@.transform, other@.transform)
    }
}

} // verus!
