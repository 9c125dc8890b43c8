//! Intersection records and visible-hit selection.
//!
//! An `Intersections` keeps its records in the order the intersecting
//! routine produced them — not sorted by `t`. `hit` selects the record with
//! the smallest strictly positive `t` (zero excluded); among equal minima
//! it returns the earliest.

use vstd::prelude::*;
use crate::rational::{Rat, RatVal, rv_wf, rv_int, rv_eq, rv_le, rv_lt, lemma_rv_lt_le_trans};
use crate::sphere::{Sphere, SphereVal};
use crate::matrix::mat_eq_val;

verus! {

/// The mathematical model of an `Intersection`: the hit distance and the
/// model of the sphere it was computed against.
pub struct IsectVal {
    pub t: RatVal,
    pub object: SphereVal,
}

/// A visible record: its `t` is strictly positive.
pub open spec fn is_positive(iv: IsectVal) -> bool {
    rv_lt(rv_int(0), iv.t)
}

/// A parametric hit distance plus the sphere it was computed against;
/// spheres are cheap value copies, so a record owns its copy.
#[derive(Debug)]
pub struct Intersection {
    pub t: Rat,
    pub object: Sphere,
}

impl View for Intersection {
    type V = IsectVal;

    open spec fn view(&self) -> IsectVal {
        IsectVal { t: self.t@, object: self.object@ }
    }
}

impl Intersection {
    /// An equal copy.
    pub fn duplicate(&self) -> (r: Intersection)
        ensures
            r@ == self@,
    {
        Intersection { t: self.t.duplicate(), object: self.object.duplicate() }
    }
}

impl PartialEq for Intersection {
    /// Value-equal distance and equal sphere.
    fn eq(&self, other: &Intersection) -> (r: bool) {
        self.t == other.t && self.object == other.object
    }
}

impl vstd::std_specs::cmp::PartialEqSpecImpl for Intersection {
    open spec fn obeys_eq_spec() -> bool {
        true
    }

    open spec fn eq_spec(&self, other: &Intersection) -> bool {
        rv_eq(self@.t, other@.t) && self@.object.id == other@.object.id && mat_eq_val(
            self@.object.transform,
            other@.object.transform,
        )
    }
}

/// An ordered sequence of intersection records, in production order.
#[derive(Debug)]
pub struct Intersections {
    pub values: Vec<Intersection>,
}

impl View for Intersections {
    type V = Seq<IsectVal>;

    open spec fn view(&self) -> Seq<IsectVal> {
        Seq::new(self.values@.len(), |i: int| self.values@[i]@)
    }
}

impl Intersections {
    /// The empty collection.
    pub fn new() -> (r: Intersections)
        ensures
            r@.len() == 0,
    {
        Intersections { values: Vec::new() }
    }

    /// How many records there are.
    pub fn len(&self) -> (r: usize)
        ensures
            r == self@.len(),
    {
        self.values.len()
    }

    /// A copy of the record at `i`.
    pub fn at(&self, i: usize) -> (r: Intersection)
        requires
            i < self@.len(),
        ensures
            r@ == self@[i as int],
    {
        self.values[i].duplicate()
    }

    /// The visible hit: among the records with strictly positive `t`, the
    /// one with the minimum `t`; `None` when no record is strictly
    /// positive. Among equal minima, the earliest record wins.
    pub fn hit(&self) -> (r: Option<Intersection>)
        ensures
            match r {
                Some(h) => exists|i: int|
                    {
                        &&& 0 <= i < self@.len()
                        &&& #[trigger] self@[i] == h@
                        &&& is_positive(self@[i])
                        &&& forall|j: int|
                            0 <= j < self@.len() && is_positive(#[trigger] self@[j]) ==> rv_le(
                                h@.t,
                                self@[j].t,
                            )
                        &&& forall|j: int|
                            0 <= j < i && is_positive(#[trigger] self@[j]) ==> rv_lt(
                                h@.t,
                                self@[j].t,
                            )
                    },
                None => forall|j: int|
                    0 <= j < self@.len() ==> !is_positive(#[trigger] self@[j]),
            },
    {
        let len = self.values.len();
        let mut k: usize = 0;
        while k < len
            invariant
                len == self@.len(),
                k <= len,
                forall|j: int| 0 <= j < k ==> rv_wf(#[trigger] self@[j].t),
            decreases len - k,
        {
            let c = &self.values[k];
            proof {
                use_type_invariant(&c.t);
            }
            k += 1;
        }
        let zero = Rat::from_i64(0);
        let mut best: Option<Intersection> = None;
        let ghost mut best_idx: int = 0;
        let mut i: usize = 0;
        while i < len
            invariant
                len == self@.len(),
                i <= len,
                zero@ == rv_int(0),
                forall|j: int| 0 <= j < len ==> rv_wf(#[trigger] self@[j].t),
                best is None ==> forall|j: int|
                    0 <= j < i ==> !is_positive(#[trigger] self@[j]),
                best matches Some(b) ==> {
                    &&& 0 <= best_idx < i
                    &&& b@ == self@[best_idx]
                    &&& is_positive(self@[best_idx])
                    &&& forall|j: int|
                        0 <= j < i && is_positive(#[trigger] self@[j]) ==> rv_le(
                            b@.t,
                            self@[j].t,
                        )
                    &&& forall|j: int|
                        0 <= j < best_idx && is_positive(#[trigger] self@[j]) ==> rv_lt(
                            b@.t,
                            self@[j].t,
                        )
                },
            decreases len - i,
        {
            let cand = &self.values[i];
            let cand_pos = zero.lt(&cand.t);
            let replace = if cand_pos {
                match &best {
                    None => true,
                    Some(b) => cand.t.lt(&b.t),
                }
            } else {
                false
            };
            if replace {
                proof {
                    assert(cand@ == self@[i as int]);
                    assert(rv_wf(self@[i as int].t));
                    let ghost ob = best;
                    if ob is Some {
                        let b = ob->Some_0;
                        assert(rv_wf(self@[best_idx].t));
                        assert forall|j: int|
                            0 <= j < i + 1 && is_positive(#[trigger] self@[j]) implies rv_le(
                            cand@.t,
                            self@[j].t,
                        ) by {
                            if j < i {
                                lemma_rv_lt_le_trans(cand@.t, b@.t, self@[j].t);
                            }
                        }
                        assert forall|j: int|
                            0 <= j < i && is_positive(#[trigger] self@[j]) implies rv_lt(
                            cand@.t,
                            self@[j].t,
                        ) by {
                            lemma_rv_lt_le_trans(cand@.t, b@.t, self@[j].t);
                        }
                    }
                }
                best = Some(cand.duplicate());
                proof {
                    best_idx = i as int;
                }
            }
            i += 1;
        }
        proof {
            let ghost ob = best;
            if ob is Some {
                let b = ob->Some_0;
                assert(0 <= best_idx < self@.len() && self@[best_idx] == b@ && is_positive(
                    self@[best_idx],
                ));
            }
        }
        best
    }
}

} // verus!
