//! The scene: an ordered collection of spheres with nearest-hit
//! aggregation.

use vstd::prelude::*;
use crate::fixed::fp_in_range;
use crate::hit::HitRecord;
use crate::ray::{Ray, RayV};
use crate::sphere::{lemma_hit_shrink, sph_hit_t, sph_rec_ok, Sphere};

verus! {

/// A read-only collection of spheres; order never affects which hit
/// is reported, only the scan.
pub struct World {
    pub spheres: Vec<Sphere>,
}

/// No sphere of `w` intersects `r` within `[t_min, t_max]`.
pub open spec fn world_misses(w: &World, r: RayV, t_min: int, t_max: int) -> bool {
    forall|i: int|
        0 <= i < w.spheres@.len() ==> (#[trigger] sph_hit_t(w.spheres@[i], r, t_min, t_max))
            is None
}

impl World {
    /// An empty scene.
    pub fn new() -> (w: World)
        ensures
            w.spheres@.len() == 0,
            w.wf(),
    {
        World { spheres: Vec::new() }
    }

    /// Every member well-formed.
    pub open spec fn wf(&self) -> bool {
        forall|i: int| 0 <= i < self.spheres@.len() ==> (#[trigger] self.spheres@[i]).wf()
    }

    /// Append a sphere; existing members keep their positions.
    pub fn push(&mut self, s: Sphere)
        requires
            old(self).wf(),
            s.wf(),
        ensures
            final(self).spheres@ == old(self).spheres@.push(s),
            final(self).wf(),
    {
        self.spheres.push(s);
    }

    /// The number of spheres in the scene.
    pub fn len(&self) -> (n: usize)
        ensures
            n == self.spheres@.len(),
    {
        self.spheres.len()
    }

    /// Scan every sphere and report the hit with the smallest
    /// parameter in `[t_min, t_max]`, or `None` when every sphere
    /// misses. The reported record is exactly what the winning
    /// sphere's own test reports over the full interval, and its `t`
    /// is no larger than any member's hit parameter — the nearest-hit
    /// aggregation agrees with a brute-force scan.
    pub fn hit(&self, r: &Ray, t_min: i64, t_max: i64) -> (res: Option<HitRecord>)
        requires
            self.wf(),
            r.wf(),
            fp_in_range(t_min as int),
            fp_in_range(t_max as int),
        ensures
            match res {
                Some(rec) => {
                    &&& rec.wf()
                    &&& exists|k: int|
                        0 <= k < self.spheres@.len() && sph_rec_ok(
                            #[trigger] self.spheres@[k],
                            r@,
                            t_min as int,
                            t_max as int,
                            rec,
                        )
                    &&& forall|j: int|
                        0 <= j < self.spheres@.len() ==> ((#[trigger] sph_hit_t(
                            self.spheres@[j],
                            r@,
                            t_min as int,
                            t_max as int,
                        )) matches Some(tj) ==> rec.t as int <= tj)
                },
                None => world_misses(self, r@, t_min as int, t_max as int),
            },
    {
        let mut best: Option<HitRecord> = None;
        let mut closest: i64 = t_max;
        let mut i: usize = 0;
        while i < self.spheres.len()
            invariant
                0 <= i <= self.spheres@.len(),
                self.wf(),
                r.wf(),
                fp_in_range(t_min as int),
                fp_in_range(t_max as int),
                fp_in_range(closest as int),
                closest <= t_max,
                match best {
                    Some(rec) => {
                        &&& rec.wf()
                        &&& rec.t == closest
                        &&& exists|k: int|
                            0 <= k < i && sph_rec_ok(
                                #[trigger] self.spheres@[k],
                                r@,
                                t_min as int,
                                t_max as int,
                                rec,
                            )
                        &&& forall|j: int|
                            0 <= j < i ==> ((#[trigger] sph_hit_t(
                                self.spheres@[j],
                                r@,
                                t_min as int,
                                t_max as int,
                            )) matches Some(tj) ==> rec.t as int <= tj)
                    },
                    None => {
                        &&& closest == t_max
                        &&& forall|j: int|
                            0 <= j < i ==> (#[trigger] sph_hit_t(
                                self.spheres@[j],
                                r@,
                                t_min as int,
                                t_max as int,
                            )) is None
                    },
                },
            decreases self.spheres@.len() - i,
        {
            let s = self.spheres[i];
            proof {
                lemma_hit_shrink(s, r@, t_min as int, closest as int, t_max as int);
            }
            match s.hit(r, t_min, closest) {
                Some(rec) => {
                    best = Some(rec);
                    closest = rec.t;
                },
                None => {},
            }
            i = i + 1;
        }
        best
    }
}

} // verus!
