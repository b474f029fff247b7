//! Randomness for the scattering model and the lens, threaded through
//! one trusted integer sampler plus verified rejection sampling.

use vstd::prelude::*;
use crate::fixed::FP_ONE;
use crate::vec3::{v_len_sq, v_unit, Vec3, V3};

verus! {

/// Relies on rand::Rng::gen_range on a thread-local generator: the
/// result is uniformly distributed in `[lo, hi)`, and the call panics
/// only on an empty range, which the precondition rules out.
#[verifier::external_body]
pub fn rand_range(lo: i64, hi: i64) -> (r: i64)
    requires
        lo < hi,
    ensures
        lo <= r < hi,
{
    rand::Rng::gen_range(&mut rand::thread_rng(), lo..hi)
}

/// A random vector strictly inside the unit sphere, by rejection
/// sampling from the enclosing cube with a bounded number of draws
/// and the zero vector as the (safe, degenerate) fallback.
pub fn random_in_unit_sphere() -> (v: Vec3)
    ensures
        v.wf(),
        v_len_sq(v@) < FP_ONE as int,
        -(FP_ONE as int) <= v@.x <= FP_ONE as int,
        -(FP_ONE as int) <= v@.y <= FP_ONE as int,
        -(FP_ONE as int) <= v@.z <= FP_ONE as int,
{
    let mut i: u32 = 0;
    while i < 64
        invariant
            i <= 64,
        decreases 64 - i,
    {
        let p = Vec3::new(
            rand_range(-FP_ONE, FP_ONE),
            rand_range(-FP_ONE, FP_ONE),
            rand_range(-FP_ONE, FP_ONE),
        );
        if p.length_squared() < FP_ONE {
            return p;
        }
        i = i + 1;
    }
    proof {
        lemma_zero_len_sq();
    }
    Vec3::new(0, 0, 0)
}

/// A random direction: a unit-sphere sample, normalized. The zero
/// vector can come back (degenerate sample); callers guard it.
pub fn random_unit_vector() -> (v: Vec3)
    ensures
        v.wf(),
        exists|s: Vec3| v@ == v_unit(s@),
{
    let s = random_in_unit_sphere();
    let v = s.normalized();
    proof {
        assert(v@ == v_unit(s@));
    }
    v
}

/// A random vector strictly inside the unit disk of the lens plane
/// (`z == 0`), by rejection sampling with the centre as fallback.
pub fn random_in_unit_disk() -> (v: Vec3)
    ensures
        v.wf(),
        v_len_sq(v@) < FP_ONE as int,
        v@.z == 0,
        -(FP_ONE as int) <= v@.x <= FP_ONE as int,
        -(FP_ONE as int) <= v@.y <= FP_ONE as int,
{
    let mut i: u32 = 0;
    while i < 64
        invariant
            i <= 64,
        decreases 64 - i,
    {
        let p = Vec3::new(rand_range(-FP_ONE, FP_ONE), rand_range(-FP_ONE, FP_ONE), 0);
        if p.length_squared() < FP_ONE {
            return p;
        }
        i = i + 1;
    }
    proof {
        lemma_zero_len_sq();
    }
    Vec3::new(0, 0, 0)
}

/// The zero vector has squared length zero.
proof fn lemma_zero_len_sq()
    ensures
        v_len_sq(V3 { x: 0, y: 0, z: 0 }) == 0,
{
    assert(crate::fixed::iabs(0) == 0);
    assert(crate::fixed::fp_mul(0, 0) == 0);
    assert(crate::fixed::fp_add(0, 0) == 0);
}

} // verus!
