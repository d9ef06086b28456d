//! Deterministic pseudo-random sampling.
//!
//! Rendering draws all randomness from an explicit-seed generator owned by
//! the library (a splitmix64 stream), so a pixel's sample sequence is a pure
//! function of the seed handed to the renderer: reproducibility of a whole
//! frame follows from the spec mirrors below rather than from any global
//! generator state.

use vstd::prelude::*;
use crate::fixed::{fp_ok, FP_ONE, FP_HALF};
use crate::vec3::{Vec3, vec_ok};

verus! {

#[derive(Clone, Copy, PartialEq, Eq, Structural, Debug)]
pub struct Prng {
    pub state: u64,
}

/// The splitmix64 state advance.
pub open spec fn advance_s(s: u64) -> u64 {
    vstd::wrapping::u64_specs::wrapping_add(s, 0x9E3779B97F4A7C15u64)
}

/// The splitmix64 output mix.
#[verifier::opaque]
pub open spec fn mix_s(s: u64) -> u64 {
    let z0 = vstd::wrapping::u64_specs::wrapping_mul(s ^ (s >> 30), 0xBF58476D1CE4E5B9u64);
    let z1 = vstd::wrapping::u64_specs::wrapping_mul(z0 ^ (z0 >> 27), 0x94D049BB133111EBu64);
    z1 ^ (z1 >> 31)
}

/// One draw: the word produced and the state that follows.
pub open spec fn next_u64_s(s: u64) -> (u64, u64) {
    let s2 = advance_s(s);
    (mix_s(s2), s2)
}

/// Map a raw word to a fixed-point value in `[0, 1)`.
pub open spec fn unit_from(v: u64) -> int {
    (v >> 48) as int
}

/// Map a raw word to a fixed-point value in `[-1, 1)`.
pub open spec fn comp_from(v: u64) -> int {
    2 * ((v >> 48) as int) - 65536
}

/// Three draws making a vector with components in `[-1, 1)`.
pub open spec fn rand_vec3_s(s: u64) -> (Vec3, u64) {
    let (v1, s1) = next_u64_s(s);
    let (v2, s2) = next_u64_s(s1);
    let (v3, s3) = next_u64_s(s2);
    (Vec3 { x: comp_from(v1) as i64, y: comp_from(v2) as i64, z: comp_from(v3) as i64 }, s3)
}

/// The vector rand_vec3_s falls back on when every candidate is rejected.
pub open spec fn sphere_fallback_s() -> Vec3 {
    Vec3 { x: FP_HALF, y: 0, z: 0 }
}

/// Bounded rejection sampling from the unit ball: keep drawing while the
/// candidate's squared length is 1 or more, for at most `fuel` retries.
#[verifier::opaque]
pub open spec fn rand_in_sphere_rec(s: u64, fuel: nat) -> (Vec3, u64)
    decreases fuel,
{
    let (v, s1) = rand_vec3_s(s);
    if v.len_sq_spec() < FP_ONE {
        (v, s1)
    } else if fuel == 0 {
        (sphere_fallback_s(), s1)
    } else {
        rand_in_sphere_rec(s1, (fuel - 1) as nat)
    }
}

/// A point strictly inside the unit ball, from at most 32 draws.
pub open spec fn rand_in_sphere_s(s: u64) -> (Vec3, u64) {
    rand_in_sphere_rec(s, 31)
}

/// A direction of roughly unit length: a ball point, normalized.
pub open spec fn rand_unit_vec3_s(s: u64) -> (Vec3, u64) {
    let (v, s1) = rand_in_sphere_s(s);
    (v.normalized_spec(), s1)
}

/// A ball point flipped into the hemisphere around `normal`.
pub open spec fn rand_in_hemisphere_s(s: u64, normal: Vec3) -> (Vec3, u64) {
    let (v, s1) = rand_in_sphere_s(s);
    if v.dot_spec(normal) > 0 {
        (v, s1)
    } else {
        (v.neg_spec(), s1)
    }
}

impl Prng {
    pub fn new(seed: u64) -> (r: Prng)
        ensures
            r.state == seed,
    {
        Prng { state: seed }
    }

    pub fn next_u64(&mut self) -> (r: u64)
        ensures
            r == next_u64_s(old(self).state).0,
            final(self).state == next_u64_s(old(self).state).1,
    {
        proof {
            reveal(mix_s);
        }
        let s2: u64 = self.state.wrapping_add(0x9E3779B97F4A7C15u64);
        self.state = s2;
        let z0: u64 = (s2 ^ (s2 >> 30)).wrapping_mul(0xBF58476D1CE4E5B9u64);
        let z1: u64 = (z0 ^ (z0 >> 27)).wrapping_mul(0x94D049BB133111EBu64);
        z1 ^ (z1 >> 31)
    }

    /// A fixed-point sample in `[0, 1)`.
    pub fn next_unit(&mut self) -> (r: i64)
        ensures
            r == unit_from(next_u64_s(old(self).state).0),
            final(self).state == next_u64_s(old(self).state).1,
            0 <= r < FP_ONE,
    {
        let v: u64 = self.next_u64();
        proof {
            assert(v >> 48 < 65536u64) by (bit_vector);
        }
        let h: u64 = v >> 48;
        h as i64
    }

    /// A fixed-point sample in `[-1, 1)`.
    pub fn next_comp(&mut self) -> (r: i64)
        ensures
            r == comp_from(next_u64_s(old(self).state).0),
            final(self).state == next_u64_s(old(self).state).1,
            -FP_ONE <= r < FP_ONE,
            fp_ok(r as int),
    {
        let v: u64 = self.next_u64();
        proof {
            assert(v >> 48 < 65536u64) by (bit_vector);
        }
        let h: u64 = v >> 48;
        2 * (h as i64) - 65536
    }

    /// A vector whose components each lie in `[-1, 1)`.
    pub fn rand_vec3(&mut self) -> (r: Vec3)
        ensures
            r == rand_vec3_s(old(self).state).0,
            final(self).state == rand_vec3_s(old(self).state).1,
            vec_ok(r),
    {
        let x: i64 = self.next_comp();
        let y: i64 = self.next_comp();
        let z: i64 = self.next_comp();
        Vec3 { x, y, z }
    }

    fn rand_in_sphere_fueled(&mut self, fuel: u64) -> (r: Vec3)
        ensures
            r == rand_in_sphere_rec(old(self).state, fuel as nat).0,
            final(self).state == rand_in_sphere_rec(old(self).state, fuel as nat).1,
            vec_ok(r),
            r.len_sq_spec() < FP_ONE,
        decreases fuel,
    {
        proof {
            reveal_with_fuel(rand_in_sphere_rec, 2);
        }
        let v: Vec3 = self.rand_vec3();
        if v.len_sq() < FP_ONE {
            v
        } else if fuel == 0 {
            let f: Vec3 = Vec3 { x: FP_HALF, y: 0, z: 0 };
            proof {
                assert(crate::fixed::abs_s(32768int) * crate::fixed::abs_s(32768int)
                    == 1073741824int) by (nonlinear_arith);
                assert(crate::fixed::abs_s(0int) * crate::fixed::abs_s(0int) == 0int)
                    by (nonlinear_arith);
                assert(1073741824int / 65536int == 16384int);
                assert(0int / 65536int == 0int);
                assert(f.len_sq_spec() == 16384int);
            }
            f
        } else {
            self.rand_in_sphere_fueled(fuel - 1)
        }
    }

    /// A point strictly inside the unit ball.
    pub fn rand_vec3_in_unit_sphere(&mut self) -> (r: Vec3)
        ensures
            r == rand_in_sphere_s(old(self).state).0,
            final(self).state == rand_in_sphere_s(old(self).state).1,
            vec_ok(r),
            r.len_sq_spec() < FP_ONE,
    {
        self.rand_in_sphere_fueled(31)
    }

    /// A direction sampled from the unit ball and normalized.
    pub fn rand_unit_vec3(&mut self) -> (r: Vec3)
        ensures
            r == rand_unit_vec3_s(old(self).state).0,
            final(self).state == rand_unit_vec3_s(old(self).state).1,
            vec_ok(r),
    {
        let v: Vec3 = self.rand_vec3_in_unit_sphere();
        v.normalized()
    }

    /// A ball point lying in the hemisphere around `normal`.
    pub fn rand_in_hemisphere(&mut self, normal: Vec3) -> (r: Vec3)
        requires
            vec_ok(normal),
        ensures
            r == rand_in_hemisphere_s(old(self).state, normal).0,
            final(self).state == rand_in_hemisphere_s(old(self).state, normal).1,
            vec_ok(r),
    {
        let v: Vec3 = self.rand_vec3_in_unit_sphere();
        if v.dot(normal) > 0 {
            v
        } else {
            v.neg()
        }
    }
}

} // verus!
