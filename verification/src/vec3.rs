//! Three-component fixed-point vectors, used for positions, directions and
//! RGB colors alike. Every operation mirrors a spec function exactly, so
//! vector expressions stay pure functions of their operands.

use vstd::prelude::*;
use crate::fixed::{
    fp_ok, add_s, sub_s, mul_s, div_s, sqrt_fp_s, add_fp, sub_fp, mul_fp, div_fp, sqrt_fp, abs_s,
    FP_MAX,
};

verus! {

#[derive(Clone, Copy, PartialEq, Eq, Structural, Debug)]
pub struct Vec3 {
    pub x: i64,
    pub y: i64,
    pub z: i64,
}

/// All three components are well-formed fixed-point values.
pub open spec fn vec_ok(v: Vec3) -> bool {
    fp_ok(v.x as int) && fp_ok(v.y as int) && fp_ok(v.z as int)
}

pub proof fn lemma_mul_s_self_nonneg(a: int)
    ensures
        0 <= mul_s(a, a),
{
    assert(0 <= abs_s(a) * abs_s(a)) by (nonlinear_arith);
    vstd::arithmetic::div_mod::lemma_div_pos_is_pos(abs_s(a) * abs_s(a), 65536);
}

impl Vec3 {
    pub open spec fn zero_spec() -> Vec3 {
        Vec3 { x: 0, y: 0, z: 0 }
    }

    pub fn zero() -> (r: Vec3)
        ensures
            r == Vec3::zero_spec(),
            vec_ok(r),
    {
        Vec3 { x: 0, y: 0, z: 0 }
    }

    pub open spec fn add_spec(self, o: Vec3) -> Vec3 {
        Vec3 {
            x: add_s(self.x as int, o.x as int) as i64,
            y: add_s(self.y as int, o.y as int) as i64,
            z: add_s(self.z as int, o.z as int) as i64,
        }
    }

    pub fn add(self, o: Vec3) -> (r: Vec3)
        requires
            vec_ok(self),
            vec_ok(o),
        ensures
            r == self.add_spec(o),
            vec_ok(r),
    {
        Vec3 { x: add_fp(self.x, o.x), y: add_fp(self.y, o.y), z: add_fp(self.z, o.z) }
    }

    pub open spec fn sub_spec(self, o: Vec3) -> Vec3 {
        Vec3 {
            x: sub_s(self.x as int, o.x as int) as i64,
            y: sub_s(self.y as int, o.y as int) as i64,
            z: sub_s(self.z as int, o.z as int) as i64,
        }
    }

    pub fn sub(self, o: Vec3) -> (r: Vec3)
        requires
            vec_ok(self),
            vec_ok(o),
        ensures
            r == self.sub_spec(o),
            vec_ok(r),
    {
        Vec3 { x: sub_fp(self.x, o.x), y: sub_fp(self.y, o.y), z: sub_fp(self.z, o.z) }
    }

    /// Scale every component by the fixed-point factor `k`.
    pub open spec fn scale_spec(self, k: int) -> Vec3 {
        Vec3 {
            x: mul_s(self.x as int, k) as i64,
            y: mul_s(self.y as int, k) as i64,
            z: mul_s(self.z as int, k) as i64,
        }
    }

    pub fn scale(self, k: i64) -> (r: Vec3)
        requires
            vec_ok(self),
            fp_ok(k as int),
        ensures
            r == self.scale_spec(k as int),
            vec_ok(r),
    {
        Vec3 { x: mul_fp(self.x, k), y: mul_fp(self.y, k), z: mul_fp(self.z, k) }
    }

    /// Component-wise product, the attenuation step for colors.
    pub open spec fn mul_spec(self, o: Vec3) -> Vec3 {
        Vec3 {
            x: mul_s(self.x as int, o.x as int) as i64,
            y: mul_s(self.y as int, o.y as int) as i64,
            z: mul_s(self.z as int, o.z as int) as i64,
        }
    }

    pub fn mul(self, o: Vec3) -> (r: Vec3)
        requires
            vec_ok(self),
            vec_ok(o),
        ensures
            r == self.mul_spec(o),
            vec_ok(r),
    {
        Vec3 { x: mul_fp(self.x, o.x), y: mul_fp(self.y, o.y), z: mul_fp(self.z, o.z) }
    }

    pub open spec fn neg_spec(self) -> Vec3 {
        Vec3 { x: (-(self.x as int)) as i64, y: (-(self.y as int)) as i64, z: (-(self.z as int)) as i64 }
    }

    pub fn neg(self) -> (r: Vec3)
        requires
            vec_ok(self),
        ensures
            r == self.neg_spec(),
            vec_ok(r),
    {
        Vec3 { x: -self.x, y: -self.y, z: -self.z }
    }

    pub open spec fn dot_spec(self, o: Vec3) -> int {
        add_s(
            add_s(mul_s(self.x as int, o.x as int), mul_s(self.y as int, o.y as int)),
            mul_s(self.z as int, o.z as int),
        )
    }

    pub fn dot(self, o: Vec3) -> (r: i64)
        requires
            vec_ok(self),
            vec_ok(o),
        ensures
            r == self.dot_spec(o),
            fp_ok(r as int),
    {
        add_fp(add_fp(mul_fp(self.x, o.x), mul_fp(self.y, o.y)), mul_fp(self.z, o.z))
    }

    pub open spec fn len_sq_spec(self) -> int {
        self.dot_spec(self)
    }

    pub proof fn lemma_len_sq_nonneg(self)
        ensures
            0 <= self.len_sq_spec() <= FP_MAX,
    {
        lemma_mul_s_self_nonneg(self.x as int);
        lemma_mul_s_self_nonneg(self.y as int);
        lemma_mul_s_self_nonneg(self.z as int);
    }

    pub fn len_sq(self) -> (r: i64)
        requires
            vec_ok(self),
        ensures
            r == self.len_sq_spec(),
            0 <= r <= FP_MAX,
    {
        proof {
            self.lemma_len_sq_nonneg();
        }
        self.dot(self)
    }

    pub open spec fn length_spec(self) -> int {
        sqrt_fp_s(self.len_sq_spec())
    }

    pub fn length(self) -> (r: i64)
        requires
            vec_ok(self),
        ensures
            r == self.length_spec(),
            0 <= r,
            fp_ok(r as int),
    {
        sqrt_fp(self.len_sq())
    }

    /// Normalize toward unit length; the zero vector stays zero.
    pub open spec fn normalized_spec(self) -> Vec3 {
        let l = self.length_spec();
        if l == 0 {
            Vec3::zero_spec()
        } else {
            Vec3 {
                x: div_s(self.x as int, l) as i64,
                y: div_s(self.y as int, l) as i64,
                z: div_s(self.z as int, l) as i64,
            }
        }
    }

    pub fn normalized(self) -> (r: Vec3)
        requires
            vec_ok(self),
        ensures
            r == self.normalized_spec(),
            vec_ok(r),
    {
        let l: i64 = self.length();
        if l == 0 {
            Vec3::zero()
        } else {
            Vec3 { x: div_fp(self.x, l), y: div_fp(self.y, l), z: div_fp(self.z, l) }
        }
    }

    /// Linear interpolation from `self` toward `o` by factor `t`.
    pub open spec fn lerp_spec(self, o: Vec3, t: int) -> Vec3 {
        self.add_spec(o.sub_spec(self).scale_spec(t))
    }

    pub fn lerp(self, o: Vec3, t: i64) -> (r: Vec3)
        requires
            vec_ok(self),
            vec_ok(o),
            fp_ok(t as int),
        ensures
            r == self.lerp_spec(o, t as int),
            vec_ok(r),
    {
        self.add(o.sub(self).scale(t))
    }
}

/// Mirror reflection of `v` about the surface normal `n`:
/// `v - 2 (v . n) n`.
pub open spec fn reflect_spec(v: Vec3, n: Vec3) -> Vec3 {
    v.sub_spec(n.scale_spec(add_s(v.dot_spec(n), v.dot_spec(n))))
}

pub fn reflect(v: Vec3, n: Vec3) -> (r: Vec3)
    requires
        vec_ok(v),
        vec_ok(n),
    ensures
        r == reflect_spec(v, n),
        vec_ok(r),
{
    let d: i64 = v.dot(n);
    v.sub(n.scale(add_fp(d, d)))
}

} // verus!
