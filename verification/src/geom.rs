//! Rays, hit records, and the ray/sphere intersection test.

use vstd::prelude::*;
use crate::fixed::{fp_ok, add_s, sub_s, mul_s, div_s, sqrt_fp_s, add_fp, sub_fp, mul_fp, div_fp,
    neg_fp, sqrt_fp, FP_EPS, FP_MAX};
use crate::vec3::{Vec3, vec_ok};
use crate::scene::{Sphere, Material, sphere_ok, mat_ok};

verus! {

/// A half-line: an origin and a direction, the latter expected to be of
/// roughly unit length when it enters intersection math.
#[derive(Clone, Copy, PartialEq, Eq, Structural, Debug)]
pub struct Ray {
    pub origin: Vec3,
    pub direction: Vec3,
}

pub open spec fn ray_ok(r: Ray) -> bool {
    vec_ok(r.origin) && vec_ok(r.direction)
}

/// One intersection: where the ray met the surface, the outward surface
/// normal there, and the distance along the ray.
#[derive(Clone, Copy, PartialEq, Eq, Structural, Debug)]
pub struct HitRecord {
    pub intersection_point: Vec3,
    pub surface_normal: Vec3,
    pub distance: i64,
}

pub open spec fn hit_ok(h: HitRecord) -> bool {
    vec_ok(h.intersection_point) && vec_ok(h.surface_normal) && FP_EPS < h.distance && fp_ok(
        h.distance as int,
    )
}

/// The record reported for a hit of `ray` on `sphere` at distance `t`.
pub open spec fn hit_at_s(ray: Ray, sphere: Sphere, t: int) -> HitRecord {
    let point = ray.origin.add_spec(ray.direction.scale_spec(t));
    HitRecord {
        intersection_point: point,
        surface_normal: point.sub_spec(sphere.origin).normalized_spec(),
        distance: t as i64,
    }
}

/// The quadratic ray/sphere test. With `oc` the origin offset, the
/// discriminant of `|oc + t dir|^2 = r^2` decides; a hit is reported at the
/// smallest root that clears the shadow-acne guard `FP_EPS`.
#[verifier::opaque]
pub open spec fn hit_sphere_s(ray: Ray, sphere: Sphere) -> Option<HitRecord> {
    let oc = ray.origin.sub_spec(sphere.origin);
    let a = ray.direction.dot_spec(ray.direction);
    let half_b = oc.dot_spec(ray.direction);
    let b = add_s(half_b, half_b);
    let c = sub_s(oc.dot_spec(oc), mul_s(sphere.radius as int, sphere.radius as int));
    let disc = sub_s(mul_s(b, b), mul_s(mul_s(262144, a), c));
    if disc > 0 {
        let root = sqrt_fp_s(disc);
        let denom = add_s(a, a);
        let t_near = div_s(sub_s(-b, root), denom);
        let t_far = div_s(add_s(-b, root), denom);
        if t_near > FP_EPS {
            Some(hit_at_s(ray, sphere, t_near))
        } else if t_far > FP_EPS {
            Some(hit_at_s(ray, sphere, t_far))
        } else {
            None
        }
    } else {
        None
    }
}

pub fn hit_sphere(ray: Ray, sphere: Sphere) -> (r: Option<HitRecord>)
    requires
        ray_ok(ray),
        sphere_ok(sphere),
    ensures
        r == hit_sphere_s(ray, sphere),
        match r {
            Some(h) => hit_ok(h),
            None => true,
        },
{
    proof {
        reveal(hit_sphere_s);
    }
    let oc: Vec3 = ray.origin.sub(sphere.origin);
    let a: i64 = ray.direction.dot(ray.direction);
    let half_b: i64 = oc.dot(ray.direction);
    let b: i64 = add_fp(half_b, half_b);
    let c: i64 = sub_fp(oc.dot(oc), mul_fp(sphere.radius, sphere.radius));
    let disc: i64 = sub_fp(mul_fp(b, b), mul_fp(mul_fp(262144, a), c));
    if disc > 0 {
        let root: i64 = sqrt_fp(disc);
        let denom: i64 = add_fp(a, a);
        let t_near: i64 = div_fp(sub_fp(neg_fp(b), root), denom);
        let t_far: i64 = div_fp(add_fp(neg_fp(b), root), denom);
        let t: i64 = if t_near > FP_EPS {
            t_near
        } else if t_far > FP_EPS {
            t_far
        } else {
            return None;
        };
        let point: Vec3 = ray.origin.add(ray.direction.scale(t));
        let normal: Vec3 = point.sub(sphere.origin).normalized();
        Some(HitRecord { intersection_point: point, surface_normal: normal, distance: t })
    } else {
        None
    }
}

/// The nearest hit among the first `n` spheres, scanned in order; a later
/// sphere displaces an earlier one only at strictly smaller distance, so the
/// first sphere wins an exact tie.
#[verifier::opaque]
pub open spec fn nearest_upto(spheres: Seq<Sphere>, ray: Ray, n: nat) -> Option<
    (HitRecord, Material),
>
    decreases n,
{
    if n == 0 {
        None
    } else {
        let prev = nearest_upto(spheres, ray, (n - 1) as nat);
        match hit_sphere_s(ray, spheres[n - 1]) {
            None => prev,
            Some(h) => match prev {
                None => Some((h, spheres[n - 1].material)),
                Some(p) => if h.distance < p.0.distance {
                    Some((h, spheres[n - 1].material))
                } else {
                    prev
                },
            },
        }
    }
}

/// The nearest hit across the whole scene.
pub open spec fn nearest_hit_s(spheres: Seq<Sphere>, ray: Ray) -> Option<(HitRecord, Material)> {
    nearest_upto(spheres, ray, spheres.len())
}

pub fn nearest_hit(spheres: &Vec<Sphere>, ray: Ray) -> (r: Option<(HitRecord, Material)>)
    requires
        ray_ok(ray),
        forall|i: int| 0 <= i < spheres@.len() ==> sphere_ok(#[trigger] spheres@[i]),
    ensures
        r == nearest_hit_s(spheres@, ray),
        match r {
            Some(p) => hit_ok(p.0) && mat_ok(p.1),
            None => true,
        },
{
    let mut best: Option<(HitRecord, Material)> = None;
    let n: usize = spheres.len();
    let mut i: usize = 0;
    proof {
        reveal_with_fuel(nearest_upto, 1);
    }
    while i < n
        invariant
            i <= n,
            n == spheres@.len(),
            ray_ok(ray),
            forall|k: int| 0 <= k < spheres@.len() ==> sphere_ok(#[trigger] spheres@[k]),
            best == nearest_upto(spheres@, ray, i as nat),
            match best {
                Some(p) => hit_ok(p.0) && mat_ok(p.1),
                None => true,
            },
        decreases n - i,
    {
        proof {
            reveal_with_fuel(nearest_upto, 2);
        }
        let s: Sphere = spheres[i];
        if let Some(h) = hit_sphere(ray, s) {
            best = match best {
                None => Some((h, s.material)),
                Some(p) => if h.distance < p.0.distance {
                    Some((h, s.material))
                } else {
                    Some(p)
                },
            };
        }
        i = i + 1;
    }
    best
}

} // verus!
