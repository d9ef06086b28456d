//! Material scattering: how a ray bounces off a surface.

use vstd::prelude::*;
use crate::vec3::{Vec3, vec_ok, reflect_spec, reflect};
use crate::geom::{Ray, ray_ok, HitRecord, hit_ok};
use crate::rng::{Prng, rand_unit_vec3_s, rand_in_sphere_s};
use crate::scene::{Material, mat_ok, color_ok};

verus! {

/// One scatter event at `rec` for a ray arriving along `incoming`, drawing
/// randomness from the stream at state `s`: either an attenuation color and
/// the scattered ray, or `None` when the surface absorbs the ray.
///
/// A diffuse surface bounces toward the normal nudged by a random unit
/// vector and never absorbs. A reflective surface mirrors the incoming
/// direction, perturbs it by `roughness` times a random ball point, and
/// absorbs when that perturbed direction points back into the surface.
#[verifier::opaque]
pub open spec fn scatter_s(m: Material, incoming: Vec3, rec: HitRecord, s: u64) -> (Option<
    (Vec3, Ray),
>, u64) {
    match m {
        Material::Diffuse { albedo } => {
            let (rv, s1) = rand_unit_vec3_s(s);
            let dir = rec.surface_normal.add_spec(rv).normalized_spec();
            (Some((albedo, Ray { origin: rec.intersection_point, direction: dir })), s1)
        },
        Material::Reflective { albedo, roughness } => {
            let (ball, s1) = rand_in_sphere_s(s);
            let perturbed = reflect_spec(incoming, rec.surface_normal).add_spec(
                ball.scale_spec(roughness as int),
            );
            if perturbed.dot_spec(rec.surface_normal) > 0 {
                (
                    Some(
                        (
                            albedo,
                            Ray {
                                origin: rec.intersection_point,
                                direction: perturbed.normalized_spec(),
                            },
                        ),
                    ),
                    s1,
                )
            } else {
                (None, s1)
            }
        },
    }
}

pub fn scatter(m: Material, incoming: Vec3, rec: HitRecord, rng: &mut Prng) -> (r: Option<
    (Vec3, Ray),
>)
    requires
        mat_ok(m),
        vec_ok(incoming),
        hit_ok(rec),
    ensures
        r == scatter_s(m, incoming, rec, old(rng).state).0,
        final(rng).state == scatter_s(m, incoming, rec, old(rng).state).1,
        match r {
            Some(p) => color_ok(p.0) && ray_ok(p.1),
            None => true,
        },
{
    proof {
        reveal(scatter_s);
    }
    match m {
        Material::Diffuse { albedo } => {
            let rv: Vec3 = rng.rand_unit_vec3();
            let dir: Vec3 = rec.surface_normal.add(rv).normalized();
            Some((albedo, Ray { origin: rec.intersection_point, direction: dir }))
        },
        Material::Reflective { albedo, roughness } => {
            let ball: Vec3 = rng.rand_vec3_in_unit_sphere();
            let perturbed: Vec3 = reflect(incoming, rec.surface_normal).add(
                ball.scale(roughness),
            );
            if perturbed.dot(rec.surface_normal) > 0 {
                Some(
                    (
                        albedo,
                        Ray { origin: rec.intersection_point, direction: perturbed.normalized() },
                    ),
                )
            } else {
                None
            }
        },
    }
}

} // verus!
