//! Laws of the rendering core, proved over the spec mirrors that the
//! executable functions are pinned to.

use vstd::prelude::*;
use crate::fixed::{lemma_one_mul, lemma_mul_zero, lemma_mul_s_unit_interval, FP_EPS};
use crate::vec3::{Vec3, vec_ok, reflect_spec};
use crate::geom::{Ray, ray_ok, HitRecord, hit_ok, hit_sphere_s, nearest_upto, nearest_hit_s};
use crate::rng::rand_in_sphere_s;
use crate::scene::{Sphere, Material, color_ok, mat_ok, sphere_ok};
use crate::material::scatter_s;
use crate::trace::{trace_s, trace_rec, sky_s, white_s};
use crate::render::{render_s, chan_byte_s, gamma_s};
use crate::fixed::{is_sqrt, lemma_sqrt_is, FP_ONE};

verus! {

/// White attenuates nothing: multiplying the white accumulator by a color
/// returns that color exactly.
pub proof fn lemma_white_mul(v: Vec3)
    requires
        vec_ok(v),
    ensures
        white_s().mul_spec(v) == v,
{
    lemma_one_mul(v.x as int);
    lemma_one_mul(v.y as int);
    lemma_one_mul(v.z as int);
}

/// In an empty scene every ray escapes at once: the traced color is exactly
/// the sky gradient for the ray's direction, with no attenuation applied and
/// no randomness drawn.
pub proof fn lemma_empty_scene_sky(ray: Ray, s: u64)
    requires
        ray_ok(ray),
    ensures
        trace_s(ray, Seq::<Sphere>::empty(), s).0 == sky_s(ray.direction),
        trace_s(ray, Seq::<Sphere>::empty(), s).1 == s,
{
    reveal_with_fuel(trace_rec, 2);
    reveal_with_fuel(nearest_upto, 1);
    let bg = sky_s(ray.direction);
    assert(nearest_hit_s(Seq::<Sphere>::empty(), ray) is None);
    assert(vec_ok(bg));
    lemma_white_mul(bg);
}

/// The sky color an escaping ray picks up is that of its own direction: a
/// path whose last scattered ray is `r` ends, in a scene `r` misses, with
/// the accumulated color times `sky_s(r.direction)` — not the sky of the
/// primary ray that started the path.
pub proof fn lemma_escape_uses_current_direction(
    r: Ray,
    spheres: Seq<Sphere>,
    color: Vec3,
    s: u64,
    fuel: nat,
)
    requires
        fuel > 0,
        nearest_hit_s(spheres, r) is None,
    ensures
        trace_rec(r, spheres, color, s, fuel) == (color.mul_spec(sky_s(r.direction)), s),
{
    reveal_with_fuel(trace_rec, 1);
}

/// Rendering is deterministic: two frames produced from the same seed, size
/// and scene are equal pointwise, hence byte-identical once packed.
pub proof fn lemma_render_deterministic(
    width: int,
    height: int,
    seed: u64,
    spheres: Seq<Sphere>,
    b1: Seq<u32>,
    b2: Seq<u32>,
)
    requires
        b1 == render_s(width, height, seed, spheres),
        b2 == render_s(width, height, seed, spheres),
    ensures
        b1 == b2,
{
}

/// A perfectly smooth mirror scatters with zero perturbation: at roughness 0
/// the scattered direction is exactly the normalized mirror reflection of
/// the incoming direction about the surface normal, and the ray is absorbed
/// exactly when that reflection points back into the surface.
pub proof fn lemma_mirror_zero_roughness(albedo: Vec3, incoming: Vec3, rec: HitRecord, s: u64)
    requires
        vec_ok(incoming),
        hit_ok(rec),
    ensures
        ({
            let m = Material::Reflective { albedo, roughness: 0 };
            let refl = reflect_spec(incoming, rec.surface_normal);
            let r = scatter_s(m, incoming, rec, s);
            r.1 == rand_in_sphere_s(s).1 && (refl.dot_spec(rec.surface_normal) > 0 ==> r.0
                == Some(
                (
                    albedo,
                    Ray { origin: rec.intersection_point, direction: refl.normalized_spec() },
                ),
            )) && (refl.dot_spec(rec.surface_normal) <= 0 ==> r.0 is None)
        }),
{
    reveal(scatter_s);
    let ball = rand_in_sphere_s(s).0;
    let refl = reflect_spec(incoming, rec.surface_normal);
    lemma_mul_zero(ball.x as int);
    lemma_mul_zero(ball.y as int);
    lemma_mul_zero(ball.z as int);
    assert(ball.scale_spec(0int) == Vec3::zero_spec());
    assert(vec_ok(refl));
    assert(refl.add_spec(Vec3::zero_spec()) == refl);
}

/// When the bounce budget is exhausted, the integrator returns the
/// accumulated color as it stands — neither sky nor absorption applies —
/// so a path trapped between surfaces ends after exactly the depth limit.
pub proof fn lemma_depth_exhaustion(ray: Ray, spheres: Seq<Sphere>, color: Vec3, s: u64)
    ensures
        trace_rec(ray, spheres, color, s, 0) == (color, s),
{
    reveal_with_fuel(trace_rec, 1);
}

/// Gamma correction and quantization round the endpoints exactly: an
/// accumulated pure-white channel quantizes to 255 and pure black to 0.
pub proof fn lemma_gamma_quantize_endpoints()
    ensures
        chan_byte_s(gamma_s(FP_ONE as int)) == 255,
        chan_byte_s(gamma_s(0)) == 0,
{
    assert(is_sqrt(65536int * 65536int, 65536int)) by (nonlinear_arith);
    lemma_sqrt_is(65536int * 65536int, 65536int);
    assert(gamma_s(FP_ONE as int) == 65536int);
    assert((65536int * 25599int) / 6553600int == 255int);
    assert((0int * 25599int) / 6553600int == 0int);
}

/// Displayable colors are closed under attenuation: the channel-wise
/// product of two colors with channels in `[0, 1]` stays in `[0, 1]`.
pub proof fn lemma_color_mul_ok(a: Vec3, b: Vec3)
    requires
        color_ok(a),
        color_ok(b),
    ensures
        color_ok(a.mul_spec(b)),
{
    lemma_mul_s_unit_interval(a.x as int, b.x as int);
    lemma_mul_s_unit_interval(a.y as int, b.y as int);
    lemma_mul_s_unit_interval(a.z as int, b.z as int);
}

/// Every material a nearest-hit scan reports belongs to one of the scene's
/// spheres, so a well-formed scene only ever hands back well-formed
/// materials.
pub proof fn lemma_nearest_material_ok(spheres: Seq<Sphere>, ray: Ray, n: nat)
    requires
        n <= spheres.len(),
        forall|i: int| 0 <= i < spheres.len() ==> sphere_ok(#[trigger] spheres[i]),
    ensures
        match nearest_upto(spheres, ray, n) {
            Some(p) => mat_ok(p.1),
            None => true,
        },
    decreases n,
{
    reveal_with_fuel(nearest_upto, 1);
    if n > 0 {
        lemma_nearest_material_ok(spheres, ray, (n - 1) as nat);
    }
}

/// Any hit the intersection test reports lies strictly beyond the
/// shadow-acne guard distance.
pub proof fn lemma_hit_distance_positive(ray: Ray, sphere: Sphere)
    ensures
        match hit_sphere_s(ray, sphere) {
            Some(h) => h.distance > FP_EPS,
            None => true,
        },
{
    reveal(hit_sphere_s);
}

} // verus!
