//! The path integrator: follow one ray through the scene for a bounded
//! number of bounces, multiplying attenuation into an accumulated color.

use vstd::prelude::*;
use crate::fixed::{add_s, mul_s, FP_ONE, FP_HALF};
use crate::vec3::{Vec3, vec_ok};
use crate::geom::{Ray, ray_ok, nearest_hit_s, nearest_hit};
use crate::rng::Prng;
use crate::scene::{Sphere, Scene, scene_ok};
use crate::material::{scatter_s, scatter};

verus! {

/// Bounce limit of the path integrator.
pub const MAX_DEPTH: usize = 100;

pub open spec fn white_s() -> Vec3 {
    Vec3 { x: FP_ONE, y: FP_ONE, z: FP_ONE }
}

pub fn white() -> (r: Vec3)
    ensures
        r == white_s(),
        vec_ok(r),
{
    Vec3 { x: FP_ONE, y: FP_ONE, z: FP_ONE }
}

/// The horizon color the sky blends toward (0.5, 0.7, 1.0).
pub open spec fn sky_blue_s() -> Vec3 {
    Vec3 { x: FP_HALF, y: 45875, z: FP_ONE }
}

/// Sky gradient: interpolate from white to sky blue by `0.5 * (y + 1)` of
/// the ray's vertical direction component.
pub open spec fn sky_s(dir: Vec3) -> Vec3 {
    white_s().lerp_spec(sky_blue_s(), mul_s(FP_HALF as int, add_s(dir.y as int, FP_ONE as int)))
}

pub fn sky(dir: Vec3) -> (r: Vec3)
    requires
        vec_ok(dir),
    ensures
        r == sky_s(dir),
        vec_ok(r),
{
    let blue: Vec3 = Vec3 { x: FP_HALF, y: 45875, z: FP_ONE };
    let t: i64 = crate::fixed::mul_fp(FP_HALF, crate::fixed::add_fp(dir.y, FP_ONE));
    white().lerp(blue, t)
}

/// One step of the bounce loop, with `fuel` bounces left. On a miss the
/// accumulated color is multiplied by the sky color of the escaping ray's
/// own direction and the path ends; on absorption it becomes black; at
/// fuel 0 it is returned as accumulated.
#[verifier::opaque]
pub open spec fn trace_rec(
    ray: Ray,
    spheres: Seq<Sphere>,
    color: Vec3,
    s: u64,
    fuel: nat,
) -> (Vec3, u64)
    decreases fuel,
{
    if fuel == 0 {
        (color, s)
    } else {
        match nearest_hit_s(spheres, ray) {
            None => (color.mul_spec(sky_s(ray.direction)), s),
            Some(p) => {
                let step = scatter_s(p.1, ray.direction, p.0, s);
                match step.0 {
                    Some(q) => trace_rec(
                        q.1,
                        spheres,
                        color.mul_spec(q.0),
                        step.1,
                        (fuel - 1) as nat,
                    ),
                    None => (Vec3::zero_spec(), step.1),
                }
            },
        }
    }
}

/// The color a single ray gathers: start white and bounce up to
/// `MAX_DEPTH` times; the ray that finally escapes picks the sky color.
pub open spec fn trace_s(ray: Ray, spheres: Seq<Sphere>, s: u64) -> (Vec3, u64) {
    trace_rec(ray, spheres, white_s(), s, MAX_DEPTH as nat)
}

#[verifier::rlimit(100)]
pub fn trace(ray: Ray, scene: &Scene, rng: &mut Prng) -> (c: Vec3)
    requires
        ray_ok(ray),
        scene_ok(*scene),
    ensures
        c == trace_s(ray, scene.spheres@, old(rng).state).0,
        final(rng).state == trace_s(ray, scene.spheres@, old(rng).state).1,
        vec_ok(c),
{
    let mut color: Vec3 = white();
    let mut cur: Ray = ray;
    let mut depth: usize = 0;
    let ghost target = trace_s(ray, scene.spheres@, rng.state);
    while depth < MAX_DEPTH
        invariant
            depth <= MAX_DEPTH,
            ray_ok(cur),
            vec_ok(color),
            scene_ok(*scene),
            target == trace_s(ray, scene.spheres@, old(rng).state),
            trace_rec(cur, scene.spheres@, color, rng.state, (MAX_DEPTH - depth) as nat)
                == target,
        decreases MAX_DEPTH - depth,
    {
        proof {
            reveal_with_fuel(trace_rec, 2);
        }
        match nearest_hit(&scene.spheres, cur) {
            None => {
                return color.mul(sky(cur.direction));
            },
            Some(p) => {
                match scatter(p.1, cur.direction, p.0, rng) {
                    Some(q) => {
                        color = color.mul(q.0);
                        cur = q.1;
                    },
                    None => {
                        return Vec3::zero();
                    },
                }
            },
        }
        depth = depth + 1;
    }
    proof {
        reveal_with_fuel(trace_rec, 1);
    }
    color
}

} // verus!
