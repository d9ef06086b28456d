//! Scene-level scenarios: intersection geometry, scattering, the bounce
//! loop, and whole-frame rendering.

use raytrace::fixed::{FP_ONE, FP_HALF, FP_EPS};
use raytrace::vec3::Vec3;
use raytrace::geom::{Ray, HitRecord, hit_sphere, nearest_hit};
use raytrace::rng::Prng;
use raytrace::scene::{Material, Sphere, Scene};
use raytrace::material::scatter;
use raytrace::trace::trace;
use raytrace::render::{render, render_checked, buffer_matches};

fn gray(level: i64) -> Vec3 {
    Vec3 { x: level, y: level, z: level }
}

fn demo_scene() -> Scene {
    Scene {
        spheres: vec![
            Sphere {
                origin: Vec3 { x: 0, y: 0, z: -FP_ONE },
                radius: FP_HALF,
                material: Material::Diffuse { albedo: Vec3 { x: 45875, y: 19660, z: 19660 } },
            },
            Sphere {
                origin: Vec3 { x: 0, y: -6586368, z: -FP_ONE },
                radius: 100 * FP_ONE,
                material: Material::Diffuse { albedo: Vec3 { x: 52428, y: 52428, z: 19660 } },
            },
            Sphere {
                origin: Vec3 { x: -FP_ONE, y: 0, z: -FP_ONE },
                radius: FP_HALF,
                material: Material::Reflective { albedo: gray(52428), roughness: 19660 },
            },
        ],
    }
}

// An intersection is reported beyond the shadow-acne guard and the reported
// point lies on the sphere's surface within fixed-point tolerance.
#[test]
fn hit_point_lies_on_surface() {
    let sphere = Sphere {
        origin: Vec3 { x: 13107, y: -6553, z: -98304 },
        radius: 45875,
        material: Material::Diffuse { albedo: gray(FP_HALF) },
    };
    let ray = Ray {
        origin: Vec3 { x: 0, y: 0, z: 0 },
        direction: sphere.origin.normalized(),
    };
    let hit = hit_sphere(ray, sphere).expect("ray toward the center must hit");
    assert!(hit.distance > FP_EPS);
    let offset = hit.intersection_point.sub(sphere.origin);
    let err = (offset.length() - sphere.radius).abs();
    assert!(err <= 150, "surface error {err} too large");
}

// Reported surface normals have unit length within tolerance.
#[test]
fn hit_normal_is_unit_length() {
    let sphere = Sphere {
        origin: Vec3 { x: 20000, y: 30000, z: -120000 },
        radius: 50000,
        material: Material::Diffuse { albedo: gray(FP_HALF) },
    };
    let ray = Ray {
        origin: Vec3 { x: 0, y: 0, z: 0 },
        direction: sphere.origin.normalized(),
    };
    let hit = hit_sphere(ray, sphere).expect("ray toward the center must hit");
    let len = hit.surface_normal.length();
    assert!((len - FP_ONE).abs() <= 7, "normal length {len} not unit");
}

// Sweep many sphere/ray configurations: every reported hit clears the
// guard distance, lies on the surface, and carries a near-unit normal.
#[test]
fn hit_sweep_respects_tolerances() {
    let mut g = Prng::new(0xA11CE);
    let mut hits = 0;
    for _ in 0..200 {
        let jitter = |g: &mut Prng| g.next_comp() / 4;
        let center = Vec3 {
            x: jitter(&mut g),
            y: jitter(&mut g),
            z: -2 * FP_ONE + jitter(&mut g),
        };
        let radius = FP_ONE / 4 + g.next_unit();
        let sphere = Sphere {
            origin: center,
            radius,
            material: Material::Diffuse { albedo: gray(FP_HALF) },
        };
        let aim = Vec3 {
            x: center.x + jitter(&mut g) / 2,
            y: center.y + jitter(&mut g) / 2,
            z: center.z,
        };
        let ray = Ray { origin: Vec3 { x: 0, y: 0, z: 0 }, direction: aim.normalized() };
        if let Some(hit) = hit_sphere(ray, sphere) {
            hits += 1;
            assert!(hit.distance > FP_EPS);
            let offset = hit.intersection_point.sub(sphere.origin);
            assert!((offset.length() - radius).abs() <= 400);
            assert!((hit.surface_normal.length() - FP_ONE).abs() <= 20);
        }
    }
    assert!(hits >= 150, "only {hits} of the aimed rays hit");
}

// Scenario: a single sphere at (0,0,-1) with radius 0.5 seen from the
// origin: the central ray hits at distance 0.5 exactly, a ray toward the
// image edge misses.
#[test]
fn center_ray_hits_edge_ray_misses() {
    let sphere = Sphere {
        origin: Vec3 { x: 0, y: 0, z: -FP_ONE },
        radius: FP_HALF,
        material: Material::Diffuse { albedo: gray(FP_HALF) },
    };
    let center = Ray {
        origin: Vec3 { x: 0, y: 0, z: 0 },
        direction: Vec3 { x: 0, y: 0, z: -FP_ONE },
    };
    let hit = hit_sphere(center, sphere).expect("central ray must hit");
    assert_eq!(hit.distance, FP_HALF);
    assert_eq!(hit.surface_normal, Vec3 { x: 0, y: 0, z: FP_ONE });

    // Toward the top edge of the viewport: y component 1 at focal depth 1.
    let edge = Ray {
        origin: Vec3 { x: 0, y: 0, z: 0 },
        direction: Vec3 { x: 0, y: FP_ONE, z: -FP_ONE }.normalized(),
    };
    assert!(hit_sphere(edge, sphere).is_none());
}

// The nearest of several spheres wins, and the first wins an exact tie.
#[test]
fn nearest_hit_prefers_closer_then_first() {
    let near = Sphere {
        origin: Vec3 { x: 0, y: 0, z: -2 * FP_ONE },
        radius: FP_HALF,
        material: Material::Diffuse { albedo: gray(FP_ONE) },
    };
    let far = Sphere {
        origin: Vec3 { x: 0, y: 0, z: -4 * FP_ONE },
        radius: FP_HALF,
        material: Material::Reflective { albedo: gray(FP_ONE), roughness: 0 },
    };
    let ray = Ray {
        origin: Vec3 { x: 0, y: 0, z: 0 },
        direction: Vec3 { x: 0, y: 0, z: -FP_ONE },
    };
    let spheres = vec![far, near];
    let (hit, mat) = nearest_hit(&spheres, ray).expect("must hit");
    assert_eq!(hit.distance, FP_ONE + FP_HALF);
    assert!(matches!(mat, Material::Diffuse { .. }));

    let twin = Sphere { material: Material::Reflective { albedo: gray(FP_ONE), roughness: 0 }, ..near };
    let tied = vec![near, twin];
    let (_, first_mat) = nearest_hit(&tied, ray).expect("must hit");
    assert!(matches!(first_mat, Material::Diffuse { .. }));
}

// Scenario: a smooth mirror hit head-on scatters into the exact mirror
// reflection with zero perturbation.
#[test]
fn smooth_mirror_reflects_exactly() {
    let rec = HitRecord {
        intersection_point: Vec3 { x: 0, y: 0, z: -FP_ONE },
        surface_normal: Vec3 { x: 0, y: 0, z: FP_ONE },
        distance: FP_ONE,
    };
    let incoming = Vec3 { x: 0, y: 0, z: -FP_ONE };
    let m = Material::Reflective { albedo: gray(52428), roughness: 0 };
    let mut rng = Prng::new(7);
    let (attenuation, scattered) = scatter(m, incoming, rec, &mut rng).expect("head-on mirror scatters");
    assert_eq!(attenuation, gray(52428));
    assert_eq!(scattered.direction, Vec3 { x: 0, y: 0, z: FP_ONE });
    assert_eq!(scattered.origin, rec.intersection_point);
}

// A grazing mirror hit whose perturbed direction points into the surface is
// absorbed.
#[test]
fn mirror_absorbs_into_surface() {
    let rec = HitRecord {
        intersection_point: Vec3 { x: 0, y: 0, z: -FP_ONE },
        surface_normal: Vec3 { x: 0, y: 0, z: FP_ONE },
        distance: FP_ONE,
    };
    // Incoming along the normal itself: the reflection points away from the
    // outside, so a smooth mirror extinguishes the ray.
    let incoming = Vec3 { x: 0, y: 0, z: FP_ONE };
    let m = Material::Reflective { albedo: gray(FP_ONE), roughness: 0 };
    let mut rng = Prng::new(7);
    assert!(scatter(m, incoming, rec, &mut rng).is_none());
}

// Scenario: an empty scene returns the sky gradient exactly; straight down
// gives the white endpoint, straight up the blue endpoint.
#[test]
fn empty_scene_returns_sky_endpoints() {
    let scene = Scene { spheres: vec![] };
    let mut rng = Prng::new(3);
    let down = Ray {
        origin: Vec3 { x: 0, y: 0, z: 0 },
        direction: Vec3 { x: 0, y: -FP_ONE, z: 0 },
    };
    assert_eq!(trace(down, &scene, &mut rng), gray(FP_ONE));
    let up = Ray {
        origin: Vec3 { x: 0, y: 0, z: 0 },
        direction: Vec3 { x: 0, y: FP_ONE, z: 0 },
    };
    assert_eq!(trace(up, &scene, &mut rng), Vec3 { x: FP_HALF, y: 45875, z: FP_ONE });
}

// The escaping ray picks the sky color: a primary ray heading straight
// down (whose own sky endpoint is white) is mirrored straight up and then
// escapes, so the result is the blue endpoint of the ray that escaped, not
// the white endpoint of the primary ray.
#[test]
fn escape_uses_current_direction() {
    let mirror = Sphere {
        origin: Vec3 { x: 0, y: -2 * FP_ONE, z: 0 },
        radius: FP_ONE,
        material: Material::Reflective { albedo: gray(FP_ONE), roughness: 0 },
    };
    let scene = Scene { spheres: vec![mirror] };
    let ray = Ray {
        origin: Vec3 { x: 0, y: 0, z: 0 },
        direction: Vec3 { x: 0, y: -FP_ONE, z: 0 },
    };
    let mut rng = Prng::new(5);
    assert_eq!(trace(ray, &scene, &mut rng), Vec3 { x: FP_HALF, y: 45875, z: FP_ONE });
}

// Scenario: two facing mirrors trap a ray; the bounce loop stops at the
// depth limit and returns the accumulated color unchanged — pure white for
// perfect mirrors, which neither escape (sky tint) nor absorption (black)
// could produce.
#[test]
fn facing_mirrors_exhaust_depth_limit() {
    let mirror = |z: i64| Sphere {
        origin: Vec3 { x: 0, y: 0, z },
        radius: FP_ONE,
        material: Material::Reflective { albedo: gray(FP_ONE), roughness: 0 },
    };
    let scene = Scene { spheres: vec![mirror(-2 * FP_ONE), mirror(2 * FP_ONE)] };
    let ray = Ray {
        origin: Vec3 { x: 0, y: 0, z: 0 },
        direction: Vec3 { x: 0, y: 0, z: -FP_ONE },
    };
    let mut rng = Prng::new(11);
    assert_eq!(trace(ray, &scene, &mut rng), gray(FP_ONE));
}

// Two renders with the same seed, size and scene are byte-identical.
#[test]
fn same_seed_renders_identically() {
    let scene = demo_scene();
    let a = render(8, 6, 0x5EED, &scene);
    let b = render(8, 6, 0x5EED, &scene);
    assert_eq!(a.len(), 48);
    assert_eq!(a, b);
}

// Different seeds give a statistically similar but not necessarily
// identical frame: mean channel values stay within a band.
#[test]
fn different_seeds_render_similarly() {
    let scene = demo_scene();
    let a = render(16, 12, 1, &scene);
    let b = render(16, 12, 2, &scene);
    let mean = |buf: &Vec<u32>| -> i64 {
        let mut total: i64 = 0;
        for px in buf {
            total += ((px >> 16) & 0xFF) as i64;
            total += ((px >> 8) & 0xFF) as i64;
            total += (px & 0xFF) as i64;
        }
        total / (3 * buf.len() as i64)
    };
    let (ma, mb) = (mean(&a), mean(&b));
    assert!((ma - mb).abs() <= 24, "means {ma} and {mb} diverge");
}

// Degenerate sizes are rejected before they can divide by zero; valid sizes
// yield a full row-major buffer.
#[test]
fn degenerate_sizes_are_rejected() {
    let scene = Scene { spheres: vec![] };
    assert!(render_checked(0, 10, 1, &scene).is_none());
    assert!(render_checked(10, 0, 1, &scene).is_none());
    assert!(render_checked(1, 10, 1, &scene).is_none());
    assert!(render_checked(10, 1, 1, &scene).is_none());
    let buf = render_checked(4, 3, 1, &scene).expect("valid size renders");
    assert_eq!(buf.len(), 12);
}

// Traced colors are displayable: every channel stays in [0, 1].
#[test]
fn traced_colors_stay_displayable() {
    let scene = demo_scene();
    let mut rng = Prng::new(99);
    for k in -4i64..5 {
        let dir = Vec3 { x: k * FP_ONE / 4, y: k * FP_ONE / 8, z: -FP_ONE }.normalized();
        let c = trace(Ray { origin: Vec3 { x: 0, y: 0, z: 0 }, direction: dir }, &scene, &mut rng);
        for ch in [c.x, c.y, c.z] {
            assert!((0..=FP_ONE).contains(&ch), "channel {ch} out of range");
        }
    }
}

// The scene builder appends spheres in order.
#[test]
fn scene_builder_appends_in_order() {
    let mut scene = Scene::new();
    assert!(scene.spheres.is_empty());
    let s = Sphere {
        origin: Vec3 { x: 0, y: 0, z: -FP_ONE },
        radius: FP_HALF,
        material: Material::Diffuse { albedo: gray(FP_HALF) },
    };
    scene.add_sphere(s);
    scene.add_sphere(Sphere { radius: FP_ONE, ..s });
    assert_eq!(scene.spheres.len(), 2);
    assert_eq!(scene.spheres[0].radius, FP_HALF);
    assert_eq!(scene.spheres[1].radius, FP_ONE);
}

// The smallest accepted frame renders deterministically.
#[test]
fn minimal_frame_renders() {
    let scene = demo_scene();
    let a = render(2, 2, 7, &scene);
    assert_eq!(a.len(), 4);
    assert_eq!(a, render(2, 2, 7, &scene));
}

// The consumer's stale-buffer guard: only a matching length passes.
#[test]
fn stale_buffers_are_detected() {
    assert!(buffer_matches(12, 4, 3));
    assert!(!buffer_matches(12, 4, 4));
    assert!(buffer_matches(0, 0, 100));
}
