//! Exact-value checks of the fixed-point core: arithmetic, packing,
//! quantization and the deterministic sample stream.

use raytrace::fixed::{add_fp, sub_fp, mul_fp, div_fp, sqrt_fp, FP_ONE, FP_HALF, FP_MAX, FP_EPS};
use raytrace::vec3::Vec3;
use raytrace::rng::Prng;
use raytrace::render::{Pixel, gamma_fp};

#[test]
fn fixed_point_basics() {
    assert_eq!(add_fp(FP_ONE, FP_ONE), 2 * FP_ONE);
    assert_eq!(sub_fp(FP_HALF, FP_ONE), -FP_HALF);
    assert_eq!(mul_fp(FP_HALF, FP_HALF), FP_ONE / 4);
    assert_eq!(mul_fp(-FP_HALF, FP_HALF), -FP_ONE / 4);
    assert_eq!(div_fp(FP_ONE, 2 * FP_ONE), FP_HALF);
    assert_eq!(div_fp(-FP_ONE, 2 * FP_ONE), -FP_HALF);
    assert_eq!(div_fp(FP_ONE, 0), 0);
    assert_eq!(sqrt_fp(4 * FP_ONE), 2 * FP_ONE);
    assert_eq!(sqrt_fp(FP_ONE / 4), FP_HALF);
    assert!(FP_EPS > 0 && FP_EPS < FP_ONE / 100);
}

#[test]
fn fixed_point_saturates() {
    assert_eq!(add_fp(FP_MAX, FP_MAX), FP_MAX);
    assert_eq!(sub_fp(-FP_MAX, FP_MAX), -FP_MAX);
    assert_eq!(mul_fp(FP_MAX, FP_MAX), FP_MAX);
}

#[test]
fn vector_ops_exact() {
    let a = Vec3 { x: FP_ONE, y: 2 * FP_ONE, z: -FP_ONE };
    let b = Vec3 { x: FP_HALF, y: -FP_ONE, z: FP_ONE };
    let s = a.add(b);
    assert_eq!(s, Vec3 { x: FP_ONE + FP_HALF, y: FP_ONE, z: 0 });
    assert_eq!(a.dot(b), FP_HALF - 2 * FP_ONE - FP_ONE);
    let n = Vec3 { x: 0, y: 0, z: 3 * FP_ONE }.normalized();
    assert_eq!(n, Vec3 { x: 0, y: 0, z: FP_ONE });
    assert_eq!(Vec3 { x: 0, y: 0, z: 0 }.normalized(), Vec3 { x: 0, y: 0, z: 0 });
}

#[test]
fn pixel_packs_red_high() {
    let p = Pixel { red: 255, green: 128, blue: 7 };
    assert_eq!(p.to_u32(), 0x00FF8007);
    let q = Pixel { red: 0, green: 0, blue: 0 };
    assert_eq!(q.to_u32(), 0);
    let r = Pixel { red: 1, green: 2, blue: 3 };
    assert_eq!(r.to_u32(), (1 << 16) | (2 << 8) | 3);
}

#[test]
fn quantization_matches_truncated_scale() {
    // 0.25 * 255.99 = 63.9975, truncated to 63.
    let p = Pixel::from_color(Vec3 { x: FP_ONE / 4, y: 0, z: FP_ONE });
    assert_eq!(p.red, 63);
    assert_eq!(p.green, 0);
    assert_eq!(p.blue, 255);
    // Out-of-range channels clamp before scaling.
    let q = Pixel::from_color(Vec3 { x: -FP_ONE, y: 3 * FP_ONE, z: FP_HALF });
    assert_eq!(q.red, 0);
    assert_eq!(q.green, 255);
    assert_eq!(q.blue, 127);
}

#[test]
fn gamma_is_square_root() {
    assert_eq!(gamma_fp(FP_ONE), FP_ONE);
    assert_eq!(gamma_fp(FP_ONE / 4), FP_HALF);
    assert_eq!(gamma_fp(0), 0);
    assert_eq!(gamma_fp(-FP_ONE), 0);
}

#[test]
fn prng_streams_are_reproducible() {
    let mut a = Prng::new(0xDEADBEEF);
    let mut b = Prng::new(0xDEADBEEF);
    for _ in 0..64 {
        assert_eq!(a.next_u64(), b.next_u64());
    }
    let mut c = Prng::new(1);
    let mut d = Prng::new(2);
    let mut same = true;
    for _ in 0..8 {
        if c.next_u64() != d.next_u64() {
            same = false;
        }
    }
    assert!(!same);
}

#[test]
fn prng_samples_stay_in_range() {
    let mut g = Prng::new(42);
    for _ in 0..200 {
        let u = g.next_unit();
        assert!((0..FP_ONE).contains(&u));
        let c = g.next_comp();
        assert!((-FP_ONE..FP_ONE).contains(&c));
        let v = g.rand_vec3_in_unit_sphere();
        let mag = v.dot(v);
        assert!(mag < FP_ONE);
    }
}
