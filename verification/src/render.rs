//! The frame renderer: camera setup, per-pixel jittered sampling, gamma
//! correction, 8-bit quantization and 24-bit packing, and assembly of the
//! row-major frame buffer. A pixel's value is a pure function of the frame
//! seed, the pixel's coordinates, the target size and the scene, so whole
//! frames are reproducible and pixels may be computed in any order.

use vstd::prelude::*;
use crate::fixed::{fp_ok, add_s, sub_s, mul_s, div_s, add_fp, sub_fp, mul_fp, div_fp, sqrt_fp,
    sqrt_fp_s, FP_ONE, FP_HALF, FP_MAX};
use crate::vec3::{Vec3, vec_ok};
use crate::geom::Ray;
use crate::rng::{Prng, next_u64_s, unit_from};
use crate::scene::{Sphere, Scene, scene_ok};
use crate::trace::{trace_s, trace};

verus! {

/// Jittered primary rays per pixel.
pub const SAMPLE_COUNT: usize = 4;

/// Largest accepted frame side length.
pub const MAX_SIDE: usize = 16384;

/// An 8-bit RGB pixel.
#[derive(Clone, Copy, PartialEq, Eq, Structural, Debug)]
pub struct Pixel {
    pub red: u8,
    pub green: u8,
    pub blue: u8,
}

/// The 24-bit packing: red in bits 16-23, green in 8-15, blue in 0-7.
pub open spec fn pack_s(red: u8, green: u8, blue: u8) -> u32 {
    ((red as int) * 65536 + (green as int) * 256 + (blue as int)) as u32
}

/// Clamp a fixed-point channel to `[0, 1]`.
pub open spec fn clamp01_s(c: int) -> int {
    if c < 0 {
        0
    } else if c > FP_ONE {
        FP_ONE as int
    } else {
        c
    }
}

/// Quantize a display-space channel to 8 bits: clamp to `[0, 1]`, then take
/// the integer part of `channel * 255.99`.
pub open spec fn chan_byte_s(c: int) -> int {
    (clamp01_s(c) * 25599) / 6553600
}

pub proof fn lemma_chan_byte_bound(c: int)
    ensures
        0 <= chan_byte_s(c) <= 255,
{
    let cc = clamp01_s(c);
    assert(cc * 25599 >= 0) by (nonlinear_arith)
        requires
            cc >= 0,
    ;
    vstd::arithmetic::div_mod::lemma_div_pos_is_pos(cc * 25599, 6553600);
    vstd::arithmetic::mul::lemma_mul_upper_bound(cc, 65536, 25599, 25599);
    vstd::arithmetic::div_mod::lemma_div_is_ordered(cc * 25599, 1677656064, 6553600);
}

/// Gamma-2 correction: square root of a linear channel; non-positive input
/// maps to zero.
pub open spec fn gamma_s(c: int) -> int {
    if c <= 0 {
        0
    } else {
        sqrt_fp_s(c)
    }
}

fn chan_byte(c: i64) -> (r: u8)
    requires
        fp_ok(c as int),
    ensures
        r == chan_byte_s(c as int),
        r <= 255,
{
    let cc: i64 = if c < 0 {
        0
    } else if c > FP_ONE {
        FP_ONE
    } else {
        c
    };
    proof {
        lemma_chan_byte_bound(c as int);
        vstd::arithmetic::mul::lemma_mul_upper_bound(cc as int, 65536, 25599, 25599);
    }
    let q: u64 = ((cc as u64) * 25599) / 6553600;
    q as u8
}

pub fn gamma_fp(c: i64) -> (r: i64)
    requires
        fp_ok(c as int),
    ensures
        r == gamma_s(c as int),
        fp_ok(r as int),
{
    if c <= 0 {
        0
    } else {
        sqrt_fp(c)
    }
}

impl Pixel {
    /// Turn the pixel into a packed RGB u32, red high.
    pub fn to_u32(self) -> (r: u32)
        ensures
            r == pack_s(self.red, self.green, self.blue),
    {
        let rr: u8 = self.red;
        let gg: u8 = self.green;
        let bb: u8 = self.blue;
        proof {
            assert(((rr as u32) << 16) | ((gg as u32) << 8) | (bb as u32) == (rr as u32) * 65536
                + (gg as u32) * 256 + (bb as u32)) by (bit_vector);
        }
        let r_channel: u32 = (rr as u32) << 16;
        let g_channel: u32 = (gg as u32) << 8;
        let b_channel: u32 = bb as u32;
        r_channel | g_channel | b_channel
    }

    /// The pixel a display-space color quantizes to.
    pub open spec fn from_color_s(v: Vec3) -> Pixel {
        Pixel {
            red: chan_byte_s(v.x as int) as u8,
            green: chan_byte_s(v.y as int) as u8,
            blue: chan_byte_s(v.z as int) as u8,
        }
    }

    /// Create a pixel from an RGB color with channels near `[0, 1]`.
    pub fn from_color(v: Vec3) -> (p: Pixel)
        requires
            vec_ok(v),
        ensures
            p == Pixel::from_color_s(v),
    {
        proof {
            lemma_chan_byte_bound(v.x as int);
            lemma_chan_byte_bound(v.y as int);
            lemma_chan_byte_bound(v.z as int);
        }
        Pixel { red: chan_byte(v.x), green: chan_byte(v.y), blue: chan_byte(v.z) }
    }
}

/// Map a unit surface normal to an RGB color, `n / 2 + 0.5` per channel.
pub open spec fn visualize_normal_s(n: Vec3) -> Vec3 {
    n.scale_spec(FP_HALF as int).add_spec(Vec3 { x: FP_HALF, y: FP_HALF, z: FP_HALF })
}

pub fn visualize_normal(n: Vec3) -> (c: Vec3)
    requires
        vec_ok(n),
    ensures
        c == visualize_normal_s(n),
        vec_ok(c),
{
    n.scale(FP_HALF).add(Vec3 { x: FP_HALF, y: FP_HALF, z: FP_HALF })
}

/// The fixed camera basis: origin at world zero, viewport height 2, focal
/// length 1, aspect ratio `width / height`, image y growing downward.
#[derive(Clone, Copy, PartialEq, Eq, Structural, Debug)]
pub struct Camera {
    pub upper_left: Vec3,
    pub horizontal: Vec3,
    pub vertical: Vec3,
}

pub open spec fn camera_ok(c: Camera) -> bool {
    vec_ok(c.upper_left) && vec_ok(c.horizontal) && vec_ok(c.vertical)
}

pub open spec fn camera_s(width: int, height: int) -> Camera {
    let aspect = div_s(width * 65536, height * 65536);
    let vw = mul_s(aspect, 131072);
    let horizontal = Vec3 { x: vw as i64, y: 0, z: 0 };
    let vertical = Vec3 { x: 0, y: -131072i64, z: 0 };
    let upper_left = Vec3::zero_spec().sub_spec(horizontal.scale_spec(FP_HALF as int)).sub_spec(
        vertical.scale_spec(FP_HALF as int),
    ).sub_spec(Vec3 { x: 0, y: 0, z: FP_ONE });
    Camera { upper_left, horizontal, vertical }
}

pub fn camera_for(width: usize, height: usize) -> (c: Camera)
    requires
        2 <= width <= MAX_SIDE,
        2 <= height <= MAX_SIDE,
    ensures
        c == camera_s(width as int, height as int),
        camera_ok(c),
{
    let w_fp: i64 = (width as i64) * 65536;
    let h_fp: i64 = (height as i64) * 65536;
    let aspect: i64 = div_fp(w_fp, h_fp);
    let vw: i64 = mul_fp(aspect, 131072);
    let horizontal: Vec3 = Vec3 { x: vw, y: 0, z: 0 };
    let vertical: Vec3 = Vec3 { x: 0, y: -131072, z: 0 };
    let upper_left: Vec3 = Vec3::zero().sub(horizontal.scale(FP_HALF)).sub(
        vertical.scale(FP_HALF),
    ).sub(Vec3 { x: 0, y: 0, z: FP_ONE });
    Camera { upper_left, horizontal, vertical }
}

/// One jittered sample: the first draw jitters the vertical coordinate, the
/// second the horizontal; the primary ray goes from the origin through the
/// jittered image-plane point, and is traced through the scene.
#[verifier::opaque]
pub open spec fn sample_s(x: int, y: int, width: int, height: int, spheres: Seq<Sphere>, s: u64) -> (
    Vec3,
    u64,
) {
    let cam = camera_s(width, height);
    let d1 = next_u64_s(s);
    let d2 = next_u64_s(d1.1);
    let v = div_s(add_s(y * 65536, unit_from(d1.0)), sub_s(height * 65536, 65536));
    let u = div_s(add_s(x * 65536, unit_from(d2.0)), sub_s(width * 65536, 65536));
    let dir = cam.upper_left.add_spec(cam.horizontal.scale_spec(u)).add_spec(
        cam.vertical.scale_spec(v),
    ).normalized_spec();
    trace_s(Ray { origin: Vec3::zero_spec(), direction: dir }, spheres, d2.1)
}

fn sample_one(
    x: usize,
    y: usize,
    width: usize,
    height: usize,
    cam: Camera,
    scene: &Scene,
    rng: &mut Prng,
) -> (c: Vec3)
    requires
        2 <= width <= MAX_SIDE,
        2 <= height <= MAX_SIDE,
        x < width,
        y < height,
        cam == camera_s(width as int, height as int),
        camera_ok(cam),
        scene_ok(*scene),
    ensures
        c == sample_s(x as int, y as int, width as int, height as int, scene.spheres@, old(
            rng,
        ).state).0,
        final(rng).state == sample_s(
            x as int,
            y as int,
            width as int,
            height as int,
            scene.spheres@,
            old(rng).state,
        ).1,
        vec_ok(c),
{
    proof {
        reveal(sample_s);
    }
    let rv: i64 = rng.next_unit();
    let ru: i64 = rng.next_unit();
    let y_fp: i64 = (y as i64) * 65536;
    let h_fp: i64 = (height as i64) * 65536;
    let x_fp: i64 = (x as i64) * 65536;
    let w_fp: i64 = (width as i64) * 65536;
    let v: i64 = div_fp(add_fp(y_fp, rv), sub_fp(h_fp, FP_ONE));
    let u: i64 = div_fp(add_fp(x_fp, ru), sub_fp(w_fp, FP_ONE));
    let dir: Vec3 = cam.upper_left.add(cam.horizontal.scale(u)).add(
        cam.vertical.scale(v),
    ).normalized();
    trace(Ray { origin: Vec3::zero(), direction: dir }, scene, rng)
}

/// Sum of the first `k` samples of a pixel.
#[verifier::opaque]
pub open spec fn pixel_samples_rec(
    x: int,
    y: int,
    width: int,
    height: int,
    spheres: Seq<Sphere>,
    s: u64,
    k: nat,
) -> (Vec3, u64)
    decreases k,
{
    if k == 0 {
        (Vec3::zero_spec(), s)
    } else {
        let acc = pixel_samples_rec(x, y, width, height, spheres, s, (k - 1) as nat);
        let c = sample_s(x, y, width, height, spheres, acc.1);
        (acc.0.add_spec(c.0), c.1)
    }
}

/// The generator a pixel starts from: the frame seed advanced by the
/// pixel's linear index, so streams are independent per pixel yet fully
/// determined by the seed.
pub open spec fn pixel_seed_s(seed: u64, idx: int) -> u64 {
    vstd::wrapping::u64_specs::wrapping_add(seed, idx as u64)
}

/// The packed value of one rendered pixel: average `SAMPLE_COUNT` jittered
/// samples, gamma-correct, quantize and pack.
#[verifier::opaque]
pub open spec fn render_pixel_s(
    x: int,
    y: int,
    width: int,
    height: int,
    seed: u64,
    spheres: Seq<Sphere>,
) -> u32 {
    let s0 = pixel_seed_s(seed, y * width + x);
    let sum = pixel_samples_rec(x, y, width, height, spheres, s0, SAMPLE_COUNT as nat);
    let avg = sum.0.scale_spec(16384);
    let corrected = Vec3 {
        x: gamma_s(avg.x as int) as i64,
        y: gamma_s(avg.y as int) as i64,
        z: gamma_s(avg.z as int) as i64,
    };
    let p = Pixel::from_color_s(corrected);
    pack_s(p.red, p.green, p.blue)
}

pub fn render_pixel(
    x: usize,
    y: usize,
    width: usize,
    height: usize,
    seed: u64,
    scene: &Scene,
) -> (p: u32)
    requires
        2 <= width <= MAX_SIDE,
        2 <= height <= MAX_SIDE,
        x < width,
        y < height,
        scene_ok(*scene),
    ensures
        p == render_pixel_s(
            x as int,
            y as int,
            width as int,
            height as int,
            seed,
            scene.spheres@,
        ),
{
    proof {
        reveal(render_pixel_s);
        vstd::arithmetic::mul::lemma_mul_upper_bound(y as int, 16383, width as int, 16384);
    }
    let cam: Camera = camera_for(width, height);
    let idx: usize = y * width + x;
    let mut rng: Prng = Prng::new(seed.wrapping_add(idx as u64));
    let mut acc: Vec3 = Vec3::zero();
    let mut k: usize = 0;
    let ghost s0 = rng.state;
    proof {
        reveal_with_fuel(pixel_samples_rec, 1);
    }
    while k < SAMPLE_COUNT
        invariant
            k <= SAMPLE_COUNT,
            2 <= width <= MAX_SIDE,
            2 <= height <= MAX_SIDE,
            x < width,
            y < height,
            scene_ok(*scene),
            cam == camera_s(width as int, height as int),
            camera_ok(cam),
            vec_ok(acc),
            (acc, rng.state) == pixel_samples_rec(
                x as int,
                y as int,
                width as int,
                height as int,
                scene.spheres@,
                s0,
                k as nat,
            ),
        decreases SAMPLE_COUNT - k,
    {
        proof {
            reveal_with_fuel(pixel_samples_rec, 2);
        }
        let c: Vec3 = sample_one(x, y, width, height, cam, scene, &mut rng);
        acc = acc.add(c);
        k = k + 1;
    }
    let avg: Vec3 = acc.scale(16384);
    let corrected: Vec3 = Vec3 { x: gamma_fp(avg.x), y: gamma_fp(avg.y), z: gamma_fp(avg.z) };
    let pix: Pixel = Pixel::from_color(corrected);
    pix.to_u32()
}

/// The whole frame: row-major, top row first, one packed u32 per pixel.
pub open spec fn render_s(width: int, height: int, seed: u64, spheres: Seq<Sphere>) -> Seq<u32> {
    Seq::new((width * height) as nat, |i: int| render_pixel_s(i % width, i / width, width, height, seed, spheres))
}

pub fn render(width: usize, height: usize, seed: u64, scene: &Scene) -> (buf: Vec<u32>)
    requires
        2 <= width <= MAX_SIDE,
        2 <= height <= MAX_SIDE,
        scene_ok(*scene),
    ensures
        buf@.len() == width * height,
        buf@ == render_s(width as int, height as int, seed, scene.spheres@),
{
    proof {
        vstd::arithmetic::mul::lemma_mul_upper_bound(width as int, 16384, height as int, 16384);
        assert(16384int * 16384int == 268435456int) by (nonlinear_arith);
        assert(width as int * height as int >= 0) by (nonlinear_arith)
            requires
                width >= 0 && height >= 0,
        ;
    }
    let total: usize = width * height;
    let mut buf: Vec<u32> = Vec::new();
    let mut i: usize = 0;
    while i < total
        invariant
            i <= total,
            total == width * height,
            2 <= width <= MAX_SIDE,
            2 <= height <= MAX_SIDE,
            scene_ok(*scene),
            buf@.len() == i,
            forall|j: int|
                0 <= j < i ==> buf@[j] == render_pixel_s(
                    j % (width as int),
                    j / (width as int),
                    width as int,
                    height as int,
                    seed,
                    scene.spheres@,
                ),
        decreases total - i,
    {
        proof {
            vstd::arithmetic::div_mod::lemma_mod_division_less_than_divisor(i as int, width as int);
            vstd::arithmetic::div_mod::lemma_multiply_divide_lt(i as int, width as int, height as int);
            vstd::arithmetic::div_mod::lemma_div_pos_is_pos(i as int, width as int);
        }
        let x: usize = i % width;
        let y: usize = i / width;
        let p: u32 = render_pixel(x, y, width, height, seed, scene);
        buf.push(p);
        i = i + 1;
    }
    proof {
        assert(buf@ =~= render_s(width as int, height as int, seed, scene.spheres@));
    }
    buf
}

/// Reject degenerate sizes before they reach the renderer: sides of 0 or 1
/// would make the pixel-coordinate mapping divide by zero, and oversized
/// frames are refused rather than clamped.
pub fn render_checked(width: usize, height: usize, seed: u64, scene: &Scene) -> (r: Option<
    Vec<u32>,
>)
    requires
        scene_ok(*scene),
    ensures
        r is Some <==> (2 <= width <= MAX_SIDE && 2 <= height <= MAX_SIDE),
        match r {
            Some(buf) => buf@ == render_s(width as int, height as int, seed, scene.spheres@)
                && buf@.len() == width * height,
            None => true,
        },
{
    if 2 <= width && width <= MAX_SIDE && 2 <= height && height <= MAX_SIDE {
        Some(render(width, height, seed, scene))
    } else {
        None
    }
}

/// The consumer's stale-result guard: a delivered buffer is presentable
/// exactly when its length matches the currently expected size.
pub fn buffer_matches(len: usize, width: usize, height: usize) -> (b: bool)
    ensures
        b == (len as int == width as int * height as int),
{
    proof {
        vstd::arithmetic::mul::lemma_mul_upper_bound(
            width as int,
            0xFFFF_FFFF_FFFF_FFFFint,
            height as int,
            0xFFFF_FFFF_FFFF_FFFFint,
        );
        assert(0xFFFF_FFFF_FFFF_FFFFint * 0xFFFF_FFFF_FFFF_FFFFint
            < 0x1_0000_0000_0000_0000_0000_0000_0000_0000int) by (nonlinear_arith);
    }
    (len as u128) == (width as u128) * (height as u128)
}

} // verus!
