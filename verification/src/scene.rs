//! Scene description: materials and spheres, data only.

use vstd::prelude::*;
use crate::fixed::{fp_ok, FP_ONE};
use crate::vec3::{Vec3, vec_ok};

verus! {

/// Surface behavior, a tagged variant carrying only the data each case
/// needs: an albedo for a matte surface; an albedo and a roughness in
/// `[0, 1]` for a mirror-like one.
#[derive(Clone, Copy, PartialEq, Eq, Structural, Debug)]
pub enum Material {
    Diffuse { albedo: Vec3 },
    Reflective { albedo: Vec3, roughness: i64 },
}

/// An RGB color with every channel in `[0, 1]`.
pub open spec fn color_ok(c: Vec3) -> bool {
    0 <= c.x <= FP_ONE && 0 <= c.y <= FP_ONE && 0 <= c.z <= FP_ONE
}

pub open spec fn mat_ok(m: Material) -> bool {
    match m {
        Material::Diffuse { albedo } => color_ok(albedo),
        Material::Reflective { albedo, roughness } => color_ok(albedo) && 0 <= roughness
            <= FP_ONE,
    }
}

impl Material {
    /// The fraction of light color the surface keeps per bounce.
    pub open spec fn albedo_spec(self) -> Vec3 {
        match self {
            Material::Diffuse { albedo } => albedo,
            Material::Reflective { albedo, roughness: _ } => albedo,
        }
    }

    pub fn albedo(self) -> (r: Vec3)
        ensures
            r == self.albedo_spec(),
    {
        match self {
            Material::Diffuse { albedo } => albedo,
            Material::Reflective { albedo, roughness: _ } => albedo,
        }
    }
}

#[derive(Clone, Copy, PartialEq, Eq, Structural, Debug)]
pub struct Sphere {
    pub origin: Vec3,
    pub radius: i64,
    pub material: Material,
}

pub open spec fn sphere_ok(s: Sphere) -> bool {
    vec_ok(s.origin) && 0 < s.radius && fp_ok(s.radius as int) && mat_ok(s.material)
}

/// An ordered list of spheres, read-only for the duration of a render.
#[derive(Clone, Debug)]
pub struct Scene {
    pub spheres: Vec<Sphere>,
}

pub open spec fn scene_ok(s: Scene) -> bool {
    forall|i: int| 0 <= i < s.spheres@.len() ==> sphere_ok(#[trigger] s.spheres@[i])
}

impl Scene {
    pub fn new() -> (r: Scene)
        ensures
            r.spheres@ =~= Seq::<Sphere>::empty(),
            scene_ok(r),
    {
        Scene { spheres: Vec::new() }
    }

    pub fn add_sphere(&mut self, s: Sphere)
        ensures
            final(self).spheres@ == old(self).spheres@.push(s),
    {
        self.spheres.push(s);
    }
}

} // verus!
