//! A stochastic path tracer over 16.16 fixed-point arithmetic.
//!
//! The rendering core — vector math, ray/sphere intersection, material
//! scattering, the bounded bounce loop, and the per-pixel frame renderer —
//! is verified: every executable function's result is pinned to a spec-level
//! mirror, so a whole render is a pure function of its seed and scene.
//! Windowing, presentation and thread plumbing live outside the library.

pub mod fixed;
pub mod vec3;
pub mod rng;
pub mod scene;
pub mod geom;
pub mod material;
pub mod trace;
pub mod render;
pub mod laws;
