//! A Monte Carlo path tracer over fixed-point arithmetic.
//!
//! Rays are followed from a camera into a scene of spheres; at each hit the
//! material scatters the ray or absorbs it, and what comes back is the sky
//! attenuated along the path. Every number is a [`scalar::Scalar`], a
//! saturating fixed-point number, so that each function has an exact
//! result that its contract states. Functions that draw random numbers say
//! what holds of every draw; beside the scattering and camera functions
//! stand functions that take the numbers drawn as arguments and are exact.

pub mod camera;
pub mod canvas;
pub mod hittable;
pub mod material;
pub mod ray;
pub mod render;
pub mod scalar;
pub mod scene;
pub mod sphere;
pub mod utils;
pub mod vec3;
