//! A recursive ray tracer for scenes of spheres under point lights, generic in the
//! numbers it computes with.

pub mod scalar;
pub mod geometry;
pub mod material;
pub mod light;
pub mod object;
pub mod tracer;
pub mod integers;
pub mod image;
