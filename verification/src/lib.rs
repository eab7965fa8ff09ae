//! A software 3D rendering pipeline over 16.16 fixed-point arithmetic.
//!
//! The crate transforms triangle meshes through model/view/projection/viewport
//! space, rasterizes them into fragments with per-pixel depth testing, and
//! shades each fragment with one of several procedural planet shaders fed by a
//! seeded coherent noise source. An orbit camera in spherical form drives the
//! view. All scalar quantities are fixed-point integers with 16 fractional
//! bits, so every stage of the pipeline is exact, verified arithmetic.

pub mod fixed;
pub mod trig;
pub mod color;
pub mod geometry;
pub mod camera;
pub mod noise;
pub mod transform;
pub mod shaders;
pub mod raster;
pub mod framebuffer;
pub mod pipeline;
