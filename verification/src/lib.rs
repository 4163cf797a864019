//! Procedural generation of cuboid meshes under an accumulated affine
//! transform.
//!
//! All geometry is computed over exact rational scalars, so every attribute
//! of the generated vertices (positions, outward face directions, texture
//! coordinates) is an exact value with a proved relationship to the
//! accumulated transform. Inexact concerns — evaluating trigonometric
//! functions, scaling direction vectors to unit length, uploading to GPU
//! storage — belong to the rendering layer around this library.

pub mod cuboid;
pub mod frac;
pub mod laws;
pub mod mat;
