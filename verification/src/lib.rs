//! Core of a stateful 2D vector-graphics surface manager.
//!
//! The crate owns a registry of drawing surfaces keyed by caller-assigned
//! 32-bit identifiers, decodes structured command payloads into typed
//! geometry and paint primitives, and maintains the per-surface transform,
//! clip and layer state.  Pixel work is delegated to the raqote rasterizer,
//! which is reached only through a small set of trusted wrappers; everything
//! that decides, validates or keeps state is verified.
//!
//! Scalar coordinates cross the boundary as IEEE-754 single-precision bit
//! patterns ([`scalar::Scalar`]), so the verified model never computes with
//! floating point; callers hand the engine-level realizations of the same
//! values (points, paths, sources) alongside the bit-level model.

pub mod laws;
pub mod paint;
pub mod pixel;
pub mod path;
mod raster;
pub mod registry;
pub mod scalar;
pub mod status;
pub mod surface;
pub mod transform;

use vstd::prelude::*;

verus! {

} // verus!
