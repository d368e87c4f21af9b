//! The control core of a path tracer for scenes of spheres.
//!
//! Numbers are IEEE-754 singles carried by their bit patterns ([`scalar::Scalar`]).
//! The crate orders and classifies them, and never does arithmetic on them: sums,
//! products and roots are the caller's, and reach the crate as finished values.
//! What the crate decides, from those values, is everything else: which root of a
//! sphere counts, which sphere is nearest, whether a material scatters and where
//! to, when a path ends, where a pixel lies in the output buffer.

pub mod scalar;
pub mod math;
pub mod material;
pub mod hitable;
pub mod scene;
pub mod path;
pub mod sampling;
pub mod render;
