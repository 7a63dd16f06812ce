//! Per-frame mesh pipeline for skeletal 2D renderables: per-vertex
//! tangent-basis (rotation) estimation, synchronization of renderables onto
//! persistent mesh slots, and material-parameter binding.
//!
//! Shader scalars are carried throughout as their raw 32-bit encodings
//! (`scalar::Scalar`), so every structural decision of the pipeline is
//! verified; the caller evaluates the few trigonometric kernels the
//! estimator asks for and feeds the results back in as plain values.
pub mod estimator;
pub mod material;
pub mod renderable;
pub mod scalar;
pub mod sync;
pub mod textures;
