//! Mesh rendering helpers: shader and material bookkeeping, SPIR-V decoding,
//! and plain-value descriptions of the GPU state that a renderer sets up.

pub mod render;
