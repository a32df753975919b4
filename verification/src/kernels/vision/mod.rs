//! The vision tower's operations: layer norm, GELU, rotary embedding, softmax,
//! half-precision utilities and the matrix products around them.
//!
//! Image grids vary per request, so every launch takes its shape as arguments
//! and checks the buffers against it. Activations are half precision; each
//! kernel computes in single precision and rounds once on store.

pub mod laws;
pub mod meaning;
pub mod ops;

pub use ops::{
    check_len, check_min, Factor, MatmulBuffer, MatmulPlan, Operand, VisionArg, VisionError,
    VisionKernels,
};
