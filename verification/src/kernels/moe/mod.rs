//! Mixture-of-experts: routing, the dispatch tables, the grouped GEMM over
//! quantized expert stacks, and the shared expert.
//!
//! Every grid and every buffer is a function of [`MoeGeometry`] alone. The
//! per-step token count lives in a one-element device buffer that the kernels
//! read, so the launch sequence of a step never changes.

pub mod buffers;
pub mod family;
pub mod geometry;
pub mod laws;
pub mod meaning;
pub mod paths;
pub mod sizes;
pub mod step;

pub use buffers::{MoeBuffers, SharedExpertInt8};
pub use family::MoeKernels;
pub use geometry::{to_device_layout, ExpertQuant, MoeGeometry};
pub use step::{MoeArg, MoeError, MoeStep, QuantTensor};
