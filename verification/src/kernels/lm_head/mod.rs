//! The LM head: a GEMV from the residual stream to the vocabulary over a
//! quantized or dense weight tensor, and the argmax over its logits.
//!
//! One warp owns one vocabulary row. Up to [`MAX_BATCH_TILE`] tokens share a
//! pass over the weights, and a three-token batch may give each warp several
//! adjacent rows.

pub mod family;
pub mod geometry;
pub mod laws;
pub mod meaning;

pub use family::{LmHeadArg, LmHeadError, LmHeadKernels, ARGMAX_BLOCKS};
pub use geometry::{HeadFormat, HeadTensor, LmHeadGeometry, MAX_BATCH_TILE};
