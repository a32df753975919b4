//! The operations between the projections: norms, rotary embedding,
//! activations, gates, adds and the short convolution.

pub mod laws;
pub mod meaning;
pub mod ops;

pub use ops::{
    block_for_width, check_len, elementwise_cfg, GateShape, LayerOpsArg, LayerOpsError,
    LayerOpsKernels, MAX_BLOCK, MAX_CONV_KERNEL,
};
