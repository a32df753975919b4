//! The CUDA C++ sources, compiled at load time.

pub mod attention;
pub mod dequant;
pub mod gdn;
pub mod gdn_chunked;
pub mod layer_ops;
pub mod lm_head;
pub mod mma;
pub mod moe;
pub mod spike;
pub mod vision;
