//! The kernel families, and the compilation of their sources.

pub mod admission;
pub mod attention;
pub mod attention_meaning;
pub mod dequant;
pub mod dequant_meaning;
pub mod gdn;
pub mod gdn_chunked;
pub mod gdn_chunked_meaning;
pub mod gdn_meaning;
pub mod layer_ops;
pub mod lm_head;
pub mod mma;
pub mod mma_meaning;
pub mod moe;
pub mod ptx;
pub mod vision;
