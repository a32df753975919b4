//! Weight formats and the sizes of an LM head.

use crate::launch;
use crate::launch::div_ceil;
use vstd::prelude::*;

verus! {

/// Elements per Q8_0 block.
pub const QK8_0: usize = 32;

/// Serialized bytes per Q8_0 block.
pub const BLOCK_Q8_0_BYTES: usize = 34;

/// Elements per k-quant superblock.
pub const QK_K: usize = 256;

/// Serialized bytes per Q6_K superblock.
pub const BLOCK_Q6_K_BYTES: usize = 210;

/// Elements per Q4_0 block.
pub const QK4_0: usize = 32;

/// Serialized bytes per Q4_0 block.
pub const BLOCK_Q4_0_BYTES: usize = 18;

/// Serialized bytes per Q4_K superblock.
pub const BLOCK_Q4_K_BYTES: usize = 144;

/// Serialized bytes per Q5_K superblock.
pub const BLOCK_Q5_K_BYTES: usize = 176;

/// Weight elements one warp of the dense bodies covers per step.
pub const BF16_WARP_STEP: usize = 256;

/// Weight elements one warp of the Q6_K body covers per step.
pub const Q6_K_WARP_STEP: usize = 256;

/// Largest number of tokens one pass over the weights may serve.
pub const MAX_BATCH_TILE: usize = 8;

/// Streaming multiprocessors of the target card.
pub const SM_COUNT: usize = 72;

/// Resident warps per multiprocessor.
pub const WARPS_PER_SM: usize = 32;

/// How a weight tensor is stored.
#[derive(Debug, Clone, Copy, PartialEq, Eq, Structural)]
pub enum HeadFormat {
    /// 32 quants and one fp16 delta per 34-byte block.
    Q8_0,
    /// A dense 2-byte truncated fp32.
    Bf16,
    /// 256 6-bit quants, 16 int8 group scales and one fp16 super-scale per
    /// 210-byte superblock.
    Q6K,
    /// A dense IEEE half.
    F16,
    /// 32 4-bit codes and one fp16 delta per 18-byte block.
    Q4_0,
    /// 256 4-bit codes over eight groups with a packed scale and min each, over
    /// two fp16 super-scales.
    Q4K,
    /// As [`HeadFormat::Q4K`] plus a separate high-bit plane.
    Q5K,
}

impl HeadFormat {
    /// Serialized bytes of one block.
    pub open spec fn block_bytes(self) -> usize {
        match self {
            HeadFormat::Q8_0 => BLOCK_Q8_0_BYTES,
            HeadFormat::Bf16 => 2,
            HeadFormat::Q6K => BLOCK_Q6_K_BYTES,
            HeadFormat::F16 => 2,
            HeadFormat::Q4_0 => BLOCK_Q4_0_BYTES,
            HeadFormat::Q4K => BLOCK_Q4_K_BYTES,
            HeadFormat::Q5K => BLOCK_Q5_K_BYTES,
        }
    }

    /// Elements of one block.
    pub open spec fn block_elements(self) -> usize {
        match self {
            HeadFormat::Q8_0 => QK8_0,
            HeadFormat::Bf16 => 1,
            HeadFormat::Q6K => QK_K,
            HeadFormat::F16 => 1,
            HeadFormat::Q4_0 => QK4_0,
            HeadFormat::Q4K => QK_K,
            HeadFormat::Q5K => QK_K,
        }
    }

    /// The format a type name stands for, or `None` if this family does not
    /// read it.
    pub open spec fn named(name: Seq<char>) -> Option<HeadFormat> {
        if name == "q8_0"@ {
            Some(HeadFormat::Q8_0)
        } else if name == "bf16"@ {
            Some(HeadFormat::Bf16)
        } else if name == "q6_K"@ {
            Some(HeadFormat::Q6K)
        } else if name == "f16"@ {
            Some(HeadFormat::F16)
        } else if name == "q4_0"@ {
            Some(HeadFormat::Q4_0)
        } else if name == "q4_K"@ {
            Some(HeadFormat::Q4K)
        } else if name == "q5_K"@ {
            Some(HeadFormat::Q5K)
        } else {
            None
        }
    }

    /// The format a GGUF type name stands for, or `None` if this family does
    /// not read it.
    pub fn from_ggml(name: &str) -> (f: Option<Self>)
        ensures
            f == Self::named(name@),
    {
        if same(name, "q8_0") {
            Some(HeadFormat::Q8_0)
        } else if same(name, "bf16") {
            Some(HeadFormat::Bf16)
        } else if same(name, "q6_K") {
            Some(HeadFormat::Q6K)
        } else if same(name, "f16") {
            Some(HeadFormat::F16)
        } else if same(name, "q4_0") {
            Some(HeadFormat::Q4_0)
        } else if same(name, "q4_K") {
            Some(HeadFormat::Q4K)
        } else if same(name, "q5_K") {
            Some(HeadFormat::Q5K)
        } else {
            None
        }
    }
}

fn same(a: &str, b: &str) -> (eq: bool)
    ensures
        eq == (a@ == b@),
{
    let left: String = a.to_owned();
    let right: String = b.to_owned();
    left == right
}

/// A weight tensor: its length and its storage format.
#[derive(Debug, Clone, Copy, PartialEq, Eq)]
pub struct HeadTensor {
    /// Length of the tensor, in bytes.
    pub bytes: usize,
    /// How to unpack it.
    pub format: HeadFormat,
}

impl HeadTensor {
    /// Elements of the whole blocks the tensor holds.
    pub open spec fn held(self) -> int {
        match self.format {
            HeadFormat::Q8_0 => self.bytes as int / BLOCK_Q8_0_BYTES as int * QK8_0,
            HeadFormat::Bf16 => self.bytes as int / 2,
            HeadFormat::Q6K => self.bytes as int / BLOCK_Q6_K_BYTES as int * QK_K,
            HeadFormat::F16 => self.bytes as int / 2,
            HeadFormat::Q4_0 => self.bytes as int / BLOCK_Q4_0_BYTES as int * QK4_0,
            HeadFormat::Q4K => self.bytes as int / BLOCK_Q4_K_BYTES as int * QK_K,
            HeadFormat::Q5K => self.bytes as int / BLOCK_Q5_K_BYTES as int * QK_K,
        }
    }

    /// A Q8_0 tensor.
    pub fn q8_0(bytes: usize) -> (t: Self)
        ensures
            t == (HeadTensor { bytes, format: HeadFormat::Q8_0 }),
    {
        HeadTensor { bytes, format: HeadFormat::Q8_0 }
    }

    /// A bf16 tensor.
    pub fn bf16(bytes: usize) -> (t: Self)
        ensures
            t == (HeadTensor { bytes, format: HeadFormat::Bf16 }),
    {
        HeadTensor { bytes, format: HeadFormat::Bf16 }
    }

    /// A Q6_K tensor.
    pub fn q6_k(bytes: usize) -> (t: Self)
        ensures
            t == (HeadTensor { bytes, format: HeadFormat::Q6K }),
    {
        HeadTensor { bytes, format: HeadFormat::Q6K }
    }

    /// An IEEE half tensor.
    pub fn half(bytes: usize) -> (t: Self)
        ensures
            t == (HeadTensor { bytes, format: HeadFormat::F16 }),
    {
        HeadTensor { bytes, format: HeadFormat::F16 }
    }
}

/// The LM head shape an instance is compiled and sized for.
#[derive(Debug, Clone, Copy, PartialEq, Eq, Structural)]
pub struct LmHeadGeometry {
    /// Residual stream width.
    pub hidden: usize,
    /// Output vocabulary.
    pub vocab: usize,
    /// Largest token count any single step may present.
    pub max_tokens: usize,
}

impl LmHeadGeometry {
    /// Serialized bytes per vocabulary row: the row's whole blocks.
    pub open spec fn row_size(self, format: HeadFormat) -> int {
        match format {
            HeadFormat::Q8_0 => self.hidden as int / QK8_0 as int * BLOCK_Q8_0_BYTES,
            HeadFormat::Bf16 => self.hidden * 2,
            HeadFormat::Q6K => self.hidden as int / QK_K as int * BLOCK_Q6_K_BYTES,
            HeadFormat::F16 => self.hidden * 2,
            HeadFormat::Q4_0 => self.hidden as int / QK4_0 as int * BLOCK_Q4_0_BYTES,
            HeadFormat::Q4K => self.hidden as int / QK_K as int * BLOCK_Q4_K_BYTES,
            HeadFormat::Q5K => self.hidden as int / QK_K as int * BLOCK_Q5_K_BYTES,
        }
    }

    /// Weight elements.
    pub open spec fn count(self) -> int {
        self.vocab * self.hidden
    }

    /// Passes over the weights a batch of `tokens` costs.
    pub open spec fn passes(tokens: int) -> int {
        launch::ceil_div(tokens, MAX_BATCH_TILE as int)
    }

    /// The Qwen3.6 LM head, for `max_tokens` per step.
    pub fn qwen3_6(max_tokens: usize) -> (g: Self)
        ensures
            g == (LmHeadGeometry { hidden: 2048, vocab: 248_320, max_tokens }),
    {
        LmHeadGeometry { hidden: 2048, vocab: 248_320, max_tokens }
    }

    /// Serialized bytes per vocabulary row at Q8_0.
    pub fn row_bytes(&self) -> (n: usize)
        requires
            self.row_size(HeadFormat::Q8_0) <= usize::MAX,
        ensures
            n == self.row_size(HeadFormat::Q8_0),
    {
        self.hidden / QK8_0 * BLOCK_Q8_0_BYTES
    }

    /// Serialized bytes per vocabulary row at `format`.
    pub fn row_bytes_for(&self, format: HeadFormat) -> (n: usize)
        requires
            self.row_size(format) <= usize::MAX,
        ensures
            n == self.row_size(format),
    {
        match format {
            HeadFormat::Q8_0 => self.row_bytes(),
            HeadFormat::Bf16 => self.hidden * 2,
            HeadFormat::Q6K => self.hidden / QK_K * BLOCK_Q6_K_BYTES,
            HeadFormat::F16 => self.hidden * 2,
            HeadFormat::Q4_0 => self.hidden / QK4_0 * BLOCK_Q4_0_BYTES,
            HeadFormat::Q4K => self.hidden / QK_K * BLOCK_Q4_K_BYTES,
            HeadFormat::Q5K => self.hidden / QK_K * BLOCK_Q5_K_BYTES,
        }
    }

    /// Serialized bytes of the whole head at Q8_0.
    pub fn weight_bytes(&self) -> (n: usize)
        requires
            self.row_size(HeadFormat::Q8_0) <= usize::MAX,
            self.vocab * self.row_size(HeadFormat::Q8_0) <= usize::MAX,
        ensures
            n == self.vocab * self.row_size(HeadFormat::Q8_0),
    {
        self.vocab * self.row_bytes()
    }

    /// Serialized bytes of the whole head at `format`.
    pub fn weight_bytes_for(&self, format: HeadFormat) -> (n: usize)
        requires
            self.row_size(format) <= usize::MAX,
            self.vocab * self.row_size(format) <= usize::MAX,
        ensures
            n == self.vocab * self.row_size(format),
    {
        self.vocab * self.row_bytes_for(format)
    }

    /// Weight elements.
    pub fn elements(&self) -> (n: usize)
        requires
            self.count() <= usize::MAX,
        ensures
            n == self.count(),
    {
        self.vocab * self.hidden
    }

    /// How many times the grid oversubscribes the card's resident warps: one
    /// warp per row against [`SM_COUNT`] times [`WARPS_PER_SM`].
    pub fn occupancy_surplus(&self) -> (n: usize)
        ensures
            n == self.vocab as int / (SM_COUNT * WARPS_PER_SM),
            n * 2304 <= self.vocab < n * 2304 + 2304,
    {
        assert(SM_COUNT * WARPS_PER_SM == 2304);
        self.vocab / (SM_COUNT * WARPS_PER_SM)
    }

    /// Passes over the weight tensor a batch of `tokens` costs.
    ///
    /// There is an entry point for every tile up to [`MAX_BATCH_TILE`], so this
    /// is the ceiling.
    pub fn weight_passes(&self, tokens: usize) -> (n: usize)
        ensures
            n == Self::passes(tokens as int),
    {
        div_ceil(tokens, MAX_BATCH_TILE)
    }

    /// Weight bytes a batch of `tokens` pulls across the bus, at Q8_0.
    pub fn weight_bytes_read(&self, tokens: usize) -> (n: usize)
        requires
            self.row_size(HeadFormat::Q8_0) <= usize::MAX,
            self.vocab * self.row_size(HeadFormat::Q8_0) <= usize::MAX,
            Self::passes(tokens as int) * (self.vocab * self.row_size(HeadFormat::Q8_0))
                <= usize::MAX,
        ensures
            n == Self::passes(tokens as int) * (self.vocab * self.row_size(HeadFormat::Q8_0)),
    {
        self.weight_passes(tokens) * self.weight_bytes()
    }
}

/// Largest tile that serves `remaining` tokens: a cap, with no rounding to a
/// power of two.
pub fn batch_tile(remaining: usize) -> (tile: usize)
    ensures
        tile == tile_of(remaining as int),
{
    if remaining > MAX_BATCH_TILE {
        MAX_BATCH_TILE
    } else {
        remaining
    }
}

/// The tile that serves `remaining` tokens.
pub open spec fn tile_of(remaining: int) -> int {
    if remaining > MAX_BATCH_TILE {
        MAX_BATCH_TILE as int
    } else {
        remaining
    }
}

} // verus!
