//! The LM head kernels of one geometry.

use crate::kernels::lm_head::geometry;
use crate::kernels::lm_head::geometry::{
    batch_tile, HeadFormat, HeadTensor, LmHeadGeometry, BF16_WARP_STEP, BLOCK_Q4_0_BYTES,
    BLOCK_Q4_K_BYTES, BLOCK_Q5_K_BYTES, BLOCK_Q6_K_BYTES, BLOCK_Q8_0_BYTES, MAX_BATCH_TILE, QK4_0,
    QK8_0, QK_K, Q6_K_WARP_STEP,
};
use crate::kernels::ptx;
use crate::kernels::ptx::{compile_family, PtxCache};
use crate::launch;
use crate::launch::{div_ceil, min_usize, Launch, LaunchConfig};
use crate::source;
use crate::source::lm_head::lm_head_src;
use crate::text;
use crate::text::push_decimal;
use vstd::prelude::*;
use vstd::string::StringExecFns;

verus! {

/// Warps per block. One warp owns one output row, so this is also rows per
/// block.
pub const WARPS_PER_BLOCK: u32 = 8;

/// Threads per warp.
pub const WARP: u32 = 32;

/// Largest grid extent along x.
pub const GRID_X_LIMIT: usize = 2_147_483_647;

/// Q8_0 blocks one warp stages into shared memory at a time: a multiple of 32
/// bytes, so every stage starts on a sector boundary.
pub const STAGE_BLOCKS: usize = 16;

/// Threads per block in both argmax passes.
pub const ARGMAX_THREADS: u32 = 256;

/// Upper bound on the first argmax pass's grid, and the length of the
/// partial-winner buffers.
pub const ARGMAX_BLOCKS: usize = 512;

/// Something the LM head refuses.
#[derive(Debug)]
pub enum LmHeadError {
    /// The source was rejected.
    Compile(String),
    /// A geometry the kernels cannot service, with the reason.
    UnsupportedGeometry { geometry: Box<LmHeadGeometry>, reason: &'static str },
    /// `hidden` is not a whole number of the named body's warp step.
    RaggedContraction { format: &'static str, hidden: usize, step: usize },
    /// The weight tensor is not a whole number of blocks.
    ///
    /// Rejected rather than truncated: a partial trailing block would make the
    /// last vocabulary rows read past the tensor.
    RaggedWeights { bytes: usize, block_bytes: usize },
    /// The weight tensor does not hold `vocab * hidden` elements.
    WrongElementCount { expected: usize, found: usize },
    /// A buffer length disagrees with the declared geometry.
    ShapeMismatch { what: &'static str, expected: usize, got: usize },
    /// More tokens were presented than the buffers were sized for, or none.
    TooManyTokens { tokens: usize, max_tokens: usize },
}

/// The text of a geometry.
pub open spec fn geometry_text(g: LmHeadGeometry) -> Seq<char> {
    "LmHeadGeometry { hidden: "@ + text::decimal(g.hidden as nat) + ", vocab: "@ + text::decimal(
        g.vocab as nat,
    ) + ", max_tokens: "@ + text::decimal(g.max_tokens as nat) + " }"@
}

impl LmHeadError {
    /// The text of the message.
    pub open spec fn text(self) -> Seq<char> {
        match self {
            LmHeadError::Compile(m) => "kernel compilation failed: "@ + m@,
            LmHeadError::UnsupportedGeometry { geometry, reason } =>
                "unsupported LM head geometry "@ + geometry_text(*geometry) + ": "@ + reason@,
            LmHeadError::RaggedContraction { format, hidden, step } => "the "@ + format@
                + " GEMV covers "@ + text::decimal(step as nat)
                + " elements per warp step, so `hidden` must be a multiple of "@ + text::decimal(
                step as nat,
            ) + ", not "@ + text::decimal(hidden as nat),
            LmHeadError::RaggedWeights { bytes, block_bytes } => "LM head: "@ + text::decimal(
                bytes as nat,
            ) + " bytes is not a whole number of "@ + text::decimal(block_bytes as nat)
                + " B Q8_0 blocks"@,
            LmHeadError::WrongElementCount { expected, found } => "LM head: expected "@
                + text::decimal(expected as nat) + " elements for this geometry, tensor holds "@
                + text::decimal(found as nat),
            LmHeadError::ShapeMismatch { what, expected, got } => what@ + ": expected "@
                + text::decimal(expected as nat) + " elements, got "@ + text::decimal(got as nat),
            LmHeadError::TooManyTokens { tokens, max_tokens } => text::decimal(tokens as nat)
                + " tokens is outside 1..="@ + text::decimal(max_tokens as nat)
                + ", the range the buffers were sized for"@,
        }
    }

    /// The message.
    pub fn message(&self) -> (s: String)
        ensures
            s@ == self.text(),
    {
        let mut s = String::new();
        match self {
            LmHeadError::Compile(m) => {
                s.append("kernel compilation failed: ");
                s.append(m.as_str());
            },
            LmHeadError::UnsupportedGeometry { geometry, reason } => {
                s.append("unsupported LM head geometry ");
                s.append("LmHeadGeometry { hidden: ");
                push_decimal(&mut s, geometry.hidden);
                s.append(", vocab: ");
                push_decimal(&mut s, geometry.vocab);
                s.append(", max_tokens: ");
                push_decimal(&mut s, geometry.max_tokens);
                s.append(" }");
                s.append(": ");
                s.append(reason);
            },
            LmHeadError::RaggedContraction { format, hidden, step } => {
                s.append("the ");
                s.append(format);
                s.append(" GEMV covers ");
                push_decimal(&mut s, *step);
                s.append(" elements per warp step, so `hidden` must be a multiple of ");
                push_decimal(&mut s, *step);
                s.append(", not ");
                push_decimal(&mut s, *hidden);
            },
            LmHeadError::RaggedWeights { bytes, block_bytes } => {
                s.append("LM head: ");
                push_decimal(&mut s, *bytes);
                s.append(" bytes is not a whole number of ");
                push_decimal(&mut s, *block_bytes);
                s.append(" B Q8_0 blocks");
            },
            LmHeadError::WrongElementCount { expected, found } => {
                s.append("LM head: expected ");
                push_decimal(&mut s, *expected);
                s.append(" elements for this geometry, tensor holds ");
                push_decimal(&mut s, *found);
            },
            LmHeadError::ShapeMismatch { what, expected, got } => {
                s.append(what);
                s.append(": expected ");
                push_decimal(&mut s, *expected);
                s.append(" elements, got ");
                push_decimal(&mut s, *got);
            },
            LmHeadError::TooManyTokens { tokens, max_tokens } => {
                push_decimal(&mut s, *tokens);
                s.append(" tokens is outside 1..=");
                push_decimal(&mut s, *max_tokens);
                s.append(", the range the buffers were sized for");
            },
        }
        assert(s@ =~= self.text());
        s
    }
}

/// An argument of an LM head kernel.
#[derive(Debug, Clone, Copy, PartialEq, Eq)]
pub enum LmHeadArg {
    /// The weight tensor.
    Weight,
    /// The hidden states, `[max_tokens][hidden]`.
    HiddenStates,
    /// The logits, `[max_tokens][vocab]`.
    Logits,
    /// The values an argmax runs over.
    Values,
    /// The per-block winners' values.
    PartialValues,
    /// The per-block winners' indices.
    PartialIndices,
    /// The one-element result.
    Output,
    /// An integer by value.
    Int(i32),
}

impl HeadFormat {
    /// The name an error gives the format's body.
    pub open spec fn body_name(self) -> &'static str {
        match self {
            HeadFormat::Q8_0 => "Q8_0",
            HeadFormat::Bf16 => "bf16",
            HeadFormat::Q6K => "Q6_K",
            HeadFormat::F16 => "f16",
            HeadFormat::Q4_0 => "Q4_0",
            HeadFormat::Q4K => "Q4_K",
            HeadFormat::Q5K => "Q5_K",
        }
    }

    /// Elements one warp covers per step. The staged Q8_0 body has no step of
    /// its own: its segments are checked at construction.
    pub open spec fn warp_step(self) -> usize {
        match self {
            HeadFormat::Q8_0 => 1,
            HeadFormat::Bf16 => BF16_WARP_STEP,
            HeadFormat::Q6K => Q6_K_WARP_STEP,
            HeadFormat::F16 => BF16_WARP_STEP,
            HeadFormat::Q4_0 => 64,
            HeadFormat::Q4K => QK_K,
            HeadFormat::Q5K => QK_K,
        }
    }

    /// The prefix of the format's entry points.
    pub open spec fn entry_prefix(self) -> Seq<char> {
        match self {
            HeadFormat::Q8_0 => "lm_head_gemv"@,
            HeadFormat::Bf16 => "lm_head_bf16"@,
            HeadFormat::Q6K => "lm_head_q6_k"@,
            HeadFormat::F16 => "lm_head_f16"@,
            HeadFormat::Q4_0 => "lm_head_q4_0"@,
            HeadFormat::Q4K => "lm_head_q4_k"@,
            HeadFormat::Q5K => "lm_head_q5_k"@,
        }
    }

    /// Whether the format's body has row-tiled entry points.
    pub open spec fn row_tiles(self) -> bool {
        self == HeadFormat::Q8_0 || self == HeadFormat::Bf16
    }
}

/// Entry point of a body for a batch tile.
pub open spec fn entry_text(prefix: Seq<char>, tile: nat) -> Seq<char> {
    prefix + "_b"@ + text::decimal(tile)
}

/// Entry point of a body for three tokens and `rows` rows per warp.
pub open spec fn row_entry_text(prefix: Seq<char>, rows: nat) -> Seq<char> {
    prefix + "_b3r"@ + text::decimal(rows)
}

/// The entry point of the Q8_0 body for a tile.
fn gemv_entry(tile: usize) -> (name: &'static str)
    requires
        1 <= tile <= MAX_BATCH_TILE,
    ensures
        name@ == entry_text("lm_head_gemv"@, tile as nat),
{
    proof {
        reveal_strlit("lm_head_gemv");
        reveal_strlit("_b");
        reveal_with_fuel(text::decimal, 1);
        reveal_strlit("lm_head_gemv_b1");
        reveal_strlit("lm_head_gemv_b2");
        reveal_strlit("lm_head_gemv_b3");
        reveal_strlit("lm_head_gemv_b4");
        reveal_strlit("lm_head_gemv_b5");
        reveal_strlit("lm_head_gemv_b6");
        reveal_strlit("lm_head_gemv_b7");
        reveal_strlit("lm_head_gemv_b8");
    }
    let name: &'static str = match tile {
        1 => "lm_head_gemv_b1",
        2 => "lm_head_gemv_b2",
        3 => "lm_head_gemv_b3",
        4 => "lm_head_gemv_b4",
        5 => "lm_head_gemv_b5",
        6 => "lm_head_gemv_b6",
        7 => "lm_head_gemv_b7",
        _ => "lm_head_gemv_b8",
    };
    assert(name@ =~= entry_text("lm_head_gemv"@, tile as nat));
    name
}

/// The entry point of the Bf16 body for a tile.
fn bf16_entry(tile: usize) -> (name: &'static str)
    requires
        1 <= tile <= MAX_BATCH_TILE,
    ensures
        name@ == entry_text("lm_head_bf16"@, tile as nat),
{
    proof {
        reveal_strlit("lm_head_bf16");
        reveal_strlit("_b");
        reveal_with_fuel(text::decimal, 1);
        reveal_strlit("lm_head_bf16_b1");
        reveal_strlit("lm_head_bf16_b2");
        reveal_strlit("lm_head_bf16_b3");
        reveal_strlit("lm_head_bf16_b4");
        reveal_strlit("lm_head_bf16_b5");
        reveal_strlit("lm_head_bf16_b6");
        reveal_strlit("lm_head_bf16_b7");
        reveal_strlit("lm_head_bf16_b8");
    }
    let name: &'static str = match tile {
        1 => "lm_head_bf16_b1",
        2 => "lm_head_bf16_b2",
        3 => "lm_head_bf16_b3",
        4 => "lm_head_bf16_b4",
        5 => "lm_head_bf16_b5",
        6 => "lm_head_bf16_b6",
        7 => "lm_head_bf16_b7",
        _ => "lm_head_bf16_b8",
    };
    assert(name@ =~= entry_text("lm_head_bf16"@, tile as nat));
    name
}

/// The entry point of the Q6K body for a tile.
fn q6_k_entry(tile: usize) -> (name: &'static str)
    requires
        1 <= tile <= MAX_BATCH_TILE,
    ensures
        name@ == entry_text("lm_head_q6_k"@, tile as nat),
{
    proof {
        reveal_strlit("lm_head_q6_k");
        reveal_strlit("_b");
        reveal_with_fuel(text::decimal, 1);
        reveal_strlit("lm_head_q6_k_b1");
        reveal_strlit("lm_head_q6_k_b2");
        reveal_strlit("lm_head_q6_k_b3");
        reveal_strlit("lm_head_q6_k_b4");
        reveal_strlit("lm_head_q6_k_b5");
        reveal_strlit("lm_head_q6_k_b6");
        reveal_strlit("lm_head_q6_k_b7");
        reveal_strlit("lm_head_q6_k_b8");
    }
    let name: &'static str = match tile {
        1 => "lm_head_q6_k_b1",
        2 => "lm_head_q6_k_b2",
        3 => "lm_head_q6_k_b3",
        4 => "lm_head_q6_k_b4",
        5 => "lm_head_q6_k_b5",
        6 => "lm_head_q6_k_b6",
        7 => "lm_head_q6_k_b7",
        _ => "lm_head_q6_k_b8",
    };
    assert(name@ =~= entry_text("lm_head_q6_k"@, tile as nat));
    name
}

/// The entry point of the F16 body for a tile.
fn f16_entry(tile: usize) -> (name: &'static str)
    requires
        1 <= tile <= MAX_BATCH_TILE,
    ensures
        name@ == entry_text("lm_head_f16"@, tile as nat),
{
    proof {
        reveal_strlit("lm_head_f16");
        reveal_strlit("_b");
        reveal_with_fuel(text::decimal, 1);
        reveal_strlit("lm_head_f16_b1");
        reveal_strlit("lm_head_f16_b2");
        reveal_strlit("lm_head_f16_b3");
        reveal_strlit("lm_head_f16_b4");
        reveal_strlit("lm_head_f16_b5");
        reveal_strlit("lm_head_f16_b6");
        reveal_strlit("lm_head_f16_b7");
        reveal_strlit("lm_head_f16_b8");
    }
    let name: &'static str = match tile {
        1 => "lm_head_f16_b1",
        2 => "lm_head_f16_b2",
        3 => "lm_head_f16_b3",
        4 => "lm_head_f16_b4",
        5 => "lm_head_f16_b5",
        6 => "lm_head_f16_b6",
        7 => "lm_head_f16_b7",
        _ => "lm_head_f16_b8",
    };
    assert(name@ =~= entry_text("lm_head_f16"@, tile as nat));
    name
}

/// The entry point of the Q4_0 body for a tile.
fn q4_0_entry(tile: usize) -> (name: &'static str)
    requires
        1 <= tile <= MAX_BATCH_TILE,
    ensures
        name@ == entry_text("lm_head_q4_0"@, tile as nat),
{
    proof {
        reveal_strlit("lm_head_q4_0");
        reveal_strlit("_b");
        reveal_with_fuel(text::decimal, 1);
        reveal_strlit("lm_head_q4_0_b1");
        reveal_strlit("lm_head_q4_0_b2");
        reveal_strlit("lm_head_q4_0_b3");
        reveal_strlit("lm_head_q4_0_b4");
        reveal_strlit("lm_head_q4_0_b5");
        reveal_strlit("lm_head_q4_0_b6");
        reveal_strlit("lm_head_q4_0_b7");
        reveal_strlit("lm_head_q4_0_b8");
    }
    let name: &'static str = match tile {
        1 => "lm_head_q4_0_b1",
        2 => "lm_head_q4_0_b2",
        3 => "lm_head_q4_0_b3",
        4 => "lm_head_q4_0_b4",
        5 => "lm_head_q4_0_b5",
        6 => "lm_head_q4_0_b6",
        7 => "lm_head_q4_0_b7",
        _ => "lm_head_q4_0_b8",
    };
    assert(name@ =~= entry_text("lm_head_q4_0"@, tile as nat));
    name
}

/// The entry point of the Q4K body for a tile.
fn q4_k_entry(tile: usize) -> (name: &'static str)
    requires
        1 <= tile <= MAX_BATCH_TILE,
    ensures
        name@ == entry_text("lm_head_q4_k"@, tile as nat),
{
    proof {
        reveal_strlit("lm_head_q4_k");
        reveal_strlit("_b");
        reveal_with_fuel(text::decimal, 1);
        reveal_strlit("lm_head_q4_k_b1");
        reveal_strlit("lm_head_q4_k_b2");
        reveal_strlit("lm_head_q4_k_b3");
        reveal_strlit("lm_head_q4_k_b4");
        reveal_strlit("lm_head_q4_k_b5");
        reveal_strlit("lm_head_q4_k_b6");
        reveal_strlit("lm_head_q4_k_b7");
        reveal_strlit("lm_head_q4_k_b8");
    }
    let name: &'static str = match tile {
        1 => "lm_head_q4_k_b1",
        2 => "lm_head_q4_k_b2",
        3 => "lm_head_q4_k_b3",
        4 => "lm_head_q4_k_b4",
        5 => "lm_head_q4_k_b5",
        6 => "lm_head_q4_k_b6",
        7 => "lm_head_q4_k_b7",
        _ => "lm_head_q4_k_b8",
    };
    assert(name@ =~= entry_text("lm_head_q4_k"@, tile as nat));
    name
}

/// The entry point of the Q5K body for a tile.
fn q5_k_entry(tile: usize) -> (name: &'static str)
    requires
        1 <= tile <= MAX_BATCH_TILE,
    ensures
        name@ == entry_text("lm_head_q5_k"@, tile as nat),
{
    proof {
        reveal_strlit("lm_head_q5_k");
        reveal_strlit("_b");
        reveal_with_fuel(text::decimal, 1);
        reveal_strlit("lm_head_q5_k_b1");
        reveal_strlit("lm_head_q5_k_b2");
        reveal_strlit("lm_head_q5_k_b3");
        reveal_strlit("lm_head_q5_k_b4");
        reveal_strlit("lm_head_q5_k_b5");
        reveal_strlit("lm_head_q5_k_b6");
        reveal_strlit("lm_head_q5_k_b7");
        reveal_strlit("lm_head_q5_k_b8");
    }
    let name: &'static str = match tile {
        1 => "lm_head_q5_k_b1",
        2 => "lm_head_q5_k_b2",
        3 => "lm_head_q5_k_b3",
        4 => "lm_head_q5_k_b4",
        5 => "lm_head_q5_k_b5",
        6 => "lm_head_q5_k_b6",
        7 => "lm_head_q5_k_b7",
        _ => "lm_head_q5_k_b8",
    };
    assert(name@ =~= entry_text("lm_head_q5_k"@, tile as nat));
    name
}

/// The entry point of a format's body for a tile.
pub fn tile_entry(format: HeadFormat, tile: usize) -> (name: &'static str)
    requires
        1 <= tile <= MAX_BATCH_TILE,
    ensures
        name@ == entry_text(format.entry_prefix(), tile as nat),
{
    match format {
        HeadFormat::Q8_0 => gemv_entry(tile),
        HeadFormat::Bf16 => bf16_entry(tile),
        HeadFormat::Q6K => q6_k_entry(tile),
        HeadFormat::F16 => f16_entry(tile),
        HeadFormat::Q4_0 => q4_0_entry(tile),
        HeadFormat::Q4K => q4_k_entry(tile),
        HeadFormat::Q5K => q5_k_entry(tile),
    }
}

/// The row-tiled entry point of a format's body.
pub fn row_tile_entry(format: HeadFormat, rows: usize) -> (name: &'static str)
    requires
        format.row_tiles(),
        rows == 2 || rows == 4,
    ensures
        name@ == row_entry_text(format.entry_prefix(), rows as nat),
{
    proof {
        reveal_strlit("lm_head_gemv");
        reveal_strlit("lm_head_bf16");
        reveal_strlit("_b3r");
        reveal_strlit("lm_head_gemv_b3r2");
        reveal_strlit("lm_head_gemv_b3r4");
        reveal_strlit("lm_head_bf16_b3r2");
        reveal_strlit("lm_head_bf16_b3r4");
    }
    let name: &'static str = match format {
        HeadFormat::Bf16 => if rows == 4 {
            "lm_head_bf16_b3r4"
        } else {
            "lm_head_bf16_b3r2"
        },
        _ => if rows == 4 {
            "lm_head_gemv_b3r4"
        } else {
            "lm_head_gemv_b3r2"
        },
    };
    assert(name@ =~= row_entry_text(format.entry_prefix(), rows as nat));
    name
}

impl LmHeadGeometry {
    /// Why a geometry and a row tile are refused, if they are.
    ///
    /// A whole number of staging segments makes the row stride a multiple of
    /// 32 bytes, so every row and every stage starts on a sector boundary.
    pub open spec fn reason(self, row_tile: Option<usize>) -> Option<&'static str> {
        if row_tile is Some && row_tile->0 != 2 && row_tile->0 != 4 {
            Some("the only compiled row tiles are 2 and 4")
        } else if self.hidden == 0 || self.vocab == 0 {
            Some("hidden and vocab must be non-zero")
        } else if self.hidden as int % (QK8_0 * STAGE_BLOCKS) != 0 {
            Some("hidden must be a whole number of 16-block staging segments (a multiple of 512)")
        } else if self.max_tokens == 0 {
            Some("max_tokens must be non-zero")
        } else if launch::ceil_div(self.vocab as int, WARPS_PER_BLOCK as int) > GRID_X_LIMIT {
            Some("vocabulary exceeds the grid.x limit")
        } else {
            None
        }
    }

    /// The error for a refused geometry.
    pub open spec fn refused(self, reason: &'static str) -> LmHeadError {
        LmHeadError::UnsupportedGeometry { geometry: Box::new(self), reason }
    }

    /// The row tile in effect: the requested one where the vocabulary is a
    /// whole number of its groups.
    pub open spec fn effective_row_tile(self, row_tile: Option<usize>) -> Option<usize> {
        match row_tile {
            Some(rt) => if self.vocab as int % rt as int == 0 {
                Some(rt)
            } else {
                None
            },
            None => None,
        }
    }

    /// The contraction is a whole number of the format's warp steps, and the
    /// tensor a whole number of its blocks.
    pub open spec fn whole(self, weight: HeadTensor) -> bool {
        self.hidden % weight.format.warp_step() == 0 && weight.bytes % weight.format.block_bytes()
            == 0
    }

    /// Why a weight tensor is refused, if it is.
    pub open spec fn weight_refusal(self, weight: HeadTensor) -> Option<LmHeadError> {
        let f = weight.format;
        if self.hidden % f.warp_step() != 0 {
            Some(
                LmHeadError::RaggedContraction {
                    format: f.body_name(),
                    hidden: self.hidden,
                    step: f.warp_step(),
                },
            )
        } else if weight.bytes % f.block_bytes() != 0 {
            Some(
                LmHeadError::RaggedWeights { bytes: weight.bytes, block_bytes: f.block_bytes() },
            )
        } else if weight.held() != self.count() {
            Some(
                LmHeadError::WrongElementCount {
                    expected: self.count() as usize,
                    found: weight.held() as usize,
                },
            )
        } else {
            None
        }
    }

    /// Whether the contraction is a whole number of the format's warp steps, and
    /// the tensor a whole number of its blocks.
    pub fn is_whole(&self, weight: HeadTensor) -> (b: bool)
        ensures
            b == self.whole(weight),
    {
        let shape: (usize, usize) = match weight.format {
            HeadFormat::Q8_0 => (1, BLOCK_Q8_0_BYTES),
            HeadFormat::Bf16 => (BF16_WARP_STEP, 2),
            HeadFormat::Q6K => (Q6_K_WARP_STEP, BLOCK_Q6_K_BYTES),
            HeadFormat::F16 => (BF16_WARP_STEP, 2),
            HeadFormat::Q4_0 => (64, BLOCK_Q4_0_BYTES),
            HeadFormat::Q4K => (QK_K, BLOCK_Q4_K_BYTES),
            HeadFormat::Q5K => (QK_K, BLOCK_Q5_K_BYTES),
        };
        self.hidden % shape.0 == 0 && weight.bytes % shape.1 == 0
    }

    /// What a forward pass refuses, if anything.
    pub open spec fn forward_refusal(
        self,
        weight: HeadTensor,
        hidden_states: usize,
        tokens: usize,
        logits: usize,
    ) -> Option<LmHeadError> {
        match self.weight_refusal(weight) {
            Some(e) => Some(e),
            None => if tokens == 0 || tokens > self.max_tokens {
                Some(LmHeadError::TooManyTokens { tokens, max_tokens: self.max_tokens })
            } else if hidden_states != self.max_tokens * self.hidden {
                Some(mismatch("hidden states", self.max_tokens * self.hidden, hidden_states))
            } else if logits != self.max_tokens * self.vocab {
                Some(mismatch("logits", self.max_tokens * self.vocab, logits))
            } else {
                None
            },
        }
    }

    /// A grid of one warp per `rows` vocabulary rows. The staged body asks for
    /// one staging buffer per row of each warp.
    pub open spec fn head_config(self, rows: int, format: HeadFormat) -> LaunchConfig {
        LaunchConfig {
            grid_dim: (launch::ceil_div(self.vocab as int, WARPS_PER_BLOCK * rows) as u32, 1, 1),
            block_dim: (WARP, WARPS_PER_BLOCK, 1),
            shared_mem_bytes: if format == HeadFormat::Q8_0 {
                (WARPS_PER_BLOCK * rows * STAGE_BLOCKS * BLOCK_Q8_0_BYTES) as u32
            } else {
                0
            },
        }
    }

    /// Whether a tile goes through the row-tiled entry point.
    pub open spec fn takes_row_tile(
        row_tile: Option<usize>,
        format: HeadFormat,
        tile: int,
    ) -> bool {
        row_tile is Some && tile == 3 && format.row_tiles()
    }

    /// The launch of the tile that starts at token `base`.
    pub open spec fn tile_launch(
        self,
        row_tile: Option<usize>,
        format: HeadFormat,
        tokens: int,
        base: int,
    ) -> launch::LaunchView<LmHeadArg> {
        let tile = geometry::tile_of(tokens - base);
        let tiled = Self::takes_row_tile(row_tile, format, tile);
        launch::LaunchView {
            kernel: if tiled {
                row_entry_text(format.entry_prefix(), row_tile->0 as nat)
            } else {
                entry_text(format.entry_prefix(), tile as nat)
            },
            config: self.head_config(
                if tiled {
                    row_tile->0 as int
                } else {
                    1
                },
                format,
            ),
            args: seq![
                LmHeadArg::Weight,
                LmHeadArg::HiddenStates,
                LmHeadArg::Int(self.hidden as i32),
                LmHeadArg::Int(self.vocab as i32),
                LmHeadArg::Int(base as i32),
                LmHeadArg::Logits,
            ],
        }
    }
}

/// A buffer of the wrong length.
pub open spec fn mismatch(what: &'static str, expected: int, got: usize) -> LmHeadError {
    LmHeadError::ShapeMismatch { what, expected: expected as usize, got }
}

/// Rejects a buffer whose length disagrees with the declared geometry.
pub fn check_len(what: &'static str, expected: usize, got: usize) -> (r: Result<(), LmHeadError>)
    ensures
        got == expected ==> r is Ok,
        got != expected ==> r == Err::<(), LmHeadError>(mismatch(what, expected as int, got)),
{
    if got == expected {
        Ok(())
    } else {
        Err(LmHeadError::ShapeMismatch { what, expected, got })
    }
}

/// A whole number of warp steps along the contraction.
fn check_step(format: &'static str, hidden: usize, step: usize) -> (r: Result<(), LmHeadError>)
    requires
        step != 0,
    ensures
        hidden % step == 0 ==> r is Ok,
        hidden % step != 0 ==> r == Err::<(), LmHeadError>(
            LmHeadError::RaggedContraction { format, hidden, step },
        ),
{
    if hidden % step != 0 {
        return Err(LmHeadError::RaggedContraction { format, hidden, step });
    }
    Ok(())
}

/// A whole number of blocks, and the elements they hold.
fn check_blocks(bytes: usize, block_bytes: usize, block_elements: usize) -> (r: Result<
    usize,
    LmHeadError,
>)
    requires
        block_bytes != 0,
        bytes % block_bytes == 0 ==> (bytes as int / block_bytes as int) * block_elements
            <= usize::MAX,
    ensures
        bytes % block_bytes == 0 ==> r == Ok::<usize, LmHeadError>(
            ((bytes as int / block_bytes as int) * block_elements) as usize,
        ),
        bytes % block_bytes != 0 ==> r == Err::<usize, LmHeadError>(
            LmHeadError::RaggedWeights { bytes, block_bytes },
        ),
{
    if bytes % block_bytes != 0 {
        return Err(LmHeadError::RaggedWeights { bytes, block_bytes });
    }
    Ok(bytes / block_bytes * block_elements)
}

/// What an instance is: its geometry, and the row tile in effect.
pub struct LmHeadView {
    /// The geometry.
    pub geometry: LmHeadGeometry,
    /// Rows per warp of the three-token entry point, where there is one.
    pub row_tile: Option<usize>,
}

/// The compiled LM head GEMV, one entry point per batch tile.
pub struct LmHeadKernels {
    ptx: String,
    geometry: LmHeadGeometry,
    row_tile: Option<usize>,
}

impl View for LmHeadKernels {
    type V = LmHeadView;

    closed spec fn view(&self) -> LmHeadView {
        LmHeadView { geometry: self.geometry, row_tile: self.row_tile }
    }
}

impl LmHeadView {
    /// A geometry that is served, with a row tile whose groups are whole.
    pub open spec fn valid(self) -> bool {
        &&& self.geometry.reason(self.row_tile) is None
        &&& self.geometry.effective_row_tile(self.row_tile) == self.row_tile
    }
}

impl LmHeadKernels {
    #[verifier::type_invariant]
    spec fn geometry_is_supported(self) -> bool {
        (LmHeadView { geometry: self.geometry, row_tile: self.row_tile }).valid()
    }

    /// The PTX the entry points are loaded from.
    pub closed spec fn image(self) -> Seq<char> {
        self.ptx@
    }

    fn validate(geometry: LmHeadGeometry, row_tile: Option<usize>) -> (r: Result<(), LmHeadError>)
        ensures
            match geometry.reason(row_tile) {
                Some(reason) => r == Err::<(), LmHeadError>(geometry.refused(reason)),
                None => r is Ok,
            },
    {
        if let Some(rt) = row_tile {
            if rt != 2 && rt != 4 {
                return Err(
                    LmHeadError::UnsupportedGeometry {
                        geometry: Box::new(geometry),
                        reason: "the only compiled row tiles are 2 and 4",
                    },
                );
            }
        }
        let reason: &'static str;
        if geometry.hidden == 0 || geometry.vocab == 0 {
            reason = "hidden and vocab must be non-zero";
        } else if geometry.hidden % (QK8_0 * STAGE_BLOCKS) != 0 {
            reason =
            "hidden must be a whole number of 16-block staging segments (a multiple of 512)";
        } else if geometry.max_tokens == 0 {
            reason = "max_tokens must be non-zero";
        } else if div_ceil(geometry.vocab, WARPS_PER_BLOCK as usize) > GRID_X_LIMIT {
            reason = "vocabulary exceeds the grid.x limit";
        } else {
            return Ok(());
        }
        Err(LmHeadError::UnsupportedGeometry { geometry: Box::new(geometry), reason })
    }

    /// The kernels of already compiled PTX.
    pub fn from_ptx(ptx: String, geometry: LmHeadGeometry, row_tile: Option<usize>) -> (r: Result<
        Self,
        LmHeadError,
    >)
        ensures
            match geometry.reason(row_tile) {
                Some(reason) => r == Err::<Self, LmHeadError>(geometry.refused(reason)),
                None => {
                    &&& r matches Ok(k)
                    &&& k@ == (LmHeadView {
                        geometry,
                        row_tile: geometry.effective_row_tile(row_tile),
                    })
                    &&& k.image() == ptx@
                },
            },
    {
        Self::validate(geometry, row_tile)?;
        let row_tile: Option<usize> = match row_tile {
            Some(rt) => if geometry.vocab % rt == 0 {
                Some(rt)
            } else {
                None
            },
            None => None,
        };
        Ok(LmHeadKernels { ptx, geometry, row_tile })
    }

    /// Compile and validate for `geometry`, with the four-row tile.
    pub fn new(cache: &mut PtxCache, geometry: LmHeadGeometry) -> (r: Result<Self, LmHeadError>)
        ensures
            Self::built(geometry, Some(4usize), r, *old(cache), *final(cache)),
    {
        Self::with_row_tile(cache, geometry, Some(4))
    }

    /// What construction comes to: a refusal that compiles nothing, the
    /// kernels of what the cache serves, or the compiler's rejection.
    pub open spec fn built(
        geometry: LmHeadGeometry,
        row_tile: Option<usize>,
        r: Result<Self, LmHeadError>,
        before: PtxCache,
        after: PtxCache,
    ) -> bool {
        let src = source::lm_head::lm_head_src_text();
        match geometry.reason(row_tile) {
            Some(reason) => r == Err::<Self, LmHeadError>(geometry.refused(reason)) && after
                == before,
            None => {
                &&& before.entries().contains_key(src) ==> r is Ok
                &&& ptx::counted(before, after, src, "lm_head"@)
                &&& r matches Ok(k) ==> k@ == (LmHeadView {
                    geometry,
                    row_tile: geometry.effective_row_tile(row_tile),
                }) && ptx::obtained(
                    before.entries(),
                    after.entries(),
                    src,
                    "lm_head"@,
                    k.image(),
                )
                &&& r matches Err(e) ==> {
                    &&& e matches LmHeadError::Compile(m) && ptx::rejected(src, "lm_head"@, m@)
                    &&& after.entries() == before.entries()
                }
            },
        }
    }

    /// [`Self::new`] with the three-token row tile chosen: `None` is the
    /// untiled path, `Some(2)` and `Some(4)` the compiled row tiles.
    ///
    /// The row tile serves whole groups of adjacent rows only, so a vocabulary
    /// that is not a multiple of it takes the untiled path.
    pub fn with_row_tile(
        cache: &mut PtxCache,
        geometry: LmHeadGeometry,
        row_tile: Option<usize>,
    ) -> (r: Result<Self, LmHeadError>)
        ensures
            Self::built(geometry, row_tile, r, *old(cache), *final(cache)),
    {
        Self::validate(geometry, row_tile)?;
        let src: String = lm_head_src();
        match compile_family(cache, src.as_str(), "lm_head") {
            Ok(ptx) => Self::from_ptx(ptx, geometry, row_tile),
            Err(m) => Err(LmHeadError::Compile(m)),
        }
    }

    /// The PTX to load.
    pub fn ptx(&self) -> (s: &str)
        ensures
            s@ == self.image(),
    {
        self.ptx.as_str()
    }

    /// The entry points to load: every tile of every format, the argmax
    /// passes, and the row-tiled pair where a row tile is in effect.
    pub fn entry_points(&self) -> (names: Vec<&'static str>)
        ensures
            names@.len() == 59 + if self@.row_tile is Some {
                2int
            } else {
                0
            },
            forall|i: int|
                0 <= i < 56 ==> (#[trigger] names@[i])@ == entry_text(
                    format_at(i / 8).entry_prefix(),
                    (i % 8 + 1) as nat,
                ),
            names@[56] == "argmax_partial",
            names@[57] == "argmax_final",
            names@[58] == "argmax_prob",
            self@.row_tile matches Some(rt) ==> {
                &&& names@[59]@ == row_entry_text(HeadFormat::Q8_0.entry_prefix(), rt as nat)
                &&& names@[60]@ == row_entry_text(HeadFormat::Bf16.entry_prefix(), rt as nat)
            },
    {
        proof {
            use_type_invariant(self);
        }
        let formats: [HeadFormat; 7] = [
            HeadFormat::Q8_0,
            HeadFormat::Bf16,
            HeadFormat::Q6K,
            HeadFormat::F16,
            HeadFormat::Q4_0,
            HeadFormat::Q4K,
            HeadFormat::Q5K,
        ];
        let mut names: Vec<&'static str> = Vec::new();
        let mut i: usize = 0;
        while i < 56
            invariant
                i <= 56,
                names@.len() == i,
                formats@ == seq![
                    HeadFormat::Q8_0,
                    HeadFormat::Bf16,
                    HeadFormat::Q6K,
                    HeadFormat::F16,
                    HeadFormat::Q4_0,
                    HeadFormat::Q4K,
                    HeadFormat::Q5K,
                ],
                forall|j: int|
                    0 <= j < i ==> (#[trigger] names@[j])@ == entry_text(
                        format_at(j / 8).entry_prefix(),
                        (j % 8 + 1) as nat,
                    ),
            decreases 56 - i,
        {
            names.push(tile_entry(formats[i / 8], i % 8 + 1));
            i = i + 1;
        }
        names.push("argmax_partial");
        names.push("argmax_final");
        names.push("argmax_prob");
        if let Some(rt) = self.row_tile {
            names.push(row_tile_entry(HeadFormat::Q8_0, rt));
            names.push(row_tile_entry(HeadFormat::Bf16, rt));
        }
        names
    }

    /// The geometry this instance was compiled for.
    pub fn geometry(&self) -> (g: LmHeadGeometry)
        ensures
            g == self@.geometry,
            self@.valid(),
    {
        proof {
            use_type_invariant(self);
        }
        self.geometry
    }

    /// The whole blocks of a weight tensor, against the geometry.
    pub fn check_weight(&self, weight: HeadTensor) -> (r: Result<(), LmHeadError>)
        requires
            self@.geometry.whole(weight) ==> weight.held() <= usize::MAX
                && self@.geometry.count() <= usize::MAX,
        ensures
            match self@.geometry.weight_refusal(weight) {
                Some(e) => r == Err::<(), LmHeadError>(e),
                None => r is Ok,
            },
    {
        let g: LmHeadGeometry = self.geometry();
        assert(weight.bytes as int / 2 * 1 == weight.bytes as int / 2);
        let found: usize = match weight.format {
            HeadFormat::Q8_0 => {
                check_blocks(weight.bytes, BLOCK_Q8_0_BYTES, QK8_0)?
            },
            HeadFormat::Bf16 => {
                check_step("bf16", g.hidden, BF16_WARP_STEP)?;
                check_blocks(weight.bytes, 2, 1)?
            },
            HeadFormat::Q6K => {
                check_step("Q6_K", g.hidden, Q6_K_WARP_STEP)?;
                check_blocks(weight.bytes, BLOCK_Q6_K_BYTES, QK_K)?
            },
            HeadFormat::F16 => {
                check_step("f16", g.hidden, BF16_WARP_STEP)?;
                check_blocks(weight.bytes, 2, 1)?
            },
            HeadFormat::Q4_0 => {
                check_step("Q4_0", g.hidden, 2 * QK4_0)?;
                check_blocks(weight.bytes, BLOCK_Q4_0_BYTES, QK4_0)?
            },
            HeadFormat::Q4K => {
                check_step("Q4_K", g.hidden, QK_K)?;
                check_blocks(weight.bytes, BLOCK_Q4_K_BYTES, QK_K)?
            },
            HeadFormat::Q5K => {
                check_step("Q5_K", g.hidden, QK_K)?;
                check_blocks(weight.bytes, BLOCK_Q5_K_BYTES, QK_K)?
            },
        };
        if found != g.elements() {
            return Err(LmHeadError::WrongElementCount { expected: g.elements(), found });
        }
        Ok(())
    }

    /// The launch of the tile that starts at token `base`.
    fn tile(&self, format: HeadFormat, tokens: usize, base: usize) -> (l: Launch<LmHeadArg>)
        requires
            base < tokens,
        ensures
            l@ == self@.geometry.tile_launch(
                self@.row_tile,
                format,
                tokens as int,
                base as int,
            ),
    {
        let g: LmHeadGeometry = self.geometry();
        let tile: usize = batch_tile(tokens - base);
        let staged: bool = format == HeadFormat::Q8_0;
        let may_tile: bool = tile == 3 && (format == HeadFormat::Q8_0 || format
            == HeadFormat::Bf16);
        let mut rows: usize = 1;
        let mut kernel: &'static str = tile_entry(format, tile);
        if may_tile {
            if let Some(rt) = self.row_tile {
                rows = rt;
                kernel = row_tile_entry(format, rt);
            }
        }
        let rows_per_block: usize = WARPS_PER_BLOCK as usize * rows;
        let shared: u32 = if staged {
            (rows_per_block * STAGE_BLOCKS * BLOCK_Q8_0_BYTES) as u32
        } else {
            0
        };
        let args: Vec<LmHeadArg> = vec![
            LmHeadArg::Weight,
            LmHeadArg::HiddenStates,
            LmHeadArg::Int(g.hidden as i32),
            LmHeadArg::Int(g.vocab as i32),
            LmHeadArg::Int(base as i32),
            LmHeadArg::Logits,
        ];
        let l = Launch {
            kernel,
            config: LaunchConfig {
                grid_dim: (div_ceil(g.vocab, rows_per_block) as u32, 1, 1),
                block_dim: (WARP, WARPS_PER_BLOCK, 1),
                shared_mem_bytes: shared,
            },
            args,
        };
        assert(l@ =~= g.tile_launch(self@.row_tile, format, tokens as int, base as int));
        l
    }

    /// `logits[t][v] = sum_h weight[v][h] * hidden_states[t][h]`.
    ///
    /// `hidden_states` is `[max_tokens][hidden]` and `logits` is
    /// `[max_tokens][vocab]`, both by length; rows past `tokens` in either are
    /// neither read nor written. A batch takes one launch per
    /// [`MAX_BATCH_TILE`] tokens.
    pub fn forward(
        &self,
        weight: HeadTensor,
        hidden_states: usize,
        tokens: usize,
        logits: usize,
    ) -> (r: Result<Vec<Launch<LmHeadArg>>, LmHeadError>)
        requires
            self@.geometry.whole(weight) ==> weight.held() <= usize::MAX
                && self@.geometry.count() <= usize::MAX,
            self@.geometry.weight_refusal(weight) is None && 0 < tokens <= self@.geometry.max_tokens
                ==> self@.geometry.max_tokens * self@.geometry.hidden <= usize::MAX,
            self@.geometry.weight_refusal(weight) is None && 0 < tokens <= self@.geometry.max_tokens
                && hidden_states == self@.geometry.max_tokens * self@.geometry.hidden
                ==> self@.geometry.max_tokens * self@.geometry.vocab <= usize::MAX,
        ensures
            match self@.geometry.forward_refusal(weight, hidden_states, tokens, logits) {
                Some(e) => r == Err::<Vec<Launch<LmHeadArg>>, LmHeadError>(e),
                None => r matches Ok(launches) && {
                    &&& launches@.len() == LmHeadGeometry::passes(tokens as int)
                    &&& forall|i: int|
                        0 <= i < launches@.len() ==> (#[trigger] launches@[i])@
                            == self@.geometry.tile_launch(
                            self@.row_tile,
                            weight.format,
                            tokens as int,
                            i * MAX_BATCH_TILE,
                        )
                },
            },
    {
        let g: LmHeadGeometry = self.geometry();
        self.check_weight(weight)?;
        if tokens == 0 || tokens > g.max_tokens {
            return Err(LmHeadError::TooManyTokens { tokens, max_tokens: g.max_tokens });
        }
        check_len("hidden states", g.max_tokens * g.hidden, hidden_states)?;
        check_len("logits", g.max_tokens * g.vocab, logits)?;
        let mut launches: Vec<Launch<LmHeadArg>> = Vec::new();
        let mut base: usize = 0;
        while base < tokens
            invariant
                base <= tokens,
                base < tokens ==> base == launches@.len() * MAX_BATCH_TILE,
                base == tokens ==> launches@.len() == LmHeadGeometry::passes(tokens as int),
                tokens > 0,
                forall|i: int|
                    0 <= i < launches@.len() ==> (#[trigger] launches@[i])@
                        == self@.geometry.tile_launch(
                        self@.row_tile,
                        weight.format,
                        tokens as int,
                        i * MAX_BATCH_TILE,
                    ),
            decreases tokens - base,
        {
            launches.push(self.tile(weight.format, tokens, base));
            base = base + batch_tile(tokens - base);
        }
        Ok(launches)
    }

    /// `out[0] = argmax(values[..n])`, ties going to the lower index.
    ///
    /// The two partial buffers are scratch of exactly [`ARGMAX_BLOCKS`]
    /// elements each; `out` holds one. All four are buffer lengths.
    pub fn argmax(
        &self,
        values: usize,
        n: usize,
        partial_values: usize,
        partial_indices: usize,
        out: usize,
    ) -> (r: Result<(Launch<LmHeadArg>, Launch<LmHeadArg>), LmHeadError>)
        ensures
            r matches Ok(p) ==> p.0@ == argmax_first(n as int) && p.1@ == argmax_second(n as int),
            match argmax_refusal(values, n, partial_values, partial_indices, out) {
                Some(e) => r == Err::<(Launch<LmHeadArg>, Launch<LmHeadArg>), LmHeadError>(e),
                None => r matches Ok(p) && p.0.runs(
                    "argmax_partial"@,
                    argmax_config(argmax_blocks(n as int)),
                    seq![
                        LmHeadArg::Values,
                        LmHeadArg::Int(n as i32),
                        LmHeadArg::PartialValues,
                        LmHeadArg::PartialIndices,
                    ],
                ) && p.1.runs(
                    "argmax_final"@,
                    argmax_config(1),
                    seq![
                        LmHeadArg::PartialValues,
                        LmHeadArg::PartialIndices,
                        LmHeadArg::Int(argmax_blocks(n as int) as i32),
                        LmHeadArg::Output,
                    ],
                ),
            },
    {
        if n == 0 || n > values {
            return Err(
                LmHeadError::ShapeMismatch { what: "argmax length", expected: values, got: n },
            );
        }
        check_len("argmax partial values", ARGMAX_BLOCKS, partial_values)?;
        check_len("argmax partial indices", ARGMAX_BLOCKS, partial_indices)?;
        check_len("argmax output", 1, out)?;
        let blocks: usize = min_usize(div_ceil(n, ARGMAX_THREADS as usize), ARGMAX_BLOCKS);
        let first = Launch {
            kernel: "argmax_partial",
            config: LaunchConfig {
                grid_dim: (blocks as u32, 1, 1),
                block_dim: (ARGMAX_THREADS, 1, 1),
                shared_mem_bytes: 0,
            },
            args: vec![
                LmHeadArg::Values,
                LmHeadArg::Int(n as i32),
                LmHeadArg::PartialValues,
                LmHeadArg::PartialIndices,
            ],
        };
        let second = Launch {
            kernel: "argmax_final",
            config: LaunchConfig {
                grid_dim: (1, 1, 1),
                block_dim: (ARGMAX_THREADS, 1, 1),
                shared_mem_bytes: 0,
            },
            args: vec![
                LmHeadArg::PartialValues,
                LmHeadArg::PartialIndices,
                LmHeadArg::Int(blocks as i32),
                LmHeadArg::Output,
            ],
        };
        Ok((first, second))
    }

    /// Softmax probability of `values[..n]`'s maximum, into `out[0]`.
    pub fn argmax_prob(&self, values: usize, n: usize, out: usize) -> (r: Result<
        Launch<LmHeadArg>,
        LmHeadError,
    >)
        ensures
            r matches Ok(l) ==> l@ == argmax_prob_launch(n as int),
            match argmax_prob_refusal(values, n, out) {
                Some(e) => r == Err::<Launch<LmHeadArg>, LmHeadError>(e),
                None => r matches Ok(l) && l.runs(
                    "argmax_prob"@,
                    argmax_config(1),
                    seq![LmHeadArg::Values, LmHeadArg::Int(n as i32), LmHeadArg::Output],
                ),
            },
    {
        if n == 0 || n > values {
            return Err(
                LmHeadError::ShapeMismatch {
                    what: "argmax_prob length",
                    expected: values,
                    got: n,
                },
            );
        }
        check_len("argmax_prob output", 1, out)?;
        Ok(
            Launch {
                kernel: "argmax_prob",
                config: LaunchConfig {
                    grid_dim: (1, 1, 1),
                    block_dim: (ARGMAX_THREADS, 1, 1),
                    shared_mem_bytes: 0,
                },
                args: vec![LmHeadArg::Values, LmHeadArg::Int(n as i32), LmHeadArg::Output],
            },
        )
    }
}

/// The formats, in the order their entry points are loaded.
pub open spec fn format_at(i: int) -> HeadFormat {
    if i == 0 {
        HeadFormat::Q8_0
    } else if i == 1 {
        HeadFormat::Bf16
    } else if i == 2 {
        HeadFormat::Q6K
    } else if i == 3 {
        HeadFormat::F16
    } else if i == 4 {
        HeadFormat::Q4_0
    } else if i == 5 {
        HeadFormat::Q4K
    } else {
        HeadFormat::Q5K
    }
}

/// What the argmax refuses, if anything.
pub open spec fn argmax_refusal(
    values: usize,
    n: usize,
    partial_values: usize,
    partial_indices: usize,
    out: usize,
) -> Option<LmHeadError> {
    if n == 0 || n > values {
        Some(mismatch("argmax length", values as int, n))
    } else if partial_values != ARGMAX_BLOCKS {
        Some(mismatch("argmax partial values", ARGMAX_BLOCKS as int, partial_values))
    } else if partial_indices != ARGMAX_BLOCKS {
        Some(mismatch("argmax partial indices", ARGMAX_BLOCKS as int, partial_indices))
    } else if out != 1 {
        Some(mismatch("argmax output", 1, out))
    } else {
        None
    }
}

/// What the probability of the maximum refuses, if anything.
pub open spec fn argmax_prob_refusal(values: usize, n: usize, out: usize) -> Option<LmHeadError> {
    if n == 0 || n > values {
        Some(mismatch("argmax_prob length", values as int, n))
    } else if out != 1 {
        Some(mismatch("argmax_prob output", 1, out))
    } else {
        None
    }
}

/// Blocks of the first argmax pass: one thread per value, capped at the
/// partial buffers.
pub open spec fn argmax_blocks(n: int) -> int {
    let blocks = launch::ceil_div(n, ARGMAX_THREADS as int);
    if blocks <= ARGMAX_BLOCKS {
        blocks
    } else {
        ARGMAX_BLOCKS as int
    }
}

/// The first pass over `n` values.
pub open spec fn argmax_first(n: int) -> launch::LaunchView<LmHeadArg> {
    launch::LaunchView {
        kernel: "argmax_partial"@,
        config: argmax_config(argmax_blocks(n)),
        args: seq![
            LmHeadArg::Values,
            LmHeadArg::Int(n as i32),
            LmHeadArg::PartialValues,
            LmHeadArg::PartialIndices,
        ],
    }
}

/// The second pass, over the winners of the first.
pub open spec fn argmax_second(n: int) -> launch::LaunchView<LmHeadArg> {
    launch::LaunchView {
        kernel: "argmax_final"@,
        config: argmax_config(1),
        args: seq![
            LmHeadArg::PartialValues,
            LmHeadArg::PartialIndices,
            LmHeadArg::Int(argmax_blocks(n) as i32),
            LmHeadArg::Output,
        ],
    }
}

/// The probability of the largest of `n` values.
pub open spec fn argmax_prob_launch(n: int) -> launch::LaunchView<LmHeadArg> {
    launch::LaunchView {
        kernel: "argmax_prob"@,
        config: argmax_config(1),
        args: seq![LmHeadArg::Values, LmHeadArg::Int(n as i32), LmHeadArg::Output],
    }
}

/// A flat argmax grid.
pub open spec fn argmax_config(blocks: int) -> LaunchConfig {
    LaunchConfig {
        grid_dim: (blocks as u32, 1, 1),
        block_dim: (ARGMAX_THREADS, 1, 1),
        shared_mem_bytes: 0,
    }
}

} // verus!
