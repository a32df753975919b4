//! Constants, errors and the steps a MoE sequence is made of.

use crate::kernels::mma::MmaError;
use crate::kernels::moe::geometry::{
    ExpertQuant, MoeGeometry, BLOCK_Q6_K_DEVICE_BYTES, BLOCK_Q8_0_BYTES, QK8_0, QK_K,
};
use crate::launch::{div_ceil_u32, Launch, LaunchConfig};
use crate::text::push_decimal;
use crate::kernels::moe::geometry;
use crate::text;
use crate::launch;
use vstd::prelude::*;
use vstd::string::StringExecFns;

verus! {

/// Threads per block for the routing, dispatch and reduction kernels.
pub const THREADS: u32 = 256;

/// Token slots one weight read is amortized over in the grouped GEMM.
pub const TILE_M: usize = 16;

/// Contraction elements staged into shared memory per pass: one half of a
/// Q6_K superblock.
pub const TILE_K: usize = 128;

/// Output rows a grouped-GEMM block computes, one warp each.
pub const TILE_ROWS: u32 = 8;

/// Threads per grouped-GEMM block.
pub const GEMM_THREADS: u32 = 256;

/// Experts one lane of the routing warp holds in registers.
pub const ROUTE_LANE_EXPERTS: usize = 16;

/// Warps splitting the contraction in the one-token shared expert.
pub const SHARED_WARPS: u32 = 4;

/// Warps per block on the integer tensor-core path.
pub const MMA_WARPS: u32 = 8;

/// Output rows one warp of that path owns.
pub const MMA_N: u32 = 8;

/// Output rows one block of that path covers.
pub const MMA_ROWS: u32 = 64;

/// Dispatch slots one block of that path stages. A larger `block_size` would
/// have its tail dropped, so [`MoeKernels::new`] refuses it.
pub const MMA_M: usize = 32;

/// Token count below which the fp32 grouped GEMM is taken.
pub const MMA_MIN_TOKENS: usize = 8;

/// Bytes per staged activation row: 128 elements of the contraction, and 16 so
/// that consecutive rows start in different shared-memory banks.
pub const MMA_ASTRIDE: usize = 144;

/// Bytes per staged Q6_K weight row.
pub const MMA_WSTRIDE: usize = 112;

/// Bytes per staged scale row.
pub const MMA_SSTRIDE: usize = 16;

/// Bytes per staged Q8_0 weight row: the quants, then one fp32 scale per 32.
pub const MMA_DSTRIDE: usize = 144;

/// Largest grid extent along y.
pub const GRID_Y_LIMIT: usize = 65_535;

/// Shared bytes of a fp32 tile: the staged activations, then one source-row
/// offset and one flat slot id per tile row.
pub open spec fn tile_shared() -> u32 {
    (TILE_M * TILE_K * 4 + TILE_M * 8 + TILE_M * 4) as u32
}

/// Dynamic shared memory one grouped-GEMM block needs.
pub fn tile_shared_bytes() -> (n: u32)
    ensures
        n == tile_shared(),
{
    (TILE_M * TILE_K * 4 + TILE_M * 8 + TILE_M * 4) as u32
}

/// Shared bytes of the tensor-core down projection: one staged weight tile,
/// the int8 activation tile, its per-32 scales, and one row index and one slot
/// id per staged slot.
pub open spec fn mma_down_shared() -> u32 {
    (MMA_ROWS * MMA_DSTRIDE + MMA_M * MMA_ASTRIDE + MMA_M * 4 * 4 + MMA_M * 8 + MMA_M * 4) as u32
}

/// Dynamic shared memory of the tensor-core down projection.
pub fn mma_down_shared_bytes() -> (n: u32)
    ensures
        n == mma_down_shared(),
{
    (MMA_ROWS as usize * MMA_DSTRIDE + MMA_M * MMA_ASTRIDE + MMA_M * 4 * 4 + MMA_M * 8 + MMA_M * 4)
        as u32
}

/// Shared bytes of the Q8_0 gate/up tensor-core GEMM: two staged weight tiles,
/// the int8 activation tile, its per-32 scales and one row index per slot.
pub open spec fn mma_ffn_q8_shared() -> u32 {
    (2 * MMA_ROWS * MMA_DSTRIDE + MMA_M * MMA_ASTRIDE + MMA_M * 4 * 4 + MMA_M * 8) as u32
}

/// Dynamic shared memory of the Q8_0 gate/up tensor-core GEMM.
pub fn mma_ffn_q8_shared_bytes() -> (n: u32)
    ensures
        n == mma_ffn_q8_shared(),
{
    (2 * MMA_ROWS as usize * MMA_DSTRIDE + MMA_M * MMA_ASTRIDE + MMA_M * 4 * 4 + MMA_M * 8) as u32
}

/// Shared bytes of the Q6_K gate/up tensor-core GEMM: two staged weight tiles
/// and their scale tiles, the int8 activation tile, its per-32 scales and one
/// row index per slot.
pub open spec fn mma_shared() -> u32 {
    (2 * MMA_ROWS * MMA_WSTRIDE + 2 * MMA_ROWS * MMA_SSTRIDE + MMA_M * MMA_ASTRIDE + MMA_M * 4 * 4
        + MMA_M * 8) as u32
}

/// Dynamic shared memory of the Q6_K gate/up tensor-core GEMM.
pub fn mma_shared_bytes() -> (n: u32)
    ensures
        n == mma_shared(),
{
    (2 * MMA_ROWS as usize * MMA_WSTRIDE + 2 * MMA_ROWS as usize * MMA_SSTRIDE + MMA_M
        * MMA_ASTRIDE + MMA_M * 4 * 4 + MMA_M * 8) as u32
}

/// Something the MoE family refuses.
#[derive(Debug)]
pub enum MoeError {
    /// The source was rejected.
    Compile(String),
    /// The integer tensor-core path refused.
    Mma(MmaError),
    /// A geometry the kernels cannot service, with the reason.
    UnsupportedGeometry { geometry: Box<MoeGeometry>, reason: &'static str },
    /// A weight stack is not a whole number of quantization blocks.
    ///
    /// Rejected rather than truncated: a partial trailing block would make the
    /// last expert's rows read past the tensor.
    RaggedWeights { which: &'static str, bytes: usize, block_bytes: usize },
    /// A weight stack does not hold the element count the geometry implies.
    WrongElementCount { which: &'static str, expected: usize, found: usize },
    /// More tokens were presented than the buffers were sized for.
    TooManyTokens { tokens: usize, max_tokens: usize },
}

/// The text of a geometry.
pub open spec fn geometry_text(g: MoeGeometry) -> Seq<char> {
    "MoeGeometry { num_experts: "@ + text::decimal(g.num_experts as nat)
        + ", experts_per_token: "@ + text::decimal(g.experts_per_token as nat)
        + ", hidden: "@ + text::decimal(g.hidden as nat) + ", intermediate: "@
        + text::decimal(g.intermediate as nat) + ", block_size: "@ + text::decimal(
        g.block_size as nat,
    ) + ", max_tokens: "@ + text::decimal(g.max_tokens as nat) + " }"@
}

fn push_geometry(s: &mut String, g: &MoeGeometry)
    ensures
        final(s)@ == old(s)@ + geometry_text(*g),
{
    let ghost before = s@;
    s.append("MoeGeometry { num_experts: ");
    push_decimal(s, g.num_experts);
    s.append(", experts_per_token: ");
    push_decimal(s, g.experts_per_token);
    s.append(", hidden: ");
    push_decimal(s, g.hidden);
    s.append(", intermediate: ");
    push_decimal(s, g.intermediate);
    s.append(", block_size: ");
    push_decimal(s, g.block_size);
    s.append(", max_tokens: ");
    push_decimal(s, g.max_tokens);
    s.append(" }");
    assert(s@ =~= before + geometry_text(*g));
}

impl MoeError {
    /// The text of the message.
    pub open spec fn text(self) -> Seq<char> {
        match self {
            MoeError::Compile(m) => "kernel compilation failed: "@ + m@,
            MoeError::Mma(e) => e.text(),
            MoeError::UnsupportedGeometry { geometry, reason } => "unsupported MoE geometry "@
                + geometry_text(*geometry) + ": "@ + reason@,
            MoeError::RaggedWeights { which, bytes, block_bytes } => which@ + ": "@
                + text::decimal(bytes as nat) + " bytes is not a whole number of "@
                + text::decimal(block_bytes as nat) + " B blocks"@,
            MoeError::WrongElementCount { which, expected, found } => which@ + ": expected "@
                + text::decimal(expected as nat)
                + " elements for this geometry, stack holds "@ + text::decimal(
                found as nat,
            ),
            MoeError::TooManyTokens { tokens, max_tokens } => text::decimal(tokens as nat)
                + " tokens exceeds the "@ + text::decimal(max_tokens as nat)
                + " the buffers were sized for"@,
        }
    }

    /// The message.
    pub fn message(&self) -> (s: String)
        ensures
            s@ == self.text(),
    {
        let mut s = String::new();
        match self {
            MoeError::Compile(m) => {
                s.append("kernel compilation failed: ");
                s.append(m.as_str());
            },
            MoeError::Mma(e) => {
                s.append(e.message().as_str());
            },
            MoeError::UnsupportedGeometry { geometry, reason } => {
                s.append("unsupported MoE geometry ");
                push_geometry(&mut s, geometry);
                s.append(": ");
                s.append(reason);
            },
            MoeError::RaggedWeights { which, bytes, block_bytes } => {
                s.append(which);
                s.append(": ");
                push_decimal(&mut s, *bytes);
                s.append(" bytes is not a whole number of ");
                push_decimal(&mut s, *block_bytes);
                s.append(" B blocks");
            },
            MoeError::WrongElementCount { which, expected, found } => {
                s.append(which);
                s.append(": expected ");
                push_decimal(&mut s, *expected);
                s.append(" elements for this geometry, stack holds ");
                push_decimal(&mut s, *found);
            },
            MoeError::TooManyTokens { tokens, max_tokens } => {
                push_decimal(&mut s, *tokens);
                s.append(" tokens exceeds the ");
                push_decimal(&mut s, *max_tokens);
                s.append(" the buffers were sized for");
            },
        }
        s
    }
}

/// A quantized weight stack on the device: its length and its format.
#[derive(Debug, Clone, Copy, PartialEq, Eq)]
pub struct QuantTensor {
    /// Length of the serialized blocks, in bytes.
    pub bytes: usize,
    /// How to unpack them.
    pub quant: ExpertQuant,
}

impl QuantTensor {
    /// Whole blocks times elements per block.
    pub open spec fn held(self) -> int {
        match self.quant {
            ExpertQuant::Q6K => self.bytes as int / BLOCK_Q6_K_DEVICE_BYTES as int * QK_K,
            ExpertQuant::Q8_0 => self.bytes as int / BLOCK_Q8_0_BYTES as int * QK8_0,
        }
    }

    /// A whole number of device blocks.
    pub open spec fn whole(self) -> bool {
        match self.quant {
            ExpertQuant::Q6K => self.bytes % BLOCK_Q6_K_DEVICE_BYTES == 0,
            ExpertQuant::Q8_0 => self.bytes % BLOCK_Q8_0_BYTES == 0,
        }
    }

    /// Elements this buffer holds, given its format.
    pub fn elements(&self) -> (n: usize)
        requires
            self.held() <= usize::MAX,
        ensures
            n == self.held(),
    {
        self.bytes / self.quant.block_bytes() * self.quant.block_elements()
    }

    /// Whether the buffer is a whole number of blocks.
    pub fn is_whole_blocks(&self) -> (b: bool)
        ensures
            b == self.whole(),
    {
        self.bytes % self.quant.block_bytes() == 0
    }

    /// Why a stack is refused where `expected` elements are asked for.
    pub open spec fn refusal(self, which: &'static str, expected: int) -> Option<MoeError> {
        if !self.whole() {
            Some(
                MoeError::RaggedWeights {
                    which,
                    bytes: self.bytes,
                    block_bytes: self.quant.device_stride(),
                },
            )
        } else if self.held() != expected {
            Some(
                MoeError::WrongElementCount {
                    which,
                    expected: expected as usize,
                    found: self.held() as usize,
                },
            )
        } else {
            None
        }
    }
}

/// A stack of exactly `expected` elements, in whole blocks.
pub fn check_stack(which: &'static str, t: QuantTensor, expected: usize) -> (r: Result<
    (),
    MoeError,
>)
    requires
        t.whole() ==> t.held() <= usize::MAX,
    ensures
        match t.refusal(which, expected as int) {
            Some(e) => r == Err::<(), MoeError>(e),
            None => r is Ok,
        },
{
    if !t.is_whole_blocks() {
        return Err(
            MoeError::RaggedWeights { which, bytes: t.bytes, block_bytes: t.quant.block_bytes() },
        );
    }
    let found: usize = t.elements();
    if found != expected {
        return Err(MoeError::WrongElementCount { which, expected, found });
    }
    Ok(())
}

impl MoeGeometry {
    /// Why the shape is refused before any capacity is formed.
    pub open spec fn shape_reason(self) -> Option<&'static str> {
        if self.block_size == 0 {
            Some("block_size must be non-zero")
        } else if self.experts_per_token == 0 {
            Some("experts_per_token must be non-zero")
        } else if self.experts_per_token > self.num_experts {
            Some("experts_per_token must not exceed num_experts")
        } else if self.max_tokens == 0 {
            Some("max_tokens must be non-zero")
        } else if self.hidden == 0 || self.intermediate == 0 {
            Some("hidden and intermediate must be non-zero")
        } else if self.hidden % TILE_K != 0 {
            Some("hidden must be a multiple of the 128-element tile")
        } else if self.intermediate % TILE_K != 0 {
            Some("intermediate must be a multiple of the 128-element tile")
        } else if self.block_size > MMA_M {
            Some("block_size exceeds the 16 slots the tensor-core tile stages")
        } else {
            None
        }
    }

    /// Why the geometry is refused, if it is. The grid's y extent is the
    /// number of dispatch blocks, not of slots.
    pub open spec fn reason(self) -> Option<&'static str> {
        match self.shape_reason() {
            Some(r) => Some(r),
            None => if self.dispatch_blocks() > GRID_Y_LIMIT {
                Some("dispatch-block capacity exceeds the 65535 grid.y limit")
            } else if self.max_tokens > GRID_Y_LIMIT {
                Some("max_tokens exceeds the 65535 grid limit")
            } else {
                None
            },
        }
    }

    /// A geometry the family serves.
    pub open spec fn supported(self) -> bool {
        self.reason() is None
    }

    /// The error for a refused geometry.
    pub open spec fn refused(self, reason: &'static str) -> MoeError {
        MoeError::UnsupportedGeometry { geometry: Box::new(self), reason }
    }
}

/// The sizes of a served geometry stay small.
pub proof fn lemma_supported_sizes(g: MoeGeometry)
    requires
        g.supported(),
    ensures
        g.block_size > 0,
        g.sorted_slots() <= 65_535 * 32,
        0 <= g.dispatch_blocks() <= 65_535,
        0 < g.pairs() <= g.sorted_slots(),
        g.max_tokens <= g.pairs(),
        g.experts_per_token <= g.pairs(),
{
    geometry::lemma_capacity(g);
    let (q, d) = (g.dispatch_blocks(), g.block_size as int);
    assert(q * d <= 65_535 * 32) by (nonlinear_arith)
        requires
            0 <= q <= 65_535,
            0 < d <= 32,
    ;
    let (t, k) = (g.max_tokens as int, g.experts_per_token as int);
    assert(0 < t * k && t <= t * k && k <= t * k) by (nonlinear_arith)
        requires
            0 < t,
            0 < k,
    ;
}

/// A buffer or a scalar handed to a MoE kernel.
#[derive(Debug, Clone, Copy, PartialEq, Eq)]
pub enum MoeArg {
    /// Gate weights.
    Gate,
    /// The up stack.
    Up,
    /// The down stack.
    Down,
    /// The hidden states, `[max_tokens][hidden]`.
    Hidden,
    /// The router logits, `[max_tokens][num_experts]`.
    Logits,
    /// The result, `[max_tokens][hidden]`.
    Output,
    /// Selected expert ids.
    TopkIds,
    /// Routing weights.
    TopkWeights,
    /// Flat ids grouped by expert.
    SortedTokenIds,
    /// Expert of each dispatch block.
    ExpertIds,
    /// Per-expert selection counts.
    ExpertCounts,
    /// The padded total.
    NumTokensPostPad,
    /// The step's token count.
    ValidTokens,
    /// Gate/up output per dispatch slot.
    Inter,
    /// Contributions per `(token, k)`.
    Partial,
    /// Gate/up output of the shared expert.
    SharedInter,
    /// Quantized activations.
    Xq,
    /// Their scales.
    XqScales,
    /// Quantized gate/up output.
    Iq,
    /// Its scales.
    IqScales,
    /// The shared expert's gate projection.
    SharedGateOut,
    /// The shared expert's SwiGLU output.
    SharedSwiglu,
    /// That output, quantized.
    Siq,
    /// Its scales.
    SiqScales,
    /// Repacked shared gate.
    GateInt8,
    /// Scales of the repacked shared gate.
    GateScales,
    /// Repacked shared up.
    UpInt8,
    /// Scales of the repacked shared up.
    UpScales,
    /// Repacked shared down.
    DownInt8,
    /// Scales of the repacked shared down.
    DownScales,
    /// A 32-bit integer by value.
    Int(i32),
    /// A 64-bit integer by value.
    Long(i64),
}

/// One step of a MoE sequence.
#[derive(Debug)]
pub enum MoeStep {
    /// A launch of this family's module.
    Launch(Launch<MoeArg>),
    /// Quantize `rows` rows of `cols` floats to int8 with one scale per 32, on
    /// the integer tensor-core module.
    QuantizeRows { source: MoeArg, quants: MoeArg, scales: MoeArg, rows: usize, cols: usize },
    /// `output[m][n] = input[m][k] * weight[n][k]` over int8 operands with
    /// per-32 scales, on the integer tensor-core module.
    Project {
        weight: MoeArg,
        weight_scales: MoeArg,
        input: MoeArg,
        input_scales: MoeArg,
        output: MoeArg,
        k: usize,
        n: usize,
        m: usize,
    },
    /// Zero a whole buffer.
    Zero(MoeArg),
}

/// A step with its launch's argument list as a sequence.
#[verifier::ext_equal]
pub enum MoeStepView {
    /// As [`MoeStep::Launch`].
    Launch(launch::LaunchView<MoeArg>),
    /// As [`MoeStep::QuantizeRows`].
    QuantizeRows { source: MoeArg, quants: MoeArg, scales: MoeArg, rows: usize, cols: usize },
    /// As [`MoeStep::Project`].
    Project {
        weight: MoeArg,
        weight_scales: MoeArg,
        input: MoeArg,
        input_scales: MoeArg,
        output: MoeArg,
        k: usize,
        n: usize,
        m: usize,
    },
    /// As [`MoeStep::Zero`].
    Zero(MoeArg),
}

impl View for MoeStep {
    type V = MoeStepView;

    open spec fn view(&self) -> MoeStepView {
        match *self {
            MoeStep::Launch(l) => MoeStepView::Launch(l@),
            MoeStep::QuantizeRows { source, quants, scales, rows, cols } =>
                MoeStepView::QuantizeRows { source, quants, scales, rows, cols },
            MoeStep::Project {
                weight,
                weight_scales,
                input,
                input_scales,
                output,
                k,
                n,
                m,
            } => MoeStepView::Project {
                weight,
                weight_scales,
                input,
                input_scales,
                output,
                k,
                n,
                m,
            },
            MoeStep::Zero(b) => MoeStepView::Zero(b),
        }
    }
}

/// The steps of a sequence.
pub open spec fn steps_of(steps: Seq<MoeStep>) -> Seq<MoeStepView> {
    steps.map_values(|s: MoeStep| s@)
}

/// A launch step.
pub open spec fn launches(
    kernel: Seq<char>,
    config: LaunchConfig,
    args: Seq<MoeArg>,
) -> MoeStepView {
    MoeStepView::Launch(launch::LaunchView { kernel, config, args })
}

/// A grid of row bands: `ceil(rows / band)` along x, `y` along y.
pub open spec fn banded(rows: usize, band: u32, y: int, threads: u32, shared: u32) -> LaunchConfig {
    LaunchConfig {
        grid_dim: (
            launch::ceil_div((rows as u32) as int, band as int) as u32,
            y as u32,
            1,
        ),
        block_dim: (threads, 1, 1),
        shared_mem_bytes: shared,
    }
}

pub(crate) fn banded_config(rows: usize, band: u32, y: usize, threads: u32, shared: u32) -> (c: LaunchConfig)
    requires
        band != 0,
    ensures
        c == banded(rows, band, y as int, threads, shared),
{
    LaunchConfig {
        grid_dim: (div_ceil_u32(rows as u32, band), y as u32, 1),
        block_dim: (threads, 1, 1),
        shared_mem_bytes: shared,
    }
}

/// A grid along x alone.
pub open spec fn flat(x: int, threads: u32, shared: int) -> LaunchConfig {
    LaunchConfig {
        grid_dim: (x as u32, 1, 1),
        block_dim: (threads, 1, 1),
        shared_mem_bytes: shared as u32,
    }
}

} // verus!
