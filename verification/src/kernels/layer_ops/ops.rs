//! RMSNorm, partial rotary embedding, SwiGLU, sigmoid gating, tensor add,
//! softplus and the short causal convolution.
//!
//! The geometry is per launch: one forward pass normalizes rows of several
//! widths, and the two sigmoid gates differ in shape. So every width is a
//! launch argument, validated per launch, and every buffer's length is checked
//! against it. An operation over no elements launches nothing.

use crate::kernels::ptx;
use crate::kernels::ptx::{compile_family, PtxCache};
use crate::launch;
use crate::launch::{div_ceil, min_usize, Launch, LaunchConfig};
use crate::source::layer_ops::LAYER_OPS_SRC;
use crate::text;
use crate::text::push_decimal;
use vstd::prelude::*;
use vstd::string::StringExecFns;

verus! {

/// Widest convolution the kernels service: the state update stages a window in
/// a register array of this size.
pub const MAX_CONV_KERNEL: usize = 8;

/// Largest block of the RMSNorm and rotary kernels.
pub const MAX_BLOCK: usize = 1024;

/// Threads per block of the elementwise and convolution kernels.
pub const BLOCK: usize = 256;

/// Most blocks of a grid-stride launch.
pub const MAX_GRID: usize = 1024;

/// Something a layer op refuses.
#[derive(Debug)]
pub enum LayerOpsError {
    /// The source was rejected.
    Compile(String),
    /// A row width the kernel cannot service.
    UnsupportedWidth { width: usize },
    /// A head geometry the rotary kernel cannot service.
    UnsupportedRotaryShape { head_dim: usize, rope_dim: usize },
    /// A convolution width the kernel cannot service.
    UnsupportedConvKernel { conv_kernel: usize },
    /// A buffer is not the length the declared geometry requires.
    ShapeMismatch { what: &'static str, expected: usize, got: usize },
}

impl LayerOpsError {
    /// The text of the message.
    pub open spec fn text(self) -> Seq<char> {
        match self {
            LayerOpsError::Compile(m) => "kernel compilation failed: "@ + m@,
            LayerOpsError::UnsupportedWidth { width } => "row width "@ + text::decimal(
                width as nat,
            ) + " must be non-zero"@,
            LayerOpsError::UnsupportedRotaryShape { head_dim, rope_dim } => "rope_dim "@
                + text::decimal(rope_dim as nat) + " must be even and at most head_dim "@
                + text::decimal(head_dim as nat)
                + ", which must itself be non-zero and at most 1024 (it is the block width)"@,
            LayerOpsError::UnsupportedConvKernel { conv_kernel } => "conv_kernel "@ + text::decimal(
                conv_kernel as nat,
            ) + " must be in 1..="@ + text::decimal(MAX_CONV_KERNEL as nat),
            LayerOpsError::ShapeMismatch { what, expected, got } => what@ + " must hold "@
                + text::decimal(expected as nat) + " floats, holds "@ + text::decimal(got as nat),
        }
    }

    /// The message.
    pub fn message(&self) -> (s: String)
        ensures
            s@ == self.text(),
    {
        let mut s = String::new();
        match self {
            LayerOpsError::Compile(m) => {
                s.append("kernel compilation failed: ");
                s.append(m.as_str());
            },
            LayerOpsError::UnsupportedWidth { width } => {
                s.append("row width ");
                push_decimal(&mut s, *width);
                s.append(" must be non-zero");
            },
            LayerOpsError::UnsupportedRotaryShape { head_dim, rope_dim } => {
                s.append("rope_dim ");
                push_decimal(&mut s, *rope_dim);
                s.append(" must be even and at most head_dim ");
                push_decimal(&mut s, *head_dim);
                s.append(
                    ", which must itself be non-zero and at most 1024 (it is the block width)",
                );
            },
            LayerOpsError::UnsupportedConvKernel { conv_kernel } => {
                s.append("conv_kernel ");
                push_decimal(&mut s, *conv_kernel);
                s.append(" must be in 1..=");
                push_decimal(&mut s, MAX_CONV_KERNEL);
            },
            LayerOpsError::ShapeMismatch { what, expected, got } => {
                s.append(what);
                s.append(" must hold ");
                push_decimal(&mut s, *expected);
                s.append(" floats, holds ");
                push_decimal(&mut s, *got);
            },
        }
        s
    }
}

/// The shape of a gate tensor [`LayerOpsKernels::sigmoid_gate`] is given.
#[derive(Debug, Clone, Copy, PartialEq, Eq, Structural)]
pub enum GateShape {
    /// One gate value per element: `[rows][width]`.
    Elementwise,
    /// One gate value per row, broadcast across that row: `[rows]`.
    PerRow,
}

impl GateShape {
    /// Gate values of a `[rows][width]` activation in this shape.
    pub open spec fn gate_count(self, rows: int, width: int) -> int {
        match self {
            GateShape::Elementwise => rows * width,
            GateShape::PerRow => rows,
        }
    }

    /// Which gate value element `i` of the activation reads.
    pub open spec fn gate_index(self, i: int, width: int) -> int {
        match self {
            GateShape::Elementwise => i,
            GateShape::PerRow => i / width,
        }
    }

    /// Whether element `i` of the activation also writes its gate's sigmoid.
    pub open spec fn writes_sigmoid(self, i: int, width: int) -> bool {
        match self {
            GateShape::Elementwise => true,
            GateShape::PerRow => i % width == 0,
        }
    }

    /// How many gate values a `[rows][width]` activation needs in this shape,
    /// which is also how many sigmoids are written.
    pub fn gate_len(self, rows: usize, width: usize) -> (n: usize)
        requires
            self.gate_count(rows as int, width as int) <= usize::MAX,
        ensures
            n == self.gate_count(rows as int, width as int),
    {
        match self {
            GateShape::Elementwise => rows * width,
            GateShape::PerRow => rows,
        }
    }
}

/// An argument of a layer op.
#[derive(Debug, Clone, Copy, PartialEq, Eq)]
pub enum LayerOpsArg {
    /// The activation.
    X,
    /// The first addend.
    A,
    /// The second addend.
    B,
    /// The norm's or the convolution's weight.
    Weight,
    /// A gate.
    Gate,
    /// The up projection.
    Up,
    /// The normalized activation, written beside the result.
    Normed,
    /// The sigmoid of its gate, written beside the result.
    Sigmoid,
    /// One absolute position per token.
    Positions,
    /// The convolution's window cache.
    State,
    /// The result.
    Out,
    /// The norm's epsilon.
    Eps,
    /// The rotary base.
    ThetaBase,
    /// An integer by value.
    Int(i32),
    /// A wide integer by value.
    Long(i64),
}

/// Rejects a buffer whose length disagrees with the declared geometry.
pub fn check_len(what: &'static str, expected: usize, got: usize) -> (r: Result<(), LayerOpsError>)
    ensures
        match length_refusal(what, expected as int, got) {
            Some(e) => r == Err::<(), LayerOpsError>(e),
            None => r is Ok,
        },
{
    if got == expected {
        Ok(())
    } else {
        Err(LayerOpsError::ShapeMismatch { what, expected, got })
    }
}

/// The error of a buffer of `got` floats where `expected` are required.
pub open spec fn length_refusal(what: &'static str, expected: int, got: usize) -> Option<
    LayerOpsError,
> {
    if got == expected {
        None
    } else {
        Some(LayerOpsError::ShapeMismatch { what, expected: expected as usize, got })
    }
}

/// The first error of two checks in order.
pub open spec fn first(a: Option<LayerOpsError>, b: Option<LayerOpsError>) -> Option<
    LayerOpsError,
> {
    match a {
        Some(e) => Some(e),
        None => b,
    }
}

/// Threads for a row of `width` elements: whole warps, at least one and at most
/// [`MAX_BLOCK`] threads.
pub open spec fn row_block(width: int) -> int {
    if width > 992 {
        1024
    } else if width <= 32 {
        32
    } else {
        launch::ceil_div(width, 32) * 32
    }
}

/// Block width for a row of `width` elements: a whole number of warps, capped
/// at [`MAX_BLOCK`], with wider rows covered by the kernel's strided loop.
///
/// Whole warps are required: the block's reduction shuffles with a full mask,
/// so every lane of every warp has to reach it.
pub fn block_for_width(width: usize) -> (n: usize)
    ensures
        n == row_block(width as int),
        n % 32 == 0,
        32 <= n <= MAX_BLOCK,
{
    if width > 992 {
        MAX_BLOCK
    } else if width <= 32 {
        32
    } else {
        div_ceil(width, 32) * 32
    }
}

/// Blocks of a grid-stride launch over `n` elements.
pub open spec fn stride_grid(n: int) -> int {
    if launch::ceil_div(n, BLOCK as int) <= MAX_GRID {
        launch::ceil_div(n, BLOCK as int)
    } else {
        MAX_GRID as int
    }
}

/// Shape of a grid-stride launch over `n` elements.
pub open spec fn elementwise_config(n: int) -> LaunchConfig {
    LaunchConfig {
        grid_dim: (stride_grid(n) as u32, 1, 1),
        block_dim: (256, 1, 1),
        shared_mem_bytes: 0,
    }
}

/// Shape of the grid-stride elementwise kernels.
///
/// The grid is capped rather than derived from `n`, so that a captured launch
/// can be replayed at another length.
pub fn elementwise_cfg(n: usize) -> (c: LaunchConfig)
    ensures
        c == elementwise_config(n as int),
{
    LaunchConfig {
        grid_dim: (min_usize(div_ceil(n, BLOCK), MAX_GRID) as u32, 1, 1),
        block_dim: (BLOCK as u32, 1, 1),
        shared_mem_bytes: 0,
    }
}

/// Shape of a row kernel: one block per row, one shared float per warp.
pub open spec fn row_config(rows: int, width: int) -> LaunchConfig {
    LaunchConfig {
        grid_dim: (rows as u32, 1, 1),
        block_dim: (row_block(width) as u32, 1, 1),
        shared_mem_bytes: (launch::ceil_div(row_block(width), 32) * 4) as u32,
    }
}

fn row_cfg(rows: usize, width: usize) -> (c: LaunchConfig)
    ensures
        c == row_config(rows as int, width as int),
{
    let block: usize = block_for_width(width);
    LaunchConfig {
        grid_dim: (rows as u32, 1, 1),
        block_dim: (block as u32, 1, 1),
        shared_mem_bytes: (div_ceil(block, 32) * 4) as u32,
    }
}

/// Why a fused norm and SwiGLU is refused, if it is. Lengths come in argument
/// order: activation, weight, gate, normalized activation, result.
pub open spec fn rms_norm_swiglu_refusal(
    x: usize,
    weight: usize,
    gate: usize,
    normed: usize,
    out: usize,
    rows: usize,
    width: usize,
) -> Option<LayerOpsError> {
    if width == 0 {
        Some(LayerOpsError::UnsupportedWidth { width })
    } else {
        let n = rows * width;
        first(
            length_refusal("rms_norm x", n, x),
            first(
                length_refusal("rms_norm weight", width as int, weight),
                first(
                    length_refusal("swiglu gate", n, gate),
                    first(
                        length_refusal("rms_norm out", n, normed),
                        length_refusal("swiglu out", n, out),
                    ),
                ),
            ),
        )
    }
}

/// Why a norm is refused, if it is.
pub open spec fn rms_norm_refusal(
    x: usize,
    weight: usize,
    out: usize,
    rows: usize,
    width: usize,
) -> Option<LayerOpsError> {
    if width == 0 {
        Some(LayerOpsError::UnsupportedWidth { width })
    } else {
        first(
            length_refusal("rms_norm x", rows * width, x),
            first(
                length_refusal("rms_norm weight", width as int, weight),
                length_refusal("rms_norm out", rows * width, out),
            ),
        )
    }
}

/// Head shapes the rotary kernel serves.
pub open spec fn rotary_shape_ok(head_dim: int, rope_dim: int) -> bool {
    0 < head_dim <= MAX_BLOCK && rope_dim % 2 == 0 && rope_dim <= head_dim
}

/// Why a rotary embedding is refused, if it is.
pub open spec fn rope_refusal(
    x: usize,
    positions: usize,
    out: usize,
    seq_len: usize,
    heads: usize,
    head_dim: usize,
    rope_dim: usize,
) -> Option<LayerOpsError> {
    if !rotary_shape_ok(head_dim as int, rope_dim as int) {
        Some(LayerOpsError::UnsupportedRotaryShape { head_dim, rope_dim })
    } else {
        let n = seq_len * heads * head_dim;
        first(
            length_refusal("rope x", n, x),
            first(
                length_refusal("rope out", n, out),
                length_refusal("rope positions", seq_len as int, positions),
            ),
        )
    }
}

/// Why a SwiGLU is refused, if it is.
pub open spec fn swiglu_refusal(gate: usize, up: usize, out: usize, n: usize) -> Option<
    LayerOpsError,
> {
    first(
        length_refusal("swiglu gate", n as int, gate),
        first(
            length_refusal("swiglu up", n as int, up),
            length_refusal("swiglu out", n as int, out),
        ),
    )
}

/// Why a sigmoid gate is refused, if it is.
pub open spec fn sigmoid_gate_refusal(
    x: usize,
    gate: usize,
    sig: usize,
    out: usize,
    rows: usize,
    width: usize,
    shape: GateShape,
) -> Option<LayerOpsError> {
    if width == 0 {
        Some(LayerOpsError::UnsupportedWidth { width })
    } else {
        let gates = shape.gate_count(rows as int, width as int);
        first(
            length_refusal("sigmoid_gate x", rows * width, x),
            first(
                length_refusal("sigmoid_gate gate", gates, gate),
                first(
                    length_refusal("sigmoid_gate sigmoid", gates, sig),
                    length_refusal("sigmoid_gate out", rows * width, out),
                ),
            ),
        )
    }
}

/// Why an add is refused, if it is.
pub open spec fn add_refusal(a: usize, b: usize, out: usize, n: usize) -> Option<LayerOpsError> {
    first(
        length_refusal("add a", n as int, a),
        first(length_refusal("add b", n as int, b), length_refusal("add out", n as int, out)),
    )
}

/// Why a softplus is refused, if it is.
pub open spec fn softplus_refusal(x: usize, out: usize, n: usize) -> Option<LayerOpsError> {
    first(length_refusal("softplus x", n as int, x), length_refusal("softplus out", n as int, out))
}

/// Convolution shapes the kernels serve.
pub open spec fn conv_shape_ok(channels: int, conv_kernel: int) -> bool {
    1 <= conv_kernel <= MAX_CONV_KERNEL && 0 < channels
}

/// Why a convolution is refused, if it is.
pub open spec fn conv1d_refusal(
    x: usize,
    weight: usize,
    state: usize,
    out: usize,
    seq_len: usize,
    channels: usize,
    conv_kernel: usize,
) -> Option<LayerOpsError> {
    if conv_kernel == 0 || conv_kernel > MAX_CONV_KERNEL {
        Some(LayerOpsError::UnsupportedConvKernel { conv_kernel })
    } else if channels == 0 {
        Some(LayerOpsError::UnsupportedWidth { width: channels })
    } else {
        first(
            length_refusal("conv1d x", seq_len * channels, x),
            first(
                length_refusal("conv1d weight", channels * conv_kernel, weight),
                first(
                    length_refusal("conv1d state", channels * (conv_kernel - 1), state),
                    length_refusal("conv1d out", seq_len * channels, out),
                ),
            ),
        )
    }
}

/// The one-token convolution: output and cache advance together.
pub open spec fn conv1d_step_launch(channels: int, conv_kernel: int) -> launch::LaunchView<
    LayerOpsArg,
> {
    launch::LaunchView {
        kernel: "conv1d_step"@,
        config: LaunchConfig {
            grid_dim: (launch::ceil_div(channels, BLOCK as int) as u32, 1, 1),
            block_dim: (256, 1, 1),
            shared_mem_bytes: 0,
        },
        args: seq![
            LayerOpsArg::X,
            LayerOpsArg::Weight,
            LayerOpsArg::State,
            LayerOpsArg::Out,
            LayerOpsArg::Int(channels as i32),
            LayerOpsArg::Int(conv_kernel as i32),
        ],
    }
}

/// The convolution over a sequence, reading the old cache.
pub open spec fn conv1d_launch(seq_len: int, channels: int, conv_kernel: int) -> launch::LaunchView<
    LayerOpsArg,
> {
    launch::LaunchView {
        kernel: "conv1d_causal_depthwise"@,
        config: LaunchConfig {
            grid_dim: (launch::ceil_div(channels, BLOCK as int) as u32, seq_len as u32, 1),
            block_dim: (256, 1, 1),
            shared_mem_bytes: 0,
        },
        args: seq![
            LayerOpsArg::X,
            LayerOpsArg::Weight,
            LayerOpsArg::State,
            LayerOpsArg::Out,
            LayerOpsArg::Int(channels as i32),
            LayerOpsArg::Int(conv_kernel as i32),
        ],
    }
}

/// The cache advance over a sequence.
pub open spec fn conv1d_state_launch(
    seq_len: int,
    channels: int,
    conv_kernel: int,
) -> launch::LaunchView<LayerOpsArg> {
    launch::LaunchView {
        kernel: "conv1d_update_state"@,
        config: elementwise_config(channels),
        args: seq![
            LayerOpsArg::X,
            LayerOpsArg::State,
            LayerOpsArg::Int(seq_len as i32),
            LayerOpsArg::Int(channels as i32),
            LayerOpsArg::Int(conv_kernel as i32),
        ],
    }
}

/// The launches of a convolution, in order.
pub open spec fn conv1d_launches(seq_len: int, channels: int, conv_kernel: int) -> Seq<
    launch::LaunchView<LayerOpsArg>,
> {
    if seq_len == 0 {
        seq![]
    } else if seq_len == 1 {
        seq![conv1d_step_launch(channels, conv_kernel)]
    } else {
        seq![
            conv1d_launch(seq_len, channels, conv_kernel),
            conv1d_state_launch(seq_len, channels, conv_kernel),
        ]
    }
}

/// The fused norm and SwiGLU.
pub open spec fn rms_norm_swiglu_launch(
    rows: usize,
    width: usize,
) -> launch::LaunchView<LayerOpsArg> {
    launch::LaunchView {
        kernel: "rms_norm_swiglu_rows"@,
        config: row_config(rows as int, width as int),
        args: seq![
            LayerOpsArg::X,
            LayerOpsArg::Weight,
            LayerOpsArg::Gate,
            LayerOpsArg::Normed,
            LayerOpsArg::Out,
            LayerOpsArg::Int(width as i32),
            LayerOpsArg::Eps,
        ],
    }
}

/// The norm.
pub open spec fn rms_norm_launch(rows: usize, width: usize) -> launch::LaunchView<LayerOpsArg> {
    launch::LaunchView {
        kernel: "rms_norm_rows"@,
        config: row_config(rows as int, width as int),
        args: seq![
            LayerOpsArg::X,
            LayerOpsArg::Weight,
            LayerOpsArg::Out,
            LayerOpsArg::Int(width as i32),
            LayerOpsArg::Eps,
        ],
    }
}

/// The rotary embedding.
pub open spec fn rope_launch(
    seq_len: usize,
    heads: usize,
    head_dim: usize,
    rope_dim: usize,
) -> launch::LaunchView<LayerOpsArg> {
    launch::LaunchView {
        kernel: "rope_partial"@,
        config: LaunchConfig {
            grid_dim: (heads as u32, seq_len as u32, 1),
            block_dim: (head_dim as u32, 1, 1),
            shared_mem_bytes: 0,
        },
        args: seq![
            LayerOpsArg::X,
            LayerOpsArg::Positions,
            LayerOpsArg::Out,
            LayerOpsArg::Int(heads as i32),
            LayerOpsArg::Int(head_dim as i32),
            LayerOpsArg::Int(rope_dim as i32),
            LayerOpsArg::ThetaBase,
        ],
    }
}

/// The SwiGLU.
pub open spec fn swiglu_launch(n: usize) -> launch::LaunchView<LayerOpsArg> {
    launch::LaunchView {
        kernel: "swiglu_mul"@,
        config: elementwise_config(n as int),
        args: seq![
            LayerOpsArg::Gate,
            LayerOpsArg::Up,
            LayerOpsArg::Out,
            LayerOpsArg::Long(n as i64),
        ],
    }
}

/// The sigmoid gate.
pub open spec fn sigmoid_gate_launch(
    rows: usize,
    width: usize,
    shape: GateShape,
) -> launch::LaunchView<LayerOpsArg> {
    launch::LaunchView {
        kernel: "sigmoid_gate_mul"@,
        config: elementwise_config(rows * width),
        args: seq![
            LayerOpsArg::X,
            LayerOpsArg::Gate,
            LayerOpsArg::Sigmoid,
            LayerOpsArg::Out,
            LayerOpsArg::Long((rows * width) as i64),
            LayerOpsArg::Int(width as i32),
            LayerOpsArg::Int(
                if shape == GateShape::PerRow {
                    1
                } else {
                    0
                },
            ),
        ],
    }
}

/// The sum.
pub open spec fn add_launch(n: usize) -> launch::LaunchView<LayerOpsArg> {
    launch::LaunchView {
        kernel: "tensor_add"@,
        config: elementwise_config(n as int),
        args: seq![
            LayerOpsArg::A,
            LayerOpsArg::B,
            LayerOpsArg::Out,
            LayerOpsArg::Long(n as i64),
        ],
    }
}

/// The softplus.
pub open spec fn softplus_launch(n: usize) -> launch::LaunchView<LayerOpsArg> {
    launch::LaunchView {
        kernel: "softplus_elementwise"@,
        config: elementwise_config(n as int),
        args: seq![LayerOpsArg::X, LayerOpsArg::Out, LayerOpsArg::Long(n as i64)],
    }
}

/// At most one launch: none over no elements.
pub open spec fn launches_unless_empty(
    l: Option<Launch<LayerOpsArg>>,
    empty: bool,
    kernel: Seq<char>,
    config: LaunchConfig,
    args: Seq<LayerOpsArg>,
) -> bool {
    if empty {
        l is None
    } else {
        l matches Some(l) && l.runs(kernel, config, args)
    }
}

/// The compiled layer ops.
pub struct LayerOpsKernels {
    ptx: String,
}

impl LayerOpsKernels {
    /// The PTX the entry points are loaded from.
    pub closed spec fn image(self) -> Seq<char> {
        self.ptx@
    }

    /// The kernels of already compiled PTX.
    pub fn from_ptx(ptx: String) -> (k: Self)
        ensures
            k.image() == ptx@,
    {
        LayerOpsKernels { ptx }
    }

    /// Compile every layer op into one module.
    pub fn new(cache: &mut PtxCache) -> (r: Result<Self, LayerOpsError>)
        ensures
            old(cache).entries().contains_key(LAYER_OPS_SRC@) ==> r is Ok,
            ptx::counted(*old(cache), *final(cache), LAYER_OPS_SRC@, "layer_ops"@),
            r matches Ok(k) ==> ptx::obtained(
                old(cache).entries(),
                final(cache).entries(),
                LAYER_OPS_SRC@,
                "layer_ops"@,
                k.image(),
            ),
            r matches Err(e) ==> {
                &&& e matches LayerOpsError::Compile(m) && ptx::rejected(LAYER_OPS_SRC@, "layer_ops"@, m@)
                &&& final(cache).entries() == old(cache).entries()
            },
    {
        match compile_family(cache, LAYER_OPS_SRC, "layer_ops") {
            Ok(ptx) => Ok(Self::from_ptx(ptx)),
            Err(m) => Err(LayerOpsError::Compile(m)),
        }
    }

    /// The PTX to load.
    pub fn ptx(&self) -> (s: &str)
        ensures
            s@ == self.image(),
    {
        self.ptx.as_str()
    }

    /// The entry points to load.
    pub fn entry_points() -> (names: Vec<&'static str>)
        ensures
            names@ == seq![
                "rms_norm_rows",
                "rms_norm_swiglu_rows",
                "rope_partial",
                "swiglu_mul",
                "sigmoid_gate_mul",
                "tensor_add",
                "softplus_elementwise",
                "conv1d_causal_depthwise",
                "conv1d_update_state",
                "conv1d_step",
            ],
    {
        vec![
            "rms_norm_rows",
            "rms_norm_swiglu_rows",
            "rope_partial",
            "swiglu_mul",
            "sigmoid_gate_mul",
            "tensor_add",
            "softplus_elementwise",
            "conv1d_causal_depthwise",
            "conv1d_update_state",
            "conv1d_step",
        ]
    }

    /// RMSNorm over `[rows][width]`, then `out = silu(gate) * normed`, in one
    /// launch. The normalized activation is still written.
    pub fn rms_norm_swiglu(
        &self,
        x: usize,
        weight: usize,
        gate: usize,
        normed: usize,
        out: usize,
        rows: usize,
        width: usize,
    ) -> (r: Result<Option<Launch<LayerOpsArg>>, LayerOpsError>)
        requires
            rows * width <= usize::MAX,
        ensures
            r matches Ok(Some(l)) ==> l@ == rms_norm_swiglu_launch(rows, width),
            match rms_norm_swiglu_refusal(x, weight, gate, normed, out, rows, width) {
                Some(e) => r == Err::<Option<Launch<LayerOpsArg>>, LayerOpsError>(e),
                None => r matches Ok(l) && launches_unless_empty(
                    l,
                    rows == 0,
                    "rms_norm_swiglu_rows"@,
                    row_config(rows as int, width as int),
                    seq![
                        LayerOpsArg::X,
                        LayerOpsArg::Weight,
                        LayerOpsArg::Gate,
                        LayerOpsArg::Normed,
                        LayerOpsArg::Out,
                        LayerOpsArg::Int(width as i32),
                        LayerOpsArg::Eps,
                    ],
                ),
            },
    {
        if width == 0 {
            return Err(LayerOpsError::UnsupportedWidth { width });
        }
        let n: usize = rows * width;
        check_len("rms_norm x", n, x)?;
        check_len("rms_norm weight", width, weight)?;
        check_len("swiglu gate", n, gate)?;
        check_len("rms_norm out", n, normed)?;
        check_len("swiglu out", n, out)?;
        if rows == 0 {
            return Ok(None);
        }
        Ok(
            Some(
                Launch {
                    kernel: "rms_norm_swiglu_rows",
                    config: row_cfg(rows, width),
                    args: vec![
                        LayerOpsArg::X,
                        LayerOpsArg::Weight,
                        LayerOpsArg::Gate,
                        LayerOpsArg::Normed,
                        LayerOpsArg::Out,
                        LayerOpsArg::Int(width as i32),
                        LayerOpsArg::Eps,
                    ],
                },
            ),
        )
    }

    /// RMSNorm over `rows` independent rows of `width` elements each.
    ///
    /// `x` and `out` are `[rows][width]`; `weight` is one row shared by all.
    /// The result may alias the activation: each thread writes the positions
    /// it reads, after the block's reduction.
    pub fn rms_norm(&self, x: usize, weight: usize, out: usize, rows: usize, width: usize) -> (r:
        Result<Option<Launch<LayerOpsArg>>, LayerOpsError>)
        requires
            rows * width <= usize::MAX,
        ensures
            r matches Ok(Some(l)) ==> l@ == rms_norm_launch(rows, width),
            match rms_norm_refusal(x, weight, out, rows, width) {
                Some(e) => r == Err::<Option<Launch<LayerOpsArg>>, LayerOpsError>(e),
                None => r matches Ok(l) && launches_unless_empty(
                    l,
                    rows == 0,
                    "rms_norm_rows"@,
                    row_config(rows as int, width as int),
                    seq![
                        LayerOpsArg::X,
                        LayerOpsArg::Weight,
                        LayerOpsArg::Out,
                        LayerOpsArg::Int(width as i32),
                        LayerOpsArg::Eps,
                    ],
                ),
            },
    {
        if width == 0 {
            return Err(LayerOpsError::UnsupportedWidth { width });
        }
        check_len("rms_norm x", rows * width, x)?;
        check_len("rms_norm weight", width, weight)?;
        check_len("rms_norm out", rows * width, out)?;
        if rows == 0 {
            return Ok(None);
        }
        Ok(
            Some(
                Launch {
                    kernel: "rms_norm_rows",
                    config: row_cfg(rows, width),
                    args: vec![
                        LayerOpsArg::X,
                        LayerOpsArg::Weight,
                        LayerOpsArg::Out,
                        LayerOpsArg::Int(width as i32),
                        LayerOpsArg::Eps,
                    ],
                },
            ),
        )
    }

    /// Partial rotary embedding over `[seq_len][heads][head_dim]`.
    ///
    /// Dimensions from `rope_dim` on are copied. The result must not alias the
    /// activation: an element of a rotated pair is written from both of the
    /// pair's elements.
    pub fn rope(
        &self,
        x: usize,
        positions: usize,
        out: usize,
        seq_len: usize,
        heads: usize,
        head_dim: usize,
        rope_dim: usize,
    ) -> (r: Result<Option<Launch<LayerOpsArg>>, LayerOpsError>)
        requires
            rotary_shape_ok(head_dim as int, rope_dim as int) ==> seq_len * heads * head_dim
                <= usize::MAX,
        ensures
            r matches Ok(Some(l)) ==> l@ == rope_launch(seq_len, heads, head_dim, rope_dim),
            match rope_refusal(x, positions, out, seq_len, heads, head_dim, rope_dim) {
                Some(e) => r == Err::<Option<Launch<LayerOpsArg>>, LayerOpsError>(e),
                None => r matches Ok(l) && launches_unless_empty(
                    l,
                    seq_len == 0 || heads == 0,
                    "rope_partial"@,
                    LaunchConfig {
                        grid_dim: (heads as u32, seq_len as u32, 1),
                        block_dim: (head_dim as u32, 1, 1),
                        shared_mem_bytes: 0,
                    },
                    seq![
                        LayerOpsArg::X,
                        LayerOpsArg::Positions,
                        LayerOpsArg::Out,
                        LayerOpsArg::Int(heads as i32),
                        LayerOpsArg::Int(head_dim as i32),
                        LayerOpsArg::Int(rope_dim as i32),
                        LayerOpsArg::ThetaBase,
                    ],
                ),
            },
    {
        if head_dim == 0 || head_dim > MAX_BLOCK || rope_dim % 2 != 0 || rope_dim > head_dim {
            return Err(LayerOpsError::UnsupportedRotaryShape { head_dim, rope_dim });
        }
        proof {
            let (s, h, d) = (seq_len as int, heads as int, head_dim as int);
            assert(s * h <= s * h * d) by (nonlinear_arith)
                requires
                    0 <= s,
                    0 <= h,
                    1 <= d,
            ;
        }
        let n: usize = seq_len * heads * head_dim;
        check_len("rope x", n, x)?;
        check_len("rope out", n, out)?;
        check_len("rope positions", seq_len, positions)?;
        if seq_len == 0 || heads == 0 {
            return Ok(None);
        }
        Ok(
            Some(
                Launch {
                    kernel: "rope_partial",
                    config: LaunchConfig {
                        grid_dim: (heads as u32, seq_len as u32, 1),
                        block_dim: (head_dim as u32, 1, 1),
                        shared_mem_bytes: 0,
                    },
                    args: vec![
                        LayerOpsArg::X,
                        LayerOpsArg::Positions,
                        LayerOpsArg::Out,
                        LayerOpsArg::Int(heads as i32),
                        LayerOpsArg::Int(head_dim as i32),
                        LayerOpsArg::Int(rope_dim as i32),
                        LayerOpsArg::ThetaBase,
                    ],
                },
            ),
        )
    }

    /// `out = silu(gate) * up` over `n` elements.
    pub fn swiglu(&self, gate: usize, up: usize, out: usize, n: usize) -> (r: Result<
        Option<Launch<LayerOpsArg>>,
        LayerOpsError,
    >)
        ensures
            r matches Ok(Some(l)) ==> l@ == swiglu_launch(n),
            match swiglu_refusal(gate, up, out, n) {
                Some(e) => r == Err::<Option<Launch<LayerOpsArg>>, LayerOpsError>(e),
                None => r matches Ok(l) && launches_unless_empty(
                    l,
                    n == 0,
                    "swiglu_mul"@,
                    elementwise_config(n as int),
                    seq![
                        LayerOpsArg::Gate,
                        LayerOpsArg::Up,
                        LayerOpsArg::Out,
                        LayerOpsArg::Long(n as i64),
                    ],
                ),
            },
    {
        check_len("swiglu gate", n, gate)?;
        check_len("swiglu up", n, up)?;
        check_len("swiglu out", n, out)?;
        if n == 0 {
            return Ok(None);
        }
        Ok(
            Some(
                Launch {
                    kernel: "swiglu_mul",
                    config: elementwise_cfg(n),
                    args: vec![
                        LayerOpsArg::Gate,
                        LayerOpsArg::Up,
                        LayerOpsArg::Out,
                        LayerOpsArg::Long(n as i64),
                    ],
                },
            ),
        )
    }

    /// `out = sigmoid(gate) * x` over a `[rows][width]` activation, writing the
    /// sigmoid itself beside it.
    ///
    /// `gate` and `sig` have the length of `shape`, `x` and `out` that of the
    /// activation. The result may alias the activation; the sigmoid must
    /// alias neither.
    pub fn sigmoid_gate(
        &self,
        x: usize,
        gate: usize,
        sig: usize,
        out: usize,
        rows: usize,
        width: usize,
        shape: GateShape,
    ) -> (r: Result<Option<Launch<LayerOpsArg>>, LayerOpsError>)
        requires
            rows * width <= usize::MAX,
        ensures
            r matches Ok(Some(l)) ==> l@ == sigmoid_gate_launch(rows, width, shape),
            match sigmoid_gate_refusal(x, gate, sig, out, rows, width, shape) {
                Some(e) => r == Err::<Option<Launch<LayerOpsArg>>, LayerOpsError>(e),
                None => r matches Ok(l) && launches_unless_empty(
                    l,
                    rows == 0,
                    "sigmoid_gate_mul"@,
                    elementwise_config(rows * width),
                    seq![
                        LayerOpsArg::X,
                        LayerOpsArg::Gate,
                        LayerOpsArg::Sigmoid,
                        LayerOpsArg::Out,
                        LayerOpsArg::Long((rows * width) as i64),
                        LayerOpsArg::Int(width as i32),
                        LayerOpsArg::Int(
                            if shape == GateShape::PerRow {
                                1
                            } else {
                                0
                            },
                        ),
                    ],
                ),
            },
    {
        if width == 0 {
            return Err(LayerOpsError::UnsupportedWidth { width });
        }
        let n: usize = rows * width;
        let gate_len: usize = shape.gate_len(rows, width);
        check_len("sigmoid_gate x", n, x)?;
        check_len("sigmoid_gate gate", gate_len, gate)?;
        check_len("sigmoid_gate sigmoid", gate_len, sig)?;
        check_len("sigmoid_gate out", n, out)?;
        if rows == 0 {
            return Ok(None);
        }
        let broadcast: i32 = match shape {
            GateShape::Elementwise => 0,
            GateShape::PerRow => 1,
        };
        Ok(
            Some(
                Launch {
                    kernel: "sigmoid_gate_mul",
                    config: elementwise_cfg(n),
                    args: vec![
                        LayerOpsArg::X,
                        LayerOpsArg::Gate,
                        LayerOpsArg::Sigmoid,
                        LayerOpsArg::Out,
                        LayerOpsArg::Long(n as i64),
                        LayerOpsArg::Int(width as i32),
                        LayerOpsArg::Int(broadcast),
                    ],
                },
            ),
        )
    }

    /// `out = a + b` over `n` elements, the residual add. The result may alias
    /// either addend.
    pub fn add(&self, a: usize, b: usize, out: usize, n: usize) -> (r: Result<
        Option<Launch<LayerOpsArg>>,
        LayerOpsError,
    >)
        ensures
            r matches Ok(Some(l)) ==> l@ == add_launch(n),
            match add_refusal(a, b, out, n) {
                Some(e) => r == Err::<Option<Launch<LayerOpsArg>>, LayerOpsError>(e),
                None => r matches Ok(l) && launches_unless_empty(
                    l,
                    n == 0,
                    "tensor_add"@,
                    elementwise_config(n as int),
                    seq![
                        LayerOpsArg::A,
                        LayerOpsArg::B,
                        LayerOpsArg::Out,
                        LayerOpsArg::Long(n as i64),
                    ],
                ),
            },
    {
        check_len("add a", n, a)?;
        check_len("add b", n, b)?;
        check_len("add out", n, out)?;
        if n == 0 {
            return Ok(None);
        }
        Ok(
            Some(
                Launch {
                    kernel: "tensor_add",
                    config: elementwise_cfg(n),
                    args: vec![
                        LayerOpsArg::A,
                        LayerOpsArg::B,
                        LayerOpsArg::Out,
                        LayerOpsArg::Long(n as i64),
                    ],
                },
            ),
        )
    }

    /// `out = log(1 + exp(x))` over `n` elements, passing `x` through where the
    /// exponential would overflow. The result may alias the activation.
    pub fn softplus(&self, x: usize, out: usize, n: usize) -> (r: Result<
        Option<Launch<LayerOpsArg>>,
        LayerOpsError,
    >)
        ensures
            r matches Ok(Some(l)) ==> l@ == softplus_launch(n),
            match softplus_refusal(x, out, n) {
                Some(e) => r == Err::<Option<Launch<LayerOpsArg>>, LayerOpsError>(e),
                None => r matches Ok(l) && launches_unless_empty(
                    l,
                    n == 0,
                    "softplus_elementwise"@,
                    elementwise_config(n as int),
                    seq![LayerOpsArg::X, LayerOpsArg::Out, LayerOpsArg::Long(n as i64)],
                ),
            },
    {
        check_len("softplus x", n, x)?;
        check_len("softplus out", n, out)?;
        if n == 0 {
            return Ok(None);
        }
        Ok(
            Some(
                Launch {
                    kernel: "softplus_elementwise",
                    config: elementwise_cfg(n),
                    args: vec![LayerOpsArg::X, LayerOpsArg::Out, LayerOpsArg::Long(n as i64)],
                },
            ),
        )
    }

    /// The short causal depthwise convolution, advancing the cache in place to
    /// the last `conv_kernel - 1` inputs.
    ///
    /// `x` and `out` are `[seq_len][channels]`, `weight` is
    /// `[channels][conv_kernel]` and the cache is
    /// `[channels][conv_kernel - 1]`, oldest first. Over a sequence the cache
    /// advance is a launch of its own, because the convolution reads the old
    /// cache; one token needs a single launch.
    pub fn conv1d(
        &self,
        x: usize,
        weight: usize,
        state: usize,
        out: usize,
        seq_len: usize,
        channels: usize,
        conv_kernel: usize,
    ) -> (r: Result<Vec<Launch<LayerOpsArg>>, LayerOpsError>)
        requires
            conv_shape_ok(channels as int, conv_kernel as int) ==> seq_len * channels
                <= usize::MAX,
            conv_shape_ok(channels as int, conv_kernel as int) && x == seq_len * channels
                ==> channels * conv_kernel <= usize::MAX,
        ensures
            match conv1d_refusal(x, weight, state, out, seq_len, channels, conv_kernel) {
                Some(e) => r == Err::<Vec<Launch<LayerOpsArg>>, LayerOpsError>(e),
                None => {
                    &&& r matches Ok(l)
                    &&& l@.len() == conv1d_launches(
                        seq_len as int,
                        channels as int,
                        conv_kernel as int,
                    ).len()
                    &&& forall|i: int|
                        0 <= i < l@.len() ==> (#[trigger] l@[i])@ == conv1d_launches(
                            seq_len as int,
                            channels as int,
                            conv_kernel as int,
                        )[i]
                },
            },
    {
        if conv_kernel == 0 || conv_kernel > MAX_CONV_KERNEL {
            return Err(LayerOpsError::UnsupportedConvKernel { conv_kernel });
        }
        if channels == 0 {
            return Err(LayerOpsError::UnsupportedWidth { width: channels });
        }
        proof {
            let (c, k) = (channels as int, conv_kernel as int);
            assert(0 <= c * (k - 1) <= c * k) by (nonlinear_arith)
                requires
                    0 <= c,
                    1 <= k,
            ;
        }
        check_len("conv1d x", seq_len * channels, x)?;
        check_len("conv1d weight", channels * conv_kernel, weight)?;
        check_len("conv1d state", channels * (conv_kernel - 1), state)?;
        check_len("conv1d out", seq_len * channels, out)?;
        if seq_len == 0 {
            return Ok(Vec::new());
        }
        let channels_arg = LayerOpsArg::Int(channels as i32);
        let conv_kernel_arg = LayerOpsArg::Int(conv_kernel as i32);
        if seq_len == 1 {
            let step = Launch {
                kernel: "conv1d_step",
                config: LaunchConfig {
                    grid_dim: (div_ceil(channels, BLOCK) as u32, 1, 1),
                    block_dim: (BLOCK as u32, 1, 1),
                    shared_mem_bytes: 0,
                },
                args: vec![
                    LayerOpsArg::X,
                    LayerOpsArg::Weight,
                    LayerOpsArg::State,
                    LayerOpsArg::Out,
                    channels_arg,
                    conv_kernel_arg,
                ],
            };
            assert(step@ =~= conv1d_step_launch(channels as int, conv_kernel as int));
            return Ok(vec![step]);
        }
        let conv = Launch {
            kernel: "conv1d_causal_depthwise",
            config: LaunchConfig {
                grid_dim: (div_ceil(channels, BLOCK) as u32, seq_len as u32, 1),
                block_dim: (BLOCK as u32, 1, 1),
                shared_mem_bytes: 0,
            },
            args: vec![
                LayerOpsArg::X,
                LayerOpsArg::Weight,
                LayerOpsArg::State,
                LayerOpsArg::Out,
                channels_arg,
                conv_kernel_arg,
            ],
        };
        assert(conv@ =~= conv1d_launch(seq_len as int, channels as int, conv_kernel as int));
        let advance = Launch {
            kernel: "conv1d_update_state",
            config: elementwise_cfg(channels),
            args: vec![
                LayerOpsArg::X,
                LayerOpsArg::State,
                LayerOpsArg::Int(seq_len as i32),
                channels_arg,
                conv_kernel_arg,
            ],
        };
        assert(advance@ =~= conv1d_state_launch(
            seq_len as int,
            channels as int,
            conv_kernel as int,
        ));
        Ok(vec![conv, advance])
    }
}

} // verus!
