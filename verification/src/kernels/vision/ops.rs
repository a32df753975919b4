//! The checks and the launches of the vision tower.

use crate::kernels::ptx;
use crate::kernels::ptx::{compile_family, PtxCache};
use crate::launch;
use crate::launch::{div_ceil, min_usize, Launch, LaunchConfig};
use crate::source::vision::VISION_SRC;
use crate::text;
use crate::text::push_decimal;
use vstd::prelude::*;
use vstd::string::StringExecFns;

verus! {

/// Threads per block.
pub const BLOCK: u32 = 256;

/// Something the vision family refuses.
#[derive(Debug)]
pub enum VisionError {
    /// The source was rejected.
    Build(String),
    /// A buffer is not the length the declared geometry requires.
    WrongLength { name: &'static str, expected: usize, got: usize },
}

impl VisionError {
    /// The text of the message.
    pub open spec fn text(self) -> Seq<char> {
        match self {
            VisionError::Build(m) => "vision kernel build failed: "@ + m@,
            VisionError::WrongLength { name, expected, got } => name@ + ": expected "@
                + text::decimal(expected as nat) + " elements, got "@ + text::decimal(got as nat),
        }
    }

    /// The message.
    pub fn message(&self) -> (s: String)
        ensures
            s@ == self.text(),
    {
        let mut s = String::new();
        match self {
            VisionError::Build(m) => {
                s.append("vision kernel build failed: ");
                s.append(m.as_str());
            },
            VisionError::WrongLength { name, expected, got } => {
                s.append(name);
                s.append(": expected ");
                push_decimal(&mut s, *expected);
                s.append(" elements, got ");
                push_decimal(&mut s, *got);
            },
        }
        s
    }
}

/// The error of a buffer that has to hold exactly `expected` elements.
pub open spec fn exact_refusal(name: &'static str, expected: int, got: usize) -> Option<
    VisionError,
> {
    if got == expected {
        None
    } else {
        Some(VisionError::WrongLength { name, expected: expected as usize, got })
    }
}

/// The error of a buffer that has to hold at least `expected` elements.
pub open spec fn least_refusal(name: &'static str, expected: int, got: usize) -> Option<
    VisionError,
> {
    if got >= expected {
        None
    } else {
        Some(VisionError::WrongLength { name, expected: expected as usize, got })
    }
}

/// The first error of two checks in order.
pub open spec fn first(a: Option<VisionError>, b: Option<VisionError>) -> Option<VisionError> {
    match a {
        Some(e) => Some(e),
        None => b,
    }
}

/// Rejects a buffer that does not hold exactly `expected` elements.
pub fn check_len(name: &'static str, expected: usize, got: usize) -> (r: Result<(), VisionError>)
    ensures
        match exact_refusal(name, expected as int, got) {
            Some(e) => r == Err::<(), VisionError>(e),
            None => r is Ok,
        },
{
    if expected == got {
        Ok(())
    } else {
        Err(VisionError::WrongLength { name, expected, got })
    }
}

/// Rejects a buffer that holds fewer than `expected` elements. Activations may
/// be sized past the launch's geometry; weights may not.
pub fn check_min(name: &'static str, expected: usize, got: usize) -> (r: Result<(), VisionError>)
    ensures
        match least_refusal(name, expected as int, got) {
            Some(e) => r == Err::<(), VisionError>(e),
            None => r is Ok,
        },
{
    if got >= expected {
        Ok(())
    } else {
        Err(VisionError::WrongLength { name, expected, got })
    }
}

/// An argument of a vision kernel.
#[derive(Debug, Clone, Copy, PartialEq, Eq)]
pub enum VisionArg {
    /// The activation.
    X,
    /// The result.
    Out,
    /// The norm's weight.
    Gamma,
    /// The norm's bias.
    Beta,
    /// The fused queries, keys and values, `[tokens][3][hidden]`.
    Qkv,
    /// A `(row, col)` pair per token.
    Positions,
    /// The attention scores.
    Scores,
    /// The addend that takes the sum.
    A,
    /// The other addend.
    B,
    /// The halves to widen.
    Source,
    /// The widened floats.
    Destination,
    /// The norm's epsilon.
    Eps,
    /// The rotary base.
    ThetaBase,
    /// An integer by value.
    Int(i32),
    /// A wide integer by value.
    Long(i64),
}

/// A buffer of a matrix product.
#[derive(Debug, Clone, Copy, PartialEq, Eq)]
pub enum MatmulBuffer {
    /// A projection's weight, `[out][in]`.
    Weight,
    /// A projection's input, `[tokens][in]`.
    Input,
    /// The fused queries, keys and values.
    Fused,
    /// The attention scores, `[heads][tokens][tokens]`.
    Scores,
    /// The attention probabilities, as the scores.
    Probs,
    /// The values.
    Values,
    /// The result.
    Output,
}

/// A buffer from an element offset on.
#[derive(Debug, Clone, Copy, PartialEq, Eq)]
pub struct Operand {
    /// The buffer.
    pub buffer: MatmulBuffer,
    /// Its first element.
    pub offset: usize,
}

/// A scalar factor of a matrix product.
#[derive(Debug, Clone, Copy, PartialEq, Eq)]
pub enum Factor {
    /// One.
    One,
    /// Zero.
    Zero,
    /// The factor the caller names.
    Given,
}

/// A matrix product `C = alpha * op(A) * op(B) + beta * C`, column-major, with
/// an optional bias over the rows of `C`.
#[derive(Debug, Clone, Copy, PartialEq, Eq)]
pub struct MatmulPlan {
    /// Whether `A` is transposed.
    pub transa: bool,
    /// Whether `B` is transposed.
    pub transb: bool,
    /// Whether `C` is transposed.
    pub transc: bool,
    /// Rows of `C`.
    pub m: u64,
    /// Columns of `C`.
    pub n: u64,
    /// The contracted dimension.
    pub k: u64,
    /// The factor of the product.
    pub alpha: Factor,
    /// Leading dimension of `A`.
    pub lda: i64,
    /// Leading dimension of `B`.
    pub ldb: i64,
    /// The factor of what `C` held.
    pub beta: Factor,
    /// Leading dimension of `C`.
    pub ldc: i64,
    /// Elements between batches of `A`.
    pub stride_a: Option<i64>,
    /// Elements between batches of `B`.
    pub stride_b: Option<i64>,
    /// Elements between batches of `C`.
    pub stride_c: Option<i64>,
    /// Elements between batches of the bias.
    pub stride_bias: Option<i64>,
    /// Products in the batch.
    pub batch_size: Option<i32>,
    /// `A`.
    pub a: Operand,
    /// `B`.
    pub b: Operand,
    /// `C`.
    pub c: Operand,
    /// Whether a bias is added.
    pub bias: bool,
}

/// Elements between batches: none for a single product.
pub open spec fn stride(s: Option<i64>) -> int {
    match s {
        Some(n) => n as int,
        None => 0,
    }
}

impl MatmulPlan {
    /// Element `(row, col)` of batch `batch` of `op(A)`, as a position of its
    /// buffer.
    pub open spec fn a_index(self, batch: int, row: int, col: int) -> int {
        self.a.offset + batch * stride(self.stride_a) + if self.transa {
            row * self.lda + col
        } else {
            col * self.lda + row
        }
    }

    /// Element `(row, col)` of batch `batch` of `op(B)`, as a position of its
    /// buffer.
    pub open spec fn b_index(self, batch: int, row: int, col: int) -> int {
        self.b.offset + batch * stride(self.stride_b) + if self.transb {
            row * self.ldb + col
        } else {
            col * self.ldb + row
        }
    }

    /// Element `(row, col)` of batch `batch` of `C`, as a position of its
    /// buffer.
    pub open spec fn c_index(self, batch: int, row: int, col: int) -> int {
        self.c.offset + batch * stride(self.stride_c) + col * self.ldc + row
    }
}

/// Shape of a launch of one thread per element.
pub open spec fn flat_config(n: int) -> LaunchConfig {
    LaunchConfig {
        grid_dim: (launch::ceil_div(n, BLOCK as int) as u32, 1, 1),
        block_dim: (BLOCK, 1, 1),
        shared_mem_bytes: 0,
    }
}

/// Shape of a launch of one block per row.
pub open spec fn rows_config(rows: int) -> LaunchConfig {
    LaunchConfig { grid_dim: (rows as u32, 1, 1), block_dim: (BLOCK, 1, 1), shared_mem_bytes: 0 }
}

fn grid_1d(n: usize) -> (c: LaunchConfig)
    ensures
        c == flat_config(n as int),
{
    LaunchConfig {
        grid_dim: (div_ceil(n, BLOCK as usize) as u32, 1, 1),
        block_dim: (BLOCK, 1, 1),
        shared_mem_bytes: 0,
    }
}

fn grid_rows(rows: usize) -> (c: LaunchConfig)
    ensures
        c == rows_config(rows as int),
{
    LaunchConfig { grid_dim: (rows as u32, 1, 1), block_dim: (BLOCK, 1, 1), shared_mem_bytes: 0 }
}

/// At most one launch: none over no elements.
pub open spec fn launches_unless_empty(
    l: Option<Launch<VisionArg>>,
    empty: bool,
    kernel: Seq<char>,
    config: LaunchConfig,
    args: Seq<VisionArg>,
) -> bool {
    if empty {
        l is None
    } else {
        l matches Some(l) && l.runs(kernel, config, args)
    }
}

/// Why a layer norm is refused, if it is.
pub open spec fn layer_norm_refusal(
    x: usize,
    out: usize,
    gamma: usize,
    beta: usize,
    rows: usize,
    width: usize,
) -> Option<VisionError> {
    first(
        least_refusal("layer_norm x", rows * width, x),
        first(
            least_refusal("layer_norm out", rows * width, out),
            first(
                exact_refusal("layer_norm gamma", width as int, gamma),
                exact_refusal("layer_norm beta", width as int, beta),
            ),
        ),
    )
}

/// Why a rotary embedding is refused, if it is.
pub open spec fn rope_refusal(qkv: usize, positions: usize, tokens: usize, hidden: usize) -> Option<
    VisionError,
> {
    first(
        least_refusal("rope qkv", tokens * 3 * hidden, qkv),
        least_refusal("rope positions", tokens * 2, positions),
    )
}

/// Head shapes the rotary kernel serves: a head of whole quarters, and a hidden
/// width of whole heads.
pub open spec fn rope_shape_ok(tokens: int, hidden: int, head_dim: int) -> bool {
    &&& head_dim % 4 == 0
    &&& if head_dim > 0 {
        hidden % head_dim == 0
    } else {
        hidden == 0 && tokens == 0
    }
}

/// Why an elementwise operation over two buffers is refused, if it is: the
/// shorter buffer is reported.
pub open spec fn pair_refusal(name: &'static str, a: usize, b: usize, n: usize) -> Option<
    VisionError,
> {
    least_refusal(
        name,
        n as int,
        if a <= b {
            a
        } else {
            b
        },
    )
}

/// Why a projection is refused, if it is. A short input or output is reported
/// with the longer of the two lengths required and the shorter of the two
/// given.
pub open spec fn proj_refusal(
    x: usize,
    w: usize,
    bias: Option<usize>,
    y: usize,
    tokens: usize,
    in_dim: usize,
    out_dim: usize,
) -> Option<VisionError> {
    first(
        exact_refusal("proj w", in_dim * out_dim, w),
        if x < tokens * in_dim || y < tokens * out_dim {
            Some(
                VisionError::WrongLength {
                    name: "proj x/y",
                    expected: (tokens * if in_dim >= out_dim {
                        in_dim
                    } else {
                        out_dim
                    }) as usize,
                    got: if x <= y {
                        x
                    } else {
                        y
                    },
                },
            )
        } else {
            match bias {
                Some(b) => exact_refusal("proj bias", out_dim as int, b),
                None => None,
            }
        },
    )
}

/// The product of a projection: `C(out x tokens) = w * x`, with `w` read
/// transposed and every row-major buffer at its own leading dimension.
pub open spec fn proj_plan(tokens: usize, in_dim: usize, out_dim: usize, bias: bool) -> MatmulPlan {
    MatmulPlan {
        transa: true,
        transb: false,
        transc: false,
        m: out_dim as u64,
        n: tokens as u64,
        k: in_dim as u64,
        alpha: Factor::One,
        lda: in_dim as i64,
        ldb: in_dim as i64,
        beta: Factor::Given,
        ldc: out_dim as i64,
        stride_a: None,
        stride_b: None,
        stride_c: None,
        stride_bias: None,
        batch_size: None,
        a: Operand { buffer: MatmulBuffer::Weight, offset: 0 },
        b: Operand { buffer: MatmulBuffer::Input, offset: 0 },
        c: Operand { buffer: MatmulBuffer::Output, offset: 0 },
        bias,
    }
}

/// The layer norm.
pub open spec fn layer_norm_launch(rows: usize, width: usize) -> launch::LaunchView<VisionArg> {
    launch::LaunchView {
        kernel: "vision_layer_norm"@,
        config: rows_config(rows as int),
        args: seq![
            VisionArg::X,
            VisionArg::Out,
            VisionArg::Gamma,
            VisionArg::Beta,
            VisionArg::Int(width as i32),
            VisionArg::Eps,
        ],
    }
}

/// The GELU.
pub open spec fn gelu_launch(n: usize) -> launch::LaunchView<VisionArg> {
    launch::LaunchView {
        kernel: "vision_gelu"@,
        config: flat_config(n as int),
        args: seq![VisionArg::X, VisionArg::Long(n as i64)],
    }
}

/// The rotary embedding.
pub open spec fn rope_launch(
    tokens: usize,
    hidden: usize,
    head_dim: usize,
) -> launch::LaunchView<VisionArg> {
    launch::LaunchView {
        kernel: "vision_rope_qk"@,
        config: LaunchConfig {
            grid_dim: (tokens as u32, 2, (hidden as int / head_dim as int) as u32),
            block_dim: ((head_dim as int / 2) as u32, 1, 1),
            shared_mem_bytes: 0,
        },
        args: seq![
            VisionArg::Qkv,
            VisionArg::Positions,
            VisionArg::Int(hidden as i32),
            VisionArg::Int(head_dim as i32),
            VisionArg::ThetaBase,
        ],
    }
}

/// The softmax.
pub open spec fn softmax_launch(rows: usize, row_len: usize) -> launch::LaunchView<VisionArg> {
    launch::LaunchView {
        kernel: "vision_softmax_rows"@,
        config: rows_config(rows as int),
        args: seq![VisionArg::Scores, VisionArg::Int(row_len as i32)],
    }
}

/// The sum.
pub open spec fn add_launch(n: usize) -> launch::LaunchView<VisionArg> {
    launch::LaunchView {
        kernel: "vision_add_f16"@,
        config: flat_config(n as int),
        args: seq![VisionArg::A, VisionArg::B, VisionArg::Long(n as i64)],
    }
}

/// The widening.
pub open spec fn widen_launch(n: usize) -> launch::LaunchView<VisionArg> {
    launch::LaunchView {
        kernel: "vision_half_to_float"@,
        config: flat_config(n as int),
        args: seq![VisionArg::Source, VisionArg::Destination, VisionArg::Long(n as i64)],
    }
}

/// The product of the attention scores: per head, keys against queries.
pub open spec fn scores_plan(
    q_offset: usize,
    k_offset: usize,
    tokens: usize,
    row_len: usize,
    head_dim: usize,
    heads: usize,
) -> MatmulPlan {
    MatmulPlan {
        transa: true,
        transb: false,
        transc: false,
        m: tokens as u64,
        n: tokens as u64,
        k: head_dim as u64,
        alpha: Factor::Given,
        lda: row_len as i64,
        ldb: row_len as i64,
        beta: Factor::Zero,
        ldc: tokens as i64,
        stride_a: Some(head_dim as i64),
        stride_b: Some(head_dim as i64),
        stride_c: Some((tokens * tokens) as i64),
        stride_bias: None,
        batch_size: Some(heads as i32),
        a: Operand { buffer: MatmulBuffer::Fused, offset: k_offset },
        b: Operand { buffer: MatmulBuffer::Fused, offset: q_offset },
        c: Operand { buffer: MatmulBuffer::Scores, offset: 0 },
        bias: false,
    }
}

/// The product of the attention output: per head, values against
/// probabilities.
pub open spec fn output_plan(
    v_offset: usize,
    out_offset: usize,
    tokens: usize,
    v_row_len: usize,
    out_row_len: usize,
    head_dim: usize,
    heads: usize,
) -> MatmulPlan {
    MatmulPlan {
        transa: false,
        transb: false,
        transc: false,
        m: head_dim as u64,
        n: tokens as u64,
        k: tokens as u64,
        alpha: Factor::One,
        lda: v_row_len as i64,
        ldb: tokens as i64,
        beta: Factor::Zero,
        ldc: out_row_len as i64,
        stride_a: Some(head_dim as i64),
        stride_b: Some((tokens * tokens) as i64),
        stride_c: Some(head_dim as i64),
        stride_bias: None,
        batch_size: Some(heads as i32),
        a: Operand { buffer: MatmulBuffer::Values, offset: v_offset },
        b: Operand { buffer: MatmulBuffer::Probs, offset: 0 },
        c: Operand { buffer: MatmulBuffer::Output, offset: out_offset },
        bias: false,
    }
}

/// `heads * tokens * tokens` bounds the products it is computed from.
proof fn lemma_score_products(heads: usize, tokens: usize)
    requires
        heads * tokens * tokens <= usize::MAX,
    ensures
        heads * tokens <= usize::MAX,
        heads > 0 ==> tokens * tokens <= usize::MAX,
{
    let (h, t) = (heads as int, tokens as int);
    if t > 0 {
        assert(h * t <= h * t * t) by (nonlinear_arith)
            requires
                0 <= h,
                1 <= t,
        ;
    } else {
        assert(h * t == 0) by (nonlinear_arith)
            requires
                t == 0,
        ;
    }
    if h > 0 {
        assert(t * t <= h * t * t) by (nonlinear_arith)
            requires
                1 <= h,
                0 <= t,
        ;
    }
}

/// The compiled vision kernels.
pub struct VisionKernels {
    ptx: String,
}

impl VisionKernels {
    /// The PTX the entry points are loaded from.
    pub closed spec fn image(self) -> Seq<char> {
        self.ptx@
    }

    /// The kernels of already compiled PTX.
    pub fn from_ptx(ptx: String) -> (k: Self)
        ensures
            k.image() == ptx@,
    {
        VisionKernels { ptx }
    }

    /// Compile the kernels.
    pub fn new(cache: &mut PtxCache) -> (r: Result<Self, VisionError>)
        ensures
            old(cache).entries().contains_key(VISION_SRC@) ==> r is Ok,
            ptx::counted(*old(cache), *final(cache), VISION_SRC@, "vision"@),
            r matches Ok(k) ==> ptx::obtained(
                old(cache).entries(),
                final(cache).entries(),
                VISION_SRC@,
                "vision"@,
                k.image(),
            ),
            r matches Err(e) ==> {
                &&& e matches VisionError::Build(m) && ptx::rejected(VISION_SRC@, "vision"@, m@)
                &&& final(cache).entries() == old(cache).entries()
            },
    {
        match compile_family(cache, VISION_SRC, "vision") {
            Ok(ptx) => Ok(Self::from_ptx(ptx)),
            Err(m) => Err(VisionError::Build(m)),
        }
    }

    /// The PTX to load.
    pub fn ptx(&self) -> (s: &str)
        ensures
            s@ == self.image(),
    {
        self.ptx.as_str()
    }

    /// The entry points to load.
    pub fn entry_points() -> (names: Vec<&'static str>)
        ensures
            names@ == seq![
                "vision_layer_norm",
                "vision_gelu",
                "vision_rope_qk",
                "vision_softmax_rows",
                "vision_add_f16",
                "vision_half_to_float",
            ],
    {
        vec![
            "vision_layer_norm",
            "vision_gelu",
            "vision_rope_qk",
            "vision_softmax_rows",
            "vision_add_f16",
            "vision_half_to_float",
        ]
    }

    /// LayerNorm with weight and bias over each of `rows` rows of `width`. The
    /// result must not alias the activation.
    pub fn layer_norm(
        &self,
        x: usize,
        out: usize,
        gamma: usize,
        beta: usize,
        rows: usize,
        width: usize,
    ) -> (r: Result<Option<Launch<VisionArg>>, VisionError>)
        requires
            rows * width <= usize::MAX,
        ensures
            r matches Ok(Some(l)) ==> l@ == layer_norm_launch(rows, width),
            match layer_norm_refusal(x, out, gamma, beta, rows, width) {
                Some(e) => r == Err::<Option<Launch<VisionArg>>, VisionError>(e),
                None => r matches Ok(l) && launches_unless_empty(
                    l,
                    rows == 0,
                    "vision_layer_norm"@,
                    rows_config(rows as int),
                    seq![
                        VisionArg::X,
                        VisionArg::Out,
                        VisionArg::Gamma,
                        VisionArg::Beta,
                        VisionArg::Int(width as i32),
                        VisionArg::Eps,
                    ],
                ),
            },
    {
        check_min("layer_norm x", rows * width, x)?;
        check_min("layer_norm out", rows * width, out)?;
        check_len("layer_norm gamma", width, gamma)?;
        check_len("layer_norm beta", width, beta)?;
        if rows == 0 {
            return Ok(None);
        }
        Ok(
            Some(
                Launch {
                    kernel: "vision_layer_norm",
                    config: grid_rows(rows),
                    args: vec![
                        VisionArg::X,
                        VisionArg::Out,
                        VisionArg::Gamma,
                        VisionArg::Beta,
                        VisionArg::Int(width as i32),
                        VisionArg::Eps,
                    ],
                },
            ),
        )
    }

    /// In-place GELU, in its tanh approximation, over the first `n` elements.
    pub fn gelu(&self, x: usize, n: usize) -> (r: Result<Option<Launch<VisionArg>>, VisionError>)
        ensures
            r matches Ok(Some(l)) ==> l@ == gelu_launch(n),
            match least_refusal("gelu x", n as int, x) {
                Some(e) => r == Err::<Option<Launch<VisionArg>>, VisionError>(e),
                None => r matches Ok(l) && launches_unless_empty(
                    l,
                    n == 0,
                    "vision_gelu"@,
                    flat_config(n as int),
                    seq![VisionArg::X, VisionArg::Long(n as i64)],
                ),
            },
    {
        check_min("gelu x", n, x)?;
        if n == 0 {
            return Ok(None);
        }
        Ok(
            Some(
                Launch {
                    kernel: "vision_gelu",
                    config: grid_1d(n),
                    args: vec![VisionArg::X, VisionArg::Long(n as i64)],
                },
            ),
        )
    }

    /// Rotary embedding over the query and key slices of the fused buffer.
    ///
    /// `positions` holds a `(row, col)` pair per token, in the order of the
    /// fused rows.
    pub fn rope_qk(
        &self,
        qkv: usize,
        positions: usize,
        tokens: usize,
        hidden: usize,
        head_dim: usize,
    ) -> (r: Result<Option<Launch<VisionArg>>, VisionError>)
        requires
            tokens * 3 <= usize::MAX,
            tokens * 3 * hidden <= usize::MAX,
            rope_refusal(qkv, positions, tokens, hidden) is None ==> rope_shape_ok(
                tokens as int,
                hidden as int,
                head_dim as int,
            ),
        ensures
            r matches Ok(Some(l)) ==> l@ == rope_launch(tokens, hidden, head_dim),
            match rope_refusal(qkv, positions, tokens, hidden) {
                Some(e) => r == Err::<Option<Launch<VisionArg>>, VisionError>(e),
                None => r matches Ok(l) && launches_unless_empty(
                    l,
                    tokens == 0,
                    "vision_rope_qk"@,
                    LaunchConfig {
                        grid_dim: (tokens as u32, 2, (hidden as int / head_dim as int) as u32),
                        block_dim: ((head_dim as int / 2) as u32, 1, 1),
                        shared_mem_bytes: 0,
                    },
                    seq![
                        VisionArg::Qkv,
                        VisionArg::Positions,
                        VisionArg::Int(hidden as i32),
                        VisionArg::Int(head_dim as i32),
                        VisionArg::ThetaBase,
                    ],
                ),
            },
    {
        check_min("rope qkv", tokens * 3 * hidden, qkv)?;
        check_min("rope positions", tokens * 2, positions)?;
        if tokens == 0 {
            return Ok(None);
        }
        let heads: usize = hidden / head_dim;
        Ok(
            Some(
                Launch {
                    kernel: "vision_rope_qk",
                    config: LaunchConfig {
                        grid_dim: (tokens as u32, 2, heads as u32),
                        block_dim: ((head_dim / 2) as u32, 1, 1),
                        shared_mem_bytes: 0,
                    },
                    args: vec![
                        VisionArg::Qkv,
                        VisionArg::Positions,
                        VisionArg::Int(hidden as i32),
                        VisionArg::Int(head_dim as i32),
                        VisionArg::ThetaBase,
                    ],
                },
            ),
        )
    }

    /// Softmax in place over each of `rows` rows of `row_len`.
    pub fn softmax_rows(&self, scores: usize, rows: usize, row_len: usize) -> (r: Result<
        Option<Launch<VisionArg>>,
        VisionError,
    >)
        requires
            rows * row_len <= usize::MAX,
        ensures
            r matches Ok(Some(l)) ==> l@ == softmax_launch(rows, row_len),
            match least_refusal("softmax scores", rows * row_len, scores) {
                Some(e) => r == Err::<Option<Launch<VisionArg>>, VisionError>(e),
                None => r matches Ok(l) && launches_unless_empty(
                    l,
                    rows == 0,
                    "vision_softmax_rows"@,
                    rows_config(rows as int),
                    seq![VisionArg::Scores, VisionArg::Int(row_len as i32)],
                ),
            },
    {
        check_min("softmax scores", rows * row_len, scores)?;
        if rows == 0 {
            return Ok(None);
        }
        Ok(
            Some(
                Launch {
                    kernel: "vision_softmax_rows",
                    config: grid_rows(rows),
                    args: vec![VisionArg::Scores, VisionArg::Int(row_len as i32)],
                },
            ),
        )
    }

    /// `a[..n] += b[..n]`, elementwise.
    pub fn add_assign(&self, a: usize, b: usize, n: usize) -> (r: Result<
        Option<Launch<VisionArg>>,
        VisionError,
    >)
        ensures
            r matches Ok(Some(l)) ==> l@ == add_launch(n),
            match pair_refusal("add_assign", a, b, n) {
                Some(e) => r == Err::<Option<Launch<VisionArg>>, VisionError>(e),
                None => r matches Ok(l) && launches_unless_empty(
                    l,
                    n == 0,
                    "vision_add_f16"@,
                    flat_config(n as int),
                    seq![VisionArg::A, VisionArg::B, VisionArg::Long(n as i64)],
                ),
            },
    {
        check_min("add_assign", n, min_usize(a, b))?;
        if n == 0 {
            return Ok(None);
        }
        Ok(
            Some(
                Launch {
                    kernel: "vision_add_f16",
                    config: grid_1d(n),
                    args: vec![VisionArg::A, VisionArg::B, VisionArg::Long(n as i64)],
                },
            ),
        )
    }

    /// Widen `src[..n]` into `dst[..n]`.
    pub fn to_f32(&self, src: usize, dst: usize, n: usize) -> (r: Result<
        Option<Launch<VisionArg>>,
        VisionError,
    >)
        ensures
            r matches Ok(Some(l)) ==> l@ == widen_launch(n),
            match pair_refusal("to_f32", src, dst, n) {
                Some(e) => r == Err::<Option<Launch<VisionArg>>, VisionError>(e),
                None => r matches Ok(l) && launches_unless_empty(
                    l,
                    n == 0,
                    "vision_half_to_float"@,
                    flat_config(n as int),
                    seq![VisionArg::Source, VisionArg::Destination, VisionArg::Long(n as i64)],
                ),
            },
    {
        check_min("to_f32", n, min_usize(src, dst))?;
        if n == 0 {
            return Ok(None);
        }
        Ok(
            Some(
                Launch {
                    kernel: "vision_half_to_float",
                    config: grid_1d(n),
                    args: vec![
                        VisionArg::Source,
                        VisionArg::Destination,
                        VisionArg::Long(n as i64),
                    ],
                },
            ),
        )
    }

    /// `y[tokens][out] = x[tokens][in] * w^T + bias`, all row-major, plus the
    /// caller's multiple of what `y` held.
    ///
    /// `w` is `out` rows of length `in`. Read column-major, the row-major
    /// buffers are the operands of `C(out x tokens) = A^T(out x in) *
    /// B(in x tokens)` at their own leading dimensions, so nothing is copied.
    pub fn proj(
        &self,
        x: usize,
        w: usize,
        bias: Option<usize>,
        y: usize,
        tokens: usize,
        in_dim: usize,
        out_dim: usize,
    ) -> (r: Result<Option<MatmulPlan>, VisionError>)
        requires
            in_dim * out_dim <= usize::MAX,
            w == in_dim * out_dim ==> tokens * in_dim <= usize::MAX && tokens * out_dim
                <= usize::MAX,
        ensures
            match proj_refusal(x, w, bias, y, tokens, in_dim, out_dim) {
                Some(e) => r == Err::<Option<MatmulPlan>, VisionError>(e),
                None => r == Ok::<Option<MatmulPlan>, VisionError>(
                    if tokens == 0 {
                        None
                    } else {
                        Some(proj_plan(tokens, in_dim, out_dim, bias is Some))
                    },
                ),
            },
    {
        check_len("proj w", in_dim * out_dim, w)?;
        if x < tokens * in_dim || y < tokens * out_dim {
            let widest: usize = if in_dim >= out_dim {
                in_dim
            } else {
                out_dim
            };
            return Err(
                VisionError::WrongLength {
                    name: "proj x/y",
                    expected: tokens * widest,
                    got: min_usize(x, y),
                },
            );
        }
        if let Some(b) = bias {
            check_len("proj bias", out_dim, b)?;
        }
        if tokens == 0 {
            return Ok(None);
        }
        Ok(
            Some(
                MatmulPlan {
                    transa: true,
                    transb: false,
                    transc: false,
                    m: out_dim as u64,
                    n: tokens as u64,
                    k: in_dim as u64,
                    alpha: Factor::One,
                    lda: in_dim as i64,
                    ldb: in_dim as i64,
                    beta: Factor::Given,
                    ldc: out_dim as i64,
                    stride_a: None,
                    stride_b: None,
                    stride_c: None,
                    stride_bias: None,
                    batch_size: None,
                    a: Operand { buffer: MatmulBuffer::Weight, offset: 0 },
                    b: Operand { buffer: MatmulBuffer::Input, offset: 0 },
                    c: Operand { buffer: MatmulBuffer::Output, offset: 0 },
                    bias: bias.is_some(),
                },
            ),
        )
    }

    /// Per-head attention scores, `scores[h][q][k] = scale * Q[q] * K[k]`.
    ///
    /// Token `t`'s slice for the first head starts at `t * row_len + q_offset`,
    /// or `k_offset`, and later heads advance by `head_dim`. The offsets lie
    /// inside the buffer; what lies past them is the caller's to size.
    pub fn attn_scores(
        &self,
        buf: usize,
        q_offset: usize,
        k_offset: usize,
        scores: usize,
        tokens: usize,
        row_len: usize,
        head_dim: usize,
        heads: usize,
    ) -> (r: Result<Option<MatmulPlan>, VisionError>)
        requires
            heads * tokens * tokens <= usize::MAX,
            scores >= heads * tokens * tokens && tokens > 0 && heads > 0 ==> q_offset <= buf
                && k_offset <= buf,
        ensures
            match least_refusal("attn scores", heads * tokens * tokens, scores) {
                Some(e) => r == Err::<Option<MatmulPlan>, VisionError>(e),
                None => r == Ok::<Option<MatmulPlan>, VisionError>(
                    if tokens == 0 || heads == 0 {
                        None
                    } else {
                        Some(scores_plan(q_offset, k_offset, tokens, row_len, head_dim, heads))
                    },
                ),
            },
    {
        proof {
            lemma_score_products(heads, tokens);
        }
        check_min("attn scores", heads * tokens * tokens, scores)?;
        if tokens == 0 || heads == 0 {
            return Ok(None);
        }
        Ok(
            Some(
                MatmulPlan {
                    transa: true,
                    transb: false,
                    transc: false,
                    m: tokens as u64,
                    n: tokens as u64,
                    k: head_dim as u64,
                    alpha: Factor::Given,
                    lda: row_len as i64,
                    ldb: row_len as i64,
                    beta: Factor::Zero,
                    ldc: tokens as i64,
                    stride_a: Some(head_dim as i64),
                    stride_b: Some(head_dim as i64),
                    stride_c: Some((tokens * tokens) as i64),
                    stride_bias: None,
                    batch_size: Some(heads as i32),
                    a: Operand { buffer: MatmulBuffer::Fused, offset: k_offset },
                    b: Operand { buffer: MatmulBuffer::Fused, offset: q_offset },
                    c: Operand { buffer: MatmulBuffer::Scores, offset: 0 },
                    bias: false,
                },
            ),
        )
    }

    /// Per-head attention output, `out[q] = sum over k of probs[h][q][k] *
    /// V[k]`, with the offset convention of [`Self::attn_scores`].
    pub fn attn_output(
        &self,
        probs: usize,
        v: usize,
        v_offset: usize,
        out: usize,
        out_offset: usize,
        tokens: usize,
        v_row_len: usize,
        out_row_len: usize,
        head_dim: usize,
        heads: usize,
    ) -> (r: Result<Option<MatmulPlan>, VisionError>)
        requires
            heads * tokens * tokens <= usize::MAX,
            probs >= heads * tokens * tokens && tokens > 0 && heads > 0 ==> v_offset <= v
                && out_offset <= out,
        ensures
            match least_refusal("attn probs", heads * tokens * tokens, probs) {
                Some(e) => r == Err::<Option<MatmulPlan>, VisionError>(e),
                None => r == Ok::<Option<MatmulPlan>, VisionError>(
                    if tokens == 0 || heads == 0 {
                        None
                    } else {
                        Some(
                            output_plan(
                                v_offset,
                                out_offset,
                                tokens,
                                v_row_len,
                                out_row_len,
                                head_dim,
                                heads,
                            ),
                        )
                    },
                ),
            },
    {
        proof {
            lemma_score_products(heads, tokens);
        }
        check_min("attn probs", heads * tokens * tokens, probs)?;
        if tokens == 0 || heads == 0 {
            return Ok(None);
        }
        Ok(
            Some(
                MatmulPlan {
                    transa: false,
                    transb: false,
                    transc: false,
                    m: head_dim as u64,
                    n: tokens as u64,
                    k: tokens as u64,
                    alpha: Factor::One,
                    lda: v_row_len as i64,
                    ldb: tokens as i64,
                    beta: Factor::Zero,
                    ldc: out_row_len as i64,
                    stride_a: Some(head_dim as i64),
                    stride_b: Some((tokens * tokens) as i64),
                    stride_c: Some(head_dim as i64),
                    stride_bias: None,
                    batch_size: Some(heads as i32),
                    a: Operand { buffer: MatmulBuffer::Values, offset: v_offset },
                    b: Operand { buffer: MatmulBuffer::Probs, offset: 0 },
                    c: Operand { buffer: MatmulBuffer::Output, offset: out_offset },
                    bias: false,
                },
            ),
        )
    }
}

} // verus!
