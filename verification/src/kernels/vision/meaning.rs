//! What the vision kernels and products compute.

use crate::kernels::vision::laws;
use crate::kernels::vision::ops;
use crate::kernels::vision::ops::{Factor, MatmulBuffer, MatmulPlan, VisionArg};
use crate::launch;
use crate::launch::LaunchConfig;
use crate::meaning::{cover, given, of, Value};
use vstd::prelude::*;

verus! {

/// The entry points of the vision source.
#[derive(Clone, Copy, PartialEq, Eq, Structural)]
pub enum VisionKernel {
    /// `vision_layer_norm`.
    LayerNorm,
    /// `vision_gelu`.
    Gelu,
    /// `vision_rope_qk`.
    Rope,
    /// `vision_softmax_rows`.
    Softmax,
    /// `vision_add_f16`.
    Add,
    /// `vision_half_to_float`.
    Widen,
}

/// The name an entry point is loaded by.
pub open spec fn kernel_name(k: VisionKernel) -> Seq<char> {
    match k {
        VisionKernel::LayerNorm => "vision_layer_norm"@,
        VisionKernel::Gelu => "vision_gelu"@,
        VisionKernel::Rope => "vision_rope_qk"@,
        VisionKernel::Softmax => "vision_softmax_rows"@,
        VisionKernel::Add => "vision_add_f16"@,
        VisionKernel::Widen => "vision_half_to_float"@,
    }
}

/// The entry point of a name.
pub open spec fn kernel_of(name: Seq<char>) -> VisionKernel {
    choose|k: VisionKernel| kernel_name(k) == name
}

/// No two entry points share a name.
proof fn lemma_kernel_names()
    ensures
        forall|k: VisionKernel| kernel_of(#[trigger] kernel_name(k)) == k,
        kernel_of("vision_layer_norm"@) == VisionKernel::LayerNorm,
        kernel_of("vision_gelu"@) == VisionKernel::Gelu,
        kernel_of("vision_rope_qk"@) == VisionKernel::Rope,
        kernel_of("vision_softmax_rows"@) == VisionKernel::Softmax,
        kernel_of("vision_add_f16"@) == VisionKernel::Add,
        kernel_of("vision_half_to_float"@) == VisionKernel::Widen,
{
    reveal_strlit("vision_layer_norm");
    reveal_strlit("vision_gelu");
    reveal_strlit("vision_rope_qk");
    reveal_strlit("vision_softmax_rows");
    reveal_strlit("vision_add_f16");
    reveal_strlit("vision_half_to_float");
    assert("vision_rope_qk"@[7] != "vision_add_f16"@[7]);
    assert forall|a: VisionKernel, b: VisionKernel| #[trigger]
        kernel_name(a) == #[trigger] kernel_name(b) implies a == b by {
        assert(kernel_name(a).len() == kernel_name(b).len());
    }
    assert forall|k: VisionKernel| kernel_of(#[trigger] kernel_name(k)) == k by {
        assert(kernel_name(kernel_of(kernel_name(k))) == kernel_name(k));
    }
    assert(kernel_name(VisionKernel::LayerNorm) == "vision_layer_norm"@);
    assert(kernel_name(VisionKernel::Gelu) == "vision_gelu"@);
    assert(kernel_name(VisionKernel::Rope) == "vision_rope_qk"@);
    assert(kernel_name(VisionKernel::Softmax) == "vision_softmax_rows"@);
    assert(kernel_name(VisionKernel::Add) == "vision_add_f16"@);
    assert(kernel_name(VisionKernel::Widen) == "vision_half_to_float"@);
}

/// One operation of an expression.
pub enum VisionOp {
    /// Rows less their mean over their deviation, times a weight, plus a bias.
    LayerNorm,
    /// The GELU.
    Gelu,
    /// The queries and keys of fused rows turned by their positions.
    Rotated,
    /// The softmax of rows.
    Softmax,
    /// A sum.
    Sum,
    /// Halves as floats.
    Widened,
}

/// What a buffer holds.
pub type VisionValue = Value<VisionArg, VisionOp>;

/// The contents of every buffer.
pub type VisionMemory = Map<VisionArg, VisionValue>;

/// The integer at a position of an argument list.
pub open spec fn int_at(args: Seq<VisionArg>, i: int) -> int {
    match args[i] {
        VisionArg::Int(n) => n as int,
        VisionArg::Long(n) => n as int,
        _ => -1,
    }
}

/// What one launch leaves behind: the positions are those of the parameters in
/// the declaration of the entry point.
pub open spec fn launched(l: launch::LaunchView<VisionArg>, m: VisionMemory) -> VisionMemory {
    let a = l.args;
    match kernel_of(l.kernel) {
        // x, out, gamma, beta, width, eps
        VisionKernel::LayerNorm => m.insert(
            a[1],
            of(VisionOp::LayerNorm, seq![m[a[0]], m[a[2]], m[a[3]], m[a[5]]], seq![int_at(a, 4)]),
        ),
        // x, n
        VisionKernel::Gelu => m.insert(a[0], of(VisionOp::Gelu, seq![m[a[0]]], seq![int_at(a, 1)])),
        // qkv, positions, hidden, head_dim, theta_base
        VisionKernel::Rope => m.insert(
            a[0],
            of(
                VisionOp::Rotated,
                seq![m[a[0]], m[a[1]], m[a[4]]],
                seq![int_at(a, 2), int_at(a, 3)],
            ),
        ),
        // scores, row_len
        VisionKernel::Softmax => m.insert(
            a[0],
            of(VisionOp::Softmax, seq![m[a[0]]], seq![int_at(a, 1)]),
        ),
        // a, b, n
        VisionKernel::Add => m.insert(
            a[0],
            of(VisionOp::Sum, seq![m[a[0]], m[a[1]]], seq![int_at(a, 2)]),
        ),
        // src, dst, n
        VisionKernel::Widen => m.insert(
            a[1],
            of(VisionOp::Widened, seq![m[a[0]]], seq![int_at(a, 2)]),
        ),
    }
}

/// What the caller put into a buffer.
pub open spec fn input(a: VisionArg) -> VisionValue {
    Value::Given(a)
}

/// The launches compute what they are named for, in place where they are: the
/// norm is weighted by gamma and shifted by beta, the sum goes to the first
/// addend.
pub proof fn law_launches_compute_the_vision_ops(
    rows: usize,
    width: usize,
    tokens: usize,
    hidden: usize,
    head_dim: usize,
    n: usize,
)
    requires
        width <= i32::MAX,
        hidden <= i32::MAX,
        head_dim <= i32::MAX,
        n <= i64::MAX,
    ensures
        ({
            let start: VisionMemory = given();
            &&& launched(ops::layer_norm_launch(rows, width), start)[VisionArg::Out] == of(
                VisionOp::LayerNorm,
                seq![
                    input(VisionArg::X),
                    input(VisionArg::Gamma),
                    input(VisionArg::Beta),
                    input(VisionArg::Eps),
                ],
                seq![width as int],
            )
            &&& launched(ops::gelu_launch(n), start)[VisionArg::X] == of(
                VisionOp::Gelu,
                seq![input(VisionArg::X)],
                seq![n as int],
            )
            &&& launched(ops::rope_launch(tokens, hidden, head_dim), start)[VisionArg::Qkv] == of(
                VisionOp::Rotated,
                seq![
                    input(VisionArg::Qkv),
                    input(VisionArg::Positions),
                    input(VisionArg::ThetaBase),
                ],
                seq![hidden as int, head_dim as int],
            )
            &&& launched(ops::softmax_launch(rows, width), start)[VisionArg::Scores] == of(
                VisionOp::Softmax,
                seq![input(VisionArg::Scores)],
                seq![width as int],
            )
            &&& launched(ops::add_launch(n), start)[VisionArg::A] == of(
                VisionOp::Sum,
                seq![input(VisionArg::A), input(VisionArg::B)],
                seq![n as int],
            )
            &&& launched(ops::widen_launch(n), start)[VisionArg::Destination] == of(
                VisionOp::Widened,
                seq![input(VisionArg::Source)],
                seq![n as int],
            )
        }),
{
    lemma_kernel_names();
}

/// A block of 256 threads per row.
pub open spec fn is_row_shape(c: LaunchConfig, rows: int) -> bool {
    &&& c.grid_dim.0 == rows && c.grid_dim.1 == 1 && c.grid_dim.2 == 1
    &&& c.block_dim == (256u32, 1u32, 1u32) && c.shared_mem_bytes == 0
}

/// A thread per value, 256 to a block.
pub open spec fn is_flat(c: LaunchConfig, n: int) -> bool {
    &&& cover(c.grid_dim.0 as int, 256, n) && c.grid_dim.1 == 1 && c.grid_dim.2 == 1
    &&& c.block_dim == (256u32, 1u32, 1u32) && c.shared_mem_bytes == 0
}

/// The launches have the shape their entry points index by: a block per row, a
/// thread per value, and for the rotary embedding a block per token, slice and
/// head with a thread per pair.
pub proof fn law_vision_launches_are_well_shaped(
    rows: usize,
    width: usize,
    tokens: usize,
    hidden: usize,
    head_dim: usize,
    n: usize,
)
    requires
        rows <= u32::MAX,
        n <= u32::MAX,
        tokens <= u32::MAX,
        hidden <= u32::MAX,
        0 < head_dim <= hidden,
        head_dim % 4 == 0,
        hidden % head_dim == 0,
    ensures
        is_row_shape(ops::layer_norm_launch(rows, width).config, rows as int),
        is_row_shape(ops::softmax_launch(rows, width).config, rows as int),
        is_flat(ops::gelu_launch(n).config, n as int),
        is_flat(ops::add_launch(n).config, n as int),
        is_flat(ops::widen_launch(n).config, n as int),
        ({
            let c = ops::rope_launch(tokens, hidden, head_dim).config;
            &&& c.grid_dim.0 == tokens && c.grid_dim.1 == 2
            &&& c.grid_dim.2 * head_dim == hidden
            &&& c.block_dim.0 * 2 == head_dim && c.block_dim.1 == 1 && c.block_dim.2 == 1
            &&& c.shared_mem_bytes == 0
        }),
{
    launch::lemma_ceil_div_covers(n as int, 256);
    let (h, d) = (hidden as int, head_dim as int);
    assert((h / d) * d == h && 0 <= h / d <= h) by (nonlinear_arith)
        requires
            h % d == 0,
            0 < d <= h,
    ;
}

/// What a product leaves in cell `(row, col)` of a batch: where it goes, and
/// the operands' elements of its `i`-th term.
pub open spec fn cell(p: MatmulPlan, batch: int, row: int, col: int, i: int) -> (
    (MatmulBuffer, int),
    (MatmulBuffer, int),
    (MatmulBuffer, int),
) {
    (
        (p.c.buffer, p.c_index(batch, row, col)),
        (p.a.buffer, p.a_index(batch, row, i)),
        (p.b.buffer, p.b_index(batch, i, col)),
    )
}

/// Cells, batches and terms a product has.
pub open spec fn extents(p: MatmulPlan) -> (int, int, int, int) {
    (
        match p.batch_size {
            Some(n) => n as int,
            None => 1,
        },
        p.m as int,
        p.n as int,
        p.k as int,
    )
}

/// A projection puts into `y[t][o]` the sum over `i` of `w[o][i] * x[t][i]`,
/// once, over what the caller's factor keeps of `y`, with the bias exactly
/// where there is one.
pub proof fn law_projection_multiplies(
    tokens: usize,
    in_dim: usize,
    out_dim: usize,
    bias: bool,
    t: int,
    i: int,
    o: int,
)
    requires
        in_dim <= i64::MAX,
        out_dim <= i64::MAX,
        tokens <= u64::MAX,
        0 <= t < tokens,
        0 <= i < in_dim,
        0 <= o < out_dim,
    ensures
        ({
            let p = ops::proj_plan(tokens, in_dim, out_dim, bias);
            &&& extents(p) == (1int, out_dim as int, tokens as int, in_dim as int)
            &&& cell(p, 0, o, t, i) == (
                (MatmulBuffer::Output, t * out_dim + o),
                (MatmulBuffer::Weight, o * in_dim + i),
                (MatmulBuffer::Input, t * in_dim + i),
            )
            &&& p.alpha == Factor::One && p.beta == Factor::Given
            &&& p.bias == bias && !p.transc
        }),
{
    laws::law_projection_layout(tokens, in_dim, out_dim, bias, t, i, o);
}

/// The scores put into `scores[h][q][k]` the scaled sum over the dimensions of
/// head `h` of query `q` times key `k`, for every head, over nothing.
pub proof fn law_scores_multiply(
    q_offset: usize,
    k_offset: usize,
    tokens: usize,
    row_len: usize,
    head_dim: usize,
    heads: usize,
    h: int,
    q: int,
    k: int,
    d: int,
)
    requires
        row_len <= i64::MAX,
        head_dim <= i64::MAX,
        tokens * tokens <= i64::MAX,
        tokens <= i64::MAX,
        heads <= i32::MAX,
        0 <= h < heads,
        0 <= q < tokens,
        0 <= k < tokens,
        0 <= d < head_dim,
    ensures
        ({
            let p = ops::scores_plan(q_offset, k_offset, tokens, row_len, head_dim, heads);
            &&& extents(p) == (heads as int, tokens as int, tokens as int, head_dim as int)
            &&& cell(p, h, k, q, d) == (
                (MatmulBuffer::Scores, (h * tokens + q) * tokens + k),
                (MatmulBuffer::Fused, k_offset + k * row_len + h * head_dim + d),
                (MatmulBuffer::Fused, q_offset + q * row_len + h * head_dim + d),
            )
            &&& p.alpha == Factor::Given && p.beta == Factor::Zero
            &&& !p.bias && !p.transc
        }),
{
    let (t, r, n) = (tokens as int, row_len as int, head_dim as int);
    assert(0 <= t * t) by (nonlinear_arith);
    assert((h * t + q) * t + k == h * (t * t) + q * t + k) by (nonlinear_arith);
}

/// The attention output puts into head `h` of token `q` the sum over the keys
/// of `probs[h][q][k]` times head `h` of value `k`, for every head, over
/// nothing.
pub proof fn law_output_multiplies(
    v_offset: usize,
    out_offset: usize,
    tokens: usize,
    v_row_len: usize,
    out_row_len: usize,
    head_dim: usize,
    heads: usize,
    h: int,
    q: int,
    k: int,
    d: int,
)
    requires
        v_row_len <= i64::MAX,
        out_row_len <= i64::MAX,
        head_dim <= i64::MAX,
        tokens * tokens <= i64::MAX,
        tokens <= i64::MAX,
        heads <= i32::MAX,
        0 <= h < heads,
        0 <= q < tokens,
        0 <= k < tokens,
        0 <= d < head_dim,
    ensures
        ({
            let p = ops::output_plan(
                v_offset,
                out_offset,
                tokens,
                v_row_len,
                out_row_len,
                head_dim,
                heads,
            );
            &&& extents(p) == (heads as int, head_dim as int, tokens as int, tokens as int)
            &&& cell(p, h, d, q, k) == (
                (MatmulBuffer::Output, out_offset + q * out_row_len + h * head_dim + d),
                (MatmulBuffer::Values, v_offset + k * v_row_len + h * head_dim + d),
                (MatmulBuffer::Probs, (h * tokens + q) * tokens + k),
            )
            &&& p.alpha == Factor::One && p.beta == Factor::Zero
            &&& !p.bias && !p.transc
        }),
{
    let t = tokens as int;
    assert(0 <= t * t) by (nonlinear_arith);
    assert((h * t + q) * t + k == h * (t * t) + q * t + k) by (nonlinear_arith);
}

} // verus!
