//! What the layer ops compute.

use crate::kernels::layer_ops::ops;
use crate::kernels::layer_ops::ops::{GateShape, LayerOpsArg};
use crate::launch;
use crate::launch::LaunchConfig;
use crate::meaning::{cover, given, of, Value};
use vstd::prelude::*;

verus! {

/// The entry points of the layer op source.
#[derive(Clone, Copy, PartialEq, Eq, Structural)]
pub enum LayerKernel {
    /// `rms_norm_rows`.
    RmsNorm,
    /// `rope_partial`.
    Rope,
    /// `rms_norm_swiglu_rows`.
    RmsNormSwiglu,
    /// `swiglu_mul`.
    Swiglu,
    /// `sigmoid_gate_mul`.
    SigmoidGate,
    /// `tensor_add`.
    Add,
    /// `softplus_elementwise`.
    Softplus,
    /// `conv1d_causal_depthwise`.
    Conv,
    /// `conv1d_step`.
    ConvStep,
    /// `conv1d_update_state`.
    ConvState,
}

/// The name an entry point is loaded by.
pub open spec fn kernel_name(k: LayerKernel) -> Seq<char> {
    match k {
        LayerKernel::RmsNorm => "rms_norm_rows"@,
        LayerKernel::Rope => "rope_partial"@,
        LayerKernel::RmsNormSwiglu => "rms_norm_swiglu_rows"@,
        LayerKernel::Swiglu => "swiglu_mul"@,
        LayerKernel::SigmoidGate => "sigmoid_gate_mul"@,
        LayerKernel::Add => "tensor_add"@,
        LayerKernel::Softplus => "softplus_elementwise"@,
        LayerKernel::Conv => "conv1d_causal_depthwise"@,
        LayerKernel::ConvStep => "conv1d_step"@,
        LayerKernel::ConvState => "conv1d_update_state"@,
    }
}

/// The entry point of a name.
pub open spec fn kernel_of(name: Seq<char>) -> LayerKernel {
    choose|k: LayerKernel| kernel_name(k) == name
}

/// No two entry points share a name.
proof fn lemma_kernel_names()
    ensures
        forall|k: LayerKernel| kernel_of(#[trigger] kernel_name(k)) == k,
        kernel_of("rms_norm_rows"@) == LayerKernel::RmsNorm,
        kernel_of("rope_partial"@) == LayerKernel::Rope,
        kernel_of("rms_norm_swiglu_rows"@) == LayerKernel::RmsNormSwiglu,
        kernel_of("swiglu_mul"@) == LayerKernel::Swiglu,
        kernel_of("sigmoid_gate_mul"@) == LayerKernel::SigmoidGate,
        kernel_of("tensor_add"@) == LayerKernel::Add,
        kernel_of("softplus_elementwise"@) == LayerKernel::Softplus,
        kernel_of("conv1d_causal_depthwise"@) == LayerKernel::Conv,
        kernel_of("conv1d_step"@) == LayerKernel::ConvStep,
        kernel_of("conv1d_update_state"@) == LayerKernel::ConvState,
{
    reveal_strlit("rms_norm_rows");
    reveal_strlit("rope_partial");
    reveal_strlit("rms_norm_swiglu_rows");
    reveal_strlit("swiglu_mul");
    reveal_strlit("sigmoid_gate_mul");
    reveal_strlit("tensor_add");
    reveal_strlit("softplus_elementwise");
    reveal_strlit("conv1d_causal_depthwise");
    reveal_strlit("conv1d_step");
    reveal_strlit("conv1d_update_state");
    assert("rms_norm_swiglu_rows"@[0] != "softplus_elementwise"@[0]);
    assert("swiglu_mul"@[0] != "tensor_add"@[0]);
    assert forall|a: LayerKernel, b: LayerKernel| #[trigger]
        kernel_name(a) == #[trigger] kernel_name(b) implies a == b by {
        assert(kernel_name(a).len() == kernel_name(b).len());
    }
    assert forall|k: LayerKernel| kernel_of(#[trigger] kernel_name(k)) == k by {
        assert(kernel_name(kernel_of(kernel_name(k))) == kernel_name(k));
    }
    assert(kernel_name(LayerKernel::RmsNorm) == "rms_norm_rows"@);
    assert(kernel_name(LayerKernel::Rope) == "rope_partial"@);
    assert(kernel_name(LayerKernel::RmsNormSwiglu) == "rms_norm_swiglu_rows"@);
    assert(kernel_name(LayerKernel::Swiglu) == "swiglu_mul"@);
    assert(kernel_name(LayerKernel::SigmoidGate) == "sigmoid_gate_mul"@);
    assert(kernel_name(LayerKernel::Add) == "tensor_add"@);
    assert(kernel_name(LayerKernel::Softplus) == "softplus_elementwise"@);
    assert(kernel_name(LayerKernel::Conv) == "conv1d_causal_depthwise"@);
    assert(kernel_name(LayerKernel::ConvStep) == "conv1d_step"@);
    assert(kernel_name(LayerKernel::ConvState) == "conv1d_update_state"@);
}

/// One operation of an expression.
pub enum LayerOp {
    /// Rows divided by their root mean square, times a weight.
    RmsNorm,
    /// Heads turned by their positions.
    Rotated,
    /// `silu(first) * second`.
    SwiGlu,
    /// The sigmoid of some gates.
    Sigmoid,
    /// Values times the sigmoid of a gate each.
    Gated,
    /// Values times the sigmoid of a gate per row.
    GatedByRow,
    /// A sum.
    Sum,
    /// The softplus.
    Softplus,
    /// The causal depthwise convolution of inputs behind a cache.
    Convolved,
    /// A cache after some inputs: the last of them, behind what it still holds.
    Advanced,
}

/// What a buffer holds.
pub type LayerValue = Value<LayerOpsArg, LayerOp>;

/// The contents of every buffer.
pub type LayerMemory = Map<LayerOpsArg, LayerValue>;

/// The integer at a position of an argument list.
pub open spec fn int_at(args: Seq<LayerOpsArg>, i: int) -> int {
    match args[i] {
        LayerOpsArg::Int(n) => n as int,
        LayerOpsArg::Long(n) => n as int,
        _ => -1,
    }
}

/// What one launch leaves behind: the positions are those of the parameters in
/// the declaration of the entry point.
pub open spec fn launched(l: launch::LaunchView<LayerOpsArg>, m: LayerMemory) -> LayerMemory {
    let a = l.args;
    match kernel_of(l.kernel) {
        // x, weight, out, width, eps
        LayerKernel::RmsNorm => m.insert(
            a[2],
            of(LayerOp::RmsNorm, seq![m[a[0]], m[a[1]], m[a[4]]], seq![int_at(a, 3)]),
        ),
        // x, positions, out, heads, head_dim, rope_dim, theta_base
        LayerKernel::Rope => m.insert(
            a[2],
            of(
                LayerOp::Rotated,
                seq![m[a[0]], m[a[1]], m[a[6]]],
                seq![int_at(a, 3), int_at(a, 4), int_at(a, 5)],
            ),
        ),
        // x, weight, gate, normed, out, width, eps
        LayerKernel::RmsNormSwiglu => {
            let normed = of(
                LayerOp::RmsNorm,
                seq![m[a[0]], m[a[1]], m[a[6]]],
                seq![int_at(a, 5)],
            );
            m.insert(a[3], normed).insert(a[4], of(LayerOp::SwiGlu, seq![m[a[2]], normed], seq![]))
        },
        // gate, up, out, n
        LayerKernel::Swiglu => m.insert(
            a[2],
            of(LayerOp::SwiGlu, seq![m[a[0]], m[a[1]]], seq![]),
        ),
        // x, gate, sig, out, n, width, broadcast
        LayerKernel::SigmoidGate => m.insert(
            a[2],
            of(LayerOp::Sigmoid, seq![m[a[1]]], seq![]),
        ).insert(
            a[3],
            if int_at(a, 6) == 0 {
                of(LayerOp::Gated, seq![m[a[0]], m[a[1]]], seq![])
            } else {
                of(LayerOp::GatedByRow, seq![m[a[0]], m[a[1]]], seq![int_at(a, 5)])
            },
        ),
        // a, b, out, n
        LayerKernel::Add => m.insert(a[2], of(LayerOp::Sum, seq![m[a[0]], m[a[1]]], seq![])),
        // x, out, n
        LayerKernel::Softplus => m.insert(a[1], of(LayerOp::Softplus, seq![m[a[0]]], seq![])),
        // x, weight, state, out, channels, conv_kernel
        LayerKernel::Conv => m.insert(
            a[3],
            of(
                LayerOp::Convolved,
                seq![m[a[0]], m[a[1]], m[a[2]]],
                seq![int_at(a, 4), int_at(a, 5)],
            ),
        ),
        // x, weight, state, out, channels, conv_kernel; a single token
        LayerKernel::ConvStep => m.insert(
            a[3],
            of(
                LayerOp::Convolved,
                seq![m[a[0]], m[a[1]], m[a[2]]],
                seq![int_at(a, 4), int_at(a, 5)],
            ),
        ).insert(
            a[2],
            of(
                LayerOp::Advanced,
                seq![m[a[2]], m[a[0]]],
                seq![1, int_at(a, 4), int_at(a, 5)],
            ),
        ),
        // x, state, seq_len, channels, conv_kernel
        LayerKernel::ConvState => m.insert(
            a[1],
            of(
                LayerOp::Advanced,
                seq![m[a[1]], m[a[0]]],
                seq![int_at(a, 2), int_at(a, 3), int_at(a, 4)],
            ),
        ),
    }
}

/// What the caller put into a buffer.
pub open spec fn input(a: LayerOpsArg) -> LayerValue {
    Value::Given(a)
}

/// The norm of the activation by the weight.
pub open spec fn normed(width: usize) -> LayerValue {
    of(
        LayerOp::RmsNorm,
        seq![input(LayerOpsArg::X), input(LayerOpsArg::Weight), input(LayerOpsArg::Eps)],
        seq![width as int],
    )
}

/// The norms, the rotary embedding and the elementwise ops compute what they
/// are named for: the fused norm leaves the norm it gates, a gate is what a
/// SwiGLU or a sigmoid is applied to, and a gate per row is told from a gate
/// per value.
pub proof fn law_launches_compute_the_ops(
    rows: usize,
    width: usize,
    seq_len: usize,
    heads: usize,
    head_dim: usize,
    rope_dim: usize,
    n: usize,
    shape: GateShape,
)
    requires
        width <= i32::MAX,
        heads <= i32::MAX,
        head_dim <= i32::MAX,
        rope_dim <= i32::MAX,
    ensures
        ({
            let start: LayerMemory = given();
            let (x, gate) = (input(LayerOpsArg::X), input(LayerOpsArg::Gate));
            let fused = launched(ops::rms_norm_swiglu_launch(rows, width), start);
            let sigmoid = launched(ops::sigmoid_gate_launch(rows, width, shape), start);
            &&& launched(ops::rms_norm_launch(rows, width), start)[LayerOpsArg::Out] == normed(width)
            &&& fused[LayerOpsArg::Normed] == normed(width)
            &&& fused[LayerOpsArg::Out] == of(LayerOp::SwiGlu, seq![gate, normed(width)], seq![])
            &&& launched(
                ops::rope_launch(seq_len, heads, head_dim, rope_dim),
                start,
            )[LayerOpsArg::Out] == of(
                LayerOp::Rotated,
                seq![x, input(LayerOpsArg::Positions), input(LayerOpsArg::ThetaBase)],
                seq![heads as int, head_dim as int, rope_dim as int],
            )
            &&& launched(ops::swiglu_launch(n), start)[LayerOpsArg::Out] == of(
                LayerOp::SwiGlu,
                seq![gate, input(LayerOpsArg::Up)],
                seq![],
            )
            &&& sigmoid[LayerOpsArg::Sigmoid] == of(LayerOp::Sigmoid, seq![gate], seq![])
            &&& sigmoid[LayerOpsArg::Out] == match shape {
                GateShape::Elementwise => of(LayerOp::Gated, seq![x, gate], seq![]),
                GateShape::PerRow => of(LayerOp::GatedByRow, seq![x, gate], seq![width as int]),
            }
            &&& launched(ops::add_launch(n), start)[LayerOpsArg::Out] == of(
                LayerOp::Sum,
                seq![input(LayerOpsArg::A), input(LayerOpsArg::B)],
                seq![],
            )
            &&& launched(ops::softplus_launch(n), start)[LayerOpsArg::Out] == of(
                LayerOp::Softplus,
                seq![x],
                seq![],
            )
        }),
{
    lemma_kernel_names();
}

/// The memory after the launches of a convolution.
pub open spec fn after_conv(launches: Seq<launch::LaunchView<LayerOpsArg>>) -> LayerMemory
    decreases launches.len(),
{
    if launches.len() == 0 {
        given()
    } else {
        launched(launches.last(), after_conv(launches.drop_last()))
    }
}

/// A convolution of any length convolves the inputs behind the cache as it was,
/// and leaves the cache advanced by as many inputs as there were: the one-token
/// launch and the pair for a sequence alike.
pub proof fn law_conv1d_convolves_and_advances(seq_len: usize, channels: usize, conv_kernel: usize)
    requires
        0 < seq_len <= i32::MAX,
        0 < channels <= i32::MAX,
        conv_kernel <= i32::MAX,
    ensures
        ({
            let end = after_conv(
                ops::conv1d_launches(seq_len as int, channels as int, conv_kernel as int),
            );
            let (x, state) = (input(LayerOpsArg::X), input(LayerOpsArg::State));
            let (c, k) = (channels as int, conv_kernel as int);
            &&& end[LayerOpsArg::Out] == of(
                LayerOp::Convolved,
                seq![x, input(LayerOpsArg::Weight), state],
                seq![c, k],
            )
            &&& end[LayerOpsArg::State] == of(
                LayerOp::Advanced,
                seq![state, x],
                seq![seq_len as int, c, k],
            )
        }),
{
    lemma_kernel_names();
    let (s, c, k) = (seq_len as int, channels as int, conv_kernel as int);
    let l = ops::conv1d_launches(s, c, k);
    reveal_with_fuel(after_conv, 3);
    if seq_len > 1 {
        assert(l.drop_last() =~= seq![ops::conv1d_launch(s, c, k)]);
        assert(l.drop_last().drop_last() =~= seq![]);
        assert(l.drop_last().last() == ops::conv1d_launch(s, c, k));
        assert(l.last() == ops::conv1d_state_launch(s, c, k));
    } else {
        assert(l.drop_last() =~= seq![]);
    }
}

/// A block of whole warps that strides over a row: as wide as the row where
/// that is possible, with a word per warp.
pub open spec fn is_row_shape(c: LaunchConfig, rows: int, width: int) -> bool {
    let threads = c.block_dim.0 as int;
    &&& c.grid_dim.0 == rows && c.grid_dim.1 == 1 && c.grid_dim.2 == 1
    &&& c.block_dim.1 == 1 && c.block_dim.2 == 1
    &&& threads % 32 == 0 && 32 <= threads <= 1024
    &&& threads >= width || threads == 1024
    &&& threads < width + 32
    &&& c.shared_mem_bytes * 8 == threads
}

/// Blocks of 256 threads, one thread per value up to 1024 blocks that stride
/// over the rest.
pub open spec fn is_strided(c: LaunchConfig, n: int) -> bool {
    let blocks = c.grid_dim.0 as int;
    &&& c.grid_dim.1 == 1 && c.grid_dim.2 == 1
    &&& c.block_dim == (256u32, 1u32, 1u32)
    &&& c.shared_mem_bytes == 0
    &&& 1 <= blocks <= 1024
    &&& blocks * 256 >= n || blocks == 1024
    &&& (blocks - 1) * 256 < n
}

/// The launches have the shape their entry points index by, and carry the
/// length they work on.
pub proof fn law_op_launches_are_well_shaped(
    rows: usize,
    width: usize,
    seq_len: usize,
    heads: usize,
    head_dim: usize,
    rope_dim: usize,
    n: usize,
    shape: GateShape,
)
    requires
        0 < rows <= u32::MAX,
        0 < width,
        0 < rows * width <= i64::MAX,
        0 < n <= i64::MAX,
        0 < seq_len <= u32::MAX,
        0 < heads <= u32::MAX,
        ops::rotary_shape_ok(head_dim as int, rope_dim as int),
    ensures
        is_row_shape(ops::rms_norm_launch(rows, width).config, rows as int, width as int),
        is_row_shape(ops::rms_norm_swiglu_launch(rows, width).config, rows as int, width as int),
        ({
            let c = ops::rope_launch(seq_len, heads, head_dim, rope_dim).config;
            &&& c.grid_dim.0 == heads && c.grid_dim.1 == seq_len && c.grid_dim.2 == 1
            &&& c.block_dim.0 == head_dim && c.block_dim.1 == 1 && c.block_dim.2 == 1
            &&& c.shared_mem_bytes == 0
        }),
        is_strided(ops::swiglu_launch(n).config, n as int),
        int_at(ops::swiglu_launch(n).args, 3) == n,
        is_strided(ops::add_launch(n).config, n as int),
        int_at(ops::add_launch(n).args, 3) == n,
        is_strided(ops::softplus_launch(n).config, n as int),
        int_at(ops::softplus_launch(n).args, 2) == n,
        is_strided(ops::sigmoid_gate_launch(rows, width, shape).config, rows * width),
        int_at(ops::sigmoid_gate_launch(rows, width, shape).args, 4) == rows * width,
{
    launch::lemma_ceil_div_covers(n as int, 256);
    launch::lemma_ceil_div_covers(rows * width, 256);
    launch::lemma_ceil_div_covers(width as int, 32);
    let b = launch::ceil_div(width as int, 32);
    assert(launch::ceil_div(b * 32, 32) == b);
}

/// The launches of a convolution have the shape their entry points index by: a
/// thread per channel, for every token where there are several, and a strided
/// thread per channel for the cache.
pub proof fn law_conv1d_launches_are_well_shaped(
    seq_len: usize,
    channels: usize,
    conv_kernel: usize,
)
    requires
        0 < seq_len <= u32::MAX,
        0 < channels <= i32::MAX,
    ensures
        ({
            let l = ops::conv1d_launches(seq_len as int, channels as int, conv_kernel as int);
            let c = l[0].config;
            &&& l.len() == if seq_len == 1 {
                1int
            } else {
                2
            }
            &&& cover(c.grid_dim.0 as int, 256, channels as int)
            &&& c.grid_dim.1 == seq_len && c.grid_dim.2 == 1
            &&& c.block_dim == (256u32, 1u32, 1u32) && c.shared_mem_bytes == 0
            &&& seq_len > 1 ==> is_strided(l[1].config, channels as int)
        }),
{
    launch::lemma_ceil_div_covers(channels as int, 256);
}

/// A call is accepted exactly where every buffer has the length of its shape,
/// and the shape is one the kernels serve.
pub proof fn law_ops_accept_exactly_their_shapes(
    a: usize,
    b: usize,
    c: usize,
    d: usize,
    e: usize,
    rows: usize,
    width: usize,
    heads: usize,
    k: usize,
    shape: GateShape,
)
    ensures
        ops::rms_norm_refusal(a, b, c, rows, width) is None <==> {
            width > 0 && a == rows * width && b == width && c == rows * width
        },
        ops::rms_norm_swiglu_refusal(a, b, c, d, e, rows, width) is None <==> {
            &&& width > 0 && b == width
            &&& a == rows * width && c == rows * width && d == rows * width && e == rows * width
        },
        ops::rope_refusal(a, b, c, rows, heads, width, k) is None <==> {
            &&& 0 < width <= 1024 && k % 2 == 0 && k <= width
            &&& a == rows * heads * width && c == rows * heads * width && b == rows
        },
        ops::swiglu_refusal(a, b, c, d) is None <==> a == d && b == d && c == d,
        ops::add_refusal(a, b, c, d) is None <==> a == d && b == d && c == d,
        ops::softplus_refusal(a, b, c) is None <==> a == c && b == c,
        ops::sigmoid_gate_refusal(a, b, c, d, rows, width, shape) is None <==> {
            let gates = match shape {
                GateShape::Elementwise => rows * width,
                GateShape::PerRow => rows as int,
            };
            width > 0 && a == rows * width && b == gates && c == gates && d == rows * width
        },
        ops::conv1d_refusal(a, b, c, d, rows, width, k) is None <==> {
            &&& 1 <= k <= 8 && width > 0
            &&& a == rows * width && d == rows * width
            &&& b == width * k && c == width * (k - 1)
        },
{
}

} // verus!
