//! What the families take and what they turn away.
//!
//! A geometry is served, or a call accepted, on exactly the shapes stated here,
//! and a refusal is true: it names something that is wrong, with the value it
//! has and the value it should have had.

use crate::kernels::attention::{AttentionError, AttentionGeometry};
use crate::kernels::gdn::{GdnError, GdnGeometry};
use crate::kernels::gdn_chunked::{GdnChunkedError, GdnChunkedGeometry};
use crate::kernels::layer_ops::ops;
use crate::kernels::layer_ops::ops::{GateShape, LayerOpsError};
use crate::kernels::lm_head::family;
use crate::kernels::lm_head::family::LmHeadError;
use crate::kernels::lm_head::geometry::{HeadFormat, HeadTensor, LmHeadGeometry};
use crate::kernels::moe::buffers;
use crate::kernels::moe::geometry::{ExpertQuant, MoeGeometry};
use crate::kernels::moe::step::{MoeError, QuantTensor};
use crate::kernels::vision;
use crate::kernels::vision::ops::VisionError;
use vstd::prelude::*;

verus! {

/// A report of a buffer under its name: what it should hold and what it holds.
pub struct Report {
    /// The name of the buffer.
    pub name: Seq<char>,
    /// The length asked for.
    pub expected: int,
    /// The length found.
    pub found: int,
}

/// The buffer `name` holds `found` elements where exactly `expected` were asked
/// for, and that is what is reported.
pub open spec fn wrong(r: Report, name: Seq<char>, expected: int, found: usize) -> bool {
    r == (Report { name, expected, found: found as int }) && found != expected
}

/// The buffer `name` holds `found` elements where at least `expected` were
/// asked for, and that is what is reported.
pub open spec fn short(r: Report, name: Seq<char>, expected: int, found: usize) -> bool {
    r == (Report { name, expected, found: found as int }) && found < expected
}

/// Attention serves heads of one to thirty-two whole warps whose query heads
/// share the KV heads evenly, and reports what it does not serve.
pub proof fn law_attention_geometries(g: AttentionGeometry)
    ensures
        g.refusal() is None <==> {
            &&& 0 < g.head_dim <= 1024 && g.head_dim % 32 == 0
            &&& 0 < g.kv_heads && g.q_heads % g.kv_heads == 0
        },
        g.refusal() matches Some(e) ==> match e {
            AttentionError::UnsupportedHeadDim { head_dim } => {
                &&& head_dim == g.head_dim
                &&& head_dim == 0 || head_dim % 32 != 0 || head_dim > 1024
            },
            AttentionError::UnevenGqaGrouping { q_heads, kv_heads } => {
                &&& q_heads == g.q_heads && kv_heads == g.kv_heads
                &&& kv_heads == 0 || q_heads % kv_heads != 0
            },
            _ => false,
        },
{
}

/// The decode step serves heads of 128, 256, 384 or 512 whose value heads share
/// the query/key heads evenly, and reports what it does not serve.
pub proof fn law_gdn_geometries(g: GdnGeometry)
    ensures
        g.refusal() is None <==> {
            &&& g.head_dim == 128 || g.head_dim == 256 || g.head_dim == 384 || g.head_dim == 512
            &&& 0 < g.qk_heads && g.value_heads % g.qk_heads == 0
        },
        g.refusal() matches Some(e) ==> match e {
            GdnError::UnsupportedHeadDim { head_dim } => {
                &&& head_dim == g.head_dim
                &&& head_dim != 128 && head_dim != 256 && head_dim != 384 && head_dim != 512
            },
            GdnError::UnevenHeadGrouping { value_heads, qk_heads } => {
                &&& value_heads == g.value_heads && qk_heads == g.qk_heads
                &&& qk_heads == 0 || value_heads % qk_heads != 0
            },
            GdnError::Compile(_) => false,
        },
{
}

/// The chunked family serves heads of one to thirty-two whole warps and chunks
/// of one to 299 tokens: a token of the solve takes 41 words, and 49152 bytes
/// hold no more.
pub proof fn law_gdn_chunked_geometries(g: GdnChunkedGeometry)
    ensures
        g.refusal() is None <==> {
            &&& 0 < g.head_dim <= 1024 && g.head_dim % 32 == 0
            &&& 0 < g.qk_heads && g.value_heads % g.qk_heads == 0
            &&& 0 < g.chunk_len <= 299
        },
        g.refusal() matches Some(e) ==> match e {
            GdnChunkedError::UnsupportedHeadDim { head_dim } => {
                &&& head_dim == g.head_dim
                &&& head_dim == 0 || head_dim % 32 != 0 || head_dim > 1024
            },
            GdnChunkedError::UnevenHeadGrouping { value_heads, qk_heads } => {
                &&& value_heads == g.value_heads && qk_heads == g.qk_heads
                &&& qk_heads == 0 || value_heads % qk_heads != 0
            },
            GdnChunkedError::UnsupportedChunkLen { chunk_len } => {
                &&& chunk_len == g.chunk_len
                &&& chunk_len == 0 || chunk_len > 1024
            },
            GdnChunkedError::SharedMemoryExceeded { needed, available } => {
                &&& needed == g.chunk_len * 164
                &&& available == 49_152
                &&& needed > available
            },
            _ => false,
        },
{
}

/// What attention refuses of a call is true.
pub proof fn law_attention_refuses_truthfully(
    g: AttentionGeometry,
    a: usize,
    b: usize,
    c: usize,
    d: usize,
    n: usize,
    m: usize,
    positions: usize,
    e: AttentionError,
)
    requires
        2 * (n * (g.q_heads * g.head_dim)) <= usize::MAX,
        n * (g.q_heads * g.head_dim) >= 0,
        0 <= n * m * g.head_dim <= usize::MAX,
        0 <= n * g.q_heads * g.head_dim <= usize::MAX,
        0 <= m * g.kv_heads * g.head_dim <= usize::MAX,
        0 <= n * (g.kv_heads * g.head_dim) <= usize::MAX,
        0 <= m * (g.kv_heads * g.head_dim) <= usize::MAX,
    ensures
        g.split_refusal(a, b, c, n) == Some(e) ==> {
            let row = n * (g.q_heads * g.head_dim);
            &&& e matches AttentionError::BufferShape { what, expected, actual }
            &&& {
                let r = Report { name: what@, expected: expected as int, found: actual as int };
                ||| wrong(r, "packed query/gate"@, 2 * row, a)
                ||| wrong(r, "query"@, row, b)
                ||| wrong(r, "gate"@, row, c)
            }
        },
        g.rope_refusal(a, b, n, m, d, positions) == Some(e) ==> match e {
            AttentionError::UnsupportedRopeDim { rope_dim, head_dim } => {
                &&& rope_dim == d && head_dim == g.head_dim
                &&& d % 2 != 0 || d > g.head_dim
            },
            AttentionError::BufferShape { what, expected, actual } => {
                let r = Report { name: what@, expected: expected as int, found: actual as int };
                ||| wrong(r, "rope position"@, 1, positions)
                ||| wrong(r, "rope input"@, n * m * g.head_dim, a)
                ||| wrong(r, "rope output"@, n * m * g.head_dim, b)
            },
            _ => false,
        },
        g.forward_refusal(a, b, c, d, n, m, positions) == Some(e) ==> {
            let queries = n * g.q_heads * g.head_dim;
            let keys = m * g.kv_heads * g.head_dim;
            &&& e matches AttentionError::BufferShape { what, expected, actual }
            &&& {
                let r = Report { name: what@, expected: expected as int, found: actual as int };
                ||| wrong(r, "attention position"@, 1, positions)
                ||| wrong(r, "query"@, queries, a)
                ||| short(r, "key"@, keys, b)
                ||| short(r, "value"@, keys, c)
                ||| wrong(r, "output"@, queries, d)
            }
        },
        g.append_refusal(a, b, c, d, n, m, positions) == Some(e) ==> {
            let span = n * (g.kv_heads * g.head_dim);
            let cache = m * (g.kv_heads * g.head_dim);
            &&& e matches AttentionError::BufferShape { what, expected, actual }
            &&& {
                let r = Report { name: what@, expected: expected as int, found: actual as int };
                ||| wrong(r, "append position"@, 1, positions)
                ||| wrong(r, "append key"@, span, a)
                ||| wrong(r, "append value"@, span, b)
                ||| short(r, "append key cache"@, cache, c)
                ||| short(r, "append value cache"@, cache, d)
            }
        },
{
}

/// A layer operation reports a buffer under its name.
pub open spec fn layer_report(e: LayerOpsError) -> Option<Report> {
    match e {
        LayerOpsError::ShapeMismatch { what, expected, got } => Some(
            Report { name: what@, expected: expected as int, found: got as int },
        ),
        _ => None,
    }
}

/// What a layer operation refuses is true.
pub proof fn law_layer_ops_refuse_truthfully(
    a: usize,
    b: usize,
    c: usize,
    d: usize,
    e: usize,
    rows: usize,
    width: usize,
    refused: LayerOpsError,
)
    requires
        0 <= rows * width <= usize::MAX,
    ensures
        ops::rms_norm_refusal(a, b, c, rows, width) == Some(refused) ==> {
            ||| refused == (LayerOpsError::UnsupportedWidth { width }) && width == 0
            ||| layer_report(refused) matches Some(r) && {
                ||| wrong(r, "rms_norm x"@, rows * width, a)
                ||| wrong(r, "rms_norm weight"@, width as int, b)
                ||| wrong(r, "rms_norm out"@, rows * width, c)
            }
        },
        ops::rms_norm_swiglu_refusal(a, b, c, d, e, rows, width) == Some(refused) ==> {
            ||| refused == (LayerOpsError::UnsupportedWidth { width }) && width == 0
            ||| layer_report(refused) matches Some(r) && {
                ||| wrong(r, "rms_norm x"@, rows * width, a)
                ||| wrong(r, "rms_norm weight"@, width as int, b)
                ||| wrong(r, "swiglu gate"@, rows * width, c)
                ||| wrong(r, "rms_norm out"@, rows * width, d)
                ||| wrong(r, "swiglu out"@, rows * width, e)
            }
        },
        ops::swiglu_refusal(a, b, c, d) == Some(refused) ==> {
            layer_report(refused) matches Some(r) && {
                ||| wrong(r, "swiglu gate"@, d as int, a)
                ||| wrong(r, "swiglu up"@, d as int, b)
                ||| wrong(r, "swiglu out"@, d as int, c)
            }
        },
        ops::add_refusal(a, b, c, d) == Some(refused) ==> {
            layer_report(refused) matches Some(r) && {
                ||| wrong(r, "add a"@, d as int, a)
                ||| wrong(r, "add b"@, d as int, b)
                ||| wrong(r, "add out"@, d as int, c)
            }
        },
        ops::softplus_refusal(a, b, c) == Some(refused) ==> {
            layer_report(refused) matches Some(r) && {
                ||| wrong(r, "softplus x"@, c as int, a)
                ||| wrong(r, "softplus out"@, c as int, b)
            }
        },
{
}

/// What a shaped layer operation refuses is true: the shape itself, or a
/// buffer.
pub proof fn law_shaped_layer_ops_refuse_truthfully(
    a: usize,
    b: usize,
    c: usize,
    d: usize,
    rows: usize,
    heads: usize,
    width: usize,
    k: usize,
    shape: GateShape,
    refused: LayerOpsError,
)
    requires
        0 <= rows * width <= usize::MAX,
        0 <= rows * heads * width <= usize::MAX,
        0 <= width * k <= usize::MAX,
        0 < k ==> 0 <= width * (k - 1) <= usize::MAX,
    ensures
        ops::rope_refusal(a, b, c, rows, heads, width, k) == Some(refused) ==> {
            ||| refused == (LayerOpsError::UnsupportedRotaryShape { head_dim: width, rope_dim: k })
                && (width == 0 || width > 1024 || k % 2 != 0 || k > width)
            ||| layer_report(refused) matches Some(r) && {
                ||| wrong(r, "rope x"@, rows * heads * width, a)
                ||| wrong(r, "rope out"@, rows * heads * width, c)
                ||| wrong(r, "rope positions"@, rows as int, b)
            }
        },
        ops::sigmoid_gate_refusal(a, b, c, d, rows, width, shape) == Some(refused) ==> {
            let gates = match shape {
                GateShape::Elementwise => rows * width,
                GateShape::PerRow => rows as int,
            };
            ||| refused == (LayerOpsError::UnsupportedWidth { width }) && width == 0
            ||| layer_report(refused) matches Some(r) && {
                ||| wrong(r, "sigmoid_gate x"@, rows * width, a)
                ||| wrong(r, "sigmoid_gate gate"@, gates, b)
                ||| wrong(r, "sigmoid_gate sigmoid"@, gates, c)
                ||| wrong(r, "sigmoid_gate out"@, rows * width, d)
            }
        },
        ops::conv1d_refusal(a, b, c, d, rows, width, k) == Some(refused) ==> {
            ||| refused == (LayerOpsError::UnsupportedConvKernel { conv_kernel: k }) && (k == 0
                || k > 8)
            ||| refused == (LayerOpsError::UnsupportedWidth { width }) && width == 0
            ||| layer_report(refused) matches Some(r) && {
                ||| wrong(r, "conv1d x"@, rows * width, a)
                ||| wrong(r, "conv1d weight"@, width * k, b)
                ||| wrong(r, "conv1d state"@, width * (k - 1), c)
                ||| wrong(r, "conv1d out"@, rows * width, d)
            }
        },
{
}

/// The vision operations accept activations at least as long as their shapes,
/// and weights, biases and norms of exactly theirs.
pub proof fn law_vision_accepts_exactly_its_shapes(
    a: usize,
    b: usize,
    c: usize,
    d: usize,
    bias: Option<usize>,
    rows: usize,
    width: usize,
    out: usize,
    name: &'static str,
)
    ensures
        vision::ops::layer_norm_refusal(a, b, c, d, rows, width) is None <==> {
            a >= rows * width && b >= rows * width && c == width && d == width
        },
        vision::ops::rope_refusal(a, b, rows, width) is None <==> {
            a >= rows * 3 * width && b >= rows * 2
        },
        vision::ops::pair_refusal(name, a, b, rows) is None <==> a >= rows && b >= rows,
        vision::ops::proj_refusal(a, b, bias, c, rows, width, out) is None <==> {
            &&& b == width * out
            &&& a >= rows * width && c >= rows * out
            &&& bias matches Some(n) ==> n == out
        },
        vision::ops::least_refusal(name, rows as int, a) is None <==> a >= rows,
{
}

/// A vision operation reports a buffer under its name.
pub open spec fn vision_report(e: VisionError) -> Option<Report> {
    match e {
        VisionError::WrongLength { name, expected, got } => Some(
            Report { name: name@, expected: expected as int, found: got as int },
        ),
        VisionError::Build(_) => None,
    }
}

/// What a vision operation refuses is true. A pair reports its shorter buffer,
/// and a projection the longer of two lengths asked for beside the shorter of
/// two found.
pub proof fn law_vision_refuses_truthfully(
    a: usize,
    b: usize,
    c: usize,
    d: usize,
    bias: Option<usize>,
    rows: usize,
    width: usize,
    out: usize,
    name: &'static str,
    refused: VisionError,
)
    requires
        0 <= rows * width <= usize::MAX,
        0 <= rows * out <= usize::MAX,
        0 <= width * out <= usize::MAX,
        0 <= rows * 3 * width <= usize::MAX,
        rows * 2 <= usize::MAX,
    ensures
        vision::ops::layer_norm_refusal(a, b, c, d, rows, width) == Some(refused) ==> {
            vision_report(refused) matches Some(r) && {
                ||| short(r, "layer_norm x"@, rows * width, a)
                ||| short(r, "layer_norm out"@, rows * width, b)
                ||| wrong(r, "layer_norm gamma"@, width as int, c)
                ||| wrong(r, "layer_norm beta"@, width as int, d)
            }
        },
        vision::ops::rope_refusal(a, b, rows, width) == Some(refused) ==> {
            vision_report(refused) matches Some(r) && {
                ||| short(r, "rope qkv"@, rows * 3 * width, a)
                ||| short(r, "rope positions"@, rows * 2, b)
            }
        },
        vision::ops::pair_refusal(name, a, b, rows) == Some(refused) ==> {
            vision_report(refused) matches Some(r) && {
                ||| short(r, name@, rows as int, a) && a <= b
                ||| short(r, name@, rows as int, b) && b <= a
            }
        },
        vision::ops::proj_refusal(a, b, bias, c, rows, width, out) == Some(refused) ==> {
            vision_report(refused) matches Some(r) && {
                ||| wrong(r, "proj w"@, width * out, b)
                ||| {
                    &&& r.name == "proj x/y"@
                    &&& r.expected >= rows * width && r.expected >= rows * out
                    &&& r.expected == rows * width || r.expected == rows * out
                    &&& r.found <= a && r.found <= c && (r.found == a || r.found == c)
                    &&& a < rows * width || c < rows * out
                }
                ||| bias matches Some(n) && wrong(r, "proj bias"@, out as int, n)
            }
        },
{
    assert(width >= out ==> rows * width >= rows * out) by (nonlinear_arith);
    assert(width <= out ==> rows * width <= rows * out) by (nonlinear_arith);
}

/// The bytes and the elements of a block, and the elements of a warp's step, of
/// every format the head reads.
pub open spec fn head_block(f: HeadFormat) -> (int, int, int) {
    match f {
        HeadFormat::Q8_0 => (34, 32, 1),
        HeadFormat::Bf16 => (2, 1, 256),
        HeadFormat::Q6K => (210, 256, 256),
        HeadFormat::F16 => (2, 1, 256),
        HeadFormat::Q4_0 => (18, 32, 64),
        HeadFormat::Q4K => (144, 256, 256),
        HeadFormat::Q5K => (176, 256, 256),
    }
}

/// The head serves a contraction of whole segments of 512, a vocabulary of as
/// many rows as a grid of eight-row blocks holds, and row tiles of two and four.
pub proof fn law_lm_head_geometries(g: LmHeadGeometry, row_tile: Option<usize>)
    ensures
        g.reason(row_tile) is None <==> {
            &&& row_tile matches Some(t) ==> t == 2 || t == 4
            &&& 0 < g.hidden && g.hidden % 512 == 0
            &&& 0 < g.vocab <= 8 * 2_147_483_647
            &&& 0 < g.max_tokens
        },
        g.effective_row_tile(row_tile) is None || g.effective_row_tile(row_tile) == row_tile,
        row_tile matches Some(t) ==> (g.effective_row_tile(row_tile) is Some <==> g.vocab % t == 0),
{
}

/// A weight is accepted exactly where the contraction is a whole number of the
/// format's steps, and the tensor a whole number of blocks that hold
/// `vocab * hidden` elements; what is refused is reported truly.
pub proof fn law_lm_head_weights(g: LmHeadGeometry, w: HeadTensor)
    ensures
        ({
            let (bytes, elements, step) = head_block(w.format);
            let found = w.bytes as int / bytes * elements;
            &&& g.weight_refusal(w) is None <==> {
                &&& g.hidden as int % step == 0
                &&& w.bytes as int % bytes == 0
                &&& found == g.vocab * g.hidden
            }
            &&& g.weight_refusal(w) matches Some(e) ==> match e {
                LmHeadError::RaggedContraction { format: _, hidden, step: s } => {
                    hidden == g.hidden && s == step && hidden as int % step != 0
                },
                LmHeadError::RaggedWeights { bytes: held, block_bytes } => {
                    held == w.bytes && block_bytes == bytes && held as int % bytes != 0
                },
                LmHeadError::WrongElementCount { expected, found: counted } => {
                    &&& found <= usize::MAX ==> counted == found
                    &&& g.vocab * g.hidden <= usize::MAX ==> expected == g.vocab * g.hidden
                    &&& found != g.vocab * g.hidden
                },
                _ => false,
            }
        }),
{
    assert(0 <= g.vocab * g.hidden) by (nonlinear_arith);
}

/// A forward pass over an accepted weight takes one to `max_tokens` tokens and
/// buffers of the widest step, and the argmax a count within its values and
/// partials of 512; what is refused is reported truly.
pub proof fn law_lm_head_calls(
    g: LmHeadGeometry,
    w: HeadTensor,
    a: usize,
    b: usize,
    c: usize,
    d: usize,
    n: usize,
    e: LmHeadError,
)
    requires
        0 <= g.max_tokens * g.hidden <= usize::MAX,
        0 <= g.max_tokens * g.vocab <= usize::MAX,
    ensures
        g.forward_refusal(w, a, n, b) is None <==> {
            &&& g.weight_refusal(w) is None
            &&& 0 < n <= g.max_tokens
            &&& a == g.max_tokens * g.hidden
            &&& b == g.max_tokens * g.vocab
        },
        g.weight_refusal(w) is None && g.forward_refusal(w, a, n, b) == Some(e) ==> match e {
            LmHeadError::TooManyTokens { tokens, max_tokens } => {
                &&& tokens == n && max_tokens == g.max_tokens
                &&& n == 0 || n > g.max_tokens
            },
            LmHeadError::ShapeMismatch { what, expected, got } => {
                let r = Report { name: what@, expected: expected as int, found: got as int };
                ||| wrong(r, "hidden states"@, g.max_tokens * g.hidden, a)
                ||| wrong(r, "logits"@, g.max_tokens * g.vocab, b)
            },
            _ => false,
        },
        family::argmax_refusal(a, n, b, c, d) is None <==> {
            0 < n <= a && b == 512 && c == 512 && d == 1
        },
        family::argmax_refusal(a, n, b, c, d) == Some(e) ==> {
            &&& e matches LmHeadError::ShapeMismatch { what, expected, got }
            &&& {
                let r = Report { name: what@, expected: expected as int, found: got as int };
                ||| r == (Report { name: "argmax length"@, expected: a as int, found: n as int })
                    && (n == 0 || n > a)
                ||| wrong(r, "argmax partial values"@, 512, b)
                ||| wrong(r, "argmax partial indices"@, 512, c)
                ||| wrong(r, "argmax output"@, 1, d)
            }
        },
        family::argmax_prob_refusal(a, n, d) is None <==> 0 < n <= a && d == 1,
        family::argmax_prob_refusal(a, n, d) == Some(e) ==> {
            &&& e matches LmHeadError::ShapeMismatch { what, expected, got }
            &&& {
                let r = Report { name: what@, expected: expected as int, found: got as int };
                ||| r == (Report {
                    name: "argmax_prob length"@,
                    expected: a as int,
                    found: n as int,
                }) && (n == 0 || n > a)
                ||| wrong(r, "argmax_prob output"@, 1, d)
            }
        },
{
}

/// The experts serve shapes of whole tiles of 128, dispatch blocks of at most
/// thirty-two slots, and steps whose grids stay within 65535; routing holds 512
/// experts.
pub proof fn law_moe_geometries(g: MoeGeometry)
    ensures
        g.reason() is None <==> {
            &&& 0 < g.block_size <= 32
            &&& 0 < g.experts_per_token <= g.num_experts
            &&& 0 < g.max_tokens <= 65_535
            &&& 0 < g.hidden && g.hidden % 128 == 0
            &&& 0 < g.intermediate && g.intermediate % 128 == 0
            &&& g.dispatch_blocks() <= 65_535
        },
        g.route_refusal() is None <==> g.num_experts <= 512,
{
}

/// The bytes and the elements of a block on the device.
pub open spec fn expert_block(q: ExpertQuant) -> (int, int) {
    match q {
        ExpertQuant::Q6K => (224, 256),
        ExpertQuant::Q8_0 => (34, 32),
    }
}

/// The elements of the whole blocks of a stack.
pub open spec fn stack_count(t: QuantTensor) -> int {
    t.bytes as int / expert_block(t.quant).0 * expert_block(t.quant).1
}

/// A stack of whole blocks that hold exactly `expected` elements.
pub open spec fn stack_fits(t: QuantTensor, expected: int) -> bool {
    t.bytes as int % expert_block(t.quant).0 == 0 && stack_count(t) == expected
}

/// What is reported of the stack `name` is true of it.
pub open spec fn stack_report(e: MoeError, name: Seq<char>, t: QuantTensor, expected: int) -> bool {
    match e {
        MoeError::RaggedWeights { which, bytes, block_bytes } => {
            &&& which@ == name && bytes == t.bytes && block_bytes == expert_block(t.quant).0
            &&& bytes as int % expert_block(t.quant).0 != 0
        },
        MoeError::WrongElementCount { which, expected: asked, found } => {
            &&& which@ == name && asked == expected
            &&& stack_count(t) <= usize::MAX ==> found == stack_count(t)
            &&& stack_count(t) != expected
        },
        _ => false,
    }
}

/// Three stacks are accepted exactly where each is of whole blocks and holds
/// what is expected; the first that is not is reported, truly. The shared
/// expert asks for one expert of each, and for a single token also for a
/// contraction of whole strides of 512.
pub proof fn law_moe_stacks(
    g: MoeGeometry,
    names: (&'static str, &'static str, &'static str),
    gate: QuantTensor,
    up: QuantTensor,
    down: QuantTensor,
    expected: int,
    e: MoeError,
)
    requires
        0 <= expected <= usize::MAX,
    ensures
        MoeGeometry::stacks_refusal(names, gate, up, down, expected) is None <==> {
            stack_fits(gate, expected) && stack_fits(up, expected) && stack_fits(down, expected)
        },
        MoeGeometry::stacks_refusal(names, gate, up, down, expected) == Some(e) ==> {
            ||| stack_report(e, names.0@, gate, expected)
            ||| stack_report(e, names.1@, up, expected) && stack_fits(gate, expected)
            ||| stack_report(e, names.2@, down, expected) && stack_fits(gate, expected)
                && stack_fits(up, expected)
        },
        g.shared_refusal(gate, up, down) is None <==> {
            &&& stack_fits(gate, g.intermediate * g.hidden)
            &&& stack_fits(up, g.intermediate * g.hidden)
            &&& stack_fits(down, g.intermediate * g.hidden)
            &&& g.max_tokens == 1 ==> g.hidden % 512 == 0
        },
        buffers::repack_reason(gate.quant, up.quant, down.quant) is None <==> {
            gate.quant is Q8_0 && up.quant is Q8_0 && down.quant is Q8_0
        },
{
}

/// The reason given for a refused geometry of the head is true of it.
pub proof fn law_lm_head_reasons_are_true(
    g: LmHeadGeometry,
    row_tile: Option<usize>,
    reason: &'static str,
)
    requires
        g.reason(row_tile) == Some(reason),
    ensures
        ({
            ||| reason@ == "the only compiled row tiles are 2 and 4"@ && {
                row_tile matches Some(t) && t != 2 && t != 4
            }
            ||| reason@ == "hidden and vocab must be non-zero"@ && (g.hidden == 0 || g.vocab == 0)
            ||| reason@
                == "hidden must be a whole number of 16-block staging segments (a multiple of 512)"@
                && g.hidden % 512 != 0
            ||| reason@ == "max_tokens must be non-zero"@ && g.max_tokens == 0
            ||| reason@ == "vocabulary exceeds the grid.x limit"@ && g.vocab > 8 * 2_147_483_647
        }),
{
}

/// The reason given for a refused geometry of the experts is true of it.
pub proof fn law_moe_reasons_are_true(g: MoeGeometry, reason: &'static str)
    requires
        g.reason() == Some(reason),
    ensures
        ({
            ||| reason@ == "block_size must be non-zero"@ && g.block_size == 0
            ||| reason@ == "experts_per_token must be non-zero"@ && g.experts_per_token == 0
            ||| reason@ == "experts_per_token must not exceed num_experts"@ && g.experts_per_token
                > g.num_experts
            ||| reason@ == "max_tokens must be non-zero"@ && g.max_tokens == 0
            ||| reason@ == "hidden and intermediate must be non-zero"@ && (g.hidden == 0
                || g.intermediate == 0)
            ||| reason@ == "hidden must be a multiple of the 128-element tile"@ && g.hidden % 128
                != 0
            ||| reason@ == "intermediate must be a multiple of the 128-element tile"@
                && g.intermediate % 128 != 0
            ||| reason@ == "block_size exceeds the 16 slots the tensor-core tile stages"@
                && g.block_size > 32
            ||| reason@ == "dispatch-block capacity exceeds the 65535 grid.y limit"@
                && g.dispatch_blocks() > 65_535
            ||| reason@ == "max_tokens exceeds the 65535 grid limit"@ && g.max_tokens > 65_535
        }),
{
}

/// The name of a format in a weight file.
pub open spec fn file_name(f: HeadFormat) -> Seq<char> {
    match f {
        HeadFormat::Q8_0 => "q8_0"@,
        HeadFormat::Bf16 => "bf16"@,
        HeadFormat::Q6K => "q6_K"@,
        HeadFormat::F16 => "f16"@,
        HeadFormat::Q4_0 => "q4_0"@,
        HeadFormat::Q4K => "q4_K"@,
        HeadFormat::Q5K => "q5_K"@,
    }
}

/// Every format is found by its name in a weight file, and by no other.
pub proof fn law_formats_are_found_by_name(f: HeadFormat, name: Seq<char>)
    ensures
        HeadFormat::named(name) == Some(f) <==> name == file_name(f),
{
    reveal_strlit("q8_0");
    reveal_strlit("bf16");
    reveal_strlit("q6_K");
    reveal_strlit("f16");
    reveal_strlit("q4_0");
    reveal_strlit("q4_K");
    reveal_strlit("q5_K");
    assert("bf16"@[0] == 'b' && "f16"@.len() == 3);
    assert("q8_0"@[1] == '8' && "q6_K"@[1] == '6' && "q5_K"@[1] == '5');
    assert("q4_0"@[1] == '4' && "q4_K"@[1] == '4');
    assert("q4_0"@[3] == '0' && "q4_K"@[3] == 'K');
    assert("q8_0"@[0] == 'q' && "q6_K"@[0] == 'q' && "q5_K"@[0] == 'q');
    assert("q4_0"@[0] == 'q' && "q4_K"@[0] == 'q');
}

/// A row of whole blocks takes the bytes of its blocks, so that the rows of a
/// vocabulary make up the tensor of as many elements.
pub proof fn law_rows_take_their_blocks(g: LmHeadGeometry, f: HeadFormat, blocks: int)
    requires
        0 <= blocks,
        g.hidden == blocks * head_block(f).1,
    ensures
        g.row_size(f) == blocks * head_block(f).0,
        f.block_bytes() == head_block(f).0,
        f.block_elements() == head_block(f).1,
{
}

} // verus!
