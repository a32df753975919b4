//! What the attention kernels compute.

use crate::kernels::attention;
use crate::kernels::attention::{AttentionArg, AttentionGeometry};
use crate::launch;
use crate::meaning::{cover, given, of, Value};
use vstd::prelude::*;

verus! {

/// The entry points of the attention source.
#[derive(Clone, Copy, PartialEq, Eq, Structural)]
pub enum AttentionKernel {
    /// `attn_split_query_gate`.
    Split,
    /// `attn_rope_partial_neox`.
    Rope,
    /// `attn_flash_causal`.
    Flash,
    /// `attn_kv_append`.
    Append,
}

/// The name an entry point is loaded by.
pub open spec fn kernel_name(k: AttentionKernel) -> Seq<char> {
    match k {
        AttentionKernel::Split => "attn_split_query_gate"@,
        AttentionKernel::Rope => "attn_rope_partial_neox"@,
        AttentionKernel::Flash => "attn_flash_causal"@,
        AttentionKernel::Append => "attn_kv_append"@,
    }
}

/// The entry point of a name.
pub open spec fn kernel_of(name: Seq<char>) -> AttentionKernel {
    choose|k: AttentionKernel| kernel_name(k) == name
}

/// No two entry points share a name.
proof fn lemma_kernel_names()
    ensures
        forall|k: AttentionKernel| kernel_of(#[trigger] kernel_name(k)) == k,
        kernel_of("attn_split_query_gate"@) == AttentionKernel::Split,
        kernel_of("attn_rope_partial_neox"@) == AttentionKernel::Rope,
        kernel_of("attn_flash_causal"@) == AttentionKernel::Flash,
        kernel_of("attn_kv_append"@) == AttentionKernel::Append,
{
    reveal_strlit("attn_split_query_gate");
    reveal_strlit("attn_rope_partial_neox");
    reveal_strlit("attn_flash_causal");
    reveal_strlit("attn_kv_append");
    assert forall|a: AttentionKernel, b: AttentionKernel| #[trigger]
        kernel_name(a) == #[trigger] kernel_name(b) implies a == b by {
        assert(kernel_name(a).len() == kernel_name(b).len());
    }
    assert forall|k: AttentionKernel| kernel_of(#[trigger] kernel_name(k)) == k by {
        assert(kernel_name(kernel_of(kernel_name(k))) == kernel_name(k));
    }
    assert(kernel_name(AttentionKernel::Split) == "attn_split_query_gate"@);
    assert(kernel_name(AttentionKernel::Rope) == "attn_rope_partial_neox"@);
    assert(kernel_name(AttentionKernel::Flash) == "attn_flash_causal"@);
    assert(kernel_name(AttentionKernel::Append) == "attn_kv_append"@);
}

/// One operation of an expression.
pub enum AttentionOp {
    /// The first half of every head of packed rows.
    QueryHalf,
    /// The second half.
    GateHalf,
    /// Heads turned by their positions.
    Rotated,
    /// Causal attention of queries over keys and values.
    Attended,
    /// A cache with rows written from a position on.
    Appended,
}

/// What a buffer holds.
pub type AttentionValue = Value<AttentionArg, AttentionOp>;

/// The contents of every buffer.
pub type AttentionMemory = Map<AttentionArg, AttentionValue>;

/// The integer at a position of an argument list.
pub open spec fn int_at(args: Seq<AttentionArg>, i: int) -> int {
    match args[i] {
        AttentionArg::Int(n) => n as int,
        _ => -1,
    }
}

/// What one launch leaves behind: the positions are those of the parameters in
/// the declaration of the entry point.
pub open spec fn launched(
    l: launch::LaunchView<AttentionArg>,
    m: AttentionMemory,
) -> AttentionMemory {
    let a = l.args;
    match kernel_of(l.kernel) {
        // packed, q, gate, q_heads, head_dim
        AttentionKernel::Split => {
            let extents = seq![int_at(a, 3), int_at(a, 4)];
            m.insert(a[1], of(AttentionOp::QueryHalf, seq![m[a[0]]], extents)).insert(
                a[2],
                of(AttentionOp::GateHalf, seq![m[a[0]]], extents),
            )
        },
        // in, out, n_heads, head_dim, rope_dim, pos_offset, theta_base
        AttentionKernel::Rope => m.insert(
            a[1],
            of(
                AttentionOp::Rotated,
                seq![m[a[0]], m[a[5]], m[a[6]]],
                seq![int_at(a, 2), int_at(a, 3), int_at(a, 4)],
            ),
        ),
        // q, k, v, out, q_heads, kv_heads, head_dim, key_offset, scale
        AttentionKernel::Flash => m.insert(
            a[3],
            of(
                AttentionOp::Attended,
                seq![m[a[0]], m[a[1]], m[a[2]], m[a[7]], m[a[8]]],
                seq![int_at(a, 4), int_at(a, 5), int_at(a, 6)],
            ),
        ),
        // key, value, k_cache, v_cache, position, span, row
        AttentionKernel::Append => {
            let extents = seq![int_at(a, 5), int_at(a, 6)];
            m.insert(a[2], of(AttentionOp::Appended, seq![m[a[2]], m[a[0]], m[a[4]]], extents)).insert(
                a[3],
                of(AttentionOp::Appended, seq![m[a[3]], m[a[1]], m[a[4]]], extents),
            )
        },
    }
}

/// What the caller put into a buffer.
pub open spec fn input(a: AttentionArg) -> AttentionValue {
    Value::Given(a)
}

/// The split takes the first half of each packed head as the query and the
/// second as its gate; the rotary embedding turns the input by the positions;
/// attention runs the queries over the keys and the values, from the position
/// on and by the scale; and the append puts the keys into the key cache and the
/// values into the value cache, at the position.
pub proof fn law_launches_compute_attention(
    g: AttentionGeometry,
    n: usize,
    n_heads: usize,
    rope_dim: usize,
)
    requires
        g.supported(),
        g.q_heads <= i32::MAX,
        g.kv_heads <= i32::MAX,
        n_heads <= i32::MAX,
        rope_dim <= g.head_dim,
        g.kv_heads * g.head_dim <= i32::MAX,
        n * (g.kv_heads * g.head_dim) <= i32::MAX,
    ensures
        ({
            let start: AttentionMemory = given();
            let (q_heads, kv_heads, dim) = (g.q_heads as int, g.kv_heads as int, g.head_dim as int);
            let split = launched(attention::split_launch(g, n), start);
            let rope = launched(attention::rope_launch(g, n, n_heads, rope_dim), start);
            let flash = launched(attention::flash_launch(g, n), start);
            let append = launched(attention::append_launch(g, n), start);
            let packed = seq![input(AttentionArg::Packed)];
            let position = input(AttentionArg::Positions);
            let row = kv_heads * dim;
            &&& split[AttentionArg::Query] == of(
                AttentionOp::QueryHalf,
                packed,
                seq![q_heads, dim],
            )
            &&& split[AttentionArg::Gate] == of(AttentionOp::GateHalf, packed, seq![q_heads, dim])
            &&& rope[AttentionArg::Output] == of(
                AttentionOp::Rotated,
                seq![input(AttentionArg::Input), position, input(AttentionArg::ThetaBase)],
                seq![n_heads as int, dim, rope_dim as int],
            )
            &&& flash[AttentionArg::Output] == of(
                AttentionOp::Attended,
                seq![
                    input(AttentionArg::Query),
                    input(AttentionArg::Key),
                    input(AttentionArg::Value),
                    position,
                    input(AttentionArg::Scale),
                ],
                seq![q_heads, kv_heads, dim],
            )
            &&& append[AttentionArg::KeyCache] == of(
                AttentionOp::Appended,
                seq![input(AttentionArg::KeyCache), input(AttentionArg::Key), position],
                seq![n * row, row],
            )
            &&& append[AttentionArg::ValueCache] == of(
                AttentionOp::Appended,
                seq![input(AttentionArg::ValueCache), input(AttentionArg::Value), position],
                seq![n * row, row],
            )
        }),
{
    lemma_kernel_names();
    assert(0 <= g.kv_heads * g.head_dim) by (nonlinear_arith);
    assert(0 <= n * (g.kv_heads * g.head_dim)) by (nonlinear_arith)
        requires
            0 <= g.kv_heads * g.head_dim,
    ;
}

/// The launches have the shape their entry points index by: a block per token
/// and head with a thread per element, attention with room for the query, and a
/// score and a weight for each of the four keys a warp takes; the append a
/// thread for every element of the keys and of the values.
pub proof fn law_attention_launches_are_well_shaped(
    g: AttentionGeometry,
    n: usize,
    n_heads: usize,
    rope_dim: usize,
)
    requires
        g.supported(),
        n <= u32::MAX,
        n_heads <= u32::MAX,
        g.q_heads <= u32::MAX,
        2 * (n * (g.kv_heads * g.head_dim)) <= u32::MAX,
    ensures
        ({
            let split = attention::split_launch(g, n).config;
            let rope = attention::rope_launch(g, n, n_heads, rope_dim).config;
            let flash = attention::flash_launch(g, n).config;
            let append = attention::append_launch(g, n).config;
            let threads = (g.head_dim as u32, 1u32, 1u32);
            &&& split.grid_dim == (n as u32, g.q_heads as u32, 1u32)
            &&& split.block_dim == threads && split.block_dim.0 == g.head_dim
            &&& split.shared_mem_bytes == 0
            &&& rope.grid_dim == (n as u32, n_heads as u32, 1u32)
            &&& rope.block_dim == threads && rope.shared_mem_bytes == 0
            &&& flash.grid_dim == (n as u32, g.q_heads as u32, 1u32)
            &&& flash.block_dim == threads
            &&& flash.shared_mem_bytes == 4 * g.head_dim + 2 * (4 * (4 * (g.head_dim as int / 32)))
            &&& cover(append.grid_dim.0 as int, 256, 2 * (n * (g.kv_heads * g.head_dim)))
            &&& append.grid_dim.1 == 1 && append.grid_dim.2 == 1
            &&& append.block_dim == (256u32, 1u32, 1u32) && append.shared_mem_bytes == 0
        }),
{
    lemma_kernel_names();
    let span = n * (g.kv_heads * g.head_dim);
    assert(0 <= span) by (nonlinear_arith)
        requires
            span == n * (g.kv_heads * g.head_dim),
    ;
    launch::lemma_ceil_div_covers(2 * span, 256);
}

/// A call is accepted exactly where every buffer has the length of its shape:
/// the packed rows twice the queries and the gates; the caches and the window
/// at least theirs; and the position one element.
pub proof fn law_attention_accepts_exactly_its_shapes(
    g: AttentionGeometry,
    a: usize,
    b: usize,
    c: usize,
    d: usize,
    n: usize,
    m: usize,
    positions: usize,
)
    ensures
        g.split_refusal(a, b, c, n) is None <==> {
            &&& a == 2 * (n * (g.q_heads * g.head_dim))
            &&& b == n * (g.q_heads * g.head_dim)
            &&& c == n * (g.q_heads * g.head_dim)
        },
        g.rope_refusal(a, b, n, m, d, positions) is None <==> {
            &&& positions == 1
            &&& d % 2 == 0 && d <= g.head_dim
            &&& a == n * m * g.head_dim
            &&& b == n * m * g.head_dim
        },
        g.forward_refusal(a, b, c, d, n, m, positions) is None <==> {
            &&& positions == 1
            &&& a == n * g.q_heads * g.head_dim
            &&& d == n * g.q_heads * g.head_dim
            &&& b >= m * g.kv_heads * g.head_dim
            &&& c >= m * g.kv_heads * g.head_dim
        },
        g.append_refusal(a, b, c, d, n, m, positions) is None <==> {
            &&& positions == 1
            &&& a == n * (g.kv_heads * g.head_dim)
            &&& b == n * (g.kv_heads * g.head_dim)
            &&& c >= m * (g.kv_heads * g.head_dim)
            &&& d >= m * (g.kv_heads * g.head_dim)
        },
{
}

/// Of a head of `warps` warps, every warp scores four keys of a tile, and a
/// block holds the query row beside a score and a weight for each of them.
pub proof fn law_tiles_hold_a_share_per_warp(g: AttentionGeometry, warps: int)
    requires
        0 <= warps,
        g.head_dim == 32 * warps,
    ensures
        g.tile_keys() == 4 * warps,
        g.flash_shared() == 4 * (32 * warps) + 2 * (4 * (4 * warps)),
{
}

} // verus!
