//! What the MoE sequences compute.
//!
//! A sequence is run on an abstract memory that holds, for every buffer, the
//! expression its contents are the value of. Each entry point reads and writes
//! by the position of its parameters, in the order the CUDA source declares
//! them, and works on the extents its launch carries. The laws say which
//! expression of the inputs a sequence leaves in its results, whichever kernels
//! it went through.

use crate::kernels::moe::geometry::{ExpertQuant, MoeGeometry};
use crate::kernels::moe::step;
use crate::kernels::moe::step::{MoeArg, MoeStepView};
use crate::launch;
use crate::meaning::cover;
use vstd::prelude::*;

verus! {

/// The entry points of the MoE source.
#[derive(Clone, Copy, PartialEq, Eq, Structural)]
pub enum MoeKernel {
    /// `moe_route`.
    Route,
    /// `moe_dispatch_t1`.
    DispatchT1,
    /// `moe_route_dispatch_t1`.
    RouteDispatchT1,
    /// `moe_align_count`.
    AlignCount,
    /// `moe_align_block_size`.
    AlignBlockSize,
    /// `moe_expert_ffn`.
    ExpertFfn,
    /// `moe_expert_ffn_gemv`.
    ExpertFfnGemv,
    /// `moe_expert_ffn_mma`.
    ExpertFfnMma,
    /// `moe_expert_ffn_mma_q8`.
    ExpertFfnMmaQ8,
    /// `moe_expert_down`.
    ExpertDown,
    /// `moe_expert_down_gemv`.
    ExpertDownGemv,
    /// `moe_expert_down_mma`.
    ExpertDownMma,
    /// `moe_reduce`.
    Reduce,
    /// `moe_shared_ffn`.
    SharedFfn,
    /// `moe_shared_ffn_gemv`.
    SharedFfnGemv,
    /// `moe_shared_down`.
    SharedDown,
    /// `moe_shared_down_gemv`.
    SharedDownGemv,
    /// `moe_swiglu`.
    Swiglu,
}

/// The name an entry point is loaded by.
pub open spec fn kernel_name(k: MoeKernel) -> Seq<char> {
    match k {
        MoeKernel::Route => "moe_route"@,
        MoeKernel::DispatchT1 => "moe_dispatch_t1"@,
        MoeKernel::RouteDispatchT1 => "moe_route_dispatch_t1"@,
        MoeKernel::AlignCount => "moe_align_count"@,
        MoeKernel::AlignBlockSize => "moe_align_block_size"@,
        MoeKernel::ExpertFfn => "moe_expert_ffn"@,
        MoeKernel::ExpertFfnGemv => "moe_expert_ffn_gemv"@,
        MoeKernel::ExpertFfnMma => "moe_expert_ffn_mma"@,
        MoeKernel::ExpertFfnMmaQ8 => "moe_expert_ffn_mma_q8"@,
        MoeKernel::ExpertDown => "moe_expert_down"@,
        MoeKernel::ExpertDownGemv => "moe_expert_down_gemv"@,
        MoeKernel::ExpertDownMma => "moe_expert_down_mma"@,
        MoeKernel::Reduce => "moe_reduce"@,
        MoeKernel::SharedFfn => "moe_shared_ffn"@,
        MoeKernel::SharedFfnGemv => "moe_shared_ffn_gemv"@,
        MoeKernel::SharedDown => "moe_shared_down"@,
        MoeKernel::SharedDownGemv => "moe_shared_down_gemv"@,
        MoeKernel::Swiglu => "moe_swiglu"@,
    }
}

/// The entry point of a name.
pub open spec fn kernel_of(name: Seq<char>) -> MoeKernel {
    choose|k: MoeKernel| kernel_name(k) == name
}

/// No two entry points share a name.
proof fn lemma_kernel_names()
    ensures
        forall|k: MoeKernel| kernel_of(#[trigger] kernel_name(k)) == k,
        kernel_of("moe_route"@) == MoeKernel::Route,
        kernel_of("moe_dispatch_t1"@) == MoeKernel::DispatchT1,
        kernel_of("moe_route_dispatch_t1"@) == MoeKernel::RouteDispatchT1,
        kernel_of("moe_align_count"@) == MoeKernel::AlignCount,
        kernel_of("moe_align_block_size"@) == MoeKernel::AlignBlockSize,
        kernel_of("moe_expert_ffn"@) == MoeKernel::ExpertFfn,
        kernel_of("moe_expert_ffn_gemv"@) == MoeKernel::ExpertFfnGemv,
        kernel_of("moe_expert_ffn_mma"@) == MoeKernel::ExpertFfnMma,
        kernel_of("moe_expert_ffn_mma_q8"@) == MoeKernel::ExpertFfnMmaQ8,
        kernel_of("moe_expert_down"@) == MoeKernel::ExpertDown,
        kernel_of("moe_expert_down_gemv"@) == MoeKernel::ExpertDownGemv,
        kernel_of("moe_expert_down_mma"@) == MoeKernel::ExpertDownMma,
        kernel_of("moe_reduce"@) == MoeKernel::Reduce,
        kernel_of("moe_shared_ffn"@) == MoeKernel::SharedFfn,
        kernel_of("moe_shared_ffn_gemv"@) == MoeKernel::SharedFfnGemv,
        kernel_of("moe_shared_down"@) == MoeKernel::SharedDown,
        kernel_of("moe_shared_down_gemv"@) == MoeKernel::SharedDownGemv,
        kernel_of("moe_swiglu"@) == MoeKernel::Swiglu,
{
    reveal_strlit("moe_route");
    reveal_strlit("moe_dispatch_t1");
    reveal_strlit("moe_route_dispatch_t1");
    reveal_strlit("moe_align_count");
    reveal_strlit("moe_align_block_size");
    reveal_strlit("moe_expert_ffn");
    reveal_strlit("moe_expert_ffn_gemv");
    reveal_strlit("moe_expert_ffn_mma");
    reveal_strlit("moe_expert_ffn_mma_q8");
    reveal_strlit("moe_expert_down");
    reveal_strlit("moe_expert_down_gemv");
    reveal_strlit("moe_expert_down_mma");
    reveal_strlit("moe_reduce");
    reveal_strlit("moe_shared_ffn");
    reveal_strlit("moe_shared_ffn_gemv");
    reveal_strlit("moe_shared_down");
    reveal_strlit("moe_shared_down_gemv");
    reveal_strlit("moe_swiglu");
    assert("moe_dispatch_t1"@[4] != "moe_align_count"@[4]);
    assert("moe_dispatch_t1"@[4] != "moe_expert_down"@[4]);
    assert("moe_dispatch_t1"@[4] != "moe_shared_down"@[4]);
    assert("moe_route_dispatch_t1"@[4] != "moe_expert_ffn_mma_q8"@[4]);
    assert("moe_align_count"@[4] != "moe_expert_down"@[4]);
    assert("moe_align_count"@[4] != "moe_shared_down"@[4]);
    assert("moe_align_block_size"@[4] != "moe_expert_down_gemv"@[4]);
    assert("moe_align_block_size"@[4] != "moe_shared_down_gemv"@[4]);
    assert("moe_expert_ffn"@[4] != "moe_shared_ffn"@[4]);
    assert("moe_expert_ffn_gemv"@[11] != "moe_expert_down_mma"@[11]);
    assert("moe_expert_ffn_gemv"@[4] != "moe_shared_ffn_gemv"@[4]);
    assert("moe_expert_down"@[4] != "moe_shared_down"@[4]);
    assert("moe_expert_down_gemv"@[4] != "moe_shared_down_gemv"@[4]);
    assert("moe_expert_down_mma"@[4] != "moe_shared_ffn_gemv"@[4]);
    assert("moe_reduce"@[4] != "moe_swiglu"@[4]);
    assert forall|a: MoeKernel, b: MoeKernel| #[trigger]
        kernel_name(a) == #[trigger] kernel_name(b) implies a == b by {
        assert(kernel_name(a).len() == kernel_name(b).len());
    }
    assert forall|k: MoeKernel| kernel_of(#[trigger] kernel_name(k)) == k by {
        assert(kernel_name(kernel_of(kernel_name(k))) == kernel_name(k));
    }
    assert(kernel_name(MoeKernel::Route) == "moe_route"@);
    assert(kernel_name(MoeKernel::DispatchT1) == "moe_dispatch_t1"@);
    assert(kernel_name(MoeKernel::RouteDispatchT1) == "moe_route_dispatch_t1"@);
    assert(kernel_name(MoeKernel::AlignCount) == "moe_align_count"@);
    assert(kernel_name(MoeKernel::AlignBlockSize) == "moe_align_block_size"@);
    assert(kernel_name(MoeKernel::ExpertFfn) == "moe_expert_ffn"@);
    assert(kernel_name(MoeKernel::ExpertFfnGemv) == "moe_expert_ffn_gemv"@);
    assert(kernel_name(MoeKernel::ExpertFfnMma) == "moe_expert_ffn_mma"@);
    assert(kernel_name(MoeKernel::ExpertFfnMmaQ8) == "moe_expert_ffn_mma_q8"@);
    assert(kernel_name(MoeKernel::ExpertDown) == "moe_expert_down"@);
    assert(kernel_name(MoeKernel::ExpertDownGemv) == "moe_expert_down_gemv"@);
    assert(kernel_name(MoeKernel::ExpertDownMma) == "moe_expert_down_mma"@);
    assert(kernel_name(MoeKernel::Reduce) == "moe_reduce"@);
    assert(kernel_name(MoeKernel::SharedFfn) == "moe_shared_ffn"@);
    assert(kernel_name(MoeKernel::SharedFfnGemv) == "moe_shared_ffn_gemv"@);
    assert(kernel_name(MoeKernel::SharedDown) == "moe_shared_down"@);
    assert(kernel_name(MoeKernel::SharedDownGemv) == "moe_shared_down_gemv"@);
    assert(kernel_name(MoeKernel::Swiglu) == "moe_swiglu"@);
}

/// One operation of an expression.
pub enum MoeOp {
    /// Weights, unpacked from a format.
    Weights(ExpertQuant),
    /// Ids of the experts with the largest softmax of the logits.
    TopIds,
    /// Their normalized weights.
    TopWeights,
    /// A table of sentinels.
    Sentinels,
    /// A table of blocks without an expert.
    Unassigned,
    /// Selections per expert.
    Counts,
    /// Flat ids grouped by expert, each group padded to whole blocks.
    Sorted,
    /// The expert of each block of those groups.
    Experts,
    /// The length of the groups with their padding.
    Padded,
    /// Gate/up of every dispatch slot, SwiGLU taken of the former.
    ExpertFfn,
    /// Down-projected contributions per `(token, k)`, over earlier contents.
    Contributions,
    /// The sum of each token's contributions.
    Sum,
    /// A matrix applied to every row.
    Project,
    /// `silu(first) * second`.
    SwiGlu,
    /// Int8 codes of rows, one scale per 32.
    Quants,
    /// The scales of those codes.
    Scales,
}

/// What a buffer holds.
pub enum MoeValue {
    /// What the caller put into the buffer.
    Given(MoeArg),
    /// Zeros.
    Zeros,
    /// Nothing that is known.
    Unknown,
    /// An operation, what it is applied to, and its extents.
    Of { op: MoeOp, inputs: Seq<MoeValue>, extents: Seq<int> },
}

/// The contents of every buffer.
pub type MoeMemory = Map<MoeArg, MoeValue>;

/// An operation applied to inputs over extents.
pub open spec fn of(op: MoeOp, inputs: Seq<MoeValue>, extents: Seq<int>) -> MoeValue {
    MoeValue::Of { op, inputs, extents }
}

/// The memory in front of a sequence: what the caller put everywhere. The
/// repacked matrices of the shared expert are the codes and scales of its
/// three Q8_0 matrices.
pub open spec fn at_start(g: MoeGeometry) -> MoeMemory {
    let (h, i) = (g.hidden as int, g.intermediate as int);
    Map::new(
        |a: MoeArg| true,
        |a: MoeArg|
            match a {
                MoeArg::GateInt8 => codes(q8_0(MoeArg::Gate), i, h),
                MoeArg::GateScales => scales(q8_0(MoeArg::Gate), i, h),
                MoeArg::UpInt8 => codes(q8_0(MoeArg::Up), i, h),
                MoeArg::UpScales => scales(q8_0(MoeArg::Up), i, h),
                MoeArg::DownInt8 => codes(q8_0(MoeArg::Down), h, i),
                MoeArg::DownScales => scales(q8_0(MoeArg::Down), h, i),
                _ => MoeValue::Given(a),
            },
    )
}

/// The Q8_0 weights the caller put into a buffer.
pub open spec fn q8_0(a: MoeArg) -> MoeValue {
    of(MoeOp::Weights(ExpertQuant::Q8_0), seq![MoeValue::Given(a)], seq![])
}

/// Weights of a buffer in the format of a code: 0 is Q6_K and 1 is Q8_0.
pub open spec fn unpacked(blocks: MoeValue, code: int) -> MoeValue {
    if code == 0 {
        of(MoeOp::Weights(ExpertQuant::Q6K), seq![blocks], seq![])
    } else if code == 1 {
        of(MoeOp::Weights(ExpertQuant::Q8_0), seq![blocks], seq![])
    } else {
        MoeValue::Unknown
    }
}

/// The int8 codes of `rows` rows of `cols` values.
pub open spec fn codes(v: MoeValue, rows: int, cols: int) -> MoeValue {
    of(MoeOp::Quants, seq![v], seq![rows, cols])
}

/// The scales of those codes.
pub open spec fn scales(v: MoeValue, rows: int, cols: int) -> MoeValue {
    of(MoeOp::Scales, seq![v], seq![rows, cols])
}

/// The values that codes and scales of rows of `cols` stand for. Codes with the
/// scales of something else stand for nothing.
pub open spec fn dequantized(q: MoeValue, s: MoeValue, cols: int) -> MoeValue {
    match q {
        MoeValue::Of { op: MoeOp::Quants, inputs, extents } => {
            if s == of(MoeOp::Scales, inputs, extents) && extents[1] == cols {
                inputs[0]
            } else {
                MoeValue::Unknown
            }
        },
        _ => MoeValue::Unknown,
    }
}

/// The selected experts of every token.
pub open spec fn top_ids(logits: MoeValue, valid: MoeValue, experts: int, k: int) -> MoeValue {
    of(MoeOp::TopIds, seq![logits, valid], seq![experts, k])
}

/// The weights of the selected experts of every token.
pub open spec fn top_weights(logits: MoeValue, valid: MoeValue, experts: int, k: int) -> MoeValue {
    of(MoeOp::TopWeights, seq![logits, valid], seq![experts, k])
}

/// The extents of a dispatch.
pub struct MoeExtents {
    /// Selections per token.
    pub k: int,
    /// Experts.
    pub experts: int,
    /// Slots per block.
    pub block: int,
    /// Slots in all.
    pub slots: int,
    /// Blocks in all.
    pub blocks: int,
}

/// A dispatch table of the selections in `ids`.
pub open spec fn table(op: MoeOp, ids: MoeValue, valid: MoeValue, e: MoeExtents) -> MoeValue {
    of(op, seq![ids, valid], seq![e.k, e.experts, e.block, e.slots, e.blocks])
}

/// Gate and up of every dispatch slot: `silu(gate * x) * (up * x)` for the
/// expert of the slot's block and the token of its flat id.
pub open spec fn expert_ffn(
    gate: MoeValue,
    up: MoeValue,
    x: MoeValue,
    tables: Seq<MoeValue>,
    k: int,
    block: int,
    hidden: int,
    intermediate: int,
) -> MoeValue {
    of(MoeOp::ExpertFfn, seq![gate, up, x] + tables, seq![k, block, hidden, intermediate])
}

/// The weighted down projection of every dispatch slot, at its `(token, k)`.
pub open spec fn contributions(
    before: MoeValue,
    down: MoeValue,
    inter: MoeValue,
    weights: MoeValue,
    tables: Seq<MoeValue>,
    k: int,
    block: int,
    hidden: int,
    intermediate: int,
) -> MoeValue {
    of(
        MoeOp::Contributions,
        seq![before, down, inter, weights] + tables,
        seq![k, block, hidden, intermediate],
    )
}

/// The sum over each token's `k` contributions of `hidden` values.
pub open spec fn summed(partial: MoeValue, valid: MoeValue, k: int, hidden: int) -> MoeValue {
    of(MoeOp::Sum, seq![partial, valid], seq![k, hidden])
}

/// A matrix of `rows` rows of `cols` applied to every token.
pub open spec fn projected(w: MoeValue, x: MoeValue, cols: int, rows: int) -> MoeValue {
    of(MoeOp::Project, seq![w, x], seq![cols, rows])
}

/// `silu(gate) * up`.
pub open spec fn gated(gate: MoeValue, up: MoeValue) -> MoeValue {
    of(MoeOp::SwiGlu, seq![gate, up], seq![])
}

/// The integer at a position of an argument list.
pub open spec fn int_at(args: Seq<MoeArg>, i: int) -> int {
    match args[i] {
        MoeArg::Int(n) => n as int,
        MoeArg::Long(n) => n as int,
        _ => -1,
    }
}

/// What one launch leaves behind: the positions are those of the parameters in
/// the declaration of the entry point.
pub open spec fn launched(l: launch::LaunchView<MoeArg>, m: MoeMemory) -> MoeMemory {
    let a = l.args;
    match kernel_of(l.kernel) {
        // logits, valid_tokens, num_experts, top_k, topk_ids, topk_weights
        MoeKernel::Route => {
            let (logits, valid) = (m[a[0]], m[a[1]]);
            let (experts, k) = (int_at(a, 2), int_at(a, 3));
            m.insert(a[4], top_ids(logits, valid, experts, k)).insert(
                a[5],
                top_weights(logits, valid, experts, k),
            )
        },
        // topk_ids, valid_tokens, top_k, num_experts, block_size,
        // sorted_capacity, expert_capacity, sorted_token_ids, expert_ids,
        // num_tokens_post_pad
        MoeKernel::DispatchT1 => {
            let (ids, valid) = (m[a[0]], m[a[1]]);
            let e = MoeExtents {
                k: int_at(a, 2),
                experts: int_at(a, 3),
                block: int_at(a, 4),
                slots: int_at(a, 5),
                blocks: int_at(a, 6),
            };
            m.insert(a[7], table(MoeOp::Sorted, ids, valid, e)).insert(
                a[8],
                table(MoeOp::Experts, ids, valid, e),
            ).insert(a[9], table(MoeOp::Padded, ids, valid, e))
        },
        // logits, valid_tokens, num_experts, top_k, block_size,
        // sorted_capacity, expert_capacity, topk_ids, topk_weights,
        // sorted_token_ids, expert_ids, num_tokens_post_pad
        MoeKernel::RouteDispatchT1 => {
            let (logits, valid) = (m[a[0]], m[a[1]]);
            let e = MoeExtents {
                k: int_at(a, 3),
                experts: int_at(a, 2),
                block: int_at(a, 4),
                slots: int_at(a, 5),
                blocks: int_at(a, 6),
            };
            let ids = top_ids(logits, valid, e.experts, e.k);
            m.insert(a[7], ids).insert(a[8], top_weights(logits, valid, e.experts, e.k)).insert(
                a[9],
                table(MoeOp::Sorted, ids, valid, e),
            ).insert(a[10], table(MoeOp::Experts, ids, valid, e)).insert(
                a[11],
                table(MoeOp::Padded, ids, valid, e),
            )
        },
        // topk_ids, valid_tokens, top_k, sorted_capacity, expert_capacity,
        // sorted_token_ids, expert_ids, counts; one block per expert
        MoeKernel::AlignCount => {
            let (ids, valid) = (m[a[0]], m[a[1]]);
            let experts = l.config.grid_dim.0 as int;
            m.insert(
                a[5],
                of(MoeOp::Sentinels, seq![valid], seq![int_at(a, 2), int_at(a, 3)]),
            ).insert(a[6], of(MoeOp::Unassigned, seq![], seq![int_at(a, 4)])).insert(
                a[7],
                of(MoeOp::Counts, seq![ids, valid], seq![int_at(a, 2), experts]),
            )
        },
        // topk_ids, valid_tokens, counts, top_k, num_experts, block_size,
        // sorted_capacity, expert_capacity, sorted_token_ids, expert_ids,
        // num_tokens_post_pad; fills the tables that were reset
        MoeKernel::AlignBlockSize => {
            let (ids, valid) = (m[a[0]], m[a[1]]);
            let e = MoeExtents {
                k: int_at(a, 3),
                experts: int_at(a, 4),
                block: int_at(a, 5),
                slots: int_at(a, 6),
                blocks: int_at(a, 7),
            };
            let ready = {
                &&& m[a[2]] == of(MoeOp::Counts, seq![ids, valid], seq![e.k, e.experts])
                &&& m[a[8]] == of(MoeOp::Sentinels, seq![valid], seq![e.k, e.slots])
                &&& m[a[9]] == of(MoeOp::Unassigned, seq![], seq![e.blocks])
                &&& l.config.grid_dim.0 == e.experts
            };
            if ready {
                m.insert(a[8], table(MoeOp::Sorted, ids, valid, e)).insert(
                    a[9],
                    table(MoeOp::Experts, ids, valid, e),
                ).insert(a[10], table(MoeOp::Padded, ids, valid, e))
            } else {
                m.insert(a[8], MoeValue::Unknown).insert(a[9], MoeValue::Unknown).insert(
                    a[10],
                    MoeValue::Unknown,
                )
            }
        },
        // gate_q, gate_quant, up_q, up_quant, hidden_states, sorted_token_ids,
        // expert_ids, valid_tokens, top_k, block_size, hidden, intermediate,
        // inter
        MoeKernel::ExpertFfn | MoeKernel::ExpertFfnGemv => m.insert(
            a[12],
            expert_ffn(
                unpacked(m[a[0]], int_at(a, 1)),
                unpacked(m[a[2]], int_at(a, 3)),
                m[a[4]],
                seq![m[a[5]], m[a[6]], m[a[7]]],
                int_at(a, 8),
                int_at(a, 9),
                int_at(a, 10),
                int_at(a, 11),
            ),
        ),
        // gate_q, up_q, xq, xscale, sorted_token_ids, expert_ids, valid_tokens,
        // top_k, block_size, hidden, intermediate, inter; both stacks Q6_K
        MoeKernel::ExpertFfnMma => m.insert(
            a[11],
            expert_ffn(
                unpacked(m[a[0]], 0),
                unpacked(m[a[1]], 0),
                dequantized(m[a[2]], m[a[3]], int_at(a, 9)),
                seq![m[a[4]], m[a[5]], m[a[6]]],
                int_at(a, 7),
                int_at(a, 8),
                int_at(a, 9),
                int_at(a, 10),
            ),
        ),
        // the same, both stacks Q8_0
        MoeKernel::ExpertFfnMmaQ8 => m.insert(
            a[11],
            expert_ffn(
                unpacked(m[a[0]], 1),
                unpacked(m[a[1]], 1),
                dequantized(m[a[2]], m[a[3]], int_at(a, 9)),
                seq![m[a[4]], m[a[5]], m[a[6]]],
                int_at(a, 7),
                int_at(a, 8),
                int_at(a, 9),
                int_at(a, 10),
            ),
        ),
        // down_q, down_quant, inter, topk_weights, sorted_token_ids,
        // expert_ids, valid_tokens, top_k, block_size, hidden, intermediate,
        // partial
        MoeKernel::ExpertDown | MoeKernel::ExpertDownGemv => m.insert(
            a[11],
            contributions(
                m[a[11]],
                unpacked(m[a[0]], int_at(a, 1)),
                m[a[2]],
                m[a[3]],
                seq![m[a[4]], m[a[5]], m[a[6]]],
                int_at(a, 7),
                int_at(a, 8),
                int_at(a, 9),
                int_at(a, 10),
            ),
        ),
        // down_q, iq, iscale, topk_weights, sorted_token_ids, expert_ids,
        // valid_tokens, top_k, block_size, hidden, intermediate, partial; the
        // stack Q8_0
        MoeKernel::ExpertDownMma => m.insert(
            a[11],
            contributions(
                m[a[11]],
                unpacked(m[a[0]], 1),
                dequantized(m[a[1]], m[a[2]], int_at(a, 10)),
                m[a[3]],
                seq![m[a[4]], m[a[5]], m[a[6]]],
                int_at(a, 7),
                int_at(a, 8),
                int_at(a, 9),
                int_at(a, 10),
            ),
        ),
        // partial, valid_tokens, top_k, hidden, out
        MoeKernel::Reduce => m.insert(
            a[4],
            summed(m[a[0]], m[a[1]], int_at(a, 2), int_at(a, 3)),
        ),
        // gate_q, gate_quant, up_q, up_quant, hidden_states, valid_tokens,
        // hidden, intermediate, inter
        MoeKernel::SharedFfn | MoeKernel::SharedFfnGemv => {
            let (h, i) = (int_at(a, 6), int_at(a, 7));
            m.insert(
                a[8],
                if m[a[5]] == MoeValue::Given(MoeArg::ValidTokens) {
                    gated(
                        projected(unpacked(m[a[0]], int_at(a, 1)), m[a[4]], h, i),
                        projected(unpacked(m[a[2]], int_at(a, 3)), m[a[4]], h, i),
                    )
                } else {
                    MoeValue::Unknown
                },
            )
        },
        // down_q, down_quant, inter, valid_tokens, hidden, intermediate, out
        MoeKernel::SharedDown | MoeKernel::SharedDownGemv => m.insert(
            a[6],
            if m[a[3]] == MoeValue::Given(MoeArg::ValidTokens) {
                projected(unpacked(m[a[0]], int_at(a, 1)), m[a[2]], int_at(a, 5), int_at(a, 4))
            } else {
                MoeValue::Unknown
            },
        ),
        // gate, up, n, out
        MoeKernel::Swiglu => m.insert(a[3], gated(m[a[0]], m[a[1]])),
    }
}

/// What one step leaves behind.
pub open spec fn stepped(s: MoeStepView, m: MoeMemory) -> MoeMemory {
    match s {
        MoeStepView::Launch(l) => launched(l, m),
        MoeStepView::QuantizeRows { source, quants, scales: to, rows, cols } => m.insert(
            quants,
            codes(m[source], rows as int, cols as int),
        ).insert(to, scales(m[source], rows as int, cols as int)),
        MoeStepView::Project { weight, weight_scales, input, input_scales, output, k, n, m: rows } =>
            m.insert(
            output,
            projected(
                dequantized(m[weight], m[weight_scales], k as int),
                dequantized(m[input], m[input_scales], k as int),
                k as int,
                n as int,
            ),
        ),
        MoeStepView::Zero(a) => m.insert(a, MoeValue::Zeros),
    }
}

/// What a sequence leaves behind.
pub open spec fn after(steps: Seq<MoeStepView>, m: MoeMemory) -> MoeMemory
    decreases steps.len(),
{
    if steps.len() == 0 {
        m
    } else {
        after(steps.drop_first(), stepped(steps[0], m))
    }
}

proof fn lemma_after_one(s: MoeStepView, m: MoeMemory)
    ensures
        after(seq![s], m) == stepped(s, m),
{
    reveal_with_fuel(after, 2);
}

proof fn lemma_after_two(s: MoeStepView, t: MoeStepView, m: MoeMemory)
    ensures
        after(seq![s, t], m) == stepped(t, stepped(s, m)),
{
    reveal_with_fuel(after, 3);
    assert(seq![s, t].drop_first() =~= seq![t]);
}

proof fn lemma_after_both(a: Seq<MoeStepView>, b: Seq<MoeStepView>, m: MoeMemory)
    ensures
        after(a + b, m) == after(b, after(a, m)),
    decreases a.len(),
{
    if a.len() == 0 {
        assert(a + b =~= b);
    } else {
        assert((a + b).drop_first() =~= a.drop_first() + b);
        lemma_after_both(a.drop_first(), b, stepped(a[0], m));
    }
}

/// The extents of a geometry's dispatch.
pub open spec fn extents(g: MoeGeometry) -> MoeExtents {
    MoeExtents {
        k: g.experts_per_token as int,
        experts: g.num_experts as int,
        block: g.block_size as int,
        slots: g.sorted_slots(),
        blocks: g.dispatch_blocks(),
    }
}

/// Routing selects `experts_per_token` of all `num_experts` by the logits, and
/// the dispatch tables are those of that selection. A single token's fused
/// launch leaves what the separate routing and dispatch leave, and a batch's
/// two passes leave what a single token's one pass does.
pub proof fn law_routing_and_dispatch_compute_the_tables(g: MoeGeometry)
    requires
        g.supported(),
        g.routable(),
    ensures
        ({
            let start = at_start(g);
            let (logits, valid) = (start[MoeArg::Logits], start[MoeArg::ValidTokens]);
            let e = extents(g);
            let ids = top_ids(logits, valid, e.experts, e.k);
            let fused = after(g.route_and_dispatch_steps(), start);
            let apart = after(g.dispatch_steps(), after(g.route_steps(), start));
            &&& e.k <= e.experts
            &&& fused[MoeArg::TopkIds] == ids && apart[MoeArg::TopkIds] == ids
            &&& fused[MoeArg::TopkWeights] == top_weights(logits, valid, e.experts, e.k)
            &&& apart[MoeArg::TopkWeights] == fused[MoeArg::TopkWeights]
            &&& fused[MoeArg::SortedTokenIds] == table(MoeOp::Sorted, ids, valid, e)
            &&& apart[MoeArg::SortedTokenIds] == fused[MoeArg::SortedTokenIds]
            &&& fused[MoeArg::ExpertIds] == table(MoeOp::Experts, ids, valid, e)
            &&& apart[MoeArg::ExpertIds] == fused[MoeArg::ExpertIds]
            &&& fused[MoeArg::NumTokensPostPad] == table(MoeOp::Padded, ids, valid, e)
            &&& apart[MoeArg::NumTokensPostPad] == fused[MoeArg::NumTokensPostPad]
            &&& fused[MoeArg::Hidden] == start[MoeArg::Hidden]
            &&& fused[MoeArg::ValidTokens] == valid
            &&& apart[MoeArg::ValidTokens] == valid
        }),
{
    lemma_kernel_names();
    step::lemma_supported_sizes(g);
    let start = at_start(g);
    lemma_after_one(g.route_steps()[0], start);
    assert(g.route_steps() =~= seq![g.route_steps()[0]]);
    let routed = after(g.route_steps(), start);
    let d = g.dispatch_steps();
    if g.max_tokens == 1 {
        lemma_after_one(d[0], routed);
        assert(d =~= seq![d[0]]);
        let r = g.route_and_dispatch_steps();
        lemma_after_one(r[0], start);
        assert(r =~= seq![r[0]]);
    } else {
        lemma_after_two(d[0], d[1], routed);
        assert(d =~= seq![d[0], d[1]]);
        lemma_after_both(g.route_steps(), d, start);
    }
}

/// Gate/up of the routed block: the gating stack in its format, with the up
/// stack in its own, on the hidden states, through the dispatch tables.
pub open spec fn routed_inter(
    g: MoeGeometry,
    start: MoeMemory,
    gate: ExpertQuant,
    up: ExpertQuant,
) -> MoeValue {
    expert_ffn(
        of(MoeOp::Weights(gate), seq![start[MoeArg::Gate]], seq![]),
        of(MoeOp::Weights(up), seq![start[MoeArg::Up]], seq![]),
        start[MoeArg::Hidden],
        seq![start[MoeArg::SortedTokenIds], start[MoeArg::ExpertIds], start[MoeArg::ValidTokens]],
        g.experts_per_token as int,
        g.block_size as int,
        g.hidden as int,
        g.intermediate as int,
    )
}

/// The contributions of the routed block, over zeros.
pub open spec fn routed_partial(
    g: MoeGeometry,
    start: MoeMemory,
    gate: ExpertQuant,
    up: ExpertQuant,
    down: ExpertQuant,
) -> MoeValue {
    contributions(
        MoeValue::Zeros,
        of(MoeOp::Weights(down), seq![start[MoeArg::Down]], seq![]),
        routed_inter(g, start, gate, up),
        start[MoeArg::TopkWeights],
        seq![start[MoeArg::SortedTokenIds], start[MoeArg::ExpertIds], start[MoeArg::ValidTokens]],
        g.experts_per_token as int,
        g.block_size as int,
        g.hidden as int,
        g.intermediate as int,
    )
}

/// The extents a kernel takes as its `int`s.
pub open spec fn int_sized(g: MoeGeometry) -> bool {
    &&& g.hidden <= i32::MAX
    &&& g.intermediate <= i32::MAX
    &&& g.num_experts <= i32::MAX
    &&& g.experts_per_token <= i32::MAX
}

proof fn lemma_ffn(
    g: MoeGeometry,
    tensor_cores: bool,
    gate: ExpertQuant,
    up: ExpertQuant,
    m: MoeMemory,
)
    requires
        g.supported(),
        int_sized(g),
        m.dom() == Set::<MoeArg>::full(),
    ensures
        ({
            let end = after(g.ffn_steps(tensor_cores, gate, up), m);
            &&& end[MoeArg::Inter] == routed_inter(g, m, gate, up)
            &&& forall|a: MoeArg|
                a != MoeArg::Inter && a != MoeArg::Xq && a != MoeArg::XqScales ==> #[trigger] end[a]
                    == m[a]
        }),
{
    lemma_kernel_names();
    let s = g.ffn_steps(tensor_cores, gate, up);
    if s.len() == 1 {
        lemma_after_one(s[0], m);
        assert(s =~= seq![s[0]]);
    } else {
        lemma_after_two(s[0], s[1], m);
        assert(s =~= seq![s[0], s[1]]);
        let mid = stepped(s[0], m);
        assert(dequantized(mid[MoeArg::Xq], mid[MoeArg::XqScales], g.hidden as int)
            == m[MoeArg::Hidden]);
    }
}

proof fn lemma_down(g: MoeGeometry, tensor_cores: bool, down: ExpertQuant, m: MoeMemory)
    requires
        g.supported(),
        int_sized(g),
        m.dom() == Set::<MoeArg>::full(),
    ensures
        ({
            let end = after(g.down_steps(tensor_cores, down), m);
            &&& end[MoeArg::Partial] == contributions(
                m[MoeArg::Partial],
                of(MoeOp::Weights(down), seq![m[MoeArg::Down]], seq![]),
                m[MoeArg::Inter],
                m[MoeArg::TopkWeights],
                seq![m[MoeArg::SortedTokenIds], m[MoeArg::ExpertIds], m[MoeArg::ValidTokens]],
                g.experts_per_token as int,
                g.block_size as int,
                g.hidden as int,
                g.intermediate as int,
            )
            &&& end[MoeArg::ValidTokens] == m[MoeArg::ValidTokens]
        }),
{
    lemma_kernel_names();
    let s = g.down_steps(tensor_cores, down);
    if s.len() == 1 {
        lemma_after_one(s[0], m);
        assert(s =~= seq![s[0]]);
    } else {
        lemma_after_two(s[0], s[1], m);
        assert(s =~= seq![s[0], s[1]]);
        let mid = stepped(s[0], m);
        assert(dequantized(mid[MoeArg::Iq], mid[MoeArg::IqScales], g.intermediate as int)
            == m[MoeArg::Inter]);
    }
}

/// The routed block computes, on every path alike, the sum over each token's
/// experts of the weighted down projection of `silu(gate * x) * (up * x)`: the
/// gate stack is what is gated, each stack is read in its own format, and the
/// contributions start from zero.
pub proof fn law_routed_block_computes_the_experts(
    g: MoeGeometry,
    tensor_cores: bool,
    gate: ExpertQuant,
    up: ExpertQuant,
    down: ExpertQuant,
)
    requires
        g.supported(),
        int_sized(g),
    ensures
        ({
            let start = at_start(g);
            let grouped = g.grouped_steps(tensor_cores, gate, up, down);
            let end = after(grouped.push(g.reduce_step()), start);
            &&& after(grouped, start)[MoeArg::Partial] == routed_partial(g, start, gate, up, down)
            &&& end[MoeArg::Output] == summed(
                routed_partial(g, start, gate, up, down),
                start[MoeArg::ValidTokens],
                g.experts_per_token as int,
                g.hidden as int,
            )
        }),
{
    lemma_kernel_names();
    let start = at_start(g);
    let ffn = g.ffn_steps(tensor_cores, gate, up);
    let zero = seq![MoeStepView::Zero(MoeArg::Partial)];
    let down_steps = g.down_steps(tensor_cores, down);
    let grouped = g.grouped_steps(tensor_cores, gate, up, down);
    assert(start.dom() =~= Set::<MoeArg>::full());
    lemma_ffn(g, tensor_cores, gate, up, start);
    let a = after(ffn, start);
    lemma_after_total(ffn, start);
    lemma_after_one(zero[0], a);
    let b = stepped(zero[0], a);
    assert(b.dom() =~= Set::<MoeArg>::full());
    lemma_down(g, tensor_cores, down, b);
    lemma_after_both(ffn, zero, start);
    lemma_after_both(ffn + zero, down_steps, start);
    lemma_after_one(g.reduce_step(), after(grouped, start));
    lemma_after_both(grouped, seq![g.reduce_step()], start);
    assert(grouped.push(g.reduce_step()) =~= grouped + seq![g.reduce_step()]);
}

proof fn lemma_after_total(steps: Seq<MoeStepView>, m: MoeMemory)
    requires
        m.dom() == Set::<MoeArg>::full(),
    ensures
        after(steps, m).dom() == Set::<MoeArg>::full(),
    decreases steps.len(),
{
    if steps.len() > 0 {
        let next = stepped(steps[0], m);
        assert(next.dom() =~= Set::<MoeArg>::full());
        lemma_after_total(steps.drop_first(), next);
    }
}

/// What the shared expert computes.
pub open spec fn shared_output(
    g: MoeGeometry,
    start: MoeMemory,
    gate: ExpertQuant,
    up: ExpertQuant,
    down: ExpertQuant,
) -> MoeValue {
    let (h, i) = (g.hidden as int, g.intermediate as int);
    let x = start[MoeArg::Hidden];
    projected(
        of(MoeOp::Weights(down), seq![start[MoeArg::Down]], seq![]),
        gated(
            projected(of(MoeOp::Weights(gate), seq![start[MoeArg::Gate]], seq![]), x, h, i),
            projected(of(MoeOp::Weights(up), seq![start[MoeArg::Up]], seq![]), x, h, i),
        ),
        i,
        h,
    )
}

/// The shared expert computes `down * (silu(gate * x) * (up * x))` of its three
/// matrices, for one token and for a batch, and the integer path computes of
/// the repacked Q8_0 matrices what the fp32 path computes of the matrices
/// themselves.
pub proof fn law_shared_expert_computes_the_expert(
    g: MoeGeometry,
    gate: ExpertQuant,
    up: ExpertQuant,
    down: ExpertQuant,
)
    requires
        g.supported(),
        int_sized(g),
    ensures
        after(g.shared_steps(gate, up, down), at_start(g))[MoeArg::Output] == shared_output(
            g,
            at_start(g),
            gate,
            up,
            down,
        ),
        after(g.shared_mma_steps(), at_start(g))[MoeArg::Output] == shared_output(
            g,
            at_start(g),
            ExpertQuant::Q8_0,
            ExpertQuant::Q8_0,
            ExpertQuant::Q8_0,
        ),
{
    lemma_kernel_names();
    let start = at_start(g);
    let s = g.shared_steps(gate, up, down);
    lemma_after_two(s[0], s[1], start);
    assert(s =~= seq![s[0], s[1]]);
    let t = g.shared_mma_steps();
    lemma_after_two(t[0], t[1], start);
    let m1 = stepped(t[1], stepped(t[0], start));
    lemma_after_two(t[2], t[3], m1);
    let m2 = stepped(t[3], stepped(t[2], m1));
    lemma_after_two(t[4], t[5], m2);
    lemma_after_both(seq![t[0], t[1]], seq![t[2], t[3]], start);
    lemma_after_both(seq![t[0], t[1], t[2], t[3]], seq![t[4], t[5]], start);
    assert(seq![t[0], t[1]] + seq![t[2], t[3]] =~= seq![t[0], t[1], t[2], t[3]]);
    assert(seq![t[0], t[1], t[2], t[3]] + seq![t[4], t[5]] =~= t);
    let (h, i) = (g.hidden as int, g.intermediate as int);
    let x0 = stepped(t[0], start);
    assert(dequantized(x0[MoeArg::Xq], x0[MoeArg::XqScales], h) == start[MoeArg::Hidden]);
    assert(dequantized(start[MoeArg::GateInt8], start[MoeArg::GateScales], h) == q8_0(
        MoeArg::Gate,
    ));
    assert(dequantized(start[MoeArg::UpInt8], start[MoeArg::UpScales], h) == q8_0(MoeArg::Up));
    assert(dequantized(start[MoeArg::DownInt8], start[MoeArg::DownScales], i) == q8_0(
        MoeArg::Down,
    ));
    let m3 = stepped(t[4], m2);
    assert(dequantized(m3[MoeArg::Siq], m3[MoeArg::SiqScales], i) == m2[MoeArg::SharedSwiglu]);
}

/// A step has the shape its entry point indexes by: one block or thread for
/// everything its launch carries, and the shared memory it lays out.
pub open spec fn well_shaped(g: MoeGeometry, s: MoeStepView) -> bool {
    match s {
        MoeStepView::Launch(l) => {
            let (x, y, z) = (
                l.config.grid_dim.0 as int,
                l.config.grid_dim.1 as int,
                l.config.grid_dim.2 as int,
            );
            let shared = l.config.shared_mem_bytes as int;
            let tokens = g.max_tokens as int;
            // The threads of a block, in one row.
            &&& l.config.block_dim.1 == 1 && l.config.block_dim.2 == 1 && z == 1
            &&& l.config.block_dim.0 == if kernel_of(l.kernel) == MoeKernel::SharedFfnGemv {
                128
            } else {
                256u32
            }
            &&& match kernel_of(l.kernel) {
                // A block per token: the probabilities, and a value and an
                // index per thread.
                MoeKernel::Route => x == tokens && y == 1 && shared == 4 * int_at(l.args, 2) + 4
                    * 256 + 4 * 256,
                // One block: a running total behind every expert.
                MoeKernel::DispatchT1 => x == 1 && y == 1 && shared == 4 * (int_at(l.args, 3) + 1),
                MoeKernel::RouteDispatchT1 => x == 1 && y == 1 && shared == 4 * int_at(l.args, 2)
                    + 4 * 256 + 4 * 256 + 4 * (int_at(l.args, 2) + 1),
                // A block per expert.
                MoeKernel::AlignCount => x == g.num_experts && y == 1 && shared == 4 * 256,
                MoeKernel::AlignBlockSize => x == int_at(l.args, 4) && y == 1 && shared == 4 * (
                int_at(l.args, 4) + 1) + 4 * 256,
                // A block per eight rows and dispatch block.
                MoeKernel::ExpertFfn => cover(x, 8, int_at(l.args, 11)) && y * int_at(l.args, 9)
                    == g.sorted_slots() && shared == 16 * 128 * 4 + 16 * 8 + 16 * 4,
                MoeKernel::ExpertFfnGemv => cover(x, 8, int_at(l.args, 11)) && y * int_at(
                    l.args,
                    9,
                ) == g.sorted_slots() && shared == 0,
                MoeKernel::ExpertDown => cover(x, 8, int_at(l.args, 9)) && y * int_at(l.args, 8)
                    == g.sorted_slots() && shared == 16 * 128 * 4 + 16 * 8 + 16 * 4,
                MoeKernel::ExpertDownGemv => cover(x, 8, int_at(l.args, 9)) && y * int_at(
                    l.args,
                    8,
                ) == g.sorted_slots() && shared == 0,
                // A block per 64 rows and dispatch block: the staged weights,
                // the activations, their scales and the row of each slot.
                MoeKernel::ExpertFfnMma => cover(x, 64, int_at(l.args, 10)) && y * int_at(
                    l.args,
                    8,
                ) == g.sorted_slots() && shared == 2 * 64 * 112 + 2 * 64 * 16 + 32 * 144 + 32 * 4
                    * 4 + 32 * 8,
                MoeKernel::ExpertFfnMmaQ8 => cover(x, 64, int_at(l.args, 10)) && y * int_at(
                    l.args,
                    8,
                ) == g.sorted_slots() && shared == 2 * 64 * 144 + 32 * 144 + 32 * 4 * 4 + 32 * 8,
                MoeKernel::ExpertDownMma => cover(x, 64, int_at(l.args, 9)) && y * int_at(
                    l.args,
                    8,
                ) == g.sorted_slots() && shared == 64 * 144 + 32 * 144 + 32 * 4 * 4 + 32 * 8 + 32
                    * 4,
                // A block per token and 256 values.
                MoeKernel::Reduce => x == tokens && cover(y, 256, int_at(l.args, 3)) && shared == 0,
                // A block per eight rows and sixteen tokens.
                MoeKernel::SharedFfn => cover(x, 8, int_at(l.args, 7)) && cover(y, 16, tokens)
                    && shared == 16 * 128 * 4 + 16 * 8 + 16 * 4,
                MoeKernel::SharedDown => cover(x, 8, int_at(l.args, 4)) && cover(y, 16, tokens)
                    && shared == 16 * 128 * 4 + 16 * 8 + 16 * 4,
                // A block of four warps per row; a warp per row.
                MoeKernel::SharedFfnGemv => x == int_at(l.args, 7) && y == 1 && shared == 0
                    && tokens == 1,
                MoeKernel::SharedDownGemv => cover(x, 8, int_at(l.args, 4)) && y == 1 && shared
                    == 0 && tokens == 1,
                // A thread per value of every token.
                MoeKernel::Swiglu => cover(x, 256, int_at(l.args, 2)) && y == 1 && shared == 0
                    && int_at(l.args, 2) == tokens * g.intermediate,
            }
        },
        MoeStepView::QuantizeRows { source, quants, scales: to, rows, cols } => match source {
            MoeArg::Hidden => rows == g.max_tokens && cols == g.hidden,
            MoeArg::Inter => rows == g.sorted_slots() && cols == g.intermediate,
            MoeArg::SharedSwiglu => rows == g.max_tokens && cols == g.intermediate,
            _ => false,
        },
        MoeStepView::Project { weight, weight_scales, input, input_scales, output, k, n, m } => {
            m == g.max_tokens
        },
        MoeStepView::Zero(a) => true,
    }
}

proof fn lemma_bands(rows: usize, band: int)
    requires
        rows <= i32::MAX,
        0 < band <= 256,
    ensures
        cover(launch::ceil_div((rows as u32) as int, band), band, rows as int),
        launch::ceil_div((rows as u32) as int, band) <= rows,
{
    launch::lemma_ceil_div_covers(rows as int, band);
}

/// Every step of every sequence has the shape its entry point indexes by.
pub proof fn law_steps_are_well_shaped(
    g: MoeGeometry,
    tensor_cores: bool,
    gate: ExpertQuant,
    up: ExpertQuant,
    down: ExpertQuant,
)
    requires
        g.supported(),
        int_sized(g),
        g.routable(),
        g.max_tokens * g.intermediate <= i32::MAX,
    ensures
        forall|i: int|
            0 <= i < g.route_and_dispatch_steps().len() ==> well_shaped(
                g,
                #[trigger] g.route_and_dispatch_steps()[i],
            ),
        forall|i: int|
            0 <= i < g.route_steps().len() ==> well_shaped(g, #[trigger] g.route_steps()[i]),
        forall|i: int|
            0 <= i < g.dispatch_steps().len() ==> well_shaped(g, #[trigger] g.dispatch_steps()[i]),
        forall|i: int|
            0 <= i < g.grouped_steps(tensor_cores, gate, up, down).len() ==> well_shaped(
                g,
                #[trigger] g.grouped_steps(tensor_cores, gate, up, down)[i],
            ),
        well_shaped(g, g.reduce_step()),
        forall|i: int|
            0 <= i < 2 ==> well_shaped(g, #[trigger] g.shared_steps(gate, up, down)[i]),
        g.shared_steps(gate, up, down).len() == 2,
        forall|i: int|
            0 <= i < g.shared_mma_steps().len() ==> well_shaped(
                g,
                #[trigger] g.shared_mma_steps()[i],
            ),
{
    lemma_kernel_names();
    step::lemma_supported_sizes(g);
    lemma_bands(g.hidden, 8);
    lemma_bands(g.hidden, 64);
    lemma_bands(g.hidden, 256);
    lemma_bands(g.intermediate, 8);
    lemma_bands(g.intermediate, 64);
    lemma_bands(g.max_tokens, 16);
    assert(0 <= g.max_tokens * g.intermediate) by (nonlinear_arith);
    lemma_bands((g.max_tokens * g.intermediate) as usize, 256);
    assert(g.dispatch_blocks() * g.block_size == g.sorted_slots());
    let f = g.ffn_steps(tensor_cores, gate, up);
    assert(forall|i: int| 0 <= i < f.len() ==> well_shaped(g, #[trigger] f[i]));
    let d = g.down_steps(tensor_cores, down);
    assert(forall|i: int| 0 <= i < d.len() ==> well_shaped(g, #[trigger] d[i]));
    assert(forall|i: int|
        0 <= i < g.route_steps().len() ==> well_shaped(g, #[trigger] g.route_steps()[i]));
    assert(forall|i: int|
        0 <= i < g.dispatch_steps().len() ==> well_shaped(g, #[trigger] g.dispatch_steps()[i]));
}

} // verus!
