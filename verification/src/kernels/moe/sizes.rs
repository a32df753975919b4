//! How the buffers of the experts hang together.

use crate::kernels::moe::buffers::MoeBufferSizes;
use crate::kernels::moe::geometry::{ExpertQuant, MoeGeometry};
use crate::kernels::moe::step;
use crate::kernels::moe::step::QuantTensor;
use vstd::prelude::*;

verus! {

/// Every buffer is as long as the tables and rows it holds: a flat pair has one
/// id, one weight and one row of contributions, a dispatch block one expert and
/// `block_size` slots, a slot one intermediate row, and every 32 bytes of a
/// quantized row one scale.
pub proof fn law_buffers_hold_their_tables(g: MoeGeometry)
    requires
        g.supported(),
        g.buffers_fit(),
    ensures
        ({
            let s = g.buffer_sizes();
            &&& s.topk_ids == g.max_tokens * g.experts_per_token
            &&& s.topk_weights == s.topk_ids
            &&& s.partial == s.topk_ids * g.hidden
            &&& s.sorted_token_ids == s.expert_ids * g.block_size
            &&& s.expert_counts == g.num_experts
            &&& s.num_tokens_post_pad == 1
            &&& s.valid_tokens == 1
            &&& s.inter == s.sorted_token_ids * g.intermediate
            &&& s.iq == s.inter
            &&& s.iq_scales * 32 == s.iq
            &&& s.xq == g.max_tokens * g.hidden
            &&& s.xq_scales * 32 == s.xq
            &&& s.shared_inter == g.max_tokens * g.intermediate
            &&& s.shared_gate_out == s.shared_inter
            &&& s.shared_swiglu == s.shared_inter
            &&& s.siq == s.shared_inter
            &&& s.siq_scales * 32 == s.siq
        }),
{
    step::lemma_supported_sizes(g);
    let (t, p, s) = (g.max_tokens as int, g.pairs(), g.sorted_slots());
    let (h, i) = (g.hidden as int, g.intermediate as int);
    assert(0 <= t * h <= p * h) by (nonlinear_arith)
        requires
            0 <= t <= p,
            0 <= h,
    ;
    assert(0 <= t * i <= s * i) by (nonlinear_arith)
        requires
            0 <= t <= s,
            0 <= i,
    ;
    assert(h % 32 == 0 && i % 32 == 0);
    lemma_whole_rows(t, h);
    lemma_whole_rows(t, i);
    lemma_whole_rows(s, i);
}

/// Rows of whole groups of 32 are whole groups of 32.
proof fn lemma_whole_rows(rows: int, width: int)
    requires
        0 <= rows,
        0 <= width,
        width % 32 == 0,
    ensures
        (rows * width) % 32 == 0,
        rows * width / 32 * 32 == rows * width,
{
    let q = width / 32;
    assert(width == 32 * q);
    assert(rows * width == 32 * (rows * q)) by (nonlinear_arith)
        requires
            width == 32 * q,
    ;
}

/// Every buffer is counted once, at the width of its elements: one more element
/// of a quantized buffer is one more byte, of any other four, and nothing at all
/// is no bytes.
pub proof fn law_bytes_count_every_buffer(s: MoeBufferSizes, longer: usize)
    ensures
        ({
            let t = s.total_bytes();
            let n = longer as int;
            &&& (MoeBufferSizes { topk_ids: longer, ..s }).total_bytes() - t == 4 * (n - s.topk_ids)
            &&& (MoeBufferSizes { topk_weights: longer, ..s }).total_bytes() - t == 4 * (n
                - s.topk_weights)
            &&& (MoeBufferSizes { sorted_token_ids: longer, ..s }).total_bytes() - t == 4 * (n
                - s.sorted_token_ids)
            &&& (MoeBufferSizes { expert_ids: longer, ..s }).total_bytes() - t == 4 * (n
                - s.expert_ids)
            &&& (MoeBufferSizes { expert_counts: longer, ..s }).total_bytes() - t == 4 * (n
                - s.expert_counts)
            &&& (MoeBufferSizes { num_tokens_post_pad: longer, ..s }).total_bytes() - t == 4 * (n
                - s.num_tokens_post_pad)
            &&& (MoeBufferSizes { valid_tokens: longer, ..s }).total_bytes() - t == 4 * (n
                - s.valid_tokens)
            &&& (MoeBufferSizes { inter: longer, ..s }).total_bytes() - t == 4 * (n - s.inter)
            &&& (MoeBufferSizes { partial: longer, ..s }).total_bytes() - t == 4 * (n - s.partial)
            &&& (MoeBufferSizes { shared_inter: longer, ..s }).total_bytes() - t == 4 * (n
                - s.shared_inter)
            &&& (MoeBufferSizes { xq_scales: longer, ..s }).total_bytes() - t == 4 * (n
                - s.xq_scales)
            &&& (MoeBufferSizes { iq_scales: longer, ..s }).total_bytes() - t == 4 * (n
                - s.iq_scales)
            &&& (MoeBufferSizes { shared_gate_out: longer, ..s }).total_bytes() - t == 4 * (n
                - s.shared_gate_out)
            &&& (MoeBufferSizes { shared_swiglu: longer, ..s }).total_bytes() - t == 4 * (n
                - s.shared_swiglu)
            &&& (MoeBufferSizes { siq_scales: longer, ..s }).total_bytes() - t == 4 * (n
                - s.siq_scales)
            &&& (MoeBufferSizes { xq: longer, ..s }).total_bytes() - t == n - s.xq
            &&& (MoeBufferSizes { iq: longer, ..s }).total_bytes() - t == n - s.iq
            &&& (MoeBufferSizes { siq: longer, ..s }).total_bytes() - t == n - s.siq
        }),
        (MoeBufferSizes {
            topk_ids: 0,
            topk_weights: 0,
            sorted_token_ids: 0,
            expert_ids: 0,
            expert_counts: 0,
            num_tokens_post_pad: 0,
            valid_tokens: 0,
            inter: 0,
            partial: 0,
            shared_inter: 0,
            xq: 0,
            xq_scales: 0,
            iq: 0,
            iq_scales: 0,
            shared_gate_out: 0,
            shared_swiglu: 0,
            siq: 0,
            siq_scales: 0,
        }).total_bytes() == 0,
{
}

/// A stack of `blocks` whole blocks holds the elements of every block, and a
/// byte less is not whole: 256 to 224 bytes of Q6_K on the device, 32 to 34 of
/// Q8_0.
pub proof fn law_stacks_are_counted_by_blocks(blocks: int, q6_k: usize, q8_0: usize)
    requires
        0 < blocks,
        q6_k == blocks * 224,
        q8_0 == blocks * 34,
    ensures
        (QuantTensor { bytes: q6_k, quant: ExpertQuant::Q6K }).held() == blocks * 256,
        (QuantTensor { bytes: q6_k, quant: ExpertQuant::Q6K }).whole(),
        !(QuantTensor { bytes: (q6_k - 1) as usize, quant: ExpertQuant::Q6K }).whole(),
        (QuantTensor { bytes: q8_0, quant: ExpertQuant::Q8_0 }).held() == blocks * 32,
        (QuantTensor { bytes: q8_0, quant: ExpertQuant::Q8_0 }).whole(),
        !(QuantTensor { bytes: (q8_0 - 1) as usize, quant: ExpertQuant::Q8_0 }).whole(),
{
}

} // verus!
