//! What the MoE sequences promise of every geometry they serve.

use crate::kernels::moe::buffers;
use crate::kernels::moe::geometry;
use crate::kernels::moe::geometry::{ExpertQuant, MoeGeometry};
use crate::kernels::moe::step;
use crate::kernels::moe::step::{
    MoeArg, QuantTensor, MMA_M, MMA_ROWS, ROUTE_LANE_EXPERTS, THREADS, TILE_K, TILE_M, TILE_ROWS,
};
use crate::launch;
use vstd::prelude::*;

verus! {

/// Every grid and capacity of a served geometry survives its narrowing: the
/// dispatch blocks and the tokens fit the grid's y limit, and the slots and
/// blocks handed to the kernels fit their `int`s.
pub proof fn law_grid_extents_fit(g: MoeGeometry)
    requires
        g.supported(),
    ensures
        g.dispatch_blocks() <= 65_535,
        (g.dispatch_blocks() as u32) as int == g.dispatch_blocks(),
        (g.dispatch_blocks() as i32) as int == g.dispatch_blocks(),
        (g.sorted_slots() as i32) as int == g.sorted_slots(),
        (g.max_tokens as u32) as int == g.max_tokens,
        launch::ceil_div(g.max_tokens as int, TILE_M as int) <= 65_535,
        (g.block_size as i32) as int == g.block_size,
        g.experts_per_token <= i32::MAX,
{
    step::lemma_supported_sizes(g);
}

/// The guard bounds the dispatch blocks and not the slots: a geometry is never
/// refused for its slot count, which may be `block_size` times larger.
pub proof fn law_grid_guard_bounds_blocks_not_slots(g: MoeGeometry)
    requires
        g.shape_reason() is None,
        g.max_tokens <= 65_535,
    ensures
        g.supported() <==> g.dispatch_blocks() <= 65_535,
        g.supported() <==> g.sorted_slots() <= 65_535 * g.block_size,
{
    let (q, d) = (g.dispatch_blocks(), g.block_size as int);
    assert(q <= 65_535 <==> q * d <= 65_535 * d) by (nonlinear_arith)
        requires
            0 < d,
    ;
}

/// A dispatch block never outgrows the slots a tensor-core tile stages, so no
/// slot's tail is dropped.
pub proof fn law_dispatch_block_fits_the_tile(g: MoeGeometry, m: int)
    requires
        g.supported(),
        0 <= m < g.block_size,
    ensures
        m < MMA_M,
{
}

/// Every dispatch block and slot a grouped kernel looks up lies inside its
/// table, and each gate/up element it writes lies inside the intermediate
/// buffer, in fp32 and quantized alike.
pub proof fn law_dispatch_tables_bound_the_intermediate(g: MoeGeometry, blk: int, m: int, r: int)
    requires
        g.supported(),
        g.buffers_fit(),
        0 <= blk < g.dispatch_blocks(),
        0 <= m < g.block_size,
        0 <= r < g.intermediate,
    ensures
        blk < g.buffer_sizes().expert_ids,
        0 <= launch::at2(blk, m, g.block_size as int) < g.buffer_sizes().sorted_token_ids,
        ({
            let slot = launch::at2(blk, m, g.block_size as int);
            let at = launch::at2(slot, r, g.intermediate as int);
            &&& 0 <= at < g.buffer_sizes().inter
            &&& at < g.buffer_sizes().iq
            &&& at / 32 < g.buffer_sizes().iq_scales
        }),
{
    step::lemma_supported_sizes(g);
    launch::lemma_at2_bound(blk, m, g.dispatch_blocks(), g.block_size as int);
    let slot = launch::at2(blk, m, g.block_size as int);
    let (s, i) = (g.sorted_slots(), g.intermediate as int);
    launch::lemma_at2_bound(slot, r, s, i);
    lemma_blocks_of_32(s, i, launch::at2(slot, r, i));
}

/// A position in `rows` rows of `cols` elements, `cols` a multiple of 32, has
/// its scale among one scale per 32 elements.
proof fn lemma_blocks_of_32(rows: int, cols: int, at: int)
    requires
        0 <= rows,
        0 <= cols,
        cols % 32 == 0,
        0 <= at < rows * cols,
    ensures
        at / 32 < rows * cols / 32,
{
    let c = cols / 32;
    assert(rows * cols == 32 * (rows * c)) by (nonlinear_arith)
        requires
            cols == 32 * c,
    ;
}

/// Every valid flat id names a token of the step and a contribution inside the
/// partial buffer, and the activations of that token lie inside the hidden
/// states and their quantized copy.
pub proof fn law_flat_ids_bound_the_partials(
    g: MoeGeometry,
    valid_tokens: int,
    flat: int,
    h: int,
)
    requires
        g.supported(),
        g.buffers_fit(),
        0 <= valid_tokens <= g.max_tokens,
        0 <= flat < valid_tokens * g.experts_per_token,
        0 <= h < g.hidden,
    ensures
        ({
            let token = flat / g.experts_per_token as int;
            let at = launch::at2(token, h, g.hidden as int);
            &&& 0 <= token < valid_tokens
            &&& 0 <= launch::at2(flat, h, g.hidden as int) < g.buffer_sizes().partial
            &&& flat < g.buffer_sizes().topk_weights
            &&& 0 <= at < g.max_tokens * g.hidden
            &&& at < g.buffer_sizes().xq
            &&& at / 32 < g.buffer_sizes().xq_scales
        }),
{
    step::lemma_supported_sizes(g);
    let (k, v, mt, hd) = (
        g.experts_per_token as int,
        valid_tokens,
        g.max_tokens as int,
        g.hidden as int,
    );
    let token = flat / k;
    assert(0 <= token < v) by (nonlinear_arith)
        requires
            token == flat / k,
            0 <= flat < v * k,
            0 < k,
    ;
    assert(v * k <= mt * k) by (nonlinear_arith)
        requires
            v <= mt,
            0 < k,
    ;
    launch::lemma_at2_bound(flat, h, g.pairs(), hd);
    launch::lemma_at2_bound(token, h, mt, hd);
    let (p, x) = (g.pairs(), mt * hd);
    assert(x <= p * hd) by (nonlinear_arith)
        requires
            mt <= p,
            0 <= hd,
            x == mt * hd,
    ;
    lemma_blocks_of_32(mt, hd, launch::at2(token, h, hd));
}

/// Distinct `(token, k)` pairs own distinct contributions.
pub proof fn law_contributions_are_disjoint(
    g: MoeGeometry,
    t1: int,
    k1: int,
    t2: int,
    k2: int,
)
    requires
        0 <= k1 < g.experts_per_token,
        0 <= k2 < g.experts_per_token,
        launch::at2(t1, k1, g.experts_per_token as int) == launch::at2(
            t2,
            k2,
            g.experts_per_token as int,
        ),
    ensures
        t1 == t2,
        k1 == k2,
{
    launch::lemma_at2_injective(t1, k1, t2, k2, g.experts_per_token as int);
}

/// A stack that is not refused holds the block of every weight element a
/// kernel unpacks: element `(e, r, j)` of either input stack.
pub proof fn law_weight_blocks_stay_in_bounds(
    g: MoeGeometry,
    t: QuantTensor,
    which: &'static str,
    e: int,
    r: int,
    j: int,
)
    requires
        t.refusal(which, g.stack()) is None,
        0 <= e < g.num_experts,
        0 <= r < g.intermediate,
        0 <= j < g.hidden,
    ensures
        ({
            let at = launch::at3(e, r, j, g.intermediate as int, g.hidden as int);
            &&& 0 <= at < g.stack()
            &&& (at / t.quant.elements_per_block() as int + 1) * t.quant.device_stride() <= t.bytes
        }),
{
    launch::lemma_at3_bound(e, r, j, g.num_experts as int, g.intermediate as int, g.hidden as int);
    lemma_block_in_bytes(
        t,
        g.stack(),
        launch::at3(e, r, j, g.intermediate as int, g.hidden as int),
    );
}

/// The same of the down stack, element `(e, h, j)`.
pub proof fn law_down_blocks_stay_in_bounds(
    g: MoeGeometry,
    t: QuantTensor,
    which: &'static str,
    e: int,
    h: int,
    j: int,
)
    requires
        t.refusal(which, g.stack()) is None,
        0 <= e < g.num_experts,
        0 <= h < g.hidden,
        0 <= j < g.intermediate,
    ensures
        ({
            let at = launch::at3(e, h, j, g.hidden as int, g.intermediate as int);
            &&& 0 <= at < g.stack()
            &&& (at / t.quant.elements_per_block() as int + 1) * t.quant.device_stride() <= t.bytes
        }),
{
    launch::lemma_at3_bound(e, h, j, g.num_experts as int, g.hidden as int, g.intermediate as int);
    let (n, h0, i0) = (g.num_experts as int, g.hidden as int, g.intermediate as int);
    assert(n * h0 * i0 == n * i0 * h0) by (nonlinear_arith);
    lemma_block_in_bytes(
        t,
        g.stack(),
        launch::at3(e, h, j, g.hidden as int, g.intermediate as int),
    );
}

proof fn lemma_block_in_bytes(t: QuantTensor, elements: int, at: int)
    requires
        t.whole(),
        t.held() == elements,
        0 <= at < elements,
    ensures
        (at / t.quant.elements_per_block() as int + 1) * t.quant.device_stride() <= t.bytes,
{
    match t.quant {
        ExpertQuant::Q6K => {
            let b = t.bytes as int / 224;
            assert(b * 256 == elements);
            assert(at / 256 + 1 <= b) by (nonlinear_arith)
                requires
                    0 <= at < b * 256,
            ;
            assert((at / 256 + 1) * 224 <= b * 224);
        },
        ExpertQuant::Q8_0 => {
            let b = t.bytes as int / 34;
            assert(b * 32 == elements);
            assert(at / 32 + 1 <= b) by (nonlinear_arith)
                requires
                    0 <= at < b * 32,
            ;
            assert((at / 32 + 1) * 34 <= b * 34);
        },
    }
}

/// A tile of the contraction never straddles a Q6_K superblock half: it starts
/// on a multiple of [`TILE_K`], and two of them are one superblock.
pub proof fn law_tiles_are_superblock_halves(g: MoeGeometry, row: int, tile: int)
    requires
        g.supported(),
        0 <= row,
        0 <= tile < g.hidden as int / TILE_K as int,
    ensures
        ({
            let start = row * g.hidden + tile * TILE_K;
            &&& start % 128 == 0
            &&& start / 256 == (start + TILE_K - 1) / 256
        }),
        TILE_K * 2 == geometry::QK_K,
{
    let c = g.hidden as int / 128;
    assert(g.hidden == 128 * c);
    assert(row * g.hidden == 128 * (row * c)) by (nonlinear_arith)
        requires
            g.hidden == 128 * c,
    ;
}

/// Every output row has a warp in the banded grid of the fp32 path and a block
/// in that of the tensor-core path.
pub proof fn law_row_bands_cover(rows: usize, r: int)
    requires
        rows <= u32::MAX,
        0 <= r < rows,
    ensures
        r / (TILE_ROWS as int) < launch::ceil_div((rows as u32) as int, TILE_ROWS as int),
        r / (MMA_ROWS as int) < launch::ceil_div((rows as u32) as int, MMA_ROWS as int),
        r / (THREADS as int) < launch::ceil_div((rows as u32) as int, THREADS as int),
{
    launch::law_flat_grid_covers_once(rows as int, TILE_ROWS as int, r);
    launch::law_flat_grid_covers_once(rows as int, MMA_ROWS as int, r);
    launch::law_flat_grid_covers_once(rows as int, THREADS as int, r);
}

/// Every token has a tile in the shared expert's grid.
pub proof fn law_token_tiles_cover(g: MoeGeometry, t: int)
    requires
        g.supported(),
        0 <= t < g.max_tokens,
    ensures
        t / (TILE_M as int) < launch::ceil_div((g.max_tokens as u32) as int, TILE_M as int),
{
    launch::law_flat_grid_covers_once(g.max_tokens as int, TILE_M as int, t);
}

/// The routing warp holds every expert in exactly one register: lane `e % 32`,
/// register `e / 32`.
pub proof fn law_routing_warp_holds_every_expert(g: MoeGeometry, e: int)
    requires
        g.routable(),
        0 <= e < g.num_experts,
    ensures
        0 <= e / 32 < ROUTE_LANE_EXPERTS,
        forall|lane: int, i: int|
            0 <= lane < 32 && #[trigger] launch::at2(i, lane, 32) == e ==> lane == e % 32 && i == e
                / 32,
{
}

/// The shared memory of the routing and dispatch blocks holds what they index:
/// the probabilities, one reduction slot of two words per thread, and the
/// prefix sum with the placement scan.
pub proof fn law_routing_shared_memory_suffices(g: MoeGeometry, e: int, t: int)
    requires
        g.routable(),
        0 <= e <= g.num_experts,
        0 <= t < THREADS,
    ensures
        (g.num_experts + THREADS + t + 1) * 4 <= (g.num_experts + THREADS) * 4 + THREADS * 4,
        (g.num_experts + THREADS + THREADS + e + 1) * 4 <= (g.num_experts + THREADS) * 4 + (THREADS
            + g.num_experts + 1) * 4,
        (g.num_experts + 1 + t + 1) * 4 <= (g.num_experts + 1 + THREADS) * 4,
        (e + 1) * 4 <= (g.num_experts + 1) * 4,
{
}

/// The grouped sequence zeroes the contributions between gate/up and down, and
/// ends with the launch that fills them.
pub proof fn law_partials_are_zeroed_before_down(
    g: MoeGeometry,
    tensor_cores: bool,
    gate: ExpertQuant,
    up: ExpertQuant,
    down: ExpertQuant,
)
    ensures
        ({
            let f = g.ffn_steps(tensor_cores, gate, up);
            let d = g.down_steps(tensor_cores, down);
            let steps = g.grouped_steps(tensor_cores, gate, up, down);
            &&& steps.len() == f.len() + 1 + d.len()
            &&& steps[f.len() as int] == step::MoeStepView::Zero(MoeArg::Partial)
            &&& forall|i: int|
                0 <= i < steps.len() && i != f.len() ==> #[trigger] steps[i] !is Zero
            &&& steps.last() is Launch && steps.last()->Launch_0.args.last() == MoeArg::Partial
            &&& f.last() is Launch && f.last()->Launch_0.args.last() == MoeArg::Inter
        }),
{
}

/// Without the integer tensor cores the sequence is launches of the fp32
/// kernels alone.
pub proof fn law_fp32_path_quantizes_nothing(
    g: MoeGeometry,
    gate: ExpertQuant,
    up: ExpertQuant,
    down: ExpertQuant,
)
    ensures
        ({
            let steps = g.grouped_steps(false, gate, up, down);
            forall|i: int|
                0 <= i < steps.len() ==> (#[trigger] steps[i] is Launch || steps[i] is Zero)
        }),
{
}

/// A mixed gate/up pair has no integer kernel and takes the fp32 one.
pub proof fn law_mixed_formats_take_the_fp32_kernel(
    g: MoeGeometry,
    gate: ExpertQuant,
    up: ExpertQuant,
)
    requires
        gate != up,
    ensures
        g.ffn_steps(true, gate, up) == g.ffn_steps(false, gate, up),
{
}

/// Nothing that routing or dispatch writes.
pub open spec fn is_direct(arg: MoeArg) -> bool {
    &&& arg != MoeArg::SortedTokenIds
    &&& arg != MoeArg::ExpertIds
    &&& arg != MoeArg::ExpertCounts
    &&& arg != MoeArg::NumTokensPostPad
    &&& arg != MoeArg::TopkIds
    &&& arg != MoeArg::TopkWeights
}

/// A step all of whose buffers are direct.
pub open spec fn step_is_direct(s: step::MoeStepView) -> bool {
    match s {
        step::MoeStepView::Launch(l) => forall|a: int|
            0 <= a < l.args.len() ==> is_direct(#[trigger] l.args[a]),
        step::MoeStepView::QuantizeRows { source, quants, scales, rows, cols } => is_direct(source)
            && is_direct(quants) && is_direct(scales),
        step::MoeStepView::Project {
            weight,
            weight_scales,
            input,
            input_scales,
            output,
            k,
            n,
            m,
        } => is_direct(weight) && is_direct(weight_scales) && is_direct(input) && is_direct(
            input_scales,
        ) && is_direct(output),
        step::MoeStepView::Zero(arg) => is_direct(arg),
    }
}

/// The shared expert consults no dispatch table, no count of one and no routing
/// weight, on the fp32 path and on the integer one.
pub proof fn law_shared_expert_has_no_indirection(
    g: MoeGeometry,
    gate: ExpertQuant,
    up: ExpertQuant,
    down: ExpertQuant,
)
    ensures
        ({
            let steps = g.shared_steps(gate, up, down);
            forall|i: int| 0 <= i < steps.len() ==> step_is_direct(#[trigger] steps[i])
        }),
        ({
            let steps = g.shared_mma_steps();
            forall|i: int| 0 <= i < steps.len() ==> step_is_direct(#[trigger] steps[i])
        }),
{
}

/// Publishing a count that is already on the device writes nothing, and any
/// other admissible count is written.
pub proof fn law_publishing_is_idempotent(g: MoeGeometry, held: usize, tokens: usize)
    requires
        g.supported(),
        held <= g.max_tokens,
        tokens <= g.max_tokens,
    ensures
        buffers::token_write(held as i32, tokens) is None <==> held == tokens,
        held != tokens ==> buffers::token_write(held as i32, tokens) == Some(tokens as i32)
            && (tokens as i32) as int == tokens,
{
}

} // verus!
