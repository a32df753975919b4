//! What the LM head launches promise of every geometry they serve.

use crate::kernels::lm_head::family;
use crate::kernels::lm_head::family::{
    LmHeadView, ARGMAX_BLOCKS, ARGMAX_THREADS, GRID_X_LIMIT, STAGE_BLOCKS, WARPS_PER_BLOCK,
};
use crate::kernels::lm_head::geometry;
use crate::kernels::lm_head::geometry::{
    HeadFormat, HeadTensor, LmHeadGeometry, BLOCK_Q8_0_BYTES, MAX_BATCH_TILE, QK8_0,
};
use crate::launch;
use vstd::prelude::*;

verus! {

/// The tiles of a batch partition its tokens: token `t` belongs to tile
/// `t / MAX_BATCH_TILE`, inside that tile's width, and to no other.
pub proof fn law_tiles_partition_the_tokens(tokens: int, t: int)
    requires
        0 <= t < tokens,
    ensures
        ({
            let i = t / MAX_BATCH_TILE as int;
            let base = i * MAX_BATCH_TILE;
            &&& 0 <= i < LmHeadGeometry::passes(tokens)
            &&& base <= t < base + geometry::tile_of(tokens - base) <= tokens
        }),
        forall|j: int|
            0 <= j < LmHeadGeometry::passes(tokens) && #[trigger] launch::at2(
                j,
                0,
                MAX_BATCH_TILE as int,
            ) <= t < launch::at2(j, 0, MAX_BATCH_TILE as int) + geometry::tile_of(
                tokens - launch::at2(j, 0, MAX_BATCH_TILE as int),
            ) ==> j == t / MAX_BATCH_TILE as int,
{
}

/// Every tile has a compiled entry point, and no tile is empty.
pub proof fn law_every_tile_has_an_entry_point(tokens: int, i: int)
    requires
        0 <= i < LmHeadGeometry::passes(tokens),
    ensures
        1 <= geometry::tile_of(tokens - i * MAX_BATCH_TILE) <= MAX_BATCH_TILE,
{
}

/// A batch costs no more passes over the weights than it has tokens, and one
/// pass where it fits a tile.
pub proof fn law_passes_are_shared(tokens: int)
    requires
        0 < tokens,
    ensures
        1 <= LmHeadGeometry::passes(tokens) <= tokens,
        tokens <= MAX_BATCH_TILE ==> LmHeadGeometry::passes(tokens) == 1,
        LmHeadGeometry::passes(tokens) * MAX_BATCH_TILE < tokens + MAX_BATCH_TILE,
{
}

/// The weight lengths a forward pass accepts are exactly the serialized size
/// of the geometry at the tensor's format.
pub proof fn law_accepted_weights_have_the_serialized_size(g: LmHeadGeometry, weight: HeadTensor)
    requires
        g.reason(None) is None,
    ensures
        g.weight_refusal(weight) is None <==> weight.bytes == g.vocab * g.row_size(weight.format),
{
    let k = g.hidden as int / 512;
    assert(g.hidden == 512 * k);
    let v = g.vocab as int;
    let h = g.hidden as int;
    let b = weight.bytes as int;
    match weight.format {
        HeadFormat::Q8_0 => {
            assert(h / 32 == 16 * k && h % 1 == 0);
            lemma_block_count(b, v, h, 16 * k, 34, 32);
            assert(g.hidden % weight.format.warp_step() == 0);
            assert((weight.bytes % weight.format.block_bytes() == 0) == (b % 34 == 0));
        },
        HeadFormat::Bf16 => {
            lemma_block_count(b, v, h, h, 2, 1);
            assert(h * 2 == 2 * h);
        },
        HeadFormat::Q6K => {
            assert(h / 256 == 2 * k);
            lemma_block_count(b, v, h, 2 * k, 210, 256);
        },
        HeadFormat::F16 => {
            lemma_block_count(b, v, h, h, 2, 1);
        },
        HeadFormat::Q4_0 => {
            assert(h / 32 == 16 * k);
            lemma_block_count(b, v, h, 16 * k, 18, 32);
        },
        HeadFormat::Q4K => {
            assert(h / 256 == 2 * k);
            lemma_block_count(b, v, h, 2 * k, 144, 256);
        },
        HeadFormat::Q5K => {
            assert(h / 256 == 2 * k);
            lemma_block_count(b, v, h, 2 * k, 176, 256);
        },
    }
}

/// `bytes` is whole blocks holding `vocab * hidden` elements exactly where it
/// is `vocab` rows of `row_blocks` blocks.
proof fn lemma_block_count(
    bytes: int,
    vocab: int,
    hidden: int,
    row_blocks: int,
    block_bytes: int,
    block_elements: int,
)
    requires
        0 <= bytes,
        0 <= vocab,
        0 <= row_blocks,
        0 < block_bytes,
        0 < block_elements,
        hidden == row_blocks * block_elements,
    ensures
        (bytes % block_bytes == 0 && (bytes / block_bytes) * block_elements == vocab * hidden)
            <==> bytes == vocab * (row_blocks * block_bytes),
{
    let n = bytes / block_bytes;
    let want = vocab * row_blocks;
    assert(vocab * hidden == want * block_elements) by (nonlinear_arith)
        requires
            hidden == row_blocks * block_elements,
            want == vocab * row_blocks,
    ;
    assert(vocab * (row_blocks * block_bytes) == want * block_bytes) by (nonlinear_arith)
        requires
            want == vocab * row_blocks,
    ;
    assert(bytes == n * block_bytes + bytes % block_bytes) by (nonlinear_arith)
        requires
            n == bytes / block_bytes,
            0 < block_bytes,
    ;
    if bytes % block_bytes == 0 && n * block_elements == want * block_elements {
        assert(n == want) by (nonlinear_arith)
            requires
                n * block_elements == want * block_elements,
                0 < block_elements,
        ;
    }
    if bytes == want * block_bytes {
        assert(n == want && bytes % block_bytes == 0) by (nonlinear_arith)
            requires
                bytes == want * block_bytes,
                n == bytes / block_bytes,
                0 < block_bytes,
        ;
    }
}

/// Every weight row lies inside an accepted tensor: the bytes of row `row`
/// end at or before the tensor does.
pub proof fn law_weight_rows_stay_in_bounds(g: LmHeadGeometry, weight: HeadTensor, row: int)
    requires
        g.reason(None) is None,
        g.weight_refusal(weight) is None,
        0 <= row < g.vocab,
    ensures
        0 <= row * g.row_size(weight.format),
        (row + 1) * g.row_size(weight.format) <= weight.bytes,
{
    law_accepted_weights_have_the_serialized_size(g, weight);
    let s = g.row_size(weight.format);
    let v = g.vocab as int;
    assert(s >= 0);
    assert(0 <= row * s && (row + 1) * s <= v * s) by (nonlinear_arith)
        requires
            0 <= row < v,
            0 <= s,
    ;
}

/// Every activation a tile reads and every logit it writes lies inside the
/// buffers that were checked.
pub proof fn law_tile_stays_in_bounds(
    g: LmHeadGeometry,
    weight: HeadTensor,
    hidden_states: usize,
    tokens: usize,
    logits: usize,
    i: int,
    t: int,
    j: int,
    row: int,
)
    requires
        g.forward_refusal(weight, hidden_states, tokens, logits) is None,
        0 <= i < LmHeadGeometry::passes(tokens as int),
        0 <= t < geometry::tile_of(tokens - i * MAX_BATCH_TILE),
        0 <= j < g.hidden,
        0 <= row < g.vocab,
    ensures
        ({
            let token = i * MAX_BATCH_TILE + t;
            &&& token < tokens <= g.max_tokens
            &&& 0 <= launch::at2(token, j, g.hidden as int) < hidden_states
            &&& 0 <= launch::at2(token, row, g.vocab as int) < logits
        }),
{
    let token = i * MAX_BATCH_TILE + t;
    launch::lemma_at2_bound(token, j, g.max_tokens as int, g.hidden as int);
    launch::lemma_at2_bound(token, row, g.max_tokens as int, g.vocab as int);
}

/// Every vocabulary row is owned by exactly one warp of the grid, for every
/// row tile: warp `row / rows` of the launch.
pub proof fn law_rows_are_covered_once(g: LmHeadGeometry, rows: int, row: int)
    requires
        rows == 1 || rows == 2 || rows == 4,
        0 <= row < g.vocab,
    ensures
        ({
            let warp = row / rows;
            let block = warp / WARPS_PER_BLOCK as int;
            &&& 0 <= block < launch::ceil_div(g.vocab as int, WARPS_PER_BLOCK * rows)
            &&& (block * WARPS_PER_BLOCK + warp % WARPS_PER_BLOCK as int) * rows <= row < (block
                * WARPS_PER_BLOCK + warp % WARPS_PER_BLOCK as int) * rows + rows
        }),
        forall|b: int, w: int|
            0 <= w < WARPS_PER_BLOCK && #[trigger] launch::at2(b, w, WARPS_PER_BLOCK as int) * rows
                <= row < launch::at2(b, w, WARPS_PER_BLOCK as int) * rows + rows ==> launch::at2(
                b,
                w,
                WARPS_PER_BLOCK as int,
            ) == row / rows,
{
    if rows == 1 {
        launch::lemma_ceil_div_covers(g.vocab as int, 8);
    } else if rows == 2 {
        launch::lemma_ceil_div_covers(g.vocab as int, 16);
    } else {
        launch::lemma_ceil_div_covers(g.vocab as int, 32);
    }
}

/// Every head launch of a served geometry fits the grid along x.
pub proof fn law_grids_fit(v: LmHeadView, format: HeadFormat, tokens: int, base: int)
    requires
        v.valid(),
    ensures
        v.geometry.tile_launch(v.row_tile, format, tokens, base).config.grid_dim.0 <= GRID_X_LIMIT,
        v.geometry.tile_launch(v.row_tile, format, tokens, base).config.grid_dim.0 > 0,
{
    let n = v.geometry.vocab as int;
    assert(0 < launch::ceil_div(n, 8) <= GRID_X_LIMIT);
    assert(0 < launch::ceil_div(n, 16) <= GRID_X_LIMIT);
    assert(0 < launch::ceil_div(n, 32) <= GRID_X_LIMIT);
}

/// Where a row tile is in effect its groups are whole: a group whose first row
/// is live is live to its last row.
pub proof fn law_row_groups_are_whole(v: LmHeadView, group: int, i: int)
    requires
        v.valid(),
        v.row_tile is Some,
        0 <= group,
        0 <= i < v.row_tile->0,
        group * v.row_tile->0 < v.geometry.vocab,
    ensures
        group * v.row_tile->0 + i < v.geometry.vocab,
{
    let rt = v.row_tile->0 as int;
    let n = v.geometry.vocab as int;
    if rt == 2 {
        assert(n % 2 == 0);
    } else {
        assert(rt == 4);
        assert(n % 4 == 0);
    }
}

/// Every row and every stage of a Q8_0 row starts on a 32-byte boundary, and
/// the last stage of a row is never ragged.
pub proof fn law_stages_are_sector_aligned(g: LmHeadGeometry, row: int, stage: int)
    requires
        g.reason(None) is None,
        0 <= row,
        0 <= stage,
    ensures
        g.row_size(HeadFormat::Q8_0) % (STAGE_BLOCKS * BLOCK_Q8_0_BYTES) == 0,
        (row * g.row_size(HeadFormat::Q8_0) + stage * (STAGE_BLOCKS * BLOCK_Q8_0_BYTES)) % 32 == 0,
{
    let k = g.hidden as int / 512;
    assert(g.hidden == 512 * k);
    assert(g.row_size(HeadFormat::Q8_0) == 544 * k);
    assert(STAGE_BLOCKS * BLOCK_Q8_0_BYTES == 544);
    assert((544 * k) % 544 == 0);
    assert(row * (544 * k) == 544 * (row * k)) by (nonlinear_arith);
}

/// First element a lane loads in group `r` of a stage: four consecutive
/// elements per lane, eight lanes per block, four blocks per step.
pub open spec fn lane_element(r: int, lane: int) -> int {
    (4 * r + lane / 8) * QK8_0 + 4 * (lane % 8)
}

/// The lanes of a warp cover every element of a stage exactly once, in runs of
/// four that never misalign a vector load.
pub proof fn law_lanes_cover_a_stage_once(e: int)
    requires
        0 <= e < STAGE_BLOCKS * QK8_0,
    ensures
        ({
            let r = e / 128;
            let lane = e % 128 / 4;
            &&& 0 <= r < STAGE_BLOCKS as int / 4
            &&& 0 <= lane < 32
            &&& lane_element(r, lane) <= e < lane_element(r, lane) + 4
        }),
        forall|r: int, lane: int|
            0 <= r && 0 <= lane < 32 && #[trigger] lane_element(r, lane) <= e < lane_element(
                r,
                lane,
            ) + 4 ==> r == e / 128 && lane == e % 128 / 4,
        forall|r: int, lane: int| #[trigger] lane_element(r, lane) % 4 == 0,
{
}

/// The first argmax pass has at least one block and no more than the partial
/// buffers hold, and every value belongs to exactly one of its lanes' strides.
pub proof fn law_argmax_covers_the_values(
    values: usize,
    n: usize,
    partial_values: usize,
    partial_indices: usize,
    out: usize,
    i: int,
)
    requires
        family::argmax_refusal(values, n, partial_values, partial_indices, out) is None,
        0 <= i < n,
    ensures
        1 <= family::argmax_blocks(n as int) <= ARGMAX_BLOCKS,
        i < values,
        ({
            let lanes = family::argmax_blocks(n as int) * ARGMAX_THREADS;
            &&& 0 <= i % lanes < lanes
            &&& i == (i / lanes) * lanes + i % lanes
        }),
{
    launch::lemma_ceil_div_covers(n as int, 256);
    let lanes = family::argmax_blocks(n as int) * ARGMAX_THREADS;
    assert(lanes > 0);
    assert(0 <= i % lanes < lanes && i == (i / lanes) * lanes + i % lanes) by (nonlinear_arith)
        requires
            lanes > 0,
    ;
}

} // verus!
