//! What the layer ops' launches promise.

use crate::kernels::layer_ops::ops;
use crate::kernels::layer_ops::ops::{GateShape, BLOCK, MAX_BLOCK, MAX_CONV_KERNEL, MAX_GRID};
use crate::launch;
use vstd::prelude::*;

verus! {

/// A loop that starts at the thread's own index and advances by the number of
/// threads visits every index below `n` in exactly one thread: `i` falls to
/// thread `i % threads`, on its round `i / threads`.
pub proof fn law_strided_loop_covers_once(n: int, threads: int, i: int)
    requires
        0 <= i < n,
        0 < threads,
    ensures
        0 <= i % threads < threads,
        0 <= i / threads,
        i == i % threads + (i / threads) * threads,
        forall|t: int, round: int|
            0 <= t < threads && #[trigger] launch::at2(round, t, threads) == i ==> t == i % threads
                && round == i / threads,
{
    launch::law_flat_grid_covers_once(n, threads, i);
}

/// A row's block is whole warps, at most [`MAX_BLOCK`] threads, no more than
/// one warp wider than the row, and every warp has its own shared float.
pub proof fn law_row_blocks_are_whole_warps(rows: int, width: int, thread: int)
    requires
        0 < width,
        0 <= thread < ops::row_block(width),
    ensures
        ops::row_block(width) % 32 == 0,
        32 <= ops::row_block(width) <= MAX_BLOCK,
        ops::row_block(width) < width + 32,
        width <= MAX_BLOCK ==> width <= ops::row_block(width),
        (thread / 32 + 1) * 4 <= ops::row_config(rows, width).shared_mem_bytes,
{
}

/// Every element of a `[rows][width]` activation a row kernel reads or writes
/// lies inside the checked buffers.
pub proof fn law_rows_stay_in_bounds(rows: int, width: int, row: int, j: int)
    requires
        0 <= row < rows,
        0 <= j < width,
    ensures
        0 <= launch::at2(row, j, width) < rows * width,
{
    launch::lemma_at2_bound(row, j, rows, width);
}

/// The dimension that a rotated dimension `j` is paired with.
pub open spec fn partner(j: int, rope_dim: int) -> int {
    if j < rope_dim / 2 {
        j + rope_dim / 2
    } else {
        j - rope_dim / 2
    }
}

/// The rotation pairs dimension `i` with `i + rope_dim / 2`: the partner of a
/// rotated dimension is another rotated dimension, and pairing is mutual.
pub proof fn law_rotation_pairs_are_mutual(head_dim: int, rope_dim: int, j: int)
    requires
        ops::rotary_shape_ok(head_dim, rope_dim),
        0 <= j < rope_dim,
    ensures
        0 <= partner(j, rope_dim) < rope_dim <= head_dim,
        partner(j, rope_dim) != j,
        partner(partner(j, rope_dim), rope_dim) == j,
{
}

/// Every position the rotary kernel touches lies inside its buffers: the
/// element itself, its partner and the token's position.
pub proof fn law_rope_stays_in_bounds(
    seq_len: int,
    heads: int,
    head_dim: int,
    rope_dim: int,
    t: int,
    h: int,
    j: int,
)
    requires
        ops::rotary_shape_ok(head_dim, rope_dim),
        0 <= t < seq_len,
        0 <= h < heads,
        0 <= j < head_dim,
    ensures
        0 <= launch::at3(t, h, j, heads, head_dim) < seq_len * heads * head_dim,
        j < rope_dim ==> 0 <= launch::at3(t, h, partner(j, rope_dim), heads, head_dim) < seq_len
            * heads * head_dim,
{
    launch::lemma_at3_bound(t, h, j, seq_len, heads, head_dim);
    if j < rope_dim {
        law_rotation_pairs_are_mutual(head_dim, rope_dim, j);
        launch::lemma_at3_bound(t, h, partner(j, rope_dim), seq_len, heads, head_dim);
    }
}

/// A grid-stride launch has at least one block and at most [`MAX_GRID`].
pub proof fn law_stride_grid_is_capped(n: int)
    requires
        0 < n,
    ensures
        1 <= ops::stride_grid(n) <= MAX_GRID,
        ops::elementwise_config(n).grid_dim.0 == ops::stride_grid(n),
        ops::elementwise_config(n).block_dim.0 == BLOCK,
{
}

/// Past the cap the shape no longer depends on the length.
pub proof fn law_capped_shape_is_fixed(n: int, m: int)
    requires
        MAX_GRID * BLOCK <= n,
        MAX_GRID * BLOCK <= m,
    ensures
        ops::elementwise_config(n) == ops::elementwise_config(m),
{
}

/// In either shape element `i` reads a gate value that exists.
pub proof fn law_gate_index_stays_in_bounds(shape: GateShape, rows: int, width: int, i: int)
    requires
        0 < width,
        0 <= i < rows * width,
    ensures
        0 <= shape.gate_index(i, width) < shape.gate_count(rows, width),
{
    let q = i / width;
    assert(0 <= q < rows) by (nonlinear_arith)
        requires
            q == i / width,
            0 < width,
            0 <= i < rows * width,
    ;
}

/// The elements of one row read one broadcast gate value, and rows do not
/// share one.
pub proof fn law_broadcast_gate_is_per_row(width: int, row: int, j: int)
    requires
        0 <= row,
        0 <= j < width,
    ensures
        GateShape::PerRow.gate_index(launch::at2(row, j, width), width) == row,
        GateShape::Elementwise.gate_index(launch::at2(row, j, width), width) == launch::at2(
            row,
            j,
            width,
        ),
{
    let i = launch::at2(row, j, width);
    assert(i / width == row) by (nonlinear_arith)
        requires
            i == row * width + j,
            0 <= j < width,
    ;
}

/// Every sigmoid is written, and by exactly one element of the activation.
pub proof fn law_sigmoids_are_written_once(shape: GateShape, rows: int, width: int, g: int)
    requires
        0 < width,
        0 <= g < shape.gate_count(rows, width),
    ensures
        ({
            let i = if shape == GateShape::PerRow {
                launch::at2(g, 0, width)
            } else {
                g
            };
            &&& 0 <= i < rows * width
            &&& shape.gate_index(i, width) == g
            &&& shape.writes_sigmoid(i, width)
            &&& forall|k: int|
                0 <= k && #[trigger] shape.gate_index(k, width) == g && shape.writes_sigmoid(
                    k,
                    width,
                ) ==> k == i
        }),
{
    if shape == GateShape::PerRow {
        let i = launch::at2(g, 0, width);
        launch::lemma_at2_bound(g, 0, rows, width);
        law_broadcast_gate_is_per_row(width, g, 0);
        assert(i % width == 0) by (nonlinear_arith)
            requires
                i == g * width,
                0 < width,
        ;
        assert forall|k: int|
            0 <= k && #[trigger] shape.gate_index(k, width) == g && shape.writes_sigmoid(
                k,
                width,
            ) implies k == i by {
            assert(k == g * width) by (nonlinear_arith)
                requires
                    k / width == g,
                    k % width == 0,
                    0 < width,
            ;
        }
    }
}

/// What one channel has seen: its cache, oldest first, then its inputs.
pub open spec fn history<T>(cache: Seq<T>, inputs: Seq<T>) -> Seq<T> {
    cache + inputs
}

/// The `conv_kernel` values the output of token `t` is a sum over, oldest
/// first.
pub open spec fn window<T>(cache: Seq<T>, inputs: Seq<T>, t: int) -> Seq<T> {
    history(cache, inputs).subrange(t, t + cache.len() + 1)
}

/// The cache after the inputs: the last values of the history.
pub open spec fn next_cache<T>(cache: Seq<T>, inputs: Seq<T>) -> Seq<T> {
    history(cache, inputs).subrange(
        inputs.len() as int,
        (inputs.len() + cache.len()) as int,
    )
}

/// The value a kernel reads at window position `u` of a sequence: an input, or
/// for a position before the sequence a cached value.
pub open spec fn window_value<T>(cache: Seq<T>, inputs: Seq<T>, u: int) -> T {
    if u >= 0 {
        inputs[u]
    } else {
        cache[u + cache.len()]
    }
}

/// Every tap of every token reads an existing value: tap `i` of token `t`
/// stands at `u = t - (conv_kernel - 1) + i`, which is an input of the
/// sequence or a position of the cache.
pub proof fn law_conv_taps_stay_in_bounds(
    seq_len: int,
    channels: int,
    conv_kernel: int,
    t: int,
    ch: int,
    i: int,
)
    requires
        ops::conv_shape_ok(channels, conv_kernel),
        0 <= t < seq_len,
        0 <= ch < channels,
        0 <= i < conv_kernel,
    ensures
        ({
            let carry = conv_kernel - 1;
            let u = t - carry + i;
            &&& u < seq_len
            &&& u >= 0 ==> 0 <= launch::at2(u, ch, channels) < seq_len * channels
            &&& u < 0 ==> 0 <= u + carry < carry && 0 <= launch::at2(ch, u + carry, carry)
                < channels * carry
            &&& 0 <= launch::at2(ch, i, conv_kernel) < channels * conv_kernel
            &&& 0 <= launch::at2(t, ch, channels) < seq_len * channels
        }),
{
    let carry = conv_kernel - 1;
    let u = t - carry + i;
    if u >= 0 {
        launch::lemma_at2_bound(u, ch, seq_len, channels);
    } else {
        launch::lemma_at2_bound(ch, u + carry, channels, carry);
    }
    launch::lemma_at2_bound(ch, i, channels, conv_kernel);
    launch::lemma_at2_bound(t, ch, seq_len, channels);
}

/// Every slot of the advanced cache comes from an existing value, and the
/// window fits the register array it is staged in.
pub proof fn law_cache_advance_stays_in_bounds(
    seq_len: int,
    channels: int,
    conv_kernel: int,
    ch: int,
    j: int,
)
    requires
        ops::conv_shape_ok(channels, conv_kernel),
        0 < seq_len,
        0 <= ch < channels,
        0 <= j < conv_kernel - 1,
    ensures
        ({
            let carry = conv_kernel - 1;
            let u = seq_len - carry + j;
            &&& j < MAX_CONV_KERNEL
            &&& u < seq_len
            &&& u >= 0 ==> 0 <= launch::at2(u, ch, channels) < seq_len * channels
            &&& u < 0 ==> 0 <= launch::at2(ch, u + carry, carry) < channels * carry
            &&& 0 <= launch::at2(ch, j, carry) < channels * carry
        }),
{
    let carry = conv_kernel - 1;
    let u = seq_len - carry + j;
    if u >= 0 {
        launch::lemma_at2_bound(u, ch, seq_len, channels);
    } else {
        launch::lemma_at2_bound(ch, u + carry, channels, carry);
    }
    launch::lemma_at2_bound(ch, j, channels, carry);
}

/// In the model of which values a tap reads: the taps of a token read its window
/// in order, and the advanced cache is the last values of the history, as many
/// as it held.
pub proof fn law_conv_reads_the_window<T>(cache: Seq<T>, inputs: Seq<T>, t: int, i: int, j: int)
    requires
        0 <= t < inputs.len(),
        0 <= i <= cache.len(),
        0 <= j < cache.len(),
    ensures
        window_value(cache, inputs, t - cache.len() + i) == window(cache, inputs, t)[i],
        window_value(cache, inputs, inputs.len() - cache.len() + j) == next_cache(
            cache,
            inputs,
        )[j],
        window(cache, inputs, t).len() == cache.len() + 1,
        next_cache(cache, inputs).len() == cache.len(),
{
}

/// In the model of which values a tap reads: the window of a single token is
/// the cache and then the token, and the cache drops its oldest value and takes
/// the token in.
pub proof fn law_single_token_agrees<T>(cache: Seq<T>, input: T)
    ensures
        window(cache, seq![input], 0) == cache.push(input),
        cache.len() > 0 ==> next_cache(cache, seq![input]) == cache.skip(1).push(input),
        cache.len() == 0 ==> next_cache(cache, seq![input]) == cache,
{
    assert(window(cache, seq![input], 0) =~= cache.push(input));
    if cache.len() > 0 {
        assert(next_cache(cache, seq![input]) =~= cache.skip(1).push(input));
    } else {
        assert(next_cache(cache, seq![input]) =~= cache);
    }
}

/// In the model of which values a tap reads: a sequence taken in two pieces has
/// the windows of the whole sequence, and leaves the same cache.
pub proof fn law_conv_is_the_same_in_pieces<T>(cache: Seq<T>, a: Seq<T>, b: Seq<T>, t: int)
    requires
        0 <= t < a.len() + b.len(),
    ensures
        t < a.len() ==> window(cache, a + b, t) == window(cache, a, t),
        t >= a.len() ==> window(cache, a + b, t) == window(next_cache(cache, a), b, t - a.len()),
        next_cache(next_cache(cache, a), b) == next_cache(cache, a + b),
{
    if t < a.len() {
        assert(window(cache, a + b, t) =~= window(cache, a, t));
    } else {
        assert(window(cache, a + b, t) =~= window(next_cache(cache, a), b, t - a.len()));
    }
    assert(next_cache(next_cache(cache, a), b) =~= next_cache(cache, a + b));
}

/// In the model of which values a tap reads: a token's window holds nothing
/// that comes after the token.
pub proof fn law_conv_is_causal<T>(cache: Seq<T>, inputs: Seq<T>, later: Seq<T>, t: int)
    requires
        0 <= t < inputs.len(),
        inputs.len() == later.len(),
        forall|u: int| 0 <= u <= t ==> inputs[u] == later[u],
    ensures
        window(cache, inputs, t) == window(cache, later, t),
{
    assert(window(cache, inputs, t) =~= window(cache, later, t));
}

} // verus!
