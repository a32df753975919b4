//! What the vision tower's launches and products promise.

use crate::kernels::vision::ops;
use crate::launch;
use vstd::prelude::*;

verus! {

/// Every element of a row a norm or a softmax touches lies inside the checked
/// buffer.
pub proof fn law_rows_stay_in_bounds(rows: int, width: int, row: int, j: int)
    requires
        0 <= row < rows,
        0 <= j < width,
    ensures
        0 <= launch::at2(row, j, width) < rows * width,
{
    launch::lemma_at2_bound(row, j, rows, width);
}

/// The element dimension `d` of head `head` of slice `slice` of a token's fused
/// row.
pub open spec fn fused_index(
    token: int,
    slice: int,
    head: int,
    d: int,
    hidden: int,
    head_dim: int,
) -> int {
    token * 3 * hidden + slice * hidden + head * head_dim + d
}

/// The rotation touches the queries and the keys of its token, never the
/// values, and stays inside the fused buffer and the positions.
pub proof fn law_rope_stays_in_bounds(
    tokens: int,
    hidden: int,
    head_dim: int,
    token: int,
    slice: int,
    head: int,
    j: int,
)
    requires
        ops::rope_shape_ok(tokens, hidden, head_dim),
        0 < head_dim,
        0 <= token < tokens,
        0 <= slice < 2,
        0 <= head < hidden / head_dim,
        0 <= j < head_dim / 2,
    ensures
        ({
            let low = fused_index(token, slice, head, j, hidden, head_dim);
            let high = fused_index(token, slice, head, j + head_dim / 2, hidden, head_dim);
            &&& token * 3 * hidden <= low < high
            &&& high < token * 3 * hidden + 2 * hidden <= tokens * 3 * hidden
            &&& 0 <= low
            &&& 2 * token + 1 < tokens * 2
        }),
{
    let heads = hidden / head_dim;
    assert(heads * head_dim <= hidden) by (nonlinear_arith)
        requires
            heads == hidden / head_dim,
            0 < head_dim,
    ;
    assert(0 <= head * head_dim && head * head_dim + head_dim <= heads * head_dim)
        by (nonlinear_arith)
        requires
            0 <= head < heads,
            0 < head_dim,
    ;
    assert(0 <= slice * hidden <= hidden) by (nonlinear_arith)
        requires
            0 <= slice < 2,
            0 <= hidden,
    ;
    assert(0 <= token * 3 * hidden && token * 3 * hidden + 3 * hidden <= tokens * 3 * hidden)
        by (nonlinear_arith)
        requires
            0 <= token < tokens,
            0 <= hidden,
    ;
}

/// Thread `j` of a head turns dimension `d`: the one at `j` below the half, or
/// its partner above it.
pub open spec fn turns(head_dim: int, j: int, d: int) -> bool {
    0 <= j < head_dim / 2 && (d == j || d == j + head_dim / 2)
}

/// The position a thread turns by, 0 for the row and 1 for the column, and the
/// frequency index it turns at.
pub open spec fn turn_of(head_dim: int, j: int) -> (int, int) {
    if j < head_dim / 4 {
        (0, j)
    } else {
        (1, j - head_dim / 4)
    }
}

/// Every dimension of a head is turned by one thread and by no other, and each
/// axis and frequency below the quarter belongs to one thread and to no other.
pub proof fn law_rope_pairs_cover_a_head(head_dim: int, d: int, axis: int, frequency: int)
    requires
        0 < head_dim,
        head_dim % 4 == 0,
        0 <= d < head_dim,
        0 <= axis < 2,
        0 <= frequency < head_dim / 4,
    ensures
        exists|j: int| #[trigger] turns(head_dim, j, d),
        forall|j: int, k: int| #[trigger]
            turns(head_dim, j, d) && #[trigger] turns(head_dim, k, d) ==> j == k,
        exists|j: int|
            0 <= j < head_dim / 2 && #[trigger] turn_of(head_dim, j) == (axis, frequency),
        forall|j: int, k: int|
            0 <= j < head_dim / 2 && 0 <= k < head_dim / 2 && #[trigger] turn_of(head_dim, j)
                == #[trigger] turn_of(head_dim, k) ==> j == k,
{
    let half = head_dim / 2;
    assert(turns(
        head_dim,
        if d < half {
            d
        } else {
            d - half
        },
        d,
    ));
    let j = axis * (head_dim / 4) + frequency;
    assert(axis == 0 || axis == 1);
    assert(j == if axis == 0 {
        frequency
    } else {
        head_dim / 4 + frequency
    }) by (nonlinear_arith)
        requires
            axis == 0 || axis == 1,
            j == axis * (head_dim / 4) + frequency,
    ;
    assert(turn_of(head_dim, j) == (axis, frequency));
}

/// A projection's product reads `w[o][i]` and `x[t][i]` and writes `y[t][o]`,
/// all row-major, inside the checked buffers.
pub proof fn law_projection_layout(
    tokens: usize,
    in_dim: usize,
    out_dim: usize,
    bias: bool,
    t: int,
    i: int,
    o: int,
)
    requires
        in_dim <= i64::MAX,
        out_dim <= i64::MAX,
        0 <= t < tokens,
        0 <= i < in_dim,
        0 <= o < out_dim,
    ensures
        ({
            let p = ops::proj_plan(tokens, in_dim, out_dim, bias);
            &&& p.a_index(0, o, i) == launch::at2(o, i, in_dim as int)
            &&& 0 <= p.a_index(0, o, i) < in_dim * out_dim
            &&& p.b_index(0, i, t) == launch::at2(t, i, in_dim as int)
            &&& 0 <= p.b_index(0, i, t) < tokens * in_dim
            &&& p.c_index(0, o, t) == launch::at2(t, o, out_dim as int)
            &&& 0 <= p.c_index(0, o, t) < tokens * out_dim
        }),
{
    launch::lemma_at2_bound(o, i, out_dim as int, in_dim as int);
    launch::lemma_at2_bound(t, i, tokens as int, in_dim as int);
    launch::lemma_at2_bound(t, o, tokens as int, out_dim as int);
    assert(in_dim * out_dim == out_dim * in_dim) by (nonlinear_arith);
}

/// The position of dimension `d` of head `h` of token `t` in rows of `row_len`.
pub open spec fn head_index(
    offset: int,
    t: int,
    h: int,
    d: int,
    row_len: int,
    head_dim: int,
) -> int {
    offset + t * row_len + h * head_dim + d
}

/// A windowed operand stays below its furthest element: the last token's last
/// head.
pub proof fn lemma_head_window(
    offset: int,
    tokens: int,
    heads: int,
    row_len: int,
    head_dim: int,
    t: int,
    h: int,
    d: int,
)
    requires
        0 <= offset,
        0 <= row_len,
        0 <= t < tokens,
        0 <= h < heads,
        0 <= d < head_dim,
    ensures
        0 <= head_index(offset, t, h, d, row_len, head_dim) < offset + (tokens - 1) * row_len
            + heads * head_dim,
{
    assert(0 <= t * row_len <= (tokens - 1) * row_len) by (nonlinear_arith)
        requires
            0 <= t <= tokens - 1,
            0 <= row_len,
    ;
    assert(0 <= h * head_dim && h * head_dim + head_dim <= heads * head_dim) by (nonlinear_arith)
        requires
            0 <= h < heads,
            0 <= head_dim,
    ;
}

/// The scores' product reads head `h` of key `k` and of query `q`, writes
/// `scores[h][q][k]` inside the checked buffer, and reads inside a fused buffer
/// that holds the last token's last head.
pub proof fn law_scores_layout(
    buf: int,
    q_offset: usize,
    k_offset: usize,
    tokens: usize,
    row_len: usize,
    head_dim: usize,
    heads: usize,
    h: int,
    q: int,
    k: int,
    d: int,
)
    requires
        row_len <= i64::MAX,
        head_dim <= i64::MAX,
        tokens * tokens <= i64::MAX,
        tokens <= i64::MAX,
        q_offset + (tokens - 1) * row_len + heads * head_dim <= buf,
        k_offset + (tokens - 1) * row_len + heads * head_dim <= buf,
        0 <= h < heads,
        0 <= q < tokens,
        0 <= k < tokens,
        0 <= d < head_dim,
    ensures
        ({
            let p = ops::scores_plan(q_offset, k_offset, tokens, row_len, head_dim, heads);
            let (r, n) = (row_len as int, head_dim as int);
            &&& p.a_index(h, k, d) == head_index(k_offset as int, k, h, d, r, n)
            &&& p.b_index(h, d, q) == head_index(q_offset as int, q, h, d, r, n)
            &&& 0 <= p.a_index(h, k, d) < buf
            &&& 0 <= p.b_index(h, d, q) < buf
            &&& p.c_index(h, k, q) == launch::at3(h, q, k, tokens as int, tokens as int)
            &&& 0 <= p.c_index(h, k, q) < heads * tokens * tokens
        }),
{
    let (t, r, n) = (tokens as int, row_len as int, head_dim as int);
    lemma_head_window(k_offset as int, t, heads as int, r, n, k, h, d);
    lemma_head_window(q_offset as int, t, heads as int, r, n, q, h, d);
    launch::lemma_at3_bound(h, q, k, heads as int, t, t);
    assert((h * t + q) * t + k == h * (t * t) + q * t + k) by (nonlinear_arith);
}

/// The output's product reads `probs[h][q][k]` inside the checked buffer and
/// head `h` of value `k`, and writes head `h` of token `q`, inside buffers that
/// hold the last token's last head.
pub proof fn law_output_layout(
    v: int,
    out: int,
    v_offset: usize,
    out_offset: usize,
    tokens: usize,
    v_row_len: usize,
    out_row_len: usize,
    head_dim: usize,
    heads: usize,
    h: int,
    q: int,
    k: int,
    d: int,
)
    requires
        v_row_len <= i64::MAX,
        out_row_len <= i64::MAX,
        head_dim <= i64::MAX,
        tokens * tokens <= i64::MAX,
        tokens <= i64::MAX,
        v_offset + (tokens - 1) * v_row_len + heads * head_dim <= v,
        out_offset + (tokens - 1) * out_row_len + heads * head_dim <= out,
        0 <= h < heads,
        0 <= q < tokens,
        0 <= k < tokens,
        0 <= d < head_dim,
    ensures
        ({
            let p = ops::output_plan(
                v_offset,
                out_offset,
                tokens,
                v_row_len,
                out_row_len,
                head_dim,
                heads,
            );
            let n = head_dim as int;
            &&& p.a_index(h, d, k) == head_index(v_offset as int, k, h, d, v_row_len as int, n)
            &&& p.c_index(h, d, q) == head_index(out_offset as int, q, h, d, out_row_len as int, n)
            &&& 0 <= p.a_index(h, d, k) < v
            &&& 0 <= p.c_index(h, d, q) < out
            &&& p.b_index(h, k, q) == launch::at3(h, q, k, tokens as int, tokens as int)
            &&& 0 <= p.b_index(h, k, q) < heads * tokens * tokens
        }),
{
    let (t, n) = (tokens as int, head_dim as int);
    lemma_head_window(v_offset as int, t, heads as int, v_row_len as int, n, k, h, d);
    lemma_head_window(out_offset as int, t, heads as int, out_row_len as int, n, q, h, d);
    launch::lemma_at3_bound(h, q, k, heads as int, t, t);
    assert((h * t + q) * t + k == h * (t * t) + q * t + k) by (nonlinear_arith);
}

/// Two cells of the attention output never coincide when the rows hold all
/// heads.
pub proof fn law_output_cells_are_distinct(
    row_len: int,
    head_dim: int,
    heads: int,
    t1: int,
    h1: int,
    d1: int,
    t2: int,
    h2: int,
    d2: int,
)
    requires
        heads * head_dim <= row_len,
        0 <= h1 < heads,
        0 <= h2 < heads,
        0 <= d1 < head_dim,
        0 <= d2 < head_dim,
        head_index(0, t1, h1, d1, row_len, head_dim) == head_index(
            0,
            t2,
            h2,
            d2,
            row_len,
            head_dim,
        ),
    ensures
        t1 == t2,
        h1 == h2,
        d1 == d2,
{
    launch::lemma_at2_bound(h1, d1, heads, head_dim);
    launch::lemma_at2_bound(h2, d2, heads, head_dim);
    launch::lemma_at2_injective(
        t1,
        launch::at2(h1, d1, head_dim),
        t2,
        launch::at2(h2, d2, head_dim),
        row_len,
    );
    launch::lemma_at2_injective(h1, d1, h2, d2, head_dim);
}

} // verus!
