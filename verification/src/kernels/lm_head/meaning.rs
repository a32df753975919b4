//! What the LM head computes.
//!
//! The entry points of a body differ by their format, by how many tokens they
//! take at once and by how many rows a warp owns. All of them declare weight,
//! hidden_states, hidden_dim, vocab, token_base, logits.

use crate::kernels::lm_head::family;
use crate::kernels::lm_head::family::{LmHeadArg, LmHeadView};
use crate::kernels::lm_head::geometry;
use crate::kernels::lm_head::geometry::{HeadFormat, HeadTensor, LmHeadGeometry};
use crate::kernels::lm_head::laws;
use crate::launch;
use crate::meaning::{of, Value};
use crate::text;
use vstd::prelude::*;

verus! {

/// One operation of an expression.
pub enum HeadOp {
    /// The product of a weight row in a format with a token's hidden state.
    Dot(HeadFormat),
    /// The winning value of each block's share of some values, ties going to
    /// the lower index.
    BlockWinners,
    /// Where those winners stand.
    BlockWinnerIndices,
    /// Where the winner of the winners stands.
    Winner,
    /// The softmax probability of the largest of some values.
    WinnerProbability,
}

/// What a buffer holds.
pub type HeadValue = Value<LmHeadArg, HeadOp>;

/// What the caller put into a buffer.
pub open spec fn given(a: LmHeadArg) -> HeadValue {
    Value::Given(a)
}

/// The integer at a position of an argument list.
pub open spec fn int_at(args: Seq<LmHeadArg>, i: int) -> int {
    match args[i] {
        LmHeadArg::Int(n) => n as int,
        _ => -1,
    }
}

/// The name a format's entry points begin with.
pub open spec fn body_of(format: HeadFormat) -> Seq<char> {
    match format {
        HeadFormat::Q8_0 => "lm_head_gemv"@,
        HeadFormat::Bf16 => "lm_head_bf16"@,
        HeadFormat::Q6K => "lm_head_q6_k"@,
        HeadFormat::F16 => "lm_head_f16"@,
        HeadFormat::Q4_0 => "lm_head_q4_0"@,
        HeadFormat::Q4K => "lm_head_q4_k"@,
        HeadFormat::Q5K => "lm_head_q5_k"@,
    }
}

/// The entry point of a format for `width` tokens and `rows` rows per warp.
pub open spec fn entry_name(format: HeadFormat, width: nat, rows: nat) -> Seq<char> {
    if rows == 1 {
        body_of(format) + "_b"@ + text::decimal(width)
    } else {
        body_of(format) + "_b3r"@ + text::decimal(rows)
    }
}

/// Which entry points there are: up to eight tokens with a row per warp, and
/// three tokens with two or four rows per warp in two formats.
pub open spec fn is_entry(format: HeadFormat, width: int, rows: int) -> bool {
    if rows == 1 {
        1 <= width <= 8
    } else {
        width == 3 && (rows == 2 || rows == 4) && (format == HeadFormat::Q8_0 || format
            == HeadFormat::Bf16)
    }
}

/// Serialized bytes of a weight row of `hidden` elements.
pub open spec fn row_bytes(format: HeadFormat, hidden: int) -> int {
    match format {
        HeadFormat::Q8_0 => hidden / 32 * 34,
        HeadFormat::Bf16 => hidden * 2,
        HeadFormat::Q6K => hidden / 256 * 210,
        HeadFormat::F16 => hidden * 2,
        HeadFormat::Q4_0 => hidden / 32 * 18,
        HeadFormat::Q4K => hidden / 256 * 144,
        HeadFormat::Q5K => hidden / 256 * 176,
    }
}

/// Where a head launch of a format puts the logit of a token and a row, and
/// what it is, by what the launch carries at each parameter.
pub open spec fn logit(
    l: launch::LaunchView<LmHeadArg>,
    format: HeadFormat,
    token: int,
    row: int,
) -> (LmHeadArg, int, HeadValue) {
    let a = l.args;
    (
        a[5],
        token * int_at(a, 3) + row,
        of(HeadOp::Dot(format), seq![given(a[0]), given(a[1])], seq![row, token, int_at(a, 2)]),
    )
}

/// A forward pass computes, for every token and every vocabulary row, the
/// product of that weight row in the tensor's format with that token's hidden
/// state, at that token's place for that row among the logits. One launch does
/// so, the one whose tokens hold the token, and by what it carries the row it
/// reads, the state it reads and the logit it writes lie inside the buffers
/// that were checked.
pub proof fn law_forward_computes_every_logit(
    v: LmHeadView,
    weight: HeadTensor,
    hidden_states: usize,
    tokens: usize,
    logits: usize,
    t: int,
    row: int,
    j: int,
)
    requires
        v.valid(),
        v.geometry.forward_refusal(weight, hidden_states, tokens, logits) is None,
        v.geometry.hidden <= i32::MAX,
        v.geometry.vocab <= i32::MAX,
        tokens <= i32::MAX,
        0 <= t < tokens,
        0 <= row < v.geometry.vocab,
        0 <= j < LmHeadGeometry::passes(tokens as int),
    ensures
        ({
            let g = v.geometry;
            let i = t / 8;
            let l = g.tile_launch(v.row_tile, weight.format, tokens as int, i * 8);
            let a = l.args;
            let base = int_at(a, 4);
            let width = if tokens - base < 8 {
                tokens - base
            } else {
                8
            };
            let rows = if v.row_tile is Some && width == 3 && (weight.format == HeadFormat::Q8_0
                || weight.format == HeadFormat::Bf16) {
                v.row_tile->0 as int
            } else {
                1
            };
            &&& 0 <= i < LmHeadGeometry::passes(tokens as int)
            &&& a.len() == 6
            &&& base <= t < base + width <= tokens
            &&& is_entry(weight.format, width, rows)
            &&& l.kernel == entry_name(weight.format, width as nat, rows as nat)
            &&& logit(l, weight.format, t, row) == (
                LmHeadArg::Logits,
                t * g.vocab + row,
                of::<LmHeadArg, HeadOp>(
                    HeadOp::Dot(weight.format),
                    seq![given(LmHeadArg::Weight), given(LmHeadArg::HiddenStates)],
                    seq![row, t, g.hidden as int],
                ),
            )
            &&& 0 <= logit(l, weight.format, t, row).1 < logits
            &&& (row + 1) * row_bytes(weight.format, int_at(a, 2)) <= weight.bytes
            &&& (t + 1) * int_at(a, 2) <= hidden_states
            &&& row < int_at(a, 3)
            &&& l.config.block_dim == (32u32, 8u32, 1u32)
            &&& row / rows < l.config.grid_dim.0 * l.config.block_dim.1
            &&& (l.config.grid_dim.0 - 1) * 8 * rows < int_at(a, 3)
            &&& l.config.grid_dim.1 == 1 && l.config.grid_dim.2 == 1
            &&& l.config.shared_mem_bytes == if weight.format == HeadFormat::Q8_0 {
                8 * rows * 16 * 34
            } else {
                0
            }
        }),
        ({
            let a = v.geometry.tile_launch(v.row_tile, weight.format, tokens as int, j * 8).args;
            let base = int_at(a, 4);
            &&& base == j * 8
            &&& base <= t < base + 8 ==> j == t / 8
        }),
{
    let g = v.geometry;
    let i = t / 8;
    laws::law_tiles_partition_the_tokens(tokens as int, t);
    laws::law_accepted_weights_have_the_serialized_size(g, weight);
    laws::law_weight_rows_stay_in_bounds(g, weight, row);
    launch::lemma_at2_bound(t, row, g.max_tokens as int, g.vocab as int);
    let h = g.hidden as int;
    let m = g.max_tokens as int;
    assert((t + 1) * h <= m * h) by (nonlinear_arith)
        requires
            t + 1 <= m,
            0 <= h,
    ;
    assert(g.row_size(weight.format) == row_bytes(weight.format, h));
    let n = g.vocab as int;
    launch::lemma_ceil_div_covers(n, 8);
    launch::lemma_ceil_div_covers(n, 16);
    launch::lemma_ceil_div_covers(n, 32);
    let l = g.tile_launch(v.row_tile, weight.format, tokens as int, i * 8);
    let width = geometry::tile_of(tokens - i * 8);
    let tiled = LmHeadGeometry::takes_row_tile(v.row_tile, weight.format, width);
    let rows: int = if tiled {
        v.row_tile->0 as int
    } else {
        1
    };
    assert(rows == 1 || rows == 2 || rows == 4);
    assert(int_at(l.args, 4) == i * 8);
    assert(0 <= i * 8 <= t);
    let x = launch::ceil_div(n, 8 * rows);
    assert(row / rows < x * 8) by {
        if rows == 1 {
            assert(row < x * 8);
        } else if rows == 2 {
            assert(row < x * 16);
        } else {
            assert(row < x * 32);
        }
    }
}

/// What the two argmax launches leave in the result. The first declares x, n,
/// pv, pi and takes a share of the values per block; the second declares pv,
/// pi, n, out and looks at as many winners as it is told of.
pub open spec fn argmax_result(
    first: launch::LaunchView<LmHeadArg>,
    second: launch::LaunchView<LmHeadArg>,
) -> (LmHeadArg, HeadValue) {
    let (a, b) = (first.args, second.args);
    let shares = first.config.grid_dim.0 as int;
    let winners: HeadValue = of(
        HeadOp::BlockWinners,
        seq![given(a[0])],
        seq![int_at(a, 1), shares],
    );
    let places: HeadValue = of(
        HeadOp::BlockWinnerIndices,
        seq![given(a[0])],
        seq![int_at(a, 1), shares],
    );
    (
        b[3],
        if b[0] == a[2] && b[1] == a[3] && int_at(b, 2) == shares {
            of(HeadOp::Winner, seq![winners, places], seq![int_at(a, 1)])
        } else {
            Value::Unknown
        },
    )
}

/// An argmax over the first `n` values: every one of them is in some block's
/// share, the winners of all shares and their places go to the second launch,
/// and nothing else does, and what it finds is the result.
pub open spec fn finds_the_largest(
    first: launch::LaunchView<LmHeadArg>,
    second: launch::LaunchView<LmHeadArg>,
    n: int,
) -> bool {
    let shares = first.config.grid_dim.0 as int;
    let x = given(LmHeadArg::Values);
    &&& first.kernel == "argmax_partial"@
    &&& second.kernel == "argmax_final"@
    &&& first.args.len() == 4 && second.args.len() == 4
    &&& first.args[2] == LmHeadArg::PartialValues
    &&& first.args[3] == LmHeadArg::PartialIndices
    &&& argmax_result(first, second) == (
        LmHeadArg::Output,
        of::<LmHeadArg, HeadOp>(
            HeadOp::Winner,
            seq![
                of(HeadOp::BlockWinners, seq![x], seq![n, shares]),
                of(HeadOp::BlockWinnerIndices, seq![x], seq![n, shares]),
            ],
            seq![n],
        ),
    )
    // A thread per value, up to 512 blocks of 256 that stride over the rest.
    &&& first.config.block_dim == (256u32, 1u32, 1u32)
    &&& 1 <= shares <= 512
    &&& shares * 256 >= n || shares == 512
    &&& (shares - 1) * 256 < n
    &&& first.config.grid_dim.1 == 1 && first.config.grid_dim.2 == 1
    &&& first.config.shared_mem_bytes == 0
    &&& second.config.grid_dim == (1u32, 1u32, 1u32)
    &&& second.config.block_dim == (256u32, 1u32, 1u32)
    &&& second.config.shared_mem_bytes == 0
}

/// The probability of the largest of the first `n` values. The launch declares
/// x, n, out.
pub open spec fn finds_the_probability(l: launch::LaunchView<LmHeadArg>, n: int) -> bool {
    let a = l.args;
    &&& l.kernel == "argmax_prob"@
    &&& a.len() == 3
    &&& (a[2], of::<LmHeadArg, HeadOp>(
        HeadOp::WinnerProbability,
        seq![given(a[0])],
        seq![int_at(a, 1)],
    )) == (LmHeadArg::Output, of::<LmHeadArg, HeadOp>(
        HeadOp::WinnerProbability,
        seq![given(LmHeadArg::Values)],
        seq![n],
    ))
    &&& l.config.grid_dim == (1u32, 1u32, 1u32)
    &&& l.config.block_dim == (256u32, 1u32, 1u32)
    &&& l.config.shared_mem_bytes == 0
}

/// The argmax of every admissible count finds the largest of that many values,
/// and its probability is of the same values.
pub proof fn law_argmax_finds_the_largest(n: int)
    requires
        0 < n <= i32::MAX,
    ensures
        finds_the_largest(family::argmax_first(n), family::argmax_second(n), n),
        finds_the_probability(family::argmax_prob_launch(n), n),
{
    launch::lemma_ceil_div_covers(n, 256);
}

} // verus!
