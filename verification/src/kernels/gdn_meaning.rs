//! What a recurrent step computes.

use crate::kernels::gdn::{GdnArg, GdnGeometry, STEP_MAX_BATCH};
use crate::launch;
use crate::meaning::{given, of, Value};
use vstd::prelude::*;

verus! {

/// The entry points of the recurrent source.
#[derive(Clone, Copy, PartialEq, Eq, Structural)]
pub enum GdnKernel {
    /// `gdn_normalize_qk`.
    Normalize,
    /// `gdn_recurrent_step`.
    Step,
}

/// The name an entry point is loaded by.
pub open spec fn kernel_name(k: GdnKernel) -> Seq<char> {
    match k {
        GdnKernel::Normalize => "gdn_normalize_qk"@,
        GdnKernel::Step => "gdn_recurrent_step"@,
    }
}

/// The entry point of a name.
pub open spec fn kernel_of(name: Seq<char>) -> GdnKernel {
    choose|k: GdnKernel| kernel_name(k) == name
}

/// No two entry points share a name.
proof fn lemma_kernel_names()
    ensures
        forall|k: GdnKernel| kernel_of(#[trigger] kernel_name(k)) == k,
        kernel_of("gdn_normalize_qk"@) == GdnKernel::Normalize,
        kernel_of("gdn_recurrent_step"@) == GdnKernel::Step,
{
    reveal_strlit("gdn_normalize_qk");
    reveal_strlit("gdn_recurrent_step");
    assert forall|a: GdnKernel, b: GdnKernel| #[trigger]
        kernel_name(a) == #[trigger] kernel_name(b) implies a == b by {
        assert(kernel_name(a).len() == kernel_name(b).len());
    }
    assert forall|k: GdnKernel| kernel_of(#[trigger] kernel_name(k)) == k by {
        assert(kernel_name(kernel_of(kernel_name(k))) == kernel_name(k));
    }
    assert(kernel_name(GdnKernel::Normalize) == "gdn_normalize_qk"@);
    assert(kernel_name(GdnKernel::Step) == "gdn_recurrent_step"@);
}

/// One operation of an expression.
pub enum GdnOp {
    /// Every head of `head_dim` values divided by its floored L2 norm.
    Normalized,
    /// The same, scaled.
    NormalizedAndScaled,
    /// The state decayed, corrected by the gated difference between the value
    /// and what the state predicts for the key, along the key.
    NextState,
    /// A state applied to a query.
    ReadOut,
}

/// What a buffer holds.
pub type GdnValue = Value<GdnArg, GdnOp>;

/// The contents of every buffer.
pub type GdnMemory = Map<GdnArg, GdnValue>;

/// The integer at a position of an argument list.
pub open spec fn int_at(args: Seq<GdnArg>, i: int) -> int {
    match args[i] {
        GdnArg::Int(n) => n as int,
        _ => -1,
    }
}

/// What the normalization leaves behind. Its parameters are q_in, k_in, q_out,
/// k_out, head_dim, eps, scale.
pub open spec fn after_normalize(l: launch::LaunchView<GdnArg>, m: GdnMemory) -> GdnMemory {
    let a = l.args;
    m.insert(
        a[2],
        of(GdnOp::NormalizedAndScaled, seq![m[a[0]], m[a[5]], m[a[6]]], seq![int_at(a, 4)]),
    ).insert(a[3], of(GdnOp::Normalized, seq![m[a[1]], m[a[5]]], seq![int_at(a, 4)]))
}

/// The state that sequence `z` of a step advances. The parameters of the step
/// are s0 to s7, q, k, v, log_decay, beta, out, head_dim, qk_heads, and
/// sequence `z` takes the pointer of its own number.
pub open spec fn advanced_buffer(l: launch::LaunchView<GdnArg>, z: int) -> GdnArg {
    l.args[z]
}

/// What sequence `z` of a step leaves in its state: row `z` of every
/// activation, the query/key heads shared among the `gridDim.y` value heads.
pub open spec fn advanced_state(l: launch::LaunchView<GdnArg>, m: GdnMemory, z: int) -> GdnValue {
    let a = l.args;
    next_state(
        m[a[z]],
        m[a[9]],
        m[a[10]],
        m[a[11]],
        m[a[12]],
        z,
        int_at(a, 14),
        int_at(a, 15),
        l.config.grid_dim.1 as int,
    )
}

/// The buffer the results of a step go to, and what row `z` of it holds: the
/// advanced state applied to the query.
pub open spec fn stepped_output(l: launch::LaunchView<GdnArg>, m: GdnMemory, z: int) -> (
    GdnArg,
    GdnValue,
) {
    (l.args[13], read_out(advanced_state(l, m, z), m[l.args[8]], z))
}

/// The gated delta rule of one token.
pub open spec fn next_state(
    state: GdnValue,
    key: GdnValue,
    value: GdnValue,
    log_decay: GdnValue,
    beta: GdnValue,
    row: int,
    head_dim: int,
    qk_heads: int,
    value_heads: int,
) -> GdnValue {
    of(
        GdnOp::NextState,
        seq![state, key, value, log_decay, beta],
        seq![row, head_dim, qk_heads, value_heads],
    )
}

/// A state applied to row `row` of the queries.
pub open spec fn read_out(state: GdnValue, query: GdnValue, row: int) -> GdnValue {
    of(GdnOp::ReadOut, seq![state, query], seq![row])
}

/// Every sequence of a batch advances its own state by the gated delta rule on
/// the normalized key, and reads its result out of the advanced state with the
/// normalized and scaled query: the buffer the normalization fills from the
/// queries is the one the step queries with, and the one it fills from the keys
/// is the one the step updates with.
pub proof fn law_step_advances_every_state(g: GdnGeometry, states: Seq<u64>, z: int)
    requires
        g.supported(),
        g.value_heads <= i32::MAX,
        g.qk_heads <= i32::MAX,
        1 <= states.len() <= STEP_MAX_BATCH,
        0 <= z < states.len(),
    ensures
        ({
            let start: GdnMemory = given();
            let n = states.len() as int;
            let m = after_normalize(g.normalize_launch(n), start);
            let step = g.step_launch(states);
            let key: GdnValue = of(
                GdnOp::Normalized,
                seq![start[GdnArg::Key], start[GdnArg::Eps]],
                seq![g.head_dim as int],
            );
            let query: GdnValue = of(
                GdnOp::NormalizedAndScaled,
                seq![start[GdnArg::Query], start[GdnArg::Eps], start[GdnArg::Scale]],
                seq![g.head_dim as int],
            );
            let next = next_state(
                start[GdnArg::State(states[z])],
                key,
                start[GdnArg::Value],
                start[GdnArg::LogDecay],
                start[GdnArg::Beta],
                z,
                g.head_dim as int,
                g.qk_heads as int,
                g.value_heads as int,
            );
            &&& kernel_of(g.normalize_launch(n).kernel) == GdnKernel::Normalize
            &&& kernel_of(step.kernel) == GdnKernel::Step
            &&& g.normalize_launch(n).args.len() == 7
            &&& step.args.len() == 16
            &&& advanced_buffer(step, z) == GdnArg::State(states[z])
            &&& advanced_state(step, m, z) == next
            &&& stepped_output(step, m, z) == (GdnArg::Output, read_out(next, query, z))
        }),
{
    lemma_kernel_names();
    let start: GdnMemory = given();
    let m = after_normalize(g.normalize_launch(states.len() as int), start);
    let step = g.step_launch(states);
    assert(step.args[z] == GdnArg::State(states[z]));
    assert(m[step.args[z]] == start[GdnArg::State(states[z])]);
}

/// The launches of a step have the shape their entry points index by: the
/// normalization a block of one head for every sequence and query/key head,
/// with a word per warp; the step a warp for every row of every value head's
/// state, in each sequence of the batch.
pub proof fn law_step_launches_are_well_shaped(g: GdnGeometry, states: Seq<u64>)
    requires
        g.supported(),
        g.value_heads <= u32::MAX,
        1 <= states.len() <= STEP_MAX_BATCH,
        states.len() * g.qk_heads <= u32::MAX,
    ensures
        ({
            let c = g.normalize_launch(states.len() as int).config;
            &&& c.grid_dim.0 == states.len() * g.qk_heads
            &&& c.grid_dim.1 == 1 && c.grid_dim.2 == 1
            &&& c.block_dim.0 == g.head_dim && c.block_dim.1 == 1 && c.block_dim.2 == 1
            &&& c.shared_mem_bytes * 8 == g.head_dim
        }),
        ({
            let c = g.step_launch(states).config;
            &&& c.grid_dim.0 * 4 == g.head_dim
            &&& c.grid_dim.1 == g.value_heads
            &&& c.grid_dim.2 == states.len()
            &&& c.block_dim.0 == 4 * 32 && c.block_dim.1 == 1 && c.block_dim.2 == 1
            &&& c.shared_mem_bytes == 0
        }),
{
    assert(0 <= states.len() * g.qk_heads) by (nonlinear_arith);
    let b = g.head_dim as int / 128;
    assert(g.head_dim == 128 * b);
    assert(launch::ceil_div(128 * b, 32) == 4 * b);
    assert(launch::ceil_div(128 * b, 4) == 32 * b);
}

/// The state ends with the last element of the last value head's square, and
/// the scratch with the last element of the last query/key head of the eighth
/// sequence: neither is a byte too long.
pub proof fn law_buffers_end_with_their_last_element(g: GdnGeometry)
    ensures
        ({
            let (v, q, d) = (g.value_heads as int, g.qk_heads as int, g.head_dim as int);
            &&& launch::at3(v - 1, d - 1, d - 1, d, d) + 1 == g.state_elements()
            &&& launch::at3(7, q - 1, d - 1, q, d) + 1 == g.scratch_elements()
        }),
{
    let (v, q, d) = (g.value_heads as int, g.qk_heads as int, g.head_dim as int);
    launch::lemma_at3_last(v, d, d);
    launch::lemma_at3_last(8, q, d);
}

} // verus!
