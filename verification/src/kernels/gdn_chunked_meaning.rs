//! What a prefill computes.

use crate::kernels::gdn_chunked;
use crate::kernels::gdn_chunked::{GdnChunkedArg, GdnChunkedGeometry, INTER_TT, SCAN_MAXR};
use crate::launch;
use crate::meaning::{cover, given, of, Value};
use vstd::prelude::*;

verus! {

/// The entry points of the chunked source.
#[derive(Clone, Copy, PartialEq, Eq, Structural)]
pub enum ChunkKernel {
    /// `gdn_chunk_normalize_qk`.
    Normalize,
    /// `gdn_scan_prefill`.
    Scan,
    /// `gdn_chunk_gram`.
    Gram,
    /// `gdn_chunk_inter`.
    Inter,
    /// `gdn_chunk_solve_and_apply`.
    Solve,
    /// `gdn_chunk_state_update`.
    Update,
}

/// The name an entry point is loaded by.
pub open spec fn kernel_name(k: ChunkKernel) -> Seq<char> {
    match k {
        ChunkKernel::Normalize => "gdn_chunk_normalize_qk"@,
        ChunkKernel::Scan => "gdn_scan_prefill"@,
        ChunkKernel::Gram => "gdn_chunk_gram"@,
        ChunkKernel::Inter => "gdn_chunk_inter"@,
        ChunkKernel::Solve => "gdn_chunk_solve_and_apply"@,
        ChunkKernel::Update => "gdn_chunk_state_update"@,
    }
}

/// The entry point of a name.
pub open spec fn kernel_of(name: Seq<char>) -> ChunkKernel {
    choose|k: ChunkKernel| kernel_name(k) == name
}

/// No two entry points share a name.
proof fn lemma_kernel_names()
    ensures
        forall|k: ChunkKernel| kernel_of(#[trigger] kernel_name(k)) == k,
        kernel_of("gdn_chunk_normalize_qk"@) == ChunkKernel::Normalize,
        kernel_of("gdn_scan_prefill"@) == ChunkKernel::Scan,
        kernel_of("gdn_chunk_gram"@) == ChunkKernel::Gram,
        kernel_of("gdn_chunk_inter"@) == ChunkKernel::Inter,
        kernel_of("gdn_chunk_solve_and_apply"@) == ChunkKernel::Solve,
        kernel_of("gdn_chunk_state_update"@) == ChunkKernel::Update,
{
    reveal_strlit("gdn_chunk_normalize_qk");
    reveal_strlit("gdn_scan_prefill");
    reveal_strlit("gdn_chunk_gram");
    reveal_strlit("gdn_chunk_inter");
    reveal_strlit("gdn_chunk_solve_and_apply");
    reveal_strlit("gdn_chunk_state_update");
    assert("gdn_chunk_normalize_qk"@[10] != "gdn_chunk_state_update"@[10]);
    assert forall|a: ChunkKernel, b: ChunkKernel| #[trigger]
        kernel_name(a) == #[trigger] kernel_name(b) implies a == b by {
        assert(kernel_name(a).len() == kernel_name(b).len());
    }
    assert forall|k: ChunkKernel| kernel_of(#[trigger] kernel_name(k)) == k by {
        assert(kernel_name(kernel_of(kernel_name(k))) == kernel_name(k));
    }
    assert(kernel_name(ChunkKernel::Normalize) == "gdn_chunk_normalize_qk"@);
    assert(kernel_name(ChunkKernel::Scan) == "gdn_scan_prefill"@);
    assert(kernel_name(ChunkKernel::Gram) == "gdn_chunk_gram"@);
    assert(kernel_name(ChunkKernel::Inter) == "gdn_chunk_inter"@);
    assert(kernel_name(ChunkKernel::Solve) == "gdn_chunk_solve_and_apply"@);
    assert(kernel_name(ChunkKernel::Update) == "gdn_chunk_state_update"@);
}

/// One operation of an expression.
pub enum ChunkOp {
    /// Every head divided by its floored L2 norm.
    Normalized,
    /// The same, scaled.
    NormalizedAndScaled,
    /// The state after a run of tokens, one after the other.
    Scanned,
    /// The results of such a run.
    ScannedOutput,
    /// Products of the keys of a chunk with the second operand.
    Gram,
    /// The state applied to a chunk of the second operand.
    StateProduct,
    /// The corrections of a chunk, decayed to its end.
    Corrections,
    /// The decay over a chunk.
    ChunkDecay,
    /// The results of a chunk, over the earlier results.
    ChunkOutput,
    /// The state decayed over a chunk, and the corrections along the keys.
    NextState,
}

/// What a buffer holds.
pub type ChunkValue = Value<GdnChunkedArg, ChunkOp>;

/// The contents of every buffer.
pub type ChunkMemory = Map<GdnChunkedArg, ChunkValue>;

/// The integer at a position of an argument list.
pub open spec fn int_at(args: Seq<GdnChunkedArg>, i: int) -> int {
    match args[i] {
        GdnChunkedArg::Int(n) => n as int,
        _ => -1,
    }
}

/// A chunk: its first token, its tokens, and the heads it works on.
pub struct Chunk {
    /// First token.
    pub start: int,
    /// Tokens.
    pub tokens: int,
    /// Elements per head.
    pub head_dim: int,
    /// Query/key heads.
    pub qk_heads: int,
}

/// An operation on a chunk.
pub open spec fn on_chunk(op: ChunkOp, inputs: Seq<ChunkValue>, c: Chunk) -> ChunkValue {
    of(op, inputs, seq![c.start, c.tokens, c.head_dim, c.qk_heads])
}

/// What one launch leaves behind: the positions are those of the parameters in
/// the declaration of the entry point.
pub open spec fn launched(l: launch::LaunchView<GdnChunkedArg>, m: ChunkMemory) -> ChunkMemory {
    let a = l.args;
    match kernel_of(l.kernel) {
        // q_in, k_in, q_out, k_out, head_dim, eps, scale
        ChunkKernel::Normalize => m.insert(
            a[2],
            of(ChunkOp::NormalizedAndScaled, seq![m[a[0]], m[a[5]], m[a[6]]], seq![int_at(a, 4)]),
        ).insert(a[3], of(ChunkOp::Normalized, seq![m[a[1]], m[a[5]]], seq![int_at(a, 4)])),
        // state, q_norm, k_norm, v, log_decay, beta, out, head_dim,
        // value_heads, qk_heads, seq_len
        ChunkKernel::Scan => {
            let inputs = seq![m[a[0]], m[a[1]], m[a[2]], m[a[3]], m[a[4]], m[a[5]]];
            let extents = seq![int_at(a, 7), int_at(a, 8), int_at(a, 9), int_at(a, 10)];
            m.insert(a[0], of(ChunkOp::Scanned, inputs, extents)).insert(
                a[6],
                of(ChunkOp::ScannedOutput, inputs, extents),
            )
        },
        // q_norm, k_norm, kk, kq, head_dim, qk_heads, chunk_start, c
        ChunkKernel::Gram => {
            let c = Chunk {
                start: int_at(a, 6),
                tokens: int_at(a, 7),
                head_dim: int_at(a, 4),
                qk_heads: int_at(a, 5),
            };
            m.insert(a[2], on_chunk(ChunkOp::Gram, seq![m[a[1]], m[a[1]]], c)).insert(
                a[3],
                on_chunk(ChunkOp::Gram, seq![m[a[1]], m[a[0]]], c),
            )
        },
        // state, q_norm, k_norm, sik, oint, head_dim, qk_heads, chunk_start, c
        ChunkKernel::Inter => {
            let c = Chunk {
                start: int_at(a, 7),
                tokens: int_at(a, 8),
                head_dim: int_at(a, 5),
                qk_heads: int_at(a, 6),
            };
            m.insert(a[3], on_chunk(ChunkOp::StateProduct, seq![m[a[0]], m[a[2]]], c)).insert(
                a[4],
                on_chunk(ChunkOp::StateProduct, seq![m[a[0]], m[a[1]]], c),
            )
        },
        // uprime, lambda_last, v, log_decay, beta, k_norm, kk, kq, sik, oint,
        // out, head_dim, value_heads, qk_heads, chunk_start, c
        ChunkKernel::Solve => {
            let c = Chunk {
                start: int_at(a, 14),
                tokens: int_at(a, 15),
                head_dim: int_at(a, 11),
                qk_heads: int_at(a, 13),
            };
            let heads = int_at(a, 12);
            let u = corrections(m[a[2]], m[a[3]], m[a[4]], m[a[5]], m[a[6]], m[a[8]], heads, c);
            m.insert(a[0], u).insert(a[1], chunk_decay(m[a[3]], heads, c)).insert(
                a[10],
                chunk_output(m[a[10]], u, m[a[3]], m[a[7]], m[a[9]], heads, c),
            )
        },
        // state, uprime, k_norm, lambda_last, head_dim, qk_heads, chunk_start,
        // c
        ChunkKernel::Update => {
            let c = Chunk {
                start: int_at(a, 6),
                tokens: int_at(a, 7),
                head_dim: int_at(a, 4),
                qk_heads: int_at(a, 5),
            };
            m.insert(
                a[0],
                on_chunk(ChunkOp::NextState, seq![m[a[0]], m[a[1]], m[a[2]], m[a[3]]], c),
            )
        },
    }
}

/// The corrections of a chunk: what beta lets through of the difference between
/// the values and the decayed prediction of the state, less what the earlier
/// corrections of the chunk account for.
pub open spec fn corrections(
    values: ChunkValue,
    log_decay: ChunkValue,
    beta: ChunkValue,
    keys: ChunkValue,
    key_products: ChunkValue,
    predictions: ChunkValue,
    value_heads: int,
    c: Chunk,
) -> ChunkValue {
    of(
        ChunkOp::Corrections,
        seq![values, log_decay, beta, keys, key_products, predictions],
        seq![c.start, c.tokens, c.head_dim, c.qk_heads, value_heads],
    )
}

/// The decay over a chunk.
pub open spec fn chunk_decay(log_decay: ChunkValue, value_heads: int, c: Chunk) -> ChunkValue {
    of(ChunkOp::ChunkDecay, seq![log_decay], seq![c.start, c.tokens, value_heads])
}

/// The results of a chunk: the decayed answer of the incoming state, and the
/// corrections weighed by the query products.
pub open spec fn chunk_output(
    before: ChunkValue,
    u: ChunkValue,
    log_decay: ChunkValue,
    query_products: ChunkValue,
    answers: ChunkValue,
    value_heads: int,
    c: Chunk,
) -> ChunkValue {
    of(
        ChunkOp::ChunkOutput,
        seq![before, u, log_decay, query_products, answers],
        seq![c.start, c.tokens, c.head_dim, c.qk_heads, value_heads],
    )
}

/// The normalized keys.
pub open spec fn keys(g: GdnChunkedGeometry) -> ChunkValue {
    of(
        ChunkOp::Normalized,
        seq![Value::Given(GdnChunkedArg::Key), Value::Given(GdnChunkedArg::Eps)],
        seq![g.head_dim as int],
    )
}

/// The normalized and scaled queries.
pub open spec fn queries(g: GdnChunkedGeometry) -> ChunkValue {
    of(
        ChunkOp::NormalizedAndScaled,
        seq![
            Value::Given(GdnChunkedArg::Query),
            Value::Given(GdnChunkedArg::Eps),
            Value::Given(GdnChunkedArg::Scale),
        ],
        seq![g.head_dim as int],
    )
}

/// Chunk `i` of a sequence: `chunk_len` tokens, or the rest.
pub open spec fn chunk(g: GdnChunkedGeometry, seq_len: int, i: int) -> Chunk {
    let start = i * g.chunk_len;
    Chunk {
        start,
        tokens: if seq_len - start < g.chunk_len {
            seq_len - start
        } else {
            g.chunk_len as int
        },
        head_dim: g.head_dim as int,
        qk_heads: g.qk_heads as int,
    }
}

/// The corrections of a chunk entered with `state`.
pub open spec fn corrections_from(
    g: GdnChunkedGeometry,
    state: ChunkValue,
    c: Chunk,
) -> ChunkValue {
    corrections(
        Value::Given(GdnChunkedArg::Value),
        Value::Given(GdnChunkedArg::LogDecay),
        Value::Given(GdnChunkedArg::Beta),
        keys(g),
        on_chunk(ChunkOp::Gram, seq![keys(g), keys(g)], c),
        on_chunk(ChunkOp::StateProduct, seq![state, keys(g)], c),
        g.value_heads as int,
        c,
    )
}

/// The state after the first `i` chunks, and the results so far: each chunk is
/// entered with the state the last one left.
pub open spec fn prefilled(g: GdnChunkedGeometry, seq_len: int, i: nat) -> (ChunkValue, ChunkValue)
    decreases i,
{
    if i == 0 {
        (Value::Given(GdnChunkedArg::State), Value::Given(GdnChunkedArg::Output))
    } else {
        let (state, out) = prefilled(g, seq_len, (i - 1) as nat);
        let c = chunk(g, seq_len, i - 1);
        let u = corrections_from(g, state, c);
        let log_decay = Value::Given(GdnChunkedArg::LogDecay);
        (
            on_chunk(
                ChunkOp::NextState,
                seq![state, u, keys(g), chunk_decay(log_decay, g.value_heads as int, c)],
                c,
            ),
            chunk_output(
                out,
                u,
                log_decay,
                on_chunk(ChunkOp::Gram, seq![keys(g), queries(g)], c),
                on_chunk(ChunkOp::StateProduct, seq![state, queries(g)], c),
                g.value_heads as int,
                c,
            ),
        )
    }
}

/// The memory after the first `n` launches of a prefill.
pub open spec fn walked(g: GdnChunkedGeometry, seq_len: int, n: nat) -> ChunkMemory
    decreases n,
{
    if n == 0 {
        given()
    } else {
        launched(g.prefill_launch(seq_len, n - 1), walked(g, seq_len, (n - 1) as nat))
    }
}

/// The inputs that no launch of a prefill writes, the normalized keys and
/// queries, and the state and results after `i` chunks.
spec fn stands_at(g: GdnChunkedGeometry, seq_len: int, i: nat, m: ChunkMemory) -> bool {
    &&& m.dom() == Set::<GdnChunkedArg>::full()
    &&& m[GdnChunkedArg::Value] == Value::<GdnChunkedArg, ChunkOp>::Given(GdnChunkedArg::Value)
    &&& m[GdnChunkedArg::LogDecay] == Value::<GdnChunkedArg, ChunkOp>::Given(
        GdnChunkedArg::LogDecay,
    )
    &&& m[GdnChunkedArg::Beta] == Value::<GdnChunkedArg, ChunkOp>::Given(GdnChunkedArg::Beta)
    &&& m[GdnChunkedArg::QNorm] == queries(g)
    &&& m[GdnChunkedArg::KNorm] == keys(g)
    &&& m[GdnChunkedArg::State] == prefilled(g, seq_len, i).0
    &&& m[GdnChunkedArg::Output] == prefilled(g, seq_len, i).1
}

/// Everything a kernel takes as an `int`.
pub open spec fn int_sized(g: GdnChunkedGeometry, seq_len: int) -> bool {
    g.value_heads <= i32::MAX && g.qk_heads <= i32::MAX && seq_len <= i32::MAX
}

proof fn lemma_one_chunk(g: GdnChunkedGeometry, seq_len: int, i: nat, m: ChunkMemory)
    requires
        g.supported(),
        int_sized(g, seq_len),
        i * g.chunk_len < seq_len,
        stands_at(g, seq_len, i, m),
    ensures
        ({
            let m1 = launched(g.chunk_launch(seq_len, i as int, 0), m);
            let m2 = launched(g.chunk_launch(seq_len, i as int, 1), m1);
            let m3 = launched(g.chunk_launch(seq_len, i as int, 2), m2);
            let m4 = launched(g.chunk_launch(seq_len, i as int, 3), m3);
            stands_at(g, seq_len, i + 1, m4)
        }),
{
    lemma_kernel_names();
    let c = chunk(g, seq_len, i as int);
    assert(0 <= i * g.chunk_len) by (nonlinear_arith);
    assert(g.chunk_start(i as int) == c.start);
    assert(g.chunk_tokens(seq_len, i as int) == c.tokens);
    let m1 = launched(g.chunk_launch(seq_len, i as int, 0), m);
    let m2 = launched(g.chunk_launch(seq_len, i as int, 1), m1);
    let m3 = launched(g.chunk_launch(seq_len, i as int, 2), m2);
    let m4 = launched(g.chunk_launch(seq_len, i as int, 3), m3);
    let state = m[GdnChunkedArg::State];
    assert(m1[GdnChunkedArg::Kk] == on_chunk(ChunkOp::Gram, seq![keys(g), keys(g)], c));
    assert(m1[GdnChunkedArg::Kq] == on_chunk(ChunkOp::Gram, seq![keys(g), queries(g)], c));
    assert(m2[GdnChunkedArg::Sik] == on_chunk(ChunkOp::StateProduct, seq![state, keys(g)], c));
    assert(m2[GdnChunkedArg::Oint] == on_chunk(ChunkOp::StateProduct, seq![state, queries(g)], c));
    assert(m3[GdnChunkedArg::Uprime] == corrections_from(g, state, c));
    assert(m4.dom() =~= Set::<GdnChunkedArg>::full());
}

proof fn lemma_walk_starts(g: GdnChunkedGeometry, seq_len: int)
    requires
        g.supported(),
        int_sized(g, seq_len),
    ensures
        stands_at(g, seq_len, 0, walked(g, seq_len, 1)),
{
    lemma_kernel_names();
    reveal_with_fuel(walked, 2);
    let m = walked(g, seq_len, 1);
    assert(m.dom() =~= Set::<GdnChunkedArg>::full());
}

proof fn lemma_walk_one(g: GdnChunkedGeometry, seq_len: int, j: nat, k: nat)
    requires
        k < 4,
    ensures
        walked(g, seq_len, (2 + 4 * j + k) as nat) == launched(
            g.chunk_launch(seq_len, j as int, k as int),
            walked(g, seq_len, (1 + 4 * j + k) as nat),
        ),
{
    let n = (1 + 4 * j + k) as nat;
    assert((n - 1) / 4 == j && (n - 1) % 4 == k);
    assert(g.prefill_launch(seq_len, n as int) == g.chunk_launch(seq_len, j as int, k as int));
}

proof fn lemma_walk(g: GdnChunkedGeometry, seq_len: int, i: nat)
    requires
        g.supported(),
        int_sized(g, seq_len),
        0 < seq_len,
        i <= g.chunks(seq_len),
    ensures
        stands_at(g, seq_len, i, walked(g, seq_len, (1 + 4 * i) as nat)),
    decreases i,
{
    if i == 0 {
        lemma_walk_starts(g, seq_len);
    } else {
        let j = (i - 1) as nat;
        lemma_walk(g, seq_len, j);
        let d = g.chunk_len as int;
        launch::lemma_ceil_div_covers(seq_len, d);
        let q = g.chunks(seq_len);
        assert(j * d < seq_len) by (nonlinear_arith)
            requires
                j + 1 <= q,
                q * d < seq_len + d,
                0 < d,
        ;
        lemma_walk_one(g, seq_len, j, 0);
        lemma_walk_one(g, seq_len, j, 1);
        lemma_walk_one(g, seq_len, j, 2);
        lemma_walk_one(g, seq_len, j, 3);
        lemma_one_chunk(g, seq_len, j, walked(g, seq_len, (1 + 4 * j) as nat));
    }
}

/// A prefill walks the chunks of its sequence in order and leaves, after each
/// of them, the state and the results of the gated delta rule: the corrections
/// of a chunk come from its values, log-decays and betas and from what the
/// incoming state predicts for its normalized keys; its results from that
/// state's answers to the normalized and scaled queries; and the next state
/// from the corrections along the keys.
pub proof fn law_prefill_advances_chunk_by_chunk(g: GdnChunkedGeometry, seq_len: int, i: nat)
    requires
        g.supported(),
        int_sized(g, seq_len),
        0 < seq_len,
        i <= g.chunks(seq_len),
    ensures
        walked(g, seq_len, (1 + 4 * i) as nat)[GdnChunkedArg::State] == prefilled(g, seq_len, i).0,
        walked(g, seq_len, (1 + 4 * i) as nat)[GdnChunkedArg::Output] == prefilled(
            g,
            seq_len,
            i,
        ).1,
        g.chunks(seq_len) * g.chunk_len >= seq_len,
        i < g.chunks(seq_len) ==> i * g.chunk_len < seq_len,
{
    lemma_walk(g, seq_len, i);
    let d = g.chunk_len as int;
    launch::lemma_ceil_div_covers(seq_len, d);
    let q = g.chunks(seq_len);
    if i < q {
        assert(i * d < seq_len) by (nonlinear_arith)
            requires
                i + 1 <= q,
                q * d < seq_len + d,
                0 < d,
        ;
    }
}

/// The scan advances the state over the whole sequence on the normalized keys
/// and the normalized and scaled queries, and leaves every result.
pub proof fn law_scan_advances_over_the_sequence(g: GdnChunkedGeometry, seq_len: int)
    requires
        g.supported(),
        int_sized(g, seq_len),
        0 < seq_len,
        g.head_dim <= 32 * SCAN_MAXR,
    ensures
        ({
            let start: ChunkMemory = given();
            let m = launched(g.scan_launch(seq_len), launched(g.normalize_launch(seq_len), start));
            let inputs = seq![
                start[GdnChunkedArg::State],
                queries(g),
                keys(g),
                start[GdnChunkedArg::Value],
                start[GdnChunkedArg::LogDecay],
                start[GdnChunkedArg::Beta],
            ];
            let extents = seq![
                g.head_dim as int,
                g.value_heads as int,
                g.qk_heads as int,
                seq_len,
            ];
            &&& m[GdnChunkedArg::State] == of(ChunkOp::Scanned, inputs, extents)
            &&& m[GdnChunkedArg::Output] == of(ChunkOp::ScannedOutput, inputs, extents)
        }),
{
    lemma_kernel_names();
}

/// A launch has the shape its entry point indexes by, for the extents it
/// carries.
pub open spec fn well_shaped(
    g: GdnChunkedGeometry,
    seq_len: int,
    l: launch::LaunchView<GdnChunkedArg>,
) -> bool {
    let (x, y, z) = (
        l.config.grid_dim.0 as int,
        l.config.grid_dim.1 as int,
        l.config.grid_dim.2 as int,
    );
    let (threads, lanes) = (l.config.block_dim.0 as int, l.config.block_dim.1 as int);
    let shared = l.config.shared_mem_bytes as int;
    let (dim, heads, qk) = (g.head_dim as int, g.value_heads as int, g.qk_heads as int);
    &&& l.config.block_dim.2 == 1
    &&& match kernel_of(l.kernel) {
        // A block per token and query/key head, a thread per element, a word
        // per warp.
        ChunkKernel::Normalize => x == seq_len * qk && y == 1 && z == 1 && threads == dim && lanes
            == 1 && shared * 8 == dim,
        // A warp per value index of every head, four to a block.
        ChunkKernel::Scan => x == heads && cover(y, 4, dim) && z == 1 && threads == 32 && lanes
            == 4 && shared == 0,
        // A block per token and query/key head, a thread per source token, a
        // key and a query.
        ChunkKernel::Gram => x == int_at(l.args, 7) && y == qk && z == 1 && threads == int_at(
            l.args,
            7,
        ) && lanes == 1 && shared == 2 * dim * 4,
        // A block per sixteen tokens and value head, a thread per value index,
        // their keys and queries.
        ChunkKernel::Inter => cover(x, 16, int_at(l.args, 8)) && y == heads && z == 1 && threads
            == dim && lanes == 1 && shared == 2 * 16 * dim * 4,
        // A block per value head and 32 value indices, eight token lanes: the
        // corrections, the running decays and a decay row per lane.
        ChunkKernel::Solve => x == heads && y * 32 == dim && z == 1 && threads == 32 * 8 && lanes
            == 1 && shared == (32 + 1 + 8) * int_at(l.args, 15) * 4,
        // A block per value head, 32 value indices and 128 columns: the
        // corrections of the band.
        ChunkKernel::Update => x == heads && y * 32 == dim && cover(z, 128, dim) && threads == 8
            * 32 && lanes == 1 && shared == 32 * int_at(l.args, 7) * 4,
    }
}

/// Every launch of a prefill and of a scan has the shape its entry point
/// indexes by.
pub proof fn law_prefill_launches_are_well_shaped(g: GdnChunkedGeometry, seq_len: int, i: int)
    requires
        g.supported(),
        int_sized(g, seq_len),
        0 < seq_len,
        seq_len * g.qk_heads <= u32::MAX,
        0 <= i < g.chunks(seq_len),
    ensures
        well_shaped(g, seq_len, g.normalize_launch(seq_len)),
        well_shaped(g, seq_len, g.scan_launch(seq_len)),
        well_shaped(g, seq_len, g.chunk_launch(seq_len, i, 0)),
        well_shaped(g, seq_len, g.chunk_launch(seq_len, i, 1)),
        well_shaped(g, seq_len, g.chunk_launch(seq_len, i, 2)),
        well_shaped(g, seq_len, g.chunk_launch(seq_len, i, 3)),
        seq![0int, 1, 2, 3].map_values(|j: int| kernel_of(g.chunk_launch(seq_len, i, j).kernel))
            == seq![ChunkKernel::Gram, ChunkKernel::Inter, ChunkKernel::Solve, ChunkKernel::Update],
        kernel_of(g.normalize_launch(seq_len).kernel) == ChunkKernel::Normalize,
        kernel_of(g.scan_launch(seq_len).kernel) == ChunkKernel::Scan,
{
    lemma_kernel_names();
    gdn_chunked::law_chunks_fit_shared_memory(g, seq_len, i);
    let c = g.chunk_tokens(seq_len, i);
    let dim = g.head_dim as int;
    let b = dim / 32;
    assert(dim == 32 * b);
    assert(launch::ceil_div(32 * b, 32) == b);
    launch::lemma_ceil_div_covers(dim, 4);
    launch::lemma_ceil_div_covers(dim, 128);
    launch::lemma_ceil_div_covers(c, 16);
    assert(2 * INTER_TT * g.head_dim * 4 == 2 * 16 * dim * 4) by (nonlinear_arith)
        requires
            INTER_TT == 16,
            dim == g.head_dim,
    ;
    assert((32 + 1 + 8) * c * 4 == gdn_chunked::solve_shared(c)) by (nonlinear_arith)
        requires
            gdn_chunked::solve_shared(c) == (c * 32 + c + 8 * c) * 4,
    ;
    assert(0 <= seq_len * g.qk_heads) by (nonlinear_arith)
        requires
            0 < seq_len,
    ;
    assert(0 <= i * g.chunk_len) by (nonlinear_arith)
        requires
            0 <= i,
    ;
    let kinds = seq![0int, 1, 2, 3].map_values(
        |j: int| kernel_of(g.chunk_launch(seq_len, i, j).kernel),
    );
    assert(kinds =~= seq![
        ChunkKernel::Gram,
        ChunkKernel::Inter,
        ChunkKernel::Solve,
        ChunkKernel::Update,
    ]);
}

/// The state and every scratch buffer end with the last element of the last
/// head: squares of a head, the normalized rows of a sequence, the Gram matrices
/// of a chunk, and a chunk's rows of a head.
pub proof fn law_buffers_end_with_their_last_element(g: GdnChunkedGeometry, n: int)
    ensures
        ({
            let (v, q, d) = (g.value_heads as int, g.qk_heads as int, g.head_dim as int);
            let c = g.chunk_len as int;
            &&& launch::at3(v - 1, d - 1, d - 1, d, d) + 1 == g.state_elements()
            &&& launch::at3(n - 1, q - 1, d - 1, q, d) + 1 == g.qk_elements(n)
            &&& launch::at3(q - 1, c - 1, c - 1, c, c) + 1 == g.gram_elements()
            &&& launch::at3(v - 1, c - 1, d - 1, c, d) + 1 == g.inter_elements()
        }),
{
    let (v, q, d) = (g.value_heads as int, g.qk_heads as int, g.head_dim as int);
    let c = g.chunk_len as int;
    launch::lemma_at3_last(v, d, d);
    launch::lemma_at3_last(n, q, d);
    launch::lemma_at3_last(q, c, c);
    launch::lemma_at3_last(v, c, d);
}

} // verus!
