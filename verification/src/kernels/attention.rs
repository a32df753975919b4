//! Gated attention: the query/gate split, partial rotary embedding, causal
//! grouped-query attention over a key window, and the cache append.
//!
//! The packed query projection emits, per token, `[q_h0, gate_h0, q_h1,
//! gate_h1, ...]`: a per-head stride of two head dimensions with the query
//! first. Positions live in a one-element device buffer, so nothing here
//! depends on where in the sequence a call stands.

use crate::kernels::ptx::{compile_family, PtxCache};
use crate::launch::{div_ceil, Launch, LaunchConfig};
use crate::source::attention::ATTENTION_SRC;
use crate::text::push_decimal;
use crate::kernels::ptx;
use crate::text;
use crate::launch;
use vstd::prelude::*;
use vstd::string::StringExecFns;

verus! {

/// Keys one warp scores between barriers in the flash kernel.
pub const KEYS_PER_WARP: usize = 4;

/// Threads per block of the cache append.
pub const APPEND_THREADS: u32 = 256;

/// Offset of query head `head`'s slice within one token's packed row.
///
/// The row is `[q_h0, gate_h0, q_h1, gate_h1, ...]`, so the per-head stride is
/// `2 * head_dim` and the query is the first slice of each pair.
pub fn attn_packed_query_offset(head: usize, head_dim: usize) -> (offset: usize)
    requires
        2 * head <= usize::MAX,
        2 * head * head_dim <= usize::MAX,
    ensures
        offset == packed_query_offset(head as int, head_dim as int),
{
    2 * head * head_dim
}

/// Offset of query head `head`'s output gate slice within one token's packed
/// row. See [`attn_packed_query_offset`].
pub fn attn_packed_gate_offset(head: usize, head_dim: usize) -> (offset: usize)
    requires
        2 * head + 1 <= usize::MAX,
        (2 * head + 1) * head_dim <= usize::MAX,
    ensures
        offset == packed_gate_offset(head as int, head_dim as int),
{
    (2 * head + 1) * head_dim
}

/// Where query head `head` starts in a packed row.
pub open spec fn packed_query_offset(head: int, head_dim: int) -> int {
    2 * head * head_dim
}

/// Where query head `head`'s gate starts in a packed row.
pub open spec fn packed_gate_offset(head: int, head_dim: int) -> int {
    (2 * head + 1) * head_dim
}

/// Something the attention family refuses.
#[derive(Debug)]
pub enum AttentionError {
    /// The source was rejected.
    Compile(String),
    /// A head dimension the kernels cannot service.
    ///
    /// One thread per head dimension, reduced with warp shuffles, so it must
    /// be a whole number of warps and fit in one block.
    UnsupportedHeadDim { head_dim: usize },
    /// Query heads are not a whole multiple of KV heads.
    UnevenGqaGrouping { q_heads: usize, kv_heads: usize },
    /// `rope_dim` is odd or wider than `head_dim`.
    UnsupportedRopeDim { rope_dim: usize, head_dim: usize },
    /// A buffer is not the size the declared geometry implies.
    ///
    /// For key and value buffers, `expected` is a lower bound: a cache is
    /// allowed to be longer than its filled window.
    BufferShape { what: &'static str, expected: usize, actual: usize },
    /// The query rows would run past the end of the key window.
    ///
    /// Query row `i` reads keys `[0, key_offset + i]`, so `key_offset +
    /// n_query` must not exceed `n_keys`.
    QueryPastKeys { key_offset: usize, n_query: usize, n_keys: usize },
}

impl AttentionError {
    /// The text of the message.
    pub open spec fn text(self) -> Seq<char> {
        match self {
            AttentionError::Compile(m) => "kernel compilation failed: "@ + m@,
            AttentionError::UnsupportedHeadDim { head_dim } => "head_dim "@ + text::decimal(
                head_dim as nat,
            ) + " must be a positive multiple of 32 and at most 1024"@,
            AttentionError::UnevenGqaGrouping { q_heads, kv_heads } => text::decimal(q_heads as nat)
                + " query heads do not divide evenly among "@ + text::decimal(kv_heads as nat)
                + " kv heads"@,
            AttentionError::UnsupportedRopeDim { rope_dim, head_dim } => "rope_dim "@ + text::decimal(
                rope_dim as nat,
            ) + " must be even and at most head_dim "@ + text::decimal(head_dim as nat),
            AttentionError::BufferShape { what, expected, actual } => what@ + " holds "@ + text::decimal(
                actual as nat,
            ) + " floats, but this geometry needs "@ + text::decimal(expected as nat),
            AttentionError::QueryPastKeys { key_offset, n_query, n_keys } =>
                "query rows at offset "@ + text::decimal(key_offset as nat) + ".."@ + text::decimal(
                    (key_offset + n_query) as nat,
                ) + " run past the "@ + text::decimal(n_keys as nat) + "-key window"@,
        }
    }

    /// The message.
    pub fn message(&self) -> (s: String)
        requires
            *self matches AttentionError::QueryPastKeys { key_offset, n_query, .. } ==> key_offset
                + n_query <= usize::MAX,
        ensures
            s@ == self.text(),
    {
        let mut s = String::new();
        match self {
            AttentionError::Compile(m) => {
                s.append("kernel compilation failed: ");
                s.append(m.as_str());
            },
            AttentionError::UnsupportedHeadDim { head_dim } => {
                s.append("head_dim ");
                push_decimal(&mut s, *head_dim);
                s.append(" must be a positive multiple of 32 and at most 1024");
            },
            AttentionError::UnevenGqaGrouping { q_heads, kv_heads } => {
                push_decimal(&mut s, *q_heads);
                s.append(" query heads do not divide evenly among ");
                push_decimal(&mut s, *kv_heads);
                s.append(" kv heads");
            },
            AttentionError::UnsupportedRopeDim { rope_dim, head_dim } => {
                s.append("rope_dim ");
                push_decimal(&mut s, *rope_dim);
                s.append(" must be even and at most head_dim ");
                push_decimal(&mut s, *head_dim);
            },
            AttentionError::BufferShape { what, expected, actual } => {
                s.append(what);
                s.append(" holds ");
                push_decimal(&mut s, *actual);
                s.append(" floats, but this geometry needs ");
                push_decimal(&mut s, *expected);
            },
            AttentionError::QueryPastKeys { key_offset, n_query, n_keys } => {
                s.append("query rows at offset ");
                push_decimal(&mut s, *key_offset);
                s.append("..");
                push_decimal(&mut s, *key_offset + *n_query);
                s.append(" run past the ");
                push_decimal(&mut s, *n_keys);
                s.append("-key window");
            },
        }
        s
    }
}

/// An argument of an attention kernel.
#[derive(Debug, Clone, Copy, PartialEq, Eq)]
pub enum AttentionArg {
    /// The packed query/gate projection.
    Packed,
    /// The query buffer.
    Query,
    /// The output-gate buffer.
    Gate,
    /// The input of the rotary embedding.
    Input,
    /// The buffer the kernel fills.
    Output,
    /// The keys: a batch for the append, the window for attention.
    Key,
    /// The values, as [`AttentionArg::Key`].
    Value,
    /// The key cache.
    KeyCache,
    /// The value cache.
    ValueCache,
    /// The one-element position buffer.
    Positions,
    /// The caller's rotary base.
    ThetaBase,
    /// The score scale, `1 / sqrt(head_dim)`.
    Scale,
    /// An integer by value.
    Int(i32),
}

/// The heads an instance is built for.
#[derive(Debug, Clone, Copy, PartialEq, Eq)]
pub struct AttentionGeometry {
    /// Query heads.
    pub q_heads: usize,
    /// KV heads.
    pub kv_heads: usize,
    /// Elements per head.
    pub head_dim: usize,
}

impl AttentionGeometry {
    /// Why the geometry is refused, if it is: one thread per head dimension
    /// asks for whole warps within one block, and the query heads must share
    /// the KV heads evenly.
    pub open spec fn refusal(self) -> Option<AttentionError> {
        if self.head_dim == 0 || self.head_dim % 32 != 0 || self.head_dim > 1024 {
            Some(AttentionError::UnsupportedHeadDim { head_dim: self.head_dim })
        } else if self.kv_heads == 0 || self.q_heads % self.kv_heads != 0 {
            Some(
                AttentionError::UnevenGqaGrouping {
                    q_heads: self.q_heads,
                    kv_heads: self.kv_heads,
                },
            )
        } else {
            None
        }
    }

    /// A geometry the family serves.
    pub open spec fn supported(self) -> bool {
        self.refusal() is None
    }

    /// Elements of one token's query, over all heads.
    pub open spec fn query_row(self) -> int {
        self.q_heads * self.head_dim
    }

    /// Elements of one position's keys, over all KV heads.
    pub open spec fn key_row(self) -> int {
        self.kv_heads * self.head_dim
    }

    /// Keys scored between two barriers.
    pub open spec fn tile_keys(self) -> int {
        (self.head_dim as int / 32) * KEYS_PER_WARP
    }

    /// Shared bytes of one attention block: the query row, then one score and
    /// one weight per key of a tile.
    pub open spec fn flash_shared(self) -> int {
        (self.head_dim + 2 * self.tile_keys()) * 4
    }

    /// One thread per head dimension, one block per (token, head).
    pub open spec fn head_grid(self, n_tokens: usize, n_heads: usize, shared: u32) -> LaunchConfig {
        LaunchConfig {
            grid_dim: (n_tokens as u32, n_heads as u32, 1),
            block_dim: (self.head_dim as u32, 1, 1),
            shared_mem_bytes: shared,
        }
    }

    /// Which buffer the query/gate split refuses, if any.
    pub open spec fn split_refusal(
        self,
        packed: usize,
        q: usize,
        gate: usize,
        n_tokens: usize,
    ) -> Option<AttentionError> {
        let n = n_tokens * self.query_row();
        if packed != n * 2 {
            Some(shape("packed query/gate", n * 2, packed))
        } else if q != n {
            Some(shape("query", n, q))
        } else if gate != n {
            Some(shape("gate", n, gate))
        } else {
            None
        }
    }

    /// What the rotary embedding refuses, if anything.
    pub open spec fn rope_refusal(
        self,
        input: usize,
        out: usize,
        n_tokens: usize,
        n_heads: usize,
        rope_dim: usize,
        positions: usize,
    ) -> Option<AttentionError> {
        let n = n_tokens * n_heads * self.head_dim;
        if positions != 1 {
            Some(shape("rope position", 1, positions))
        } else if rope_dim % 2 != 0 || rope_dim > self.head_dim {
            Some(AttentionError::UnsupportedRopeDim { rope_dim, head_dim: self.head_dim })
        } else if input != n {
            Some(shape("rope input", n, input))
        } else if out != n {
            Some(shape("rope output", n, out))
        } else {
            None
        }
    }

    /// Which buffer attention refuses, if any. Keys and values may be longer
    /// than the window, never shorter.
    pub open spec fn forward_refusal(
        self,
        q: usize,
        k: usize,
        v: usize,
        out: usize,
        n_query: usize,
        max_keys: usize,
        positions: usize,
    ) -> Option<AttentionError> {
        let q_elems = n_query * self.q_heads * self.head_dim;
        let kv_elems = max_keys * self.kv_heads * self.head_dim;
        if positions != 1 {
            Some(shape("attention position", 1, positions))
        } else if q != q_elems {
            Some(shape("query", q_elems, q))
        } else if k < kv_elems {
            Some(shape("key", kv_elems, k))
        } else if v < kv_elems {
            Some(shape("value", kv_elems, v))
        } else if out != q_elems {
            Some(shape("output", q_elems, out))
        } else {
            None
        }
    }

    /// Which buffer the cache append refuses, if any.
    pub open spec fn append_refusal(
        self,
        key: usize,
        value: usize,
        k_cache: usize,
        v_cache: usize,
        n_tokens: usize,
        max_keys: usize,
        positions: usize,
    ) -> Option<AttentionError> {
        let span = n_tokens * self.key_row();
        let cache = max_keys * self.key_row();
        if positions != 1 {
            Some(shape("append position", 1, positions))
        } else if key != span {
            Some(shape("append key", span, key))
        } else if value != span {
            Some(shape("append value", span, value))
        } else if k_cache < cache {
            Some(shape("append key cache", cache, k_cache))
        } else if v_cache < cache {
            Some(shape("append value cache", cache, v_cache))
        } else {
            None
        }
    }
}

/// The split of queries and gates.
pub open spec fn split_launch(
    g: AttentionGeometry,
    n_tokens: usize,
) -> launch::LaunchView<AttentionArg> {
    launch::LaunchView {
        kernel: "attn_split_query_gate"@,
        config: g.head_grid(n_tokens, g.q_heads, 0),
        args: seq![
            AttentionArg::Packed,
            AttentionArg::Query,
            AttentionArg::Gate,
            AttentionArg::Int(g.q_heads as i32),
            AttentionArg::Int(g.head_dim as i32),
        ],
    }
}

/// The rotary embedding.
pub open spec fn rope_launch(
    g: AttentionGeometry,
    n_tokens: usize,
    n_heads: usize,
    rope_dim: usize,
) -> launch::LaunchView<AttentionArg> {
    launch::LaunchView {
        kernel: "attn_rope_partial_neox"@,
        config: g.head_grid(n_tokens, n_heads, 0),
        args: seq![
            AttentionArg::Input,
            AttentionArg::Output,
            AttentionArg::Int(n_heads as i32),
            AttentionArg::Int(g.head_dim as i32),
            AttentionArg::Int(rope_dim as i32),
            AttentionArg::Positions,
            AttentionArg::ThetaBase,
        ],
    }
}

/// The attention itself.
pub open spec fn flash_launch(
    g: AttentionGeometry,
    n_query: usize,
) -> launch::LaunchView<AttentionArg> {
    launch::LaunchView {
        kernel: "attn_flash_causal"@,
        config: g.head_grid(n_query, g.q_heads, g.flash_shared() as u32),
        args: seq![
            AttentionArg::Query,
            AttentionArg::Key,
            AttentionArg::Value,
            AttentionArg::Output,
            AttentionArg::Int(g.q_heads as i32),
            AttentionArg::Int(g.kv_heads as i32),
            AttentionArg::Int(g.head_dim as i32),
            AttentionArg::Positions,
            AttentionArg::Scale,
        ],
    }
}

/// The append to the caches.
pub open spec fn append_launch(
    g: AttentionGeometry,
    n_tokens: usize,
) -> launch::LaunchView<AttentionArg> {
    launch::LaunchView {
        kernel: "attn_kv_append"@,
        config: append_config(n_tokens * g.key_row()),
        args: seq![
            AttentionArg::Key,
            AttentionArg::Value,
            AttentionArg::KeyCache,
            AttentionArg::ValueCache,
            AttentionArg::Positions,
            AttentionArg::Int((n_tokens * g.key_row()) as i32),
            AttentionArg::Int(g.key_row() as i32),
        ],
    }
}

/// A buffer of the wrong length.
pub open spec fn shape(what: &'static str, expected: int, actual: usize) -> AttentionError {
    AttentionError::BufferShape { what, expected: expected as usize, actual }
}

/// The attention kernels for one head geometry.
pub struct AttentionKernels {
    ptx: String,
    heads: AttentionGeometry,
}

impl View for AttentionKernels {
    type V = AttentionGeometry;

    closed spec fn view(&self) -> AttentionGeometry {
        self.heads
    }
}

impl AttentionKernels {
    #[verifier::type_invariant]
    spec fn geometry_is_supported(self) -> bool {
        self.heads.supported()
    }

    /// The PTX the entry points are loaded from.
    pub closed spec fn image(self) -> Seq<char> {
        self.ptx@
    }

    /// Validate a head geometry.
    fn validate(heads: AttentionGeometry) -> (r: Result<(), AttentionError>)
        ensures
            match heads.refusal() {
                Some(e) => r == Err::<(), AttentionError>(e),
                None => r is Ok,
            },
    {
        if heads.head_dim == 0 || heads.head_dim % 32 != 0 || heads.head_dim > 1024 {
            return Err(AttentionError::UnsupportedHeadDim { head_dim: heads.head_dim });
        }
        if heads.kv_heads == 0 || heads.q_heads % heads.kv_heads != 0 {
            return Err(
                AttentionError::UnevenGqaGrouping {
                    q_heads: heads.q_heads,
                    kv_heads: heads.kv_heads,
                },
            );
        }
        Ok(())
    }

    /// The kernels of already compiled PTX, for a head geometry.
    pub fn from_ptx(
        ptx: String,
        q_heads: usize,
        kv_heads: usize,
        head_dim: usize,
    ) -> (r: Result<Self, AttentionError>)
        ensures
            match (AttentionGeometry { q_heads, kv_heads, head_dim }).refusal() {
                Some(e) => r == Err::<Self, AttentionError>(e),
                None => {
                    &&& r matches Ok(k)
                    &&& k@ == (AttentionGeometry { q_heads, kv_heads, head_dim })
                    &&& k.image() == ptx@
                },
            },
    {
        let heads = AttentionGeometry { q_heads, kv_heads, head_dim };
        Self::validate(heads)?;
        Ok(AttentionKernels { ptx, heads })
    }

    /// Compile for a specific head geometry.
    ///
    /// The geometry is validated once, here, which leaves the launch functions
    /// with only per-call shapes to refuse. A refused geometry compiles
    /// nothing.
    pub fn new(
        cache: &mut PtxCache,
        q_heads: usize,
        kv_heads: usize,
        head_dim: usize,
    ) -> (r: Result<Self, AttentionError>)
        ensures
            match (AttentionGeometry { q_heads, kv_heads, head_dim }).refusal() {
                Some(e) => {
                    &&& r == Err::<Self, AttentionError>(e)
                    &&& *final(cache) == *old(cache)
                },
                None => {
                    &&& old(cache).entries().contains_key(ATTENTION_SRC@) ==> r is Ok
                    &&& ptx::counted(*old(cache), *final(cache), ATTENTION_SRC@, "attention"@)
                    &&& r matches Ok(k) ==> k@ == (AttentionGeometry {
                        q_heads,
                        kv_heads,
                        head_dim,
                    }) && ptx::obtained(
                        old(cache).entries(),
                        final(cache).entries(),
                        ATTENTION_SRC@,
                        "attention"@,
                        k.image(),
                    )
                    &&& r matches Err(e) ==> {
                        &&& e matches AttentionError::Compile(m) && ptx::rejected(ATTENTION_SRC@, "attention"@, m@)
                        &&& final(cache).entries() == old(cache).entries()
                    }
                },
            },
    {
        Self::validate(AttentionGeometry { q_heads, kv_heads, head_dim })?;
        match compile_family(cache, ATTENTION_SRC, "attention") {
            Ok(ptx) => Self::from_ptx(ptx, q_heads, kv_heads, head_dim),
            Err(m) => Err(AttentionError::Compile(m)),
        }
    }

    /// The PTX to load.
    pub fn ptx(&self) -> (s: &str)
        ensures
            s@ == self.image(),
    {
        self.ptx.as_str()
    }

    /// The entry points to load.
    pub fn entry_points() -> (names: Vec<&'static str>)
        ensures
            names@ == seq![
                "attn_split_query_gate",
                "attn_rope_partial_neox",
                "attn_flash_causal",
                "attn_kv_append",
            ],
    {
        vec![
            "attn_split_query_gate",
            "attn_rope_partial_neox",
            "attn_flash_causal",
            "attn_kv_append",
        ]
    }

    /// Query heads sharing each KV head.
    pub fn gqa_ratio(&self) -> (n: usize)
        ensures
            n == self@.q_heads as int / self@.kv_heads as int,
            n * self@.kv_heads == self@.q_heads,
    {
        proof {
            use_type_invariant(self);
            launch::lemma_whole_quotient(self.heads.q_heads as int, self.heads.kv_heads as int);
        }
        self.heads.q_heads / self.heads.kv_heads
    }

    /// Keys scored per tile: [`KEYS_PER_WARP`] for each warp of the block.
    pub fn keys_per_tile(&self) -> (n: usize)
        ensures
            n == self@.tile_keys(),
    {
        proof {
            use_type_invariant(self);
        }
        (self.heads.head_dim / 32) * KEYS_PER_WARP
    }

    /// Dynamic shared memory one attention block requests: the query row plus
    /// the two tile-wide scratch arrays.
    pub fn shared_bytes(&self) -> (n: usize)
        ensures
            n == self@.flash_shared(),
    {
        proof {
            use_type_invariant(self);
        }
        (self.heads.head_dim + 2 * self.keys_per_tile()) * 4
    }

    /// An exact buffer length.
    pub fn expect_len(what: &'static str, buf_len: usize, expected: usize) -> (r: Result<
        (),
        AttentionError,
    >)
        ensures
            buf_len == expected ==> r is Ok,
            buf_len != expected ==> r == Err::<(), AttentionError>(
                shape(what, expected as int, buf_len),
            ),
    {
        if buf_len != expected {
            return Err(AttentionError::BufferShape { what, expected, actual: buf_len });
        }
        Ok(())
    }

    /// A minimal buffer length, for the buffers a cache is allowed to
    /// over-allocate.
    pub fn expect_at_least(what: &'static str, buf_len: usize, needed: usize) -> (r: Result<
        (),
        AttentionError,
    >)
        ensures
            buf_len >= needed ==> r is Ok,
            buf_len < needed ==> r == Err::<(), AttentionError>(
                shape(what, needed as int, buf_len),
            ),
    {
        if buf_len < needed {
            return Err(AttentionError::BufferShape { what, expected: needed, actual: buf_len });
        }
        Ok(())
    }

    /// Deinterleave the packed projection into a query and a gate tensor.
    ///
    /// `packed` is `[n_tokens][q_heads * 2 * head_dim]`; `q` and `gate` are
    /// each `[n_tokens][q_heads][head_dim]`. All three are buffer lengths.
    pub fn split_query_and_gate(
        &self,
        packed: usize,
        q: usize,
        gate: usize,
        n_tokens: usize,
    ) -> (r: Result<Launch<AttentionArg>, AttentionError>)
        requires
            self@.query_row() <= usize::MAX,
            n_tokens * self@.query_row() * 2 <= usize::MAX,
        ensures
            r matches Ok(l) ==> l@ == split_launch(self@, n_tokens),
            match self@.split_refusal(packed, q, gate, n_tokens) {
                Some(e) => r == Err::<Launch<AttentionArg>, AttentionError>(e),
                None => r matches Ok(l) && l.runs(
                    "attn_split_query_gate"@,
                    self@.head_grid(n_tokens, self@.q_heads, 0),
                    seq![
                        AttentionArg::Packed,
                        AttentionArg::Query,
                        AttentionArg::Gate,
                        AttentionArg::Int(self@.q_heads as i32),
                        AttentionArg::Int(self@.head_dim as i32),
                    ],
                ),
            },
    {
        let per_head: usize = self.heads.q_heads * self.heads.head_dim;
        proof {
            assert(0 <= n_tokens * per_head) by (nonlinear_arith);
        }
        Self::expect_len("packed query/gate", packed, n_tokens * per_head * 2)?;
        Self::expect_len("query", q, n_tokens * per_head)?;
        Self::expect_len("gate", gate, n_tokens * per_head)?;
        Ok(
            Launch {
                kernel: "attn_split_query_gate",
                config: LaunchConfig {
                    grid_dim: (n_tokens as u32, self.heads.q_heads as u32, 1),
                    block_dim: (self.heads.head_dim as u32, 1, 1),
                    shared_mem_bytes: 0,
                },
                args: vec![
                    AttentionArg::Packed,
                    AttentionArg::Query,
                    AttentionArg::Gate,
                    AttentionArg::Int(self.heads.q_heads as i32),
                    AttentionArg::Int(self.heads.head_dim as i32),
                ],
            },
        )
    }

    /// Apply partial rotary embedding to `[n_tokens][n_heads][head_dim]`.
    ///
    /// Token `i` is rotated by position `positions[0] + i`. `n_heads` is the
    /// query heads for the query stream and the KV heads for the key stream.
    /// Dimensions `[rope_dim, head_dim)` pass through.
    pub fn rope(
        &self,
        input: usize,
        out: usize,
        n_tokens: usize,
        n_heads: usize,
        rope_dim: usize,
        positions: usize,
    ) -> (r: Result<Launch<AttentionArg>, AttentionError>)
        requires
            positions == 1 && rope_dim % 2 == 0 && rope_dim <= self@.head_dim ==> {
                &&& n_tokens * n_heads <= usize::MAX
                &&& n_tokens * n_heads * self@.head_dim <= usize::MAX
            },
        ensures
            r matches Ok(l) ==> l@ == rope_launch(self@, n_tokens, n_heads, rope_dim),
            match self@.rope_refusal(input, out, n_tokens, n_heads, rope_dim, positions) {
                Some(e) => r == Err::<Launch<AttentionArg>, AttentionError>(e),
                None => r matches Ok(l) && l.runs(
                    "attn_rope_partial_neox"@,
                    self@.head_grid(n_tokens, n_heads, 0),
                    seq![
                        AttentionArg::Input,
                        AttentionArg::Output,
                        AttentionArg::Int(n_heads as i32),
                        AttentionArg::Int(self@.head_dim as i32),
                        AttentionArg::Int(rope_dim as i32),
                        AttentionArg::Positions,
                        AttentionArg::ThetaBase,
                    ],
                ),
            },
    {
        Self::expect_len("rope position", positions, 1)?;
        if rope_dim % 2 != 0 || rope_dim > self.heads.head_dim {
            return Err(
                AttentionError::UnsupportedRopeDim { rope_dim, head_dim: self.heads.head_dim },
            );
        }
        let n: usize = n_tokens * n_heads * self.heads.head_dim;
        Self::expect_len("rope input", input, n)?;
        Self::expect_len("rope output", out, n)?;
        Ok(
            Launch {
                kernel: "attn_rope_partial_neox",
                config: LaunchConfig {
                    grid_dim: (n_tokens as u32, n_heads as u32, 1),
                    block_dim: (self.heads.head_dim as u32, 1, 1),
                    shared_mem_bytes: 0,
                },
                args: vec![
                    AttentionArg::Input,
                    AttentionArg::Output,
                    AttentionArg::Int(n_heads as i32),
                    AttentionArg::Int(self.heads.head_dim as i32),
                    AttentionArg::Int(rope_dim as i32),
                    AttentionArg::Positions,
                    AttentionArg::ThetaBase,
                ],
            },
        )
    }

    /// Causal grouped-query attention over a key window.
    ///
    /// `q` and `out` are `[n_query][q_heads][head_dim]`, `k` and `v` are
    /// `[max_keys][kv_heads][head_dim]` or longer. Query row `i` attends to
    /// keys `[0, positions[0] + i]`. `max_keys` is the capacity of the window;
    /// that the position stays inside it is the caller's promise, since the
    /// position is a value on the device.
    pub fn forward(
        &self,
        q: usize,
        k: usize,
        v: usize,
        out: usize,
        n_query: usize,
        max_keys: usize,
        positions: usize,
    ) -> (r: Result<Launch<AttentionArg>, AttentionError>)
        requires
            positions == 1 ==> {
                &&& n_query * self@.q_heads <= usize::MAX
                &&& n_query * self@.q_heads * self@.head_dim <= usize::MAX
                &&& max_keys * self@.kv_heads <= usize::MAX
                &&& max_keys * self@.kv_heads * self@.head_dim <= usize::MAX
            },
        ensures
            r matches Ok(l) ==> l@ == flash_launch(self@, n_query),
            match self@.forward_refusal(q, k, v, out, n_query, max_keys, positions) {
                Some(e) => r == Err::<Launch<AttentionArg>, AttentionError>(e),
                None => r matches Ok(l) && l.runs(
                    "attn_flash_causal"@,
                    self@.head_grid(n_query, self@.q_heads, self@.flash_shared() as u32),
                    seq![
                        AttentionArg::Query,
                        AttentionArg::Key,
                        AttentionArg::Value,
                        AttentionArg::Output,
                        AttentionArg::Int(self@.q_heads as i32),
                        AttentionArg::Int(self@.kv_heads as i32),
                        AttentionArg::Int(self@.head_dim as i32),
                        AttentionArg::Positions,
                        AttentionArg::Scale,
                    ],
                ),
            },
    {
        Self::expect_len("attention position", positions, 1)?;
        let q_elems: usize = n_query * self.heads.q_heads * self.heads.head_dim;
        let kv_elems: usize = max_keys * self.heads.kv_heads * self.heads.head_dim;
        Self::expect_len("query", q, q_elems)?;
        Self::expect_at_least("key", k, kv_elems)?;
        Self::expect_at_least("value", v, kv_elems)?;
        Self::expect_len("output", out, q_elems)?;
        Ok(
            Launch {
                kernel: "attn_flash_causal",
                config: LaunchConfig {
                    grid_dim: (n_query as u32, self.heads.q_heads as u32, 1),
                    block_dim: (self.heads.head_dim as u32, 1, 1),
                    shared_mem_bytes: self.shared_bytes() as u32,
                },
                args: vec![
                    AttentionArg::Query,
                    AttentionArg::Key,
                    AttentionArg::Value,
                    AttentionArg::Output,
                    AttentionArg::Int(self.heads.q_heads as i32),
                    AttentionArg::Int(self.heads.kv_heads as i32),
                    AttentionArg::Int(self.heads.head_dim as i32),
                    AttentionArg::Positions,
                    AttentionArg::Scale,
                ],
            },
        )
    }

    /// Write this batch's keys and values into the cache at `positions[0]`.
    ///
    /// `key` and `value` are `[n_tokens][kv_heads][head_dim]`; the caches have
    /// the same layout over `max_keys` positions or more.
    pub fn append_kv(
        &self,
        key: usize,
        value: usize,
        k_cache: usize,
        v_cache: usize,
        n_tokens: usize,
        max_keys: usize,
        positions: usize,
    ) -> (r: Result<Launch<AttentionArg>, AttentionError>)
        requires
            positions == 1 ==> self@.key_row() <= usize::MAX && n_tokens * self@.key_row()
                <= usize::MAX,
            positions == 1 && key == n_tokens * self@.key_row() && value == n_tokens
                * self@.key_row() ==> max_keys * self@.key_row() <= usize::MAX,
            self@.append_refusal(key, value, k_cache, v_cache, n_tokens, max_keys, positions)
                is None ==> 2 * (n_tokens * self@.key_row()) <= usize::MAX,
        ensures
            r matches Ok(l) ==> l@ == append_launch(self@, n_tokens),
            match self@.append_refusal(
                key,
                value,
                k_cache,
                v_cache,
                n_tokens,
                max_keys,
                positions,
            ) {
                Some(e) => r == Err::<Launch<AttentionArg>, AttentionError>(e),
                None => r matches Ok(l) && l.runs(
                    "attn_kv_append"@,
                    append_config(n_tokens * self@.key_row()),
                    seq![
                        AttentionArg::Key,
                        AttentionArg::Value,
                        AttentionArg::KeyCache,
                        AttentionArg::ValueCache,
                        AttentionArg::Positions,
                        AttentionArg::Int((n_tokens * self@.key_row()) as i32),
                        AttentionArg::Int(self@.key_row() as i32),
                    ],
                ),
            },
    {
        Self::expect_len("append position", positions, 1)?;
        let row: usize = self.heads.kv_heads * self.heads.head_dim;
        assert(0 <= n_tokens * row) by (nonlinear_arith);
        let span: usize = n_tokens * row;
        Self::expect_len("append key", key, span)?;
        Self::expect_len("append value", value, span)?;
        Self::expect_at_least("append key cache", k_cache, max_keys * row)?;
        Self::expect_at_least("append value cache", v_cache, max_keys * row)?;
        Ok(
            Launch {
                kernel: "attn_kv_append",
                config: LaunchConfig {
                    grid_dim: (div_ceil(2 * span, APPEND_THREADS as usize) as u32, 1, 1),
                    block_dim: (APPEND_THREADS, 1, 1),
                    shared_mem_bytes: 0,
                },
                args: vec![
                    AttentionArg::Key,
                    AttentionArg::Value,
                    AttentionArg::KeyCache,
                    AttentionArg::ValueCache,
                    AttentionArg::Positions,
                    AttentionArg::Int(span as i32),
                    AttentionArg::Int(row as i32),
                ],
            },
        )
    }
}

/// One thread per element of the batch's keys and values together.
pub open spec fn append_config(span: int) -> LaunchConfig {
    LaunchConfig {
        grid_dim: (launch::ceil_div(2 * span, APPEND_THREADS as int) as u32, 1, 1),
        block_dim: (APPEND_THREADS, 1, 1),
        shared_mem_bytes: 0,
    }
}

/// The query and gate slices tile a packed row of `2 * q_heads * head_dim`
/// elements: every element belongs to exactly one head's query or gate.
pub proof fn law_packed_row_is_tiled(q_heads: int, head_dim: int, i: int)
    requires
        0 < head_dim,
        0 <= i < 2 * q_heads * head_dim,
    ensures
        ({
            let h = i / (2 * head_dim);
            &&& 0 <= h < q_heads
            &&& (packed_query_offset(h, head_dim) <= i < packed_query_offset(h, head_dim)
                + head_dim) != (packed_gate_offset(h, head_dim) <= i < packed_gate_offset(
                h,
                head_dim,
            ) + head_dim)
        }),
        forall|h: int|
            h != i / (2 * head_dim) ==> !(#[trigger] packed_query_offset(h, head_dim) <= i
                < packed_query_offset(h, head_dim) + head_dim),
        forall|h: int|
            h != i / (2 * head_dim) ==> !(#[trigger] packed_gate_offset(h, head_dim) <= i
                < packed_gate_offset(h, head_dim) + head_dim),
{
    let d2 = 2 * head_dim;
    let h = i / d2;
    let r = i % d2;
    assert(i == h * d2 + r && 0 <= r < d2) by (nonlinear_arith)
        requires
            h == i / d2,
            r == i % d2,
            0 < d2,
    ;
    assert(0 <= h < q_heads) by (nonlinear_arith)
        requires
            i == h * d2 + r,
            0 <= r < d2,
            0 <= i < 2 * q_heads * head_dim,
            d2 == 2 * head_dim,
            0 < head_dim,
    ;
    assert(2 * h * head_dim == h * d2 && (2 * h + 1) * head_dim == h * d2 + head_dim)
        by (nonlinear_arith)
        requires
            d2 == 2 * head_dim,
    ;
    assert forall|g: int|
        g != h implies !(#[trigger] packed_query_offset(g, head_dim) <= i < packed_query_offset(
        g,
        head_dim,
    ) + head_dim) by {
        assert(!(2 * g * head_dim <= i < 2 * g * head_dim + head_dim)) by (nonlinear_arith)
            requires
                g != h,
                i == h * d2 + r,
                0 <= r < d2,
                d2 == 2 * head_dim,
                0 < head_dim,
        ;
    }
    assert forall|g: int|
        g != h implies !(#[trigger] packed_gate_offset(g, head_dim) <= i < packed_gate_offset(
        g,
        head_dim,
    ) + head_dim) by {
        assert(!((2 * g + 1) * head_dim <= i < (2 * g + 1) * head_dim + head_dim))
            by (nonlinear_arith)
            requires
                g != h,
                i == h * d2 + r,
                0 <= r < d2,
                d2 == 2 * head_dim,
                0 < head_dim,
        ;
    }
}

/// A split into halves, `[all queries | all gates]`, would put query head `h`
/// at `h * head_dim`. The packed offset agrees with that for head 0 alone.
pub proof fn law_packed_layout_is_not_halved(head: int, head_dim: int)
    requires
        0 <= head,
        0 < head_dim,
    ensures
        packed_query_offset(head, head_dim) == head * head_dim <==> head == 0,
{
    assert(2 * head * head_dim == head * head_dim <==> head == 0) by (nonlinear_arith)
        requires
            0 <= head,
            0 < head_dim,
    ;
}

/// Every element the split reads and writes lies inside the buffers it was
/// given, for each thread of its grid.
pub proof fn law_split_stays_in_bounds(
    g: AttentionGeometry,
    packed: usize,
    q: usize,
    gate: usize,
    n_tokens: usize,
    t: int,
    h: int,
    d: int,
)
    requires
        g.supported(),
        g.split_refusal(packed, q, gate, n_tokens) is None,
        0 <= t < n_tokens,
        0 <= h < g.q_heads,
        0 <= d < g.head_dim,
    ensures
        0 <= t * (2 * g.query_row()) + packed_query_offset(h, g.head_dim as int) + d < packed,
        0 <= t * (2 * g.query_row()) + packed_gate_offset(h, g.head_dim as int) + d < packed,
        0 <= launch::at3(t, h, d, g.q_heads as int, g.head_dim as int) < q,
        0 <= launch::at3(t, h, d, g.q_heads as int, g.head_dim as int) < gate,
{
    let (nq, hd, nt) = (g.q_heads as int, g.head_dim as int, n_tokens as int);
    launch::lemma_at3_bound(t, h, d, nt, nq, hd);
    assert(nt * nq * hd == nt * (nq * hd)) by (nonlinear_arith);
    let row = nq * hd;
    assert(0 <= 2 * h * hd + d < 2 * row) by (nonlinear_arith)
        requires
            0 <= h < nq,
            0 <= d < hd,
            row == nq * hd,
    ;
    assert(0 <= (2 * h + 1) * hd + d < 2 * row) by (nonlinear_arith)
        requires
            0 <= h < nq,
            0 <= d < hd,
            row == nq * hd,
    ;
    launch::lemma_at2_bound(t, 2 * h * hd + d, nt, 2 * row);
    launch::lemma_at2_bound(t, (2 * h + 1) * hd + d, nt, 2 * row);
    assert(nt * (2 * row) == nt * row * 2) by (nonlinear_arith);
}

/// Every element the rotary embedding reads and writes lies inside its
/// buffers: the thread's own element, and the partner half a rotary width
/// further for a thread of the first half.
pub proof fn law_rope_stays_in_bounds(
    g: AttentionGeometry,
    input: usize,
    out: usize,
    n_tokens: usize,
    n_heads: usize,
    rope_dim: usize,
    positions: usize,
    t: int,
    h: int,
    d: int,
)
    requires
        g.rope_refusal(input, out, n_tokens, n_heads, rope_dim, positions) is None,
        0 <= t < n_tokens,
        0 <= h < n_heads,
        0 <= d < g.head_dim,
    ensures
        0 <= launch::at3(t, h, d, n_heads as int, g.head_dim as int) < input,
        input == out,
        d < rope_dim as int / 2 ==> 0 <= launch::at3(
            t,
            h,
            d + rope_dim as int / 2,
            n_heads as int,
            g.head_dim as int,
        ) < input,
{
    launch::lemma_at3_bound(
        t,
        h,
        d,
        n_tokens as int,
        n_heads as int,
        g.head_dim as int,
    );
    if d < rope_dim as int / 2 {
        launch::lemma_at3_bound(
            t,
            h,
            d + rope_dim as int / 2,
            n_tokens as int,
            n_heads as int,
            g.head_dim as int,
        );
    }
}

/// Every query head reads an existing KV head, and the heads that share one
/// are consecutive: head `h` reads head `h / ratio`.
pub proof fn law_gqa_head_exists(g: AttentionGeometry, h: int)
    requires
        g.supported(),
        0 <= h < g.q_heads,
    ensures
        ({
            let ratio = g.q_heads as int / g.kv_heads as int;
            &&& ratio > 0
            &&& g.q_heads == ratio * g.kv_heads
            &&& 0 <= h / ratio < g.kv_heads
        }),
{
    let (nq, nkv) = (g.q_heads as int, g.kv_heads as int);
    let ratio = nq / nkv;
    assert(nq == ratio * nkv) by (nonlinear_arith)
        requires
            ratio == nq / nkv,
            nq % nkv == 0,
            0 < nkv,
    ;
    assert(ratio > 0) by (nonlinear_arith)
        requires
            nq == ratio * nkv,
            0 < nq,
            0 < nkv,
    ;
    assert(0 <= h / ratio < nkv) by (nonlinear_arith)
        requires
            nq == ratio * nkv,
            0 <= h < nq,
            0 < ratio,
    ;
}

/// Attention stays inside its buffers for every position that keeps the query
/// rows inside the window: the query and output element of each thread, and
/// every visible key and value, `key <= position + row`.
pub proof fn law_forward_stays_in_bounds(
    g: AttentionGeometry,
    q: usize,
    k: usize,
    v: usize,
    out: usize,
    n_query: usize,
    max_keys: usize,
    positions: usize,
    position: int,
    qi: int,
    h: int,
    d: int,
    key: int,
)
    requires
        g.supported(),
        g.forward_refusal(q, k, v, out, n_query, max_keys, positions) is None,
        0 <= position,
        position + n_query <= max_keys,
        0 <= qi < n_query,
        0 <= h < g.q_heads,
        0 <= d < g.head_dim,
        0 <= key <= position + qi,
    ensures
        0 <= launch::at3(qi, h, d, g.q_heads as int, g.head_dim as int) < q,
        q == out,
        ({
            let kvh = h / (g.q_heads as int / g.kv_heads as int);
            let at = launch::at3(key, kvh, d, g.kv_heads as int, g.head_dim as int);
            0 <= at < k && at < v
        }),
{
    law_gqa_head_exists(g, h);
    launch::lemma_at3_bound(
        qi,
        h,
        d,
        n_query as int,
        g.q_heads as int,
        g.head_dim as int,
    );
    let kvh = h / (g.q_heads as int / g.kv_heads as int);
    launch::lemma_at3_bound(
        key,
        kvh,
        d,
        max_keys as int,
        g.kv_heads as int,
        g.head_dim as int,
    );
}

/// The shared memory of an attention block holds what the block indexes: the
/// query row, then a score and a weight for each of the `warps *
/// KEYS_PER_WARP` keys of a tile. It is far below the 48 KiB a block may
/// request.
pub proof fn law_flash_shared_memory_suffices(g: AttentionGeometry, warp: int, r: int)
    requires
        g.supported(),
        0 <= warp < g.head_dim as int / 32,
        0 <= r < KEYS_PER_WARP,
    ensures
        ({
            let slot = warp * KEYS_PER_WARP + r;
            &&& 0 <= slot < g.tile_keys()
            &&& (g.head_dim + g.tile_keys() + slot + 1) * 4 <= g.flash_shared()
        }),
        g.flash_shared() <= 5120,
{
}

/// Every thread of the append writes inside the caches for every position that
/// keeps the batch inside the window, and the grid has a thread for each of
/// the `2 * span` elements: keys below `span`, values above.
pub proof fn law_append_stays_in_bounds(
    g: AttentionGeometry,
    key: usize,
    value: usize,
    k_cache: usize,
    v_cache: usize,
    n_tokens: usize,
    max_keys: usize,
    positions: usize,
    position: int,
    i: int,
)
    requires
        g.append_refusal(key, value, k_cache, v_cache, n_tokens, max_keys, positions) is None,
        0 <= position,
        position + n_tokens <= max_keys,
        0 <= i < n_tokens * g.key_row(),
    ensures
        i < key,
        i < value,
        0 <= position * g.key_row() + i < k_cache,
        position * g.key_row() + i < v_cache,
        ({
            let span = n_tokens * g.key_row();
            let blocks = launch::ceil_div(2 * span, APPEND_THREADS as int);
            i / (APPEND_THREADS as int) < blocks && (span + i) / (APPEND_THREADS as int) < blocks
        }),
{
    let row = g.key_row();
    let nt = n_tokens as int;
    let mk = max_keys as int;
    assert(row >= 0) by (nonlinear_arith)
        requires
            row == g.kv_heads * g.head_dim,
    ;
    assert(0 <= position * row + i < mk * row) by (nonlinear_arith)
        requires
            0 <= position,
            position + nt <= mk,
            0 <= i < nt * row,
            0 <= row,
    ;
    launch::law_flat_grid_covers_once(2 * (nt * row), APPEND_THREADS as int, i);
    launch::law_flat_grid_covers_once(2 * (nt * row), APPEND_THREADS as int, nt * row + i);
}

} // verus!
