//! The gated delta rule over a whole sequence: the chunked-parallel prefill
//! and the sequential scan.
//!
//! Value head `h` reads query/key head `h % qk_heads`. The chunked form walks
//! the sequence in chunks that depend on each other through the state: Gram
//! matrices, products against the incoming state, the triangular solve, and
//! the state update, once per chunk.

use crate::kernels::ptx;
use crate::kernels::ptx::{compile_family, PtxCache};
use crate::launch;
use crate::launch::{div_ceil, div_ceil_u32, min_usize, Launch, LaunchConfig};
use crate::source::gdn_chunked::GDN_CHUNKED_SRC;
use crate::text;
use crate::text::push_decimal;
use vstd::arithmetic::div_mod::lemma_fundamental_div_mod_converse;
use vstd::prelude::*;
use vstd::string::StringExecFns;

verus! {

/// Shared memory a block gets without the opt-in carve-out.
pub const MAX_SHARED_BYTES: usize = 49_152;

/// Tokens one block of the state products carries.
pub const INTER_TT: u32 = 16;

/// Value indices one solve block owns.
pub const SOLVE_VB: u32 = 32;

/// Token positions the solve's output section computes side by side.
pub const SOLVE_TT: u32 = 8;

/// Warps in a scan block, each owning one value index.
pub const SCAN_WARPS: u32 = 4;

/// Head dimensions one scan lane carries, at most.
pub const SCAN_MAXR: usize = 4;

/// Value indices one state-update thread owns.
pub const STATE_VT: u32 = 4;

/// State columns one state-update thread owns.
pub const STATE_JT: u32 = 4;

/// Threads spanning a state-update block's value band.
pub const STATE_VLANES: u32 = 8;

/// Threads spanning a state-update block's column band.
pub const STATE_JLANES: u32 = 32;

/// Value indices one state-update block owns.
pub const STATE_VB: u32 = 32;

/// State columns one state-update block owns.
pub const STATE_JB: u32 = 128;

/// Something the chunked family refuses.
#[derive(Debug)]
pub enum GdnChunkedError {
    /// The source was rejected.
    Compile(String),
    /// A head dimension the kernels cannot service.
    UnsupportedHeadDim { head_dim: usize },
    /// Value heads are not a whole multiple of query/key heads.
    UnevenHeadGrouping { value_heads: usize, qk_heads: usize },
    /// A chunk length the kernels cannot service.
    UnsupportedChunkLen { chunk_len: usize },
    /// The solve does not fit in a block's shared memory.
    SharedMemoryExceeded { needed: usize, available: usize },
    /// The sequence is longer than the scratch buffers were sized for.
    SequenceTooLong { seq_len: usize, capacity: usize },
}

impl GdnChunkedError {
    /// The text of the message.
    pub open spec fn text(self) -> Seq<char> {
        match self {
            GdnChunkedError::Compile(m) => "kernel compilation failed: "@ + m@,
            GdnChunkedError::UnsupportedHeadDim { head_dim } => "head_dim "@ + text::decimal(
                head_dim as nat,
            ) + " must be a positive multiple of 32 and at most 1024"@,
            GdnChunkedError::UnevenHeadGrouping { value_heads, qk_heads } => text::decimal(
                value_heads as nat,
            ) + " value heads do not divide evenly among "@ + text::decimal(qk_heads as nat)
                + " query/key heads"@,
            GdnChunkedError::UnsupportedChunkLen { chunk_len } => "chunk_len "@ + text::decimal(
                chunk_len as nat,
            )
                + " must be non-zero and at most 1024 (it is the block width of the Gram kernel)"@,
            GdnChunkedError::SharedMemoryExceeded { needed, available } => "the chunk needs "@
                + text::decimal(needed as nat) + " bytes of shared memory per block, "@
                + text::decimal(available as nat) + " available"@,
            GdnChunkedError::SequenceTooLong { seq_len, capacity } => "sequence of "@
                + text::decimal(seq_len as nat) + " tokens exceeds the scratch capacity of "@
                + text::decimal(capacity as nat),
        }
    }

    /// The message.
    pub fn message(&self) -> (s: String)
        ensures
            s@ == self.text(),
    {
        let mut s = String::new();
        match self {
            GdnChunkedError::Compile(m) => {
                s.append("kernel compilation failed: ");
                s.append(m.as_str());
            },
            GdnChunkedError::UnsupportedHeadDim { head_dim } => {
                s.append("head_dim ");
                push_decimal(&mut s, *head_dim);
                s.append(" must be a positive multiple of 32 and at most 1024");
            },
            GdnChunkedError::UnevenHeadGrouping { value_heads, qk_heads } => {
                push_decimal(&mut s, *value_heads);
                s.append(" value heads do not divide evenly among ");
                push_decimal(&mut s, *qk_heads);
                s.append(" query/key heads");
            },
            GdnChunkedError::UnsupportedChunkLen { chunk_len } => {
                s.append("chunk_len ");
                push_decimal(&mut s, *chunk_len);
                s.append(
                    " must be non-zero and at most 1024 (it is the block width of the Gram kernel)",
                );
            },
            GdnChunkedError::SharedMemoryExceeded { needed, available } => {
                s.append("the chunk needs ");
                push_decimal(&mut s, *needed);
                s.append(" bytes of shared memory per block, ");
                push_decimal(&mut s, *available);
                s.append(" available");
            },
            GdnChunkedError::SequenceTooLong { seq_len, capacity } => {
                s.append("sequence of ");
                push_decimal(&mut s, *seq_len);
                s.append(" tokens exceeds the scratch capacity of ");
                push_decimal(&mut s, *capacity);
            },
        }
        s
    }
}

/// An argument of a chunked kernel.
#[derive(Debug, Clone, Copy, PartialEq, Eq)]
pub enum GdnChunkedArg {
    /// The recurrent state, `[value_heads][head_dim][head_dim]`.
    State,
    /// The raw queries, `[seq_len][qk_heads][head_dim]`.
    Query,
    /// The raw keys, as the queries.
    Key,
    /// The values, `[seq_len][value_heads][head_dim]`.
    Value,
    /// The log decays, `[seq_len][value_heads]`.
    LogDecay,
    /// The gates, `[seq_len][value_heads]`.
    Beta,
    /// The result, as the values.
    Output,
    /// Scratch: the normalized, scaled queries.
    QNorm,
    /// Scratch: the normalized keys.
    KNorm,
    /// Scratch: the key-key Gram matrices.
    Kk,
    /// Scratch: the key-query Gram matrices.
    Kq,
    /// Scratch: what the incoming state predicts.
    Sik,
    /// Scratch: the inter-chunk output.
    Oint,
    /// Scratch: the solved corrections.
    Uprime,
    /// Scratch: the chunk-end decay per head.
    LambdaLast,
    /// The floor of the L2 norm.
    Eps,
    /// The output scale, `1 / sqrt(head_dim)`.
    Scale,
    /// An integer by value.
    Int(i32),
}

/// The heads and the chunk length an instance is built for.
#[derive(Debug, Clone, Copy, PartialEq, Eq)]
pub struct GdnChunkedGeometry {
    /// Elements per head.
    pub head_dim: usize,
    /// Value heads.
    pub value_heads: usize,
    /// Query/key heads.
    pub qk_heads: usize,
    /// Tokens per triangular solve.
    pub chunk_len: usize,
}

/// Shared bytes of the solve for a chunk of `c` tokens: the band's corrections,
/// the cumulative log-decays, and one decay row per token lane.
pub open spec fn solve_shared(c: int) -> int {
    (c * SOLVE_VB + c + SOLVE_TT * c) * 4
}

/// Shared memory the solve kernel needs for a chunk of `c` tokens.
pub fn shared_bytes_for_solve(c: usize) -> (n: usize)
    requires
        solve_shared(c as int) <= usize::MAX,
    ensures
        n == solve_shared(c as int),
{
    (c * SOLVE_VB as usize + c + SOLVE_TT as usize * c) * 4
}

impl GdnChunkedGeometry {
    /// Why the geometry is refused, if it is.
    pub open spec fn refusal(self) -> Option<GdnChunkedError> {
        if self.head_dim == 0 || self.head_dim % 32 != 0 || self.head_dim > 1024 {
            Some(GdnChunkedError::UnsupportedHeadDim { head_dim: self.head_dim })
        } else if self.qk_heads == 0 || self.value_heads % self.qk_heads != 0 {
            Some(
                GdnChunkedError::UnevenHeadGrouping {
                    value_heads: self.value_heads,
                    qk_heads: self.qk_heads,
                },
            )
        } else if self.chunk_len == 0 || self.chunk_len > 1024 {
            Some(GdnChunkedError::UnsupportedChunkLen { chunk_len: self.chunk_len })
        } else if solve_shared(self.chunk_len as int) > MAX_SHARED_BYTES {
            Some(
                GdnChunkedError::SharedMemoryExceeded {
                    needed: solve_shared(self.chunk_len as int) as usize,
                    available: MAX_SHARED_BYTES,
                },
            )
        } else {
            None
        }
    }

    /// A geometry the family serves.
    pub open spec fn supported(self) -> bool {
        self.refusal() is None
    }

    /// Elements of the recurrent state.
    pub open spec fn state_elements(self) -> int {
        self.value_heads * self.head_dim * self.head_dim
    }

    /// Elements of the normalized queries, or keys, of `n` tokens.
    pub open spec fn qk_elements(self, n: int) -> int {
        n * self.qk_heads * self.head_dim
    }

    /// Elements of one set of Gram matrices.
    pub open spec fn gram_elements(self) -> int {
        self.qk_heads * self.chunk_len * self.chunk_len
    }

    /// Elements of one per-chunk, per-value-head product.
    pub open spec fn inter_elements(self) -> int {
        self.value_heads * self.chunk_len * self.head_dim
    }

    /// Chunks of a sequence.
    pub open spec fn chunks(self, seq_len: int) -> int {
        launch::ceil_div(seq_len, self.chunk_len as int)
    }

    /// First token of chunk `i`.
    pub open spec fn chunk_start(self, i: int) -> int {
        i * self.chunk_len
    }

    /// Tokens of chunk `i`: a whole chunk, or what is left of the sequence.
    pub open spec fn chunk_tokens(self, seq_len: int, i: int) -> int {
        if self.chunk_start(i) + self.chunk_len <= seq_len {
            self.chunk_len as int
        } else {
            seq_len - self.chunk_start(i)
        }
    }

    /// Normalization: one block per (token, query/key head), one word of shared
    /// memory per warp.
    pub open spec fn normalize_launch(self, seq_len: int) -> launch::LaunchView<GdnChunkedArg> {
        launch::LaunchView {
            kernel: "gdn_chunk_normalize_qk"@,
            config: LaunchConfig {
                grid_dim: ((seq_len * self.qk_heads) as u32, 1, 1),
                block_dim: (self.head_dim as u32, 1, 1),
                shared_mem_bytes: (launch::ceil_div(self.head_dim as int, 32) * 4) as u32,
            },
            args: seq![
                GdnChunkedArg::Query,
                GdnChunkedArg::Key,
                GdnChunkedArg::QNorm,
                GdnChunkedArg::KNorm,
                GdnChunkedArg::Int(self.head_dim as i32),
                GdnChunkedArg::Eps,
                GdnChunkedArg::Scale,
            ],
        }
    }

    /// The scan: one warp per (value head, value index).
    pub open spec fn scan_launch(self, seq_len: int) -> launch::LaunchView<GdnChunkedArg> {
        launch::LaunchView {
            kernel: "gdn_scan_prefill"@,
            config: LaunchConfig {
                grid_dim: (
                    self.value_heads as u32,
                    launch::ceil_div((self.head_dim as u32) as int, SCAN_WARPS as int) as u32,
                    1,
                ),
                block_dim: (32, SCAN_WARPS, 1),
                shared_mem_bytes: 0,
            },
            args: seq![
                GdnChunkedArg::State,
                GdnChunkedArg::QNorm,
                GdnChunkedArg::KNorm,
                GdnChunkedArg::Value,
                GdnChunkedArg::LogDecay,
                GdnChunkedArg::Beta,
                GdnChunkedArg::Output,
                GdnChunkedArg::Int(self.head_dim as i32),
                GdnChunkedArg::Int(self.value_heads as i32),
                GdnChunkedArg::Int(self.qk_heads as i32),
                GdnChunkedArg::Int(seq_len as i32),
            ],
        }
    }

    /// The Gram matrices of `c` tokens from `start`: one block per (token,
    /// query/key head), one thread per source token.
    pub open spec fn gram_launch(self, start: int, c: int) -> launch::LaunchView<GdnChunkedArg> {
        launch::LaunchView {
            kernel: "gdn_chunk_gram"@,
            config: LaunchConfig {
                grid_dim: (c as u32, self.qk_heads as u32, 1),
                block_dim: (c as u32, 1, 1),
                shared_mem_bytes: (2 * self.head_dim * 4) as u32,
            },
            args: seq![
                GdnChunkedArg::QNorm,
                GdnChunkedArg::KNorm,
                GdnChunkedArg::Kk,
                GdnChunkedArg::Kq,
                GdnChunkedArg::Int(self.head_dim as i32),
                GdnChunkedArg::Int(self.qk_heads as i32),
                GdnChunkedArg::Int(start as i32),
                GdnChunkedArg::Int(c as i32),
            ],
        }
    }

    /// The products against the incoming state: [`INTER_TT`] tokens per block,
    /// one thread per value index.
    pub open spec fn inter_launch(self, start: int, c: int) -> launch::LaunchView<GdnChunkedArg> {
        launch::LaunchView {
            kernel: "gdn_chunk_inter"@,
            config: LaunchConfig {
                grid_dim: (
                    launch::ceil_div(c, INTER_TT as int) as u32,
                    self.value_heads as u32,
                    1,
                ),
                block_dim: (self.head_dim as u32, 1, 1),
                shared_mem_bytes: (2 * INTER_TT * self.head_dim * 4) as u32,
            },
            args: seq![
                GdnChunkedArg::State,
                GdnChunkedArg::QNorm,
                GdnChunkedArg::KNorm,
                GdnChunkedArg::Sik,
                GdnChunkedArg::Oint,
                GdnChunkedArg::Int(self.head_dim as i32),
                GdnChunkedArg::Int(self.qk_heads as i32),
                GdnChunkedArg::Int(start as i32),
                GdnChunkedArg::Int(c as i32),
            ],
        }
    }

    /// The solve: one block per (value head, band of value indices).
    pub open spec fn solve_launch(self, start: int, c: int) -> launch::LaunchView<GdnChunkedArg> {
        launch::LaunchView {
            kernel: "gdn_chunk_solve_and_apply"@,
            config: LaunchConfig {
                grid_dim: (
                    self.value_heads as u32,
                    launch::ceil_div((self.head_dim as u32) as int, SOLVE_VB as int) as u32,
                    1,
                ),
                block_dim: (256, 1, 1),
                shared_mem_bytes: solve_shared(c) as u32,
            },
            args: seq![
                GdnChunkedArg::Uprime,
                GdnChunkedArg::LambdaLast,
                GdnChunkedArg::Value,
                GdnChunkedArg::LogDecay,
                GdnChunkedArg::Beta,
                GdnChunkedArg::KNorm,
                GdnChunkedArg::Kk,
                GdnChunkedArg::Kq,
                GdnChunkedArg::Sik,
                GdnChunkedArg::Oint,
                GdnChunkedArg::Output,
                GdnChunkedArg::Int(self.head_dim as i32),
                GdnChunkedArg::Int(self.value_heads as i32),
                GdnChunkedArg::Int(self.qk_heads as i32),
                GdnChunkedArg::Int(start as i32),
                GdnChunkedArg::Int(c as i32),
            ],
        }
    }

    /// The state update: one block per (value head, value band, column band).
    pub open spec fn update_launch(self, start: int, c: int) -> launch::LaunchView<GdnChunkedArg> {
        launch::LaunchView {
            kernel: "gdn_chunk_state_update"@,
            config: LaunchConfig {
                grid_dim: (
                    self.value_heads as u32,
                    launch::ceil_div((self.head_dim as u32) as int, STATE_VB as int) as u32,
                    launch::ceil_div((self.head_dim as u32) as int, STATE_JB as int) as u32,
                ),
                block_dim: (256, 1, 1),
                shared_mem_bytes: (c * STATE_VB * 4) as u32,
            },
            args: seq![
                GdnChunkedArg::State,
                GdnChunkedArg::Uprime,
                GdnChunkedArg::KNorm,
                GdnChunkedArg::LambdaLast,
                GdnChunkedArg::Int(self.head_dim as i32),
                GdnChunkedArg::Int(self.qk_heads as i32),
                GdnChunkedArg::Int(start as i32),
                GdnChunkedArg::Int(c as i32),
            ],
        }
    }

    /// Launch `j` of chunk `i`: Gram, state products, solve, state update.
    pub open spec fn chunk_launch(self, seq_len: int, i: int, j: int) -> launch::LaunchView<
        GdnChunkedArg,
    > {
        let start = self.chunk_start(i);
        let c = self.chunk_tokens(seq_len, i);
        if j == 0 {
            self.gram_launch(start, c)
        } else if j == 1 {
            self.inter_launch(start, c)
        } else if j == 2 {
            self.solve_launch(start, c)
        } else {
            self.update_launch(start, c)
        }
    }

    /// Launch `n` of a prefill: the normalization, then four per chunk.
    pub open spec fn prefill_launch(self, seq_len: int, n: int) -> launch::LaunchView<
        GdnChunkedArg,
    > {
        if n == 0 {
            self.normalize_launch(seq_len)
        } else {
            self.chunk_launch(seq_len, (n - 1) / 4, (n - 1) % 4)
        }
    }
}

/// Lengths of the buffers reused across prefill calls, in floats.
#[derive(Debug, Clone, Copy, PartialEq, Eq)]
pub struct GdnChunkedSizes {
    /// Of the normalized queries, and of the normalized keys.
    pub qk_norm: usize,
    /// Of each set of Gram matrices.
    pub gram: usize,
    /// Of each per-chunk product and of the solved corrections.
    pub inter: usize,
    /// Of the chunk-end decays.
    pub lambda_last: usize,
}

/// Buffers reused across prefill calls, by length.
#[derive(Debug)]
pub struct GdnChunkedScratch {
    sizes: GdnChunkedSizes,
    max_seq_len: usize,
}

impl GdnChunkedScratch {
    #[verifier::type_invariant]
    spec fn tokens_are_addressable(self) -> bool {
        self.max_seq_len * 32 <= usize::MAX
    }

    /// The longest sequence.
    pub closed spec fn capacity(self) -> usize {
        self.max_seq_len
    }

    /// The buffers' lengths.
    pub closed spec fn lens(self) -> GdnChunkedSizes {
        self.sizes
    }

    /// The longest sequence this scratch can service.
    pub fn max_seq_len(&self) -> (n: usize)
        ensures
            n == self.capacity(),
            n * 32 <= usize::MAX,
    {
        proof {
            use_type_invariant(self);
        }
        self.max_seq_len
    }

    /// The buffers' lengths.
    pub fn sizes(&self) -> (s: GdnChunkedSizes)
        ensures
            s == self.lens(),
    {
        self.sizes
    }
}

/// The chunked-parallel kernels for one geometry.
pub struct GdnChunkedKernels {
    ptx: String,
    geometry: GdnChunkedGeometry,
}

impl View for GdnChunkedKernels {
    type V = GdnChunkedGeometry;

    closed spec fn view(&self) -> GdnChunkedGeometry {
        self.geometry
    }
}

impl GdnChunkedKernels {
    #[verifier::type_invariant]
    spec fn geometry_is_supported(self) -> bool {
        self.geometry.supported()
    }

    /// The PTX the entry points are loaded from.
    pub closed spec fn image(self) -> Seq<char> {
        self.ptx@
    }

    fn validate(g: GdnChunkedGeometry) -> (r: Result<(), GdnChunkedError>)
        ensures
            match g.refusal() {
                Some(e) => r == Err::<(), GdnChunkedError>(e),
                None => r is Ok,
            },
    {
        if g.head_dim == 0 || g.head_dim % 32 != 0 || g.head_dim > 1024 {
            return Err(GdnChunkedError::UnsupportedHeadDim { head_dim: g.head_dim });
        }
        if g.qk_heads == 0 || g.value_heads % g.qk_heads != 0 {
            return Err(
                GdnChunkedError::UnevenHeadGrouping {
                    value_heads: g.value_heads,
                    qk_heads: g.qk_heads,
                },
            );
        }
        if g.chunk_len == 0 || g.chunk_len > 1024 {
            return Err(GdnChunkedError::UnsupportedChunkLen { chunk_len: g.chunk_len });
        }
        let needed: usize = shared_bytes_for_solve(g.chunk_len);
        if needed > MAX_SHARED_BYTES {
            return Err(
                GdnChunkedError::SharedMemoryExceeded { needed, available: MAX_SHARED_BYTES },
            );
        }
        Ok(())
    }

    /// The kernels of already compiled PTX.
    pub fn from_ptx(
        ptx: String,
        head_dim: usize,
        value_heads: usize,
        qk_heads: usize,
        chunk_len: usize,
    ) -> (r: Result<Self, GdnChunkedError>)
        ensures
            match (GdnChunkedGeometry { head_dim, value_heads, qk_heads, chunk_len }).refusal() {
                Some(e) => r == Err::<Self, GdnChunkedError>(e),
                None => {
                    &&& r matches Ok(k)
                    &&& k@ == (GdnChunkedGeometry { head_dim, value_heads, qk_heads, chunk_len })
                    &&& k.image() == ptx@
                },
            },
    {
        let geometry = GdnChunkedGeometry { head_dim, value_heads, qk_heads, chunk_len };
        Self::validate(geometry)?;
        Ok(GdnChunkedKernels { ptx, geometry })
    }

    /// Compile for a specific head geometry and chunk length. A refused
    /// geometry compiles nothing.
    pub fn new(
        cache: &mut PtxCache,
        head_dim: usize,
        value_heads: usize,
        qk_heads: usize,
        chunk_len: usize,
    ) -> (r: Result<Self, GdnChunkedError>)
        ensures
            match (GdnChunkedGeometry { head_dim, value_heads, qk_heads, chunk_len }).refusal() {
                Some(e) => {
                    &&& r == Err::<Self, GdnChunkedError>(e)
                    &&& *final(cache) == *old(cache)
                },
                None => {
                    &&& old(cache).entries().contains_key(GDN_CHUNKED_SRC@) ==> r is Ok
                    &&& ptx::counted(*old(cache), *final(cache), GDN_CHUNKED_SRC@, "gdn_chunked"@)
                    &&& r matches Ok(k) ==> k@ == (GdnChunkedGeometry {
                        head_dim,
                        value_heads,
                        qk_heads,
                        chunk_len,
                    }) && ptx::obtained(
                        old(cache).entries(),
                        final(cache).entries(),
                        GDN_CHUNKED_SRC@,
                        "gdn_chunked"@,
                        k.image(),
                    )
                    &&& r matches Err(e) ==> {
                        &&& e matches GdnChunkedError::Compile(m) && ptx::rejected(GDN_CHUNKED_SRC@, "gdn_chunked"@, m@)
                        &&& final(cache).entries() == old(cache).entries()
                    }
                },
            },
    {
        Self::validate(GdnChunkedGeometry { head_dim, value_heads, qk_heads, chunk_len })?;
        match compile_family(cache, GDN_CHUNKED_SRC, "gdn_chunked") {
            Ok(ptx) => Self::from_ptx(ptx, head_dim, value_heads, qk_heads, chunk_len),
            Err(m) => Err(GdnChunkedError::Compile(m)),
        }
    }

    /// The PTX to load.
    pub fn ptx(&self) -> (s: &str)
        ensures
            s@ == self.image(),
    {
        self.ptx.as_str()
    }

    /// The entry points to load.
    pub fn entry_points() -> (names: Vec<&'static str>)
        ensures
            names@ == seq![
                "gdn_chunk_normalize_qk",
                "gdn_chunk_gram",
                "gdn_chunk_inter",
                "gdn_chunk_solve_and_apply",
                "gdn_chunk_state_update",
                "gdn_scan_prefill",
            ],
    {
        vec![
            "gdn_chunk_normalize_qk",
            "gdn_chunk_gram",
            "gdn_chunk_inter",
            "gdn_chunk_solve_and_apply",
            "gdn_chunk_state_update",
            "gdn_scan_prefill",
        ]
    }

    /// How many value heads share each query/key head.
    pub fn heads_per_kv(&self) -> (n: usize)
        ensures
            n == self@.value_heads as int / self@.qk_heads as int,
            n * self@.qk_heads == self@.value_heads,
    {
        proof {
            use_type_invariant(self);
            launch::lemma_whole_quotient(
                self.geometry.value_heads as int,
                self.geometry.qk_heads as int,
            );
        }
        self.geometry.value_heads / self.geometry.qk_heads
    }

    /// Tokens processed per triangular solve.
    pub fn chunk_len(&self) -> (n: usize)
        ensures
            n == self@.chunk_len,
    {
        self.geometry.chunk_len
    }

    /// Bytes of recurrent state for one sequence.
    pub fn state_bytes(&self) -> (n: usize)
        requires
            self@.value_heads * self@.head_dim <= usize::MAX,
            self@.state_elements() * 4 <= usize::MAX,
        ensures
            n == self@.state_elements() * 4,
    {
        let g: GdnChunkedGeometry = self.geometry;
        proof {
            assert(0 <= g.value_heads * g.head_dim * g.head_dim) by (nonlinear_arith);
        }
        g.value_heads * g.head_dim * g.head_dim * 4
    }

    /// Size the scratch for sequences of up to `max_seq_len` tokens.
    pub fn scratch(&self, max_seq_len: usize) -> (s: GdnChunkedScratch)
        requires
            max_seq_len * self@.qk_heads <= usize::MAX,
            self@.qk_elements(max_seq_len as int) <= usize::MAX,
            self@.qk_heads * self@.chunk_len <= usize::MAX,
            self@.gram_elements() <= usize::MAX,
            self@.value_heads * self@.chunk_len <= usize::MAX,
            self@.inter_elements() <= usize::MAX,
        ensures
            s.capacity() == max_seq_len,
            s.lens() == (GdnChunkedSizes {
                qk_norm: self@.qk_elements(max_seq_len as int) as usize,
                gram: self@.gram_elements() as usize,
                inter: self@.inter_elements() as usize,
                lambda_last: self@.value_heads,
            }),
    {
        proof {
            use_type_invariant(self);
        }
        let g: GdnChunkedGeometry = self.geometry;
        proof {
            let (n, h, d) = (max_seq_len as int, g.qk_heads as int, g.head_dim as int);
            assert(n * 32 <= n * h * d) by (nonlinear_arith)
                requires
                    0 <= n,
                    1 <= h,
                    32 <= d,
            ;
        }
        let sizes = GdnChunkedSizes {
            qk_norm: max_seq_len * g.qk_heads * g.head_dim,
            gram: g.qk_heads * g.chunk_len * g.chunk_len,
            inter: g.value_heads * g.chunk_len * g.head_dim,
            lambda_last: g.value_heads,
        };
        GdnChunkedScratch { sizes, max_seq_len }
    }

    /// L2-normalize the whole sequence's queries and keys into the scratch.
    fn normalize_sequence(&self, seq_len: usize) -> (l: Launch<GdnChunkedArg>)
        requires
            seq_len * self@.qk_heads <= usize::MAX,
        ensures
            l@ == self@.normalize_launch(seq_len as int),
    {
        proof {
            use_type_invariant(self);
        }
        let g: GdnChunkedGeometry = self.geometry;
        let l = Launch {
            kernel: "gdn_chunk_normalize_qk",
            config: LaunchConfig {
                grid_dim: ((seq_len * g.qk_heads) as u32, 1, 1),
                block_dim: (g.head_dim as u32, 1, 1),
                shared_mem_bytes: (div_ceil(g.head_dim, 32) * 4) as u32,
            },
            args: vec![
                GdnChunkedArg::Query,
                GdnChunkedArg::Key,
                GdnChunkedArg::QNorm,
                GdnChunkedArg::KNorm,
                GdnChunkedArg::Int(g.head_dim as i32),
                GdnChunkedArg::Eps,
                GdnChunkedArg::Scale,
            ],
        };
        assert(l@ =~= g.normalize_launch(seq_len as int));
        l
    }

    /// The whole sequence as a sequential scan, with the state in registers.
    ///
    /// The normalization runs first; an empty sequence launches nothing.
    pub fn scan(&self, scratch: &GdnChunkedScratch, seq_len: usize) -> (r: Result<
        Vec<Launch<GdnChunkedArg>>,
        GdnChunkedError,
    >)
        requires
            seq_len <= scratch.capacity() && self@.head_dim <= 32 * SCAN_MAXR ==> seq_len
                * self@.qk_heads <= usize::MAX,
        ensures
            seq_len > scratch.capacity() ==> r == Err::<
                Vec<Launch<GdnChunkedArg>>,
                GdnChunkedError,
            >(GdnChunkedError::SequenceTooLong { seq_len, capacity: scratch.capacity() }),
            seq_len <= scratch.capacity() && seq_len == 0 ==> (r matches Ok(l) && l@.len() == 0),
            seq_len <= scratch.capacity() && seq_len > 0 && self@.head_dim > 32 * SCAN_MAXR ==> r
                == Err::<Vec<Launch<GdnChunkedArg>>, GdnChunkedError>(
                GdnChunkedError::UnsupportedHeadDim { head_dim: self@.head_dim },
            ),
            seq_len <= scratch.capacity() && seq_len > 0 && self@.head_dim <= 32 * SCAN_MAXR ==> (r
                matches Ok(l) && l@.len() == 2 && l@[0]@ == self@.normalize_launch(seq_len as int)
                && l@[1]@ == self@.scan_launch(seq_len as int)),
    {
        let capacity: usize = scratch.max_seq_len();
        if seq_len > capacity {
            return Err(GdnChunkedError::SequenceTooLong { seq_len, capacity });
        }
        if seq_len == 0 {
            return Ok(Vec::new());
        }
        let g: GdnChunkedGeometry = self.geometry;
        if g.head_dim > 32 * SCAN_MAXR {
            return Err(GdnChunkedError::UnsupportedHeadDim { head_dim: g.head_dim });
        }
        let l = Launch {
            kernel: "gdn_scan_prefill",
            config: LaunchConfig {
                grid_dim: (g.value_heads as u32, div_ceil_u32(g.head_dim as u32, SCAN_WARPS), 1),
                block_dim: (32, SCAN_WARPS, 1),
                shared_mem_bytes: 0,
            },
            args: vec![
                GdnChunkedArg::State,
                GdnChunkedArg::QNorm,
                GdnChunkedArg::KNorm,
                GdnChunkedArg::Value,
                GdnChunkedArg::LogDecay,
                GdnChunkedArg::Beta,
                GdnChunkedArg::Output,
                GdnChunkedArg::Int(g.head_dim as i32),
                GdnChunkedArg::Int(g.value_heads as i32),
                GdnChunkedArg::Int(g.qk_heads as i32),
                GdnChunkedArg::Int(seq_len as i32),
            ],
        };
        assert(l@ =~= g.scan_launch(seq_len as int));
        Ok(vec![self.normalize_sequence(seq_len), l])
    }

    /// Append the four launches of a chunk of `c` tokens from `start`.
    fn push_chunk(&self, launches: &mut Vec<Launch<GdnChunkedArg>>, start: usize, c: usize)
        requires
            1 <= c <= self@.chunk_len,
        ensures
            final(launches)@.len() == old(launches)@.len() + 4,
            forall|n: int|
                0 <= n < old(launches)@.len() ==> final(launches)@[n] == old(launches)@[n],
            final(launches)@[old(launches)@.len() as int]@ == self@.gram_launch(
                start as int,
                c as int,
            ),
            final(launches)@[old(launches)@.len() as int + 1]@ == self@.inter_launch(
                start as int,
                c as int,
            ),
            final(launches)@[old(launches)@.len() as int + 2]@ == self@.solve_launch(
                start as int,
                c as int,
            ),
            final(launches)@[old(launches)@.len() as int + 3]@ == self@.update_launch(
                start as int,
                c as int,
            ),
    {
        proof {
            use_type_invariant(self);
        }
        let g: GdnChunkedGeometry = self.geometry;
        let head_dim = GdnChunkedArg::Int(g.head_dim as i32);
        let value_heads = GdnChunkedArg::Int(g.value_heads as i32);
        let qk_heads = GdnChunkedArg::Int(g.qk_heads as i32);
        let chunk_start = GdnChunkedArg::Int(start as i32);
        let tokens = GdnChunkedArg::Int(c as i32);
        let gram = Launch {
            kernel: "gdn_chunk_gram",
            config: LaunchConfig {
                grid_dim: (c as u32, g.qk_heads as u32, 1),
                block_dim: (c as u32, 1, 1),
                shared_mem_bytes: (2 * g.head_dim * 4) as u32,
            },
            args: vec![
                GdnChunkedArg::QNorm,
                GdnChunkedArg::KNorm,
                GdnChunkedArg::Kk,
                GdnChunkedArg::Kq,
                head_dim,
                qk_heads,
                chunk_start,
                tokens,
            ],
        };
        assert(gram@ =~= g.gram_launch(start as int, c as int));
        launches.push(gram);
        assert(2 * INTER_TT * g.head_dim == 32 * g.head_dim) by (nonlinear_arith);
        let inter = Launch {
            kernel: "gdn_chunk_inter",
            config: LaunchConfig {
                grid_dim: (div_ceil_u32(c as u32, INTER_TT), g.value_heads as u32, 1),
                block_dim: (g.head_dim as u32, 1, 1),
                shared_mem_bytes: (2 * INTER_TT as usize * g.head_dim * 4) as u32,
            },
            args: vec![
                GdnChunkedArg::State,
                GdnChunkedArg::QNorm,
                GdnChunkedArg::KNorm,
                GdnChunkedArg::Sik,
                GdnChunkedArg::Oint,
                head_dim,
                qk_heads,
                chunk_start,
                tokens,
            ],
        };
        assert(inter@ =~= g.inter_launch(start as int, c as int));
        launches.push(inter);
        let solve = Launch {
            kernel: "gdn_chunk_solve_and_apply",
            config: LaunchConfig {
                grid_dim: (g.value_heads as u32, div_ceil_u32(g.head_dim as u32, SOLVE_VB), 1),
                block_dim: (SOLVE_VB * SOLVE_TT, 1, 1),
                shared_mem_bytes: shared_bytes_for_solve(c) as u32,
            },
            args: vec![
                GdnChunkedArg::Uprime,
                GdnChunkedArg::LambdaLast,
                GdnChunkedArg::Value,
                GdnChunkedArg::LogDecay,
                GdnChunkedArg::Beta,
                GdnChunkedArg::KNorm,
                GdnChunkedArg::Kk,
                GdnChunkedArg::Kq,
                GdnChunkedArg::Sik,
                GdnChunkedArg::Oint,
                GdnChunkedArg::Output,
                head_dim,
                value_heads,
                qk_heads,
                chunk_start,
                tokens,
            ],
        };
        assert(solve@ =~= g.solve_launch(start as int, c as int));
        launches.push(solve);
        let update = Launch {
            kernel: "gdn_chunk_state_update",
            config: LaunchConfig {
                grid_dim: (
                    g.value_heads as u32,
                    div_ceil_u32(g.head_dim as u32, STATE_VB),
                    div_ceil_u32(g.head_dim as u32, STATE_JB),
                ),
                block_dim: (STATE_VLANES * STATE_JLANES, 1, 1),
                shared_mem_bytes: (c * STATE_VB as usize * 4) as u32,
            },
            args: vec![
                GdnChunkedArg::State,
                GdnChunkedArg::Uprime,
                GdnChunkedArg::KNorm,
                GdnChunkedArg::LambdaLast,
                head_dim,
                qk_heads,
                chunk_start,
                tokens,
            ],
        };
        assert(update@ =~= g.update_launch(start as int, c as int));
        launches.push(update);
    }

    /// Run the chunked form over `seq_len` tokens, advancing the state.
    ///
    /// The normalization runs first, then the chunks in order, since they
    /// depend on each other through the state. An empty sequence launches
    /// nothing.
    pub fn prefill(&self, scratch: &GdnChunkedScratch, seq_len: usize) -> (r: Result<
        Vec<Launch<GdnChunkedArg>>,
        GdnChunkedError,
    >)
        requires
            seq_len <= scratch.capacity() ==> seq_len * self@.qk_heads <= usize::MAX,
        ensures
            seq_len > scratch.capacity() ==> r == Err::<
                Vec<Launch<GdnChunkedArg>>,
                GdnChunkedError,
            >(GdnChunkedError::SequenceTooLong { seq_len, capacity: scratch.capacity() }),
            seq_len <= scratch.capacity() ==> (r matches Ok(l) && {
                &&& l@.len() == if seq_len == 0 {
                    0
                } else {
                    1 + 4 * self@.chunks(seq_len as int)
                }
                &&& forall|n: int|
                    0 <= n < l@.len() ==> (#[trigger] l@[n])@ == self@.prefill_launch(
                        seq_len as int,
                        n,
                    )
            }),
    {
        let capacity: usize = scratch.max_seq_len();
        if seq_len > capacity {
            return Err(GdnChunkedError::SequenceTooLong { seq_len, capacity });
        }
        if seq_len == 0 {
            return Ok(Vec::new());
        }
        proof {
            use_type_invariant(self);
        }
        let chunk_len: usize = self.geometry.chunk_len;
        let mut launches: Vec<Launch<GdnChunkedArg>> = Vec::new();
        launches.push(self.normalize_sequence(seq_len));
        let mut start: usize = 0;
        let ghost mut i: int = 0;
        while start < seq_len
            invariant
                self@.supported(),
                chunk_len == self@.chunk_len,
                seq_len * 32 <= usize::MAX,
                0 <= i,
                start <= seq_len,
                start < seq_len ==> start == self@.chunk_start(i),
                start == seq_len ==> i == self@.chunks(seq_len as int),
                seq_len > 0,
                launches@.len() == 1 + 4 * i,
                forall|n: int|
                    0 <= n < launches@.len() ==> (#[trigger] launches@[n])@
                        == self@.prefill_launch(seq_len as int, n),
            decreases seq_len - start,
        {
            let c: usize = min_usize(start + chunk_len, seq_len) - start;
            let ghost before = launches@;
            assert(c == self@.chunk_tokens(seq_len as int, i));
            self.push_chunk(&mut launches, start, c);
            assert forall|n: int| 0 <= n < launches@.len() implies (#[trigger] launches@[n])@
                == self@.prefill_launch(seq_len as int, n) by {
                if n < before.len() {
                    assert(launches@[n] == before[n]);
                }
            }
            start = start + c;
            proof {
                lemma_chunk_progress(self@, seq_len as int, i);
                i = i + 1;
            }
        }
        Ok(launches)
    }
}

/// After a chunk the walk stands at the next chunk's start, or at the end of
/// the sequence with every chunk done.
proof fn lemma_chunk_progress(g: GdnChunkedGeometry, seq_len: int, i: int)
    requires
        g.chunk_len > 0,
        0 <= i,
        g.chunk_start(i) < seq_len,
    ensures
        ({
            let next = g.chunk_start(i) + g.chunk_tokens(seq_len, i);
            &&& next < seq_len ==> next == g.chunk_start(i + 1)
            &&& next >= seq_len ==> i + 1 == g.chunks(seq_len)
        }),
{
    let d = g.chunk_len as int;
    assert((i + 1) * d == i * d + d) by (nonlinear_arith);
    launch::lemma_ceil_div_covers(seq_len, d);
    let q = g.chunks(seq_len);
    if g.chunk_start(i) + g.chunk_tokens(seq_len, i) >= seq_len {
        assert(q == i + 1) by (nonlinear_arith)
            requires
                seq_len <= q * d < seq_len + d,
                i * d < seq_len <= i * d + d,
                0 < d,
        ;
    }
}

/// The chunks partition the sequence: token `t` belongs to chunk
/// `t / chunk_len`, inside that chunk, and to no other; no chunk is empty or
/// longer than `chunk_len`.
pub proof fn law_chunks_partition_the_sequence(g: GdnChunkedGeometry, seq_len: int, t: int)
    requires
        g.supported(),
        0 <= t < seq_len,
    ensures
        ({
            let i = t / g.chunk_len as int;
            &&& 0 <= i < g.chunks(seq_len)
            &&& g.chunk_start(i) <= t < g.chunk_start(i) + g.chunk_tokens(seq_len, i) <= seq_len
        }),
        forall|j: int|
            #[trigger] g.chunk_start(j) <= t < g.chunk_start(j) + g.chunk_tokens(seq_len, j) ==> j
                == t / g.chunk_len as int,
{
    let d = g.chunk_len as int;
    let i = t / d;
    launch::law_flat_grid_covers_once(seq_len, d, t);
    assert(i * d <= t < i * d + d) by (nonlinear_arith)
        requires
            i == t / d,
            0 < d,
    ;
    assert forall|j: int|
        #[trigger] g.chunk_start(j) <= t < g.chunk_start(j) + g.chunk_tokens(
            seq_len,
            j,
        ) implies j == i by {
        assert(j == i) by (nonlinear_arith)
            requires
                j * d <= t < j * d + d,
                i * d <= t < i * d + d,
                0 < d,
        ;
    }
}

/// A sequence taken up again at a chunk boundary is walked as the whole would
/// be: after `n1` tokens, the chunks of the next `n2` are the remaining chunks
/// of the `n1 + n2`, each `n1` tokens further on and equally long.
pub proof fn law_prefill_resumes_at_a_chunk_boundary(
    g: GdnChunkedGeometry,
    n1: int,
    n2: int,
    i: int,
)
    requires
        g.supported(),
        0 <= n1,
        n1 % (g.chunk_len as int) == 0,
        0 < n2,
        0 <= i < g.chunks(n2),
    ensures
        g.chunks(n1) == n1 / (g.chunk_len as int),
        g.chunks(n1 + n2) == n1 / (g.chunk_len as int) + g.chunks(n2),
        g.chunk_start(n1 / (g.chunk_len as int) + i) == n1 + g.chunk_start(i),
        g.chunk_tokens(n1 + n2, n1 / (g.chunk_len as int) + i) == g.chunk_tokens(n2, i),
{
    let d = g.chunk_len as int;
    let k = n1 / d;
    launch::lemma_ceil_div_cases(n1, d);
    assert(n1 == k * d) by (nonlinear_arith)
        requires
            k == n1 / d,
            n1 % d == 0,
            0 < d,
    ;
    let top = n2 + d - 1;
    let (q, r) = (top / d, top % d);
    assert(top == q * d + r && 0 <= r < d) by (nonlinear_arith)
        requires
            q == top / d,
            r == top % d,
            0 < d,
    ;
    assert((k + q) * d == k * d + q * d && (k + i) * d == k * d + i * d) by (nonlinear_arith);
    lemma_fundamental_div_mod_converse(n1 + n2 + d - 1, d, k + q, r);
}

/// Two prefills that meet at a chunk boundary launch for each chunk what one
/// prefill over both would: the chunks of the first `n1` tokens exactly, and
/// those of the next `n2` with only the first token of the chunk counted from
/// the start of its own call. The products and the update of each chunk are
/// handed the state, which is what one call leaves to the next.
pub proof fn law_resumed_chunks_launch_alike(
    g: GdnChunkedGeometry,
    n1: int,
    n2: int,
    e: int,
    i: int,
    j: int,
)
    requires
        g.supported(),
        0 <= n1,
        n1 % (g.chunk_len as int) == 0,
        0 < n2,
        0 <= i < g.chunks(n2),
        0 <= j < 4,
    ensures
        0 <= e < g.chunks(n1) ==> g.chunk_launch(n1 + n2, e, j) == g.chunk_launch(n1, e, j),
        ({
            let rest = g.chunk_launch(n2, i, j);
            let start = rest.args.len() - 2;
            &&& rest.args[start] == GdnChunkedArg::Int(g.chunk_start(i) as i32)
            &&& g.chunk_launch(n1 + n2, g.chunks(n1) + i, j) == launch::LaunchView {
                kernel: rest.kernel,
                config: rest.config,
                args: rest.args.update(
                    start,
                    GdnChunkedArg::Int((n1 + g.chunk_start(i)) as i32),
                ),
            }
            &&& j == 1 || j == 3 ==> rest.args[0] == GdnChunkedArg::State
        }),
{
    let d = g.chunk_len as int;
    let k = n1 / d;
    law_prefill_resumes_at_a_chunk_boundary(g, n1, n2, i);
    if 0 <= e < g.chunks(n1) {
        assert(n1 == k * d) by (nonlinear_arith)
            requires
                k == n1 / d,
                n1 % d == 0,
                0 < d,
        ;
        assert(e * d + d <= k * d) by (nonlinear_arith)
            requires
                0 <= e < k,
                0 < d,
        ;
        assert(g.chunk_tokens(n1 + n2, e) == g.chunk_tokens(n1, e));
    }
    let rest = g.chunk_launch(n2, i, j);
    let whole = g.chunk_launch(n1 + n2, k + i, j);
    assert(whole.args =~= rest.args.update(
        rest.args.len() - 2,
        GdnChunkedArg::Int((n1 + g.chunk_start(i)) as i32),
    ));
}

/// Every chunk of a sequence has between one and `chunk_len` tokens, and its
/// solve fits the shared memory the geometry was checked against.
pub proof fn law_chunks_fit_shared_memory(g: GdnChunkedGeometry, seq_len: int, i: int)
    requires
        g.supported(),
        0 <= i < g.chunks(seq_len),
        0 < seq_len,
    ensures
        1 <= g.chunk_tokens(seq_len, i) <= g.chunk_len,
        solve_shared(g.chunk_tokens(seq_len, i)) <= MAX_SHARED_BYTES,
        g.chunk_start(i) + g.chunk_tokens(seq_len, i) <= seq_len,
{
    let d = g.chunk_len as int;
    launch::lemma_ceil_div_covers(seq_len, d);
    let q = g.chunks(seq_len);
    assert(i * d < seq_len) by (nonlinear_arith)
        requires
            0 <= i < q,
            q * d < seq_len + d,
            0 < d,
    ;
}

/// Value head `h` reads an existing query/key head, `h % qk_heads`, and each
/// query/key head is shared by exactly `value_heads / qk_heads` value heads,
/// `qk_heads` apart.
pub proof fn law_heads_share_by_modulo(g: GdnChunkedGeometry, hq: int, s: int)
    requires
        g.supported(),
        0 <= hq < g.qk_heads,
        0 <= s < g.value_heads as int / g.qk_heads as int,
    ensures
        ({
            let h = hq + s * g.qk_heads;
            &&& 0 <= h < g.value_heads
            &&& h % g.qk_heads as int == hq
            &&& h / g.qk_heads as int == s
        }),
{
    lemma_heads_share(g.value_heads as int, g.qk_heads as int, hq, s);
}

/// The head arithmetic under [`law_heads_share_by_modulo`].
pub proof fn lemma_heads_share(value_heads: int, qk_heads: int, hq: int, s: int)
    requires
        0 < qk_heads,
        value_heads % qk_heads == 0,
        0 <= hq < qk_heads,
        0 <= s < value_heads / qk_heads,
    ensures
        0 <= hq + s * qk_heads < value_heads,
        (hq + s * qk_heads) % qk_heads == hq,
        (hq + s * qk_heads) / qk_heads == s,
{
    let n = value_heads / qk_heads;
    assert(value_heads == n * qk_heads) by (nonlinear_arith)
        requires
            n == value_heads / qk_heads,
            value_heads % qk_heads == 0,
            0 < qk_heads,
    ;
    assert(0 <= hq + s * qk_heads < n * qk_heads) by (nonlinear_arith)
        requires
            0 <= hq < qk_heads,
            0 <= s < n,
    ;
    let h = hq + s * qk_heads;
    let (q, r) = (h / qk_heads, h % qk_heads);
    assert(h == q * qk_heads + r && 0 <= r < qk_heads) by (nonlinear_arith)
        requires
            q == h / qk_heads,
            r == h % qk_heads,
            0 < qk_heads,
    ;
    assert(q == s) by (nonlinear_arith)
        requires
            q * qk_heads + r == hq + s * qk_heads,
            0 <= r < qk_heads,
            0 <= hq < qk_heads,
    ;
}

/// Every scratch position a chunk touches lies inside the scratch sized for
/// the geometry: the normalized vectors of its tokens, its Gram matrices and
/// its per-head products.
pub proof fn law_chunk_stays_in_scratch(
    g: GdnChunkedGeometry,
    max_seq_len: int,
    seq_len: int,
    chunk: int,
    t: int,
    i: int,
    h: int,
    d: int,
)
    requires
        g.supported(),
        0 < seq_len <= max_seq_len,
        0 <= chunk < g.chunks(seq_len),
        0 <= t < g.chunk_tokens(seq_len, chunk),
        0 <= i < g.chunk_tokens(seq_len, chunk),
        0 <= h < g.value_heads,
        0 <= d < g.head_dim,
    ensures
        ({
            let c = g.chunk_tokens(seq_len, chunk);
            let hq = h % g.qk_heads as int;
            let token = g.chunk_start(chunk) + t;
            &&& 0 <= hq < g.qk_heads
            &&& 0 <= token < seq_len
            &&& 0 <= launch::at3(token, hq, d, g.qk_heads as int, g.head_dim as int)
                < g.qk_elements(max_seq_len)
            &&& 0 <= launch::at3(hq, t, i, c, c) < g.gram_elements()
            &&& 0 <= launch::at3(h, t, d, c, g.head_dim as int) < g.inter_elements()
        }),
{
    law_chunks_fit_shared_memory(g, seq_len, chunk);
    let c = g.chunk_tokens(seq_len, chunk);
    let cl = g.chunk_len as int;
    let (nq, nv, hd) = (g.qk_heads as int, g.value_heads as int, g.head_dim as int);
    let hq = h % nq;
    assert(0 <= hq < nq) by (nonlinear_arith)
        requires
            hq == h % nq,
            0 < nq,
    ;
    let token = g.chunk_start(chunk) + t;
    assert(0 <= chunk * cl) by (nonlinear_arith)
        requires
            0 <= chunk,
            0 < cl,
    ;
    launch::lemma_at3_bound(token, hq, d, max_seq_len, nq, hd);
    launch::lemma_at3_bound(hq, t, i, nq, c, c);
    assert(nq * c * c <= nq * cl * cl) by (nonlinear_arith)
        requires
            0 <= nq,
            0 <= c <= cl,
    ;
    launch::lemma_at3_bound(h, t, d, nv, c, hd);
    assert(nv * c * hd <= nv * cl * hd) by (nonlinear_arith)
        requires
            0 <= nv,
            0 <= c <= cl,
            0 <= hd,
    ;
}

/// Every position of a token's own tensors lies inside them: values, outputs,
/// decays and gates of a sequence of `seq_len` tokens.
pub proof fn law_tokens_stay_in_their_tensors(
    g: GdnChunkedGeometry,
    seq_len: int,
    token: int,
    h: int,
    d: int,
)
    requires
        0 <= token < seq_len,
        0 <= h < g.value_heads,
        0 <= d < g.head_dim,
    ensures
        0 <= launch::at2(token, h, g.value_heads as int) < seq_len * g.value_heads,
        0 <= launch::at3(token, h, d, g.value_heads as int, g.head_dim as int) < seq_len
            * g.value_heads * g.head_dim,
{
    launch::lemma_at2_bound(token, h, seq_len, g.value_heads as int);
    launch::lemma_at3_bound(token, h, d, seq_len, g.value_heads as int, g.head_dim as int);
}

/// Every band of the solve is full: the head dimension is whole bands, so each
/// thread owns a value index, and the shared memory holds every row of the
/// band's corrections, the log-decays and the decay rows.
pub proof fn law_solve_bands_are_full(
    g: GdnChunkedGeometry,
    band: int,
    vl: int,
    c: int,
    t: int,
    lane: int,
)
    requires
        g.supported(),
        0 <= band < launch::ceil_div((g.head_dim as u32) as int, SOLVE_VB as int),
        0 <= vl < SOLVE_VB,
        0 <= t < c,
        0 <= lane < SOLVE_TT,
    ensures
        0 <= band * SOLVE_VB + vl < g.head_dim,
        (t * SOLVE_VB + vl + 1) * 4 <= c * SOLVE_VB * 4,
        (c * SOLVE_VB + t + 1) * 4 <= (c * SOLVE_VB + c) * 4,
        (c * SOLVE_VB + c + lane * c + t + 1) * 4 <= solve_shared(c),
{
    let bands = g.head_dim as int / 32;
    assert(g.head_dim == bands * 32);
    assert((g.head_dim as u32) as int == g.head_dim);
    lemma_fundamental_div_mod_converse(g.head_dim + 31, 32, bands, 31);
    assert(launch::ceil_div(g.head_dim as int, 32) == bands);
    assert(lane * c + t + 1 <= 8 * c) by (nonlinear_arith)
        requires
            0 <= lane < 8,
            0 <= t < c,
    ;
}

/// The state update covers every cell of the state exactly once: cell
/// `(vi, j)` belongs to one block and one thread of it.
#[verifier::spinoff_prover]
pub proof fn law_state_update_covers_once(g: GdnChunkedGeometry, h: int, vi: int, j: int)
    requires
        g.supported(),
        0 <= h < g.value_heads,
        0 <= vi < g.head_dim,
        0 <= j < g.head_dim,
    ensures
        0 <= launch::at3(h, vi, j, g.head_dim as int, g.head_dim as int) < g.state_elements(),
        vi / (STATE_VB as int) < launch::ceil_div((g.head_dim as u32) as int, STATE_VB as int),
        j / (STATE_JB as int) < launch::ceil_div((g.head_dim as u32) as int, STATE_JB as int),
        0 <= vi % (STATE_VB as int) / (STATE_VT as int) < STATE_VLANES,
        0 <= j % (STATE_JB as int) / (STATE_JT as int) < STATE_JLANES,
        vi == (vi / (STATE_VB as int)) * STATE_VB + (vi % (STATE_VB as int) / (STATE_VT as int))
            * STATE_VT + vi % (STATE_VT as int),
        j == (j / (STATE_JB as int)) * STATE_JB + (j % (STATE_JB as int) / (STATE_JT as int))
            * STATE_JT + j % (STATE_JT as int),
{
    launch::lemma_at3_bound(
        h,
        vi,
        j,
        g.value_heads as int,
        g.head_dim as int,
        g.head_dim as int,
    );
}

/// A thread whose first cell of the state is live owns live cells only.
pub proof fn law_state_update_tiles_are_whole(g: GdnChunkedGeometry, first: int, k: int)
    requires
        g.supported(),
        first % 4 == 0,
        0 <= first < g.head_dim,
        0 <= k < STATE_JT,
    ensures
        first + k < g.head_dim,
{
}

/// The scan's lanes hold a state row in at most [`SCAN_MAXR`] registers each,
/// and every value index has a warp.
pub proof fn law_scan_holds_the_row_in_registers(g: GdnChunkedGeometry, j: int, vi: int)
    requires
        g.supported(),
        g.head_dim <= 32 * SCAN_MAXR,
        0 <= j < g.head_dim,
        0 <= vi < g.head_dim,
    ensures
        0 <= j / 32 < SCAN_MAXR,
        j == (j / 32) * 32 + j % 32,
        vi / (SCAN_WARPS as int) < launch::ceil_div((g.head_dim as u32) as int, SCAN_WARPS as int),
{
}

} // verus!
