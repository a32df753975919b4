//! The gated delta rule one token at a time, for up to [`STEP_MAX_BATCH`]
//! sequences in one launch pair.
//!
//! The state of a value head is `head_dim x head_dim`, with the key index
//! contiguous. Value head `h` reads query/key head `h % qk_heads`. Queries and
//! keys are normalized by a launch of their own, so that the state kernel
//! reads and writes each state element once. A warp owns one state row, four
//! consecutive key indices per lane.

use crate::kernels::gdn_chunked;
use crate::kernels::ptx;
use crate::kernels::ptx::{compile_family, PtxCache};
use crate::launch;
use crate::launch::{div_ceil, div_ceil_u32, Launch, LaunchConfig};
use crate::source::gdn::GDN_SRC;
use crate::text;
use crate::text::push_decimal;
use vstd::prelude::*;
use vstd::string::StringExecFns;

verus! {

/// Warps, and so state rows, per block of the state kernel.
pub const STEP_WARPS: u32 = 4;

/// The widest batch one launch of the state kernel carries.
pub const STEP_MAX_BATCH: usize = 8;

/// Chunks of 128 key indices a lane keeps in registers, at most.
pub const STEP_MAX_CHUNKS: usize = 4;

/// Something the recurrent family refuses.
#[derive(Debug)]
pub enum GdnError {
    /// The source was rejected.
    Compile(String),
    /// A head dimension the kernel cannot service.
    UnsupportedHeadDim { head_dim: usize },
    /// Value heads are not a whole multiple of query/key heads.
    UnevenHeadGrouping { value_heads: usize, qk_heads: usize },
}

impl GdnError {
    /// The text of the message.
    pub open spec fn text(self) -> Seq<char> {
        match self {
            GdnError::Compile(m) => "kernel compilation failed: "@ + m@,
            GdnError::UnsupportedHeadDim { head_dim } => "head_dim "@ + text::decimal(
                head_dim as nat,
            ) + " must be a positive multiple of 128 and at most 512"@,
            GdnError::UnevenHeadGrouping { value_heads, qk_heads } => text::decimal(
                value_heads as nat,
            ) + " value heads do not divide evenly among "@ + text::decimal(qk_heads as nat)
                + " query/key heads"@,
        }
    }

    /// The message.
    pub fn message(&self) -> (s: String)
        ensures
            s@ == self.text(),
    {
        let mut s = String::new();
        match self {
            GdnError::Compile(m) => {
                s.append("kernel compilation failed: ");
                s.append(m.as_str());
            },
            GdnError::UnsupportedHeadDim { head_dim } => {
                s.append("head_dim ");
                push_decimal(&mut s, *head_dim);
                s.append(" must be a positive multiple of 128 and at most 512");
            },
            GdnError::UnevenHeadGrouping { value_heads, qk_heads } => {
                push_decimal(&mut s, *value_heads);
                s.append(" value heads do not divide evenly among ");
                push_decimal(&mut s, *qk_heads);
                s.append(" query/key heads");
            },
        }
        s
    }
}

/// An argument of a recurrent kernel.
#[derive(Debug, Clone, Copy, PartialEq, Eq)]
pub enum GdnArg {
    /// The device address of one sequence's state,
    /// `[value_heads][head_dim][head_dim]`.
    State(u64),
    /// The raw queries, `[n][qk_heads][head_dim]`.
    Query,
    /// The raw keys, as the queries.
    Key,
    /// The values, `[n][value_heads][head_dim]`.
    Value,
    /// The log decays, `[n][value_heads]`.
    LogDecay,
    /// The gates, `[n][value_heads]`.
    Beta,
    /// The result, as the values.
    Output,
    /// Scratch: the normalized, scaled queries.
    QNorm,
    /// Scratch: the normalized keys.
    KNorm,
    /// The floor of the L2 norm.
    Eps,
    /// The output scale, `1 / sqrt(head_dim)`.
    Scale,
    /// An integer by value.
    Int(i32),
}

/// The heads an instance is built for.
#[derive(Debug, Clone, Copy, PartialEq, Eq)]
pub struct GdnGeometry {
    /// Elements per head.
    pub head_dim: usize,
    /// Value heads.
    pub value_heads: usize,
    /// Query/key heads.
    pub qk_heads: usize,
}

/// The state a pointer slot of the kernel carries: the sequence's own, and in
/// the slots past the batch the first sequence's.
pub open spec fn slot(states: Seq<u64>, i: int) -> u64 {
    if i < states.len() {
        states[i]
    } else {
        states[0]
    }
}

impl GdnGeometry {
    /// Why the geometry is refused, if it is.
    pub open spec fn refusal(self) -> Option<GdnError> {
        if self.head_dim == 0 || self.head_dim % 128 != 0 || self.head_dim > 512 {
            Some(GdnError::UnsupportedHeadDim { head_dim: self.head_dim })
        } else if self.qk_heads == 0 || self.value_heads % self.qk_heads != 0 {
            Some(
                GdnError::UnevenHeadGrouping {
                    value_heads: self.value_heads,
                    qk_heads: self.qk_heads,
                },
            )
        } else {
            None
        }
    }

    /// A geometry the family serves.
    pub open spec fn supported(self) -> bool {
        self.refusal() is None
    }

    /// Elements of one sequence's recurrent state.
    pub open spec fn state_elements(self) -> int {
        self.value_heads * self.head_dim * self.head_dim
    }

    /// Elements of the normalized queries, or keys, of the widest batch.
    pub open spec fn scratch_elements(self) -> int {
        STEP_MAX_BATCH * self.qk_heads * self.head_dim
    }

    /// Normalization: one block per (sequence, query/key head), one word of
    /// shared memory per warp.
    pub open spec fn normalize_launch(self, n: int) -> launch::LaunchView<GdnArg> {
        launch::LaunchView {
            kernel: "gdn_normalize_qk"@,
            config: LaunchConfig {
                grid_dim: ((n * self.qk_heads) as u32, 1, 1),
                block_dim: (self.head_dim as u32, 1, 1),
                shared_mem_bytes: (launch::ceil_div(self.head_dim as int, 32) * 4) as u32,
            },
            args: seq![
                GdnArg::Query,
                GdnArg::Key,
                GdnArg::QNorm,
                GdnArg::KNorm,
                GdnArg::Int(self.head_dim as i32),
                GdnArg::Eps,
                GdnArg::Scale,
            ],
        }
    }

    /// The step: one warp per state row, one slice of the grid per sequence.
    pub open spec fn step_launch(self, states: Seq<u64>) -> launch::LaunchView<GdnArg> {
        launch::LaunchView {
            kernel: "gdn_recurrent_step"@,
            config: LaunchConfig {
                grid_dim: (
                    launch::ceil_div((self.head_dim as u32) as int, STEP_WARPS as int) as u32,
                    self.value_heads as u32,
                    states.len() as u32,
                ),
                block_dim: (128, 1, 1),
                shared_mem_bytes: 0,
            },
            args: seq![
                GdnArg::State(slot(states, 0)),
                GdnArg::State(slot(states, 1)),
                GdnArg::State(slot(states, 2)),
                GdnArg::State(slot(states, 3)),
                GdnArg::State(slot(states, 4)),
                GdnArg::State(slot(states, 5)),
                GdnArg::State(slot(states, 6)),
                GdnArg::State(slot(states, 7)),
                GdnArg::QNorm,
                GdnArg::KNorm,
                GdnArg::Value,
                GdnArg::LogDecay,
                GdnArg::Beta,
                GdnArg::Output,
                GdnArg::Int(self.head_dim as i32),
                GdnArg::Int(self.qk_heads as i32),
            ],
        }
    }
}

/// Buffers reused across decode steps, by length in floats.
///
/// They hold the widest batch, so a batch of any admissible width never
/// reallocates.
#[derive(Debug, Clone, Copy, PartialEq, Eq)]
pub struct GdnScratch {
    /// Of the normalized queries.
    pub q_norm: usize,
    /// Of the normalized keys.
    pub k_norm: usize,
}

/// The recurrent kernels for one geometry.
pub struct GdnKernels {
    ptx: String,
    geometry: GdnGeometry,
}

impl View for GdnKernels {
    type V = GdnGeometry;

    closed spec fn view(&self) -> GdnGeometry {
        self.geometry
    }
}

impl GdnKernels {
    #[verifier::type_invariant]
    spec fn geometry_is_supported(self) -> bool {
        self.geometry.supported()
    }

    /// The PTX the entry points are loaded from.
    pub closed spec fn image(self) -> Seq<char> {
        self.ptx@
    }

    fn validate(g: GdnGeometry) -> (r: Result<(), GdnError>)
        ensures
            match g.refusal() {
                Some(e) => r == Err::<(), GdnError>(e),
                None => r is Ok,
            },
    {
        if g.head_dim == 0 || g.head_dim % 128 != 0 || g.head_dim > 512 {
            return Err(GdnError::UnsupportedHeadDim { head_dim: g.head_dim });
        }
        if g.qk_heads == 0 || g.value_heads % g.qk_heads != 0 {
            return Err(
                GdnError::UnevenHeadGrouping { value_heads: g.value_heads, qk_heads: g.qk_heads },
            );
        }
        Ok(())
    }

    /// The kernels of already compiled PTX.
    pub fn from_ptx(ptx: String, head_dim: usize, value_heads: usize, qk_heads: usize) -> (r:
        Result<Self, GdnError>)
        ensures
            match (GdnGeometry { head_dim, value_heads, qk_heads }).refusal() {
                Some(e) => r == Err::<Self, GdnError>(e),
                None => {
                    &&& r matches Ok(k)
                    &&& k@ == (GdnGeometry { head_dim, value_heads, qk_heads })
                    &&& k.image() == ptx@
                },
            },
    {
        let geometry = GdnGeometry { head_dim, value_heads, qk_heads };
        Self::validate(geometry)?;
        Ok(GdnKernels { ptx, geometry })
    }

    /// Compile for a specific head geometry.
    ///
    /// The geometry is fixed at construction: validating it once leaves the
    /// launch path nothing to reject. A refused geometry compiles nothing.
    pub fn new(
        cache: &mut PtxCache,
        head_dim: usize,
        value_heads: usize,
        qk_heads: usize,
    ) -> (r: Result<Self, GdnError>)
        ensures
            match (GdnGeometry { head_dim, value_heads, qk_heads }).refusal() {
                Some(e) => {
                    &&& r == Err::<Self, GdnError>(e)
                    &&& *final(cache) == *old(cache)
                },
                None => {
                    &&& old(cache).entries().contains_key(GDN_SRC@) ==> r is Ok
                    &&& ptx::counted(*old(cache), *final(cache), GDN_SRC@, "gdn"@)
                    &&& r matches Ok(k) ==> k@ == (GdnGeometry { head_dim, value_heads, qk_heads })
                        && ptx::obtained(
                        old(cache).entries(),
                        final(cache).entries(),
                        GDN_SRC@,
                        "gdn"@,
                        k.image(),
                    )
                    &&& r matches Err(e) ==> {
                        &&& e matches GdnError::Compile(m) && ptx::rejected(GDN_SRC@, "gdn"@, m@)
                        &&& final(cache).entries() == old(cache).entries()
                    }
                },
            },
    {
        Self::validate(GdnGeometry { head_dim, value_heads, qk_heads })?;
        match compile_family(cache, GDN_SRC, "gdn") {
            Ok(ptx) => Self::from_ptx(ptx, head_dim, value_heads, qk_heads),
            Err(m) => Err(GdnError::Compile(m)),
        }
    }

    /// The PTX to load.
    pub fn ptx(&self) -> (s: &str)
        ensures
            s@ == self.image(),
    {
        self.ptx.as_str()
    }

    /// The entry points to load.
    pub fn entry_points() -> (names: Vec<&'static str>)
        ensures
            names@ == seq!["gdn_normalize_qk", "gdn_recurrent_step"],
    {
        vec!["gdn_normalize_qk", "gdn_recurrent_step"]
    }

    /// How many value heads share each query/key head.
    ///
    /// The count, not the mapping: the heads that share query/key head `hq`
    /// are `hq`, `hq + qk_heads`, `hq + 2 * qk_heads` and so on.
    pub fn heads_per_kv(&self) -> (n: usize)
        ensures
            n == self@.value_heads as int / self@.qk_heads as int,
            n * self@.qk_heads == self@.value_heads,
    {
        proof {
            use_type_invariant(self);
            launch::lemma_whole_quotient(
                self.geometry.value_heads as int,
                self.geometry.qk_heads as int,
            );
        }
        self.geometry.value_heads / self.geometry.qk_heads
    }

    /// Size the per-step scratch, for the widest batch.
    pub fn scratch(&self) -> (s: GdnScratch)
        requires
            STEP_MAX_BATCH * self@.qk_heads <= usize::MAX,
            self@.scratch_elements() <= usize::MAX,
        ensures
            s == (GdnScratch {
                q_norm: self@.scratch_elements() as usize,
                k_norm: self@.scratch_elements() as usize,
            }),
    {
        let n: usize = STEP_MAX_BATCH * self.geometry.qk_heads * self.geometry.head_dim;
        GdnScratch { q_norm: n, k_norm: n }
    }

    /// Bytes of recurrent state for one sequence.
    pub fn state_bytes(&self) -> (n: usize)
        requires
            self@.value_heads * self@.head_dim <= usize::MAX,
            self@.state_elements() * 4 <= usize::MAX,
        ensures
            n == self@.state_elements() * 4,
    {
        let g: GdnGeometry = self.geometry;
        proof {
            assert(0 <= g.value_heads * g.head_dim * g.head_dim) by (nonlinear_arith);
        }
        g.value_heads * g.head_dim * g.head_dim * 4
    }

    /// Advance one sequence's state by one token: a batch of one, so that a
    /// sequence decodes identically here and in a batch.
    pub fn step(&self, state: u64) -> (l: Vec<Launch<GdnArg>>)
        ensures
            l@.len() == 2,
            l@[0]@ == self@.normalize_launch(1),
            l@[1]@ == self@.step_launch(seq![state]),
    {
        let states: Vec<u64> = vec![state];
        assert(states@ =~= seq![state]);
        self.step_batch_raw(states.as_slice())
    }

    /// Advance the states of one to [`STEP_MAX_BATCH`] sequences by one token
    /// each, in one launch pair: the normalization, then the step.
    ///
    /// Every activation buffer is sequence-major. The states travel as scalar
    /// pointer slots; unused slots repeat the first state, and no block of the
    /// grid selects them. The states must be distinct.
    pub fn step_batch_raw(&self, states: &[u64]) -> (l: Vec<Launch<GdnArg>>)
        requires
            1 <= states@.len() <= STEP_MAX_BATCH,
            states@.len() * self@.qk_heads <= usize::MAX,
        ensures
            l@.len() == 2,
            l@[0]@ == self@.normalize_launch(states@.len() as int),
            l@[1]@ == self@.step_launch(states@),
    {
        proof {
            use_type_invariant(self);
        }
        let g: GdnGeometry = self.geometry;
        let n: usize = states.len();
        let head_dim = GdnArg::Int(g.head_dim as i32);
        let normalize = Launch {
            kernel: "gdn_normalize_qk",
            config: LaunchConfig {
                grid_dim: ((n * g.qk_heads) as u32, 1, 1),
                block_dim: (g.head_dim as u32, 1, 1),
                shared_mem_bytes: (div_ceil(g.head_dim, 32) * 4) as u32,
            },
            args: vec![
                GdnArg::Query,
                GdnArg::Key,
                GdnArg::QNorm,
                GdnArg::KNorm,
                head_dim,
                GdnArg::Eps,
                GdnArg::Scale,
            ],
        };
        assert(normalize@ =~= g.normalize_launch(n as int));
        let mut args: Vec<GdnArg> = Vec::new();
        let mut i: usize = 0;
        while i < STEP_MAX_BATCH
            invariant
                i <= STEP_MAX_BATCH,
                n == states@.len(),
                1 <= n,
                args@.len() == i,
                forall|k: int| 0 <= k < i ==> args@[k] == GdnArg::State(slot(states@, k)),
            decreases STEP_MAX_BATCH - i,
        {
            args.push(
                GdnArg::State(
                    if i < n {
                        states[i]
                    } else {
                        states[0]
                    },
                ),
            );
            i = i + 1;
        }
        args.push(GdnArg::QNorm);
        args.push(GdnArg::KNorm);
        args.push(GdnArg::Value);
        args.push(GdnArg::LogDecay);
        args.push(GdnArg::Beta);
        args.push(GdnArg::Output);
        args.push(head_dim);
        args.push(GdnArg::Int(g.qk_heads as i32));
        let step = Launch {
            kernel: "gdn_recurrent_step",
            config: LaunchConfig {
                grid_dim: (
                    div_ceil_u32(g.head_dim as u32, STEP_WARPS),
                    g.value_heads as u32,
                    n as u32,
                ),
                block_dim: (32 * STEP_WARPS, 1, 1),
                shared_mem_bytes: 0,
            },
            args,
        };
        assert(step@ =~= g.step_launch(states@));
        vec![normalize, step]
    }
}

/// Sequence `z` of a batch selects its own state, never a padding slot.
pub proof fn law_sequences_select_their_own_state(states: Seq<u64>, z: int)
    requires
        1 <= states.len() <= STEP_MAX_BATCH,
        0 <= z < states.len(),
    ensures
        slot(states, z) == states[z],
{
}

/// Two sequences of a batch share no state when their states are distinct.
pub proof fn law_distinct_states_stay_apart(states: Seq<u64>, z1: int, z2: int)
    requires
        1 <= states.len() <= STEP_MAX_BATCH,
        forall|i: int, j: int| 0 <= i < j < states.len() ==> states[i] != states[j],
        0 <= z1 < states.len(),
        0 <= z2 < states.len(),
        z1 != z2,
    ensures
        slot(states, z1) != slot(states, z2),
{
    if z1 < z2 {
        assert(states[z1] != states[z2]);
    } else {
        assert(states[z2] != states[z1]);
    }
}

/// A sequence's arguments do not depend on where in a batch it stands: the
/// scalars, the block and the grid over one sequence are those of a batch of
/// one.
pub proof fn law_batch_and_single_step_agree(g: GdnGeometry, states: Seq<u64>, z: int)
    requires
        1 <= states.len() <= STEP_MAX_BATCH,
        0 <= z < states.len(),
    ensures
        ({
            let batch = g.step_launch(states);
            let single = g.step_launch(seq![states[z]]);
            &&& batch.kernel == single.kernel
            &&& batch.config.grid_dim.0 == single.config.grid_dim.0
            &&& batch.config.grid_dim.1 == single.config.grid_dim.1
            &&& batch.config.block_dim == single.config.block_dim
            &&& batch.config.shared_mem_bytes == single.config.shared_mem_bytes
            &&& batch.args[z] == single.args[0]
            &&& batch.args.skip(8) == single.args.skip(8)
        }),
{
    let batch = g.step_launch(states);
    let single = g.step_launch(seq![states[z]]);
    assert(batch.args.skip(8) =~= single.args.skip(8));
}

/// Value head `h` reads an existing query/key head, `h % qk_heads`, and each
/// query/key head is shared by exactly `value_heads / qk_heads` value heads,
/// `qk_heads` apart.
pub proof fn law_heads_share_by_modulo(g: GdnGeometry, hq: int, s: int)
    requires
        g.supported(),
        0 <= hq < g.qk_heads,
        0 <= s < g.value_heads as int / g.qk_heads as int,
    ensures
        ({
            let h = hq + s * g.qk_heads;
            &&& 0 <= h < g.value_heads
            &&& h % g.qk_heads as int == hq
            &&& h / g.qk_heads as int == s
        }),
{
    gdn_chunked::lemma_heads_share(g.value_heads as int, g.qk_heads as int, hq, s);
}

/// The normalization stays inside the scratch for every admissible batch, and
/// every warp of a block has its own word of shared memory.
pub proof fn law_normalization_stays_in_scratch(g: GdnGeometry, n: int, block: int, j: int)
    requires
        g.supported(),
        1 <= n <= STEP_MAX_BATCH,
        0 <= block < n * g.qk_heads,
        0 <= j < g.head_dim,
    ensures
        0 <= launch::at2(block, j, g.head_dim as int) < n * g.qk_heads * g.head_dim
            <= g.scratch_elements(),
        (j / 32 + 1) * 4 <= launch::ceil_div(g.head_dim as int, 32) * 4,
{
    launch::lemma_at2_bound(block, j, n * g.qk_heads, g.head_dim as int);
    let (q, d) = (g.qk_heads as int, g.head_dim as int);
    assert(n * q * d <= 8 * q * d) by (nonlinear_arith)
        requires
            n <= 8,
            0 <= q,
            0 <= d,
    ;
}

/// Every position sequence `z` touches lies inside its buffer: its state row,
/// its normalized query and key, its value and output, its decay and gate.
pub proof fn law_step_stays_in_its_buffers(
    g: GdnGeometry,
    n: int,
    z: int,
    h: int,
    vi: int,
    j: int,
)
    requires
        g.supported(),
        1 <= n <= STEP_MAX_BATCH,
        0 <= z < n,
        0 <= h < g.value_heads,
        0 <= vi < g.head_dim,
        0 <= j < g.head_dim,
    ensures
        ({
            let hq = h % g.qk_heads as int;
            let d = g.head_dim as int;
            &&& 0 <= hq < g.qk_heads
            &&& 0 <= launch::at3(h, vi, j, d, d) < g.state_elements()
            &&& 0 <= launch::at3(z, hq, j, g.qk_heads as int, d) < n * g.qk_heads * d
                <= g.scratch_elements()
            &&& 0 <= launch::at3(z, h, vi, g.value_heads as int, d) < n * g.value_heads * d
            &&& 0 <= launch::at2(z, h, g.value_heads as int) < n * g.value_heads
        }),
{
    let (nq, nv, d) = (g.qk_heads as int, g.value_heads as int, g.head_dim as int);
    let hq = h % nq;
    assert(0 <= hq < nq) by (nonlinear_arith)
        requires
            hq == h % nq,
            0 < nq,
    ;
    launch::lemma_at3_bound(h, vi, j, nv, d, d);
    launch::lemma_at3_bound(z, hq, j, n, nq, d);
    launch::lemma_at3_bound(z, h, vi, n, nv, d);
    launch::lemma_at2_bound(z, h, n, nv);
    assert(n * nq * d <= 8 * nq * d) by (nonlinear_arith)
        requires
            n <= 8,
            0 <= nq,
            0 <= d,
    ;
}

/// The lanes of a warp cover a state row exactly once: key index `j` is
/// element `j % 4` of lane `j % 128 / 4` in chunk `j / 128`, every chunk fits
/// the registers, and a lane's four elements are all live.
pub proof fn law_lanes_cover_a_row_once(g: GdnGeometry, j: int, lane: int, c: int, e: int)
    requires
        g.supported(),
        0 <= j < g.head_dim,
        0 <= lane < 32,
        0 <= c < g.head_dim as int / 128,
        0 <= e < 4,
    ensures
        0 <= j / 128 < g.head_dim as int / 128 <= STEP_MAX_CHUNKS,
        0 <= j % 128 / 4 < 32,
        j == (j / 128) * 128 + 4 * (j % 128 / 4) + j % 4,
        0 <= c * 128 + 4 * lane + e < g.head_dim,
        c * 128 + 4 * lane + e == j ==> c == j / 128 && lane == j % 128 / 4 && e == j % 4,
{
}

/// Every state row has exactly one warp, and no warp of the grid is idle.
pub proof fn law_rows_have_one_warp(g: GdnGeometry, vi: int)
    requires
        g.supported(),
        0 <= vi < g.head_dim,
    ensures
        ({
            let blocks = launch::ceil_div((g.head_dim as u32) as int, STEP_WARPS as int);
            &&& 0 <= vi / (STEP_WARPS as int) < blocks
            &&& vi == launch::at2(
                vi / (STEP_WARPS as int),
                vi % (STEP_WARPS as int),
                STEP_WARPS as int,
            )
            &&& blocks * STEP_WARPS == g.head_dim
        }),
{
}

} // verus!
