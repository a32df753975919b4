//! The MoE kernels of one geometry, and the sequences they launch.

use crate::kernels::mma::MmaKernels;
use crate::kernels::moe::geometry::{ExpertQuant, MoeGeometry};
use crate::kernels::moe::step::{
    banded_config, check_stack, mma_down_shared_bytes, mma_ffn_q8_shared_bytes, mma_shared_bytes,
    tile_shared_bytes, MoeArg, MoeError, MoeStep, QuantTensor, GEMM_THREADS, GRID_Y_LIMIT, MMA_M,
    MMA_MIN_TOKENS, MMA_ROWS, MMA_WARPS, ROUTE_LANE_EXPERTS, SHARED_WARPS, THREADS, TILE_K,
    TILE_M, TILE_ROWS,
};
use crate::kernels::ptx::{compile_family, PtxCache};
use crate::launch::{div_ceil_u32, Launch, LaunchConfig};
use crate::source::mma::MMA_SRC;
use crate::source::moe::moe_src;
use crate::kernels::moe::step;
use crate::kernels::ptx;
use crate::launch;
use vstd::prelude::*;

verus! {

/// The launch step of a kernel.
fn launch_step(kernel: &'static str, config: LaunchConfig, args: Vec<MoeArg>) -> (s: MoeStep)
    ensures
        s@ == step::launches(kernel@, config, args@),
{
    MoeStep::Launch(Launch { kernel, config, args })
}

impl MoeGeometry {
    /// The experts one routing warp can hold.
    pub open spec fn routable(self) -> bool {
        self.num_experts <= 32 * ROUTE_LANE_EXPERTS
    }

    /// Why routing is refused, if it is.
    pub open spec fn route_refusal(self) -> Option<MoeError> {
        if self.routable() {
            None
        } else {
            Some(
                self.refused(
                    "the routing warp holds 16 experts per lane, so at most 512 experts",
                ),
            )
        }
    }

    /// Softmax and top-k, one block per token slot. The shared memory is the
    /// probabilities and one (float, int) reduction slot per thread.
    pub open spec fn route_steps(self) -> Seq<step::MoeStepView> {
        seq![
            step::launches(
                "moe_route"@,
                step::flat(
                    self.max_tokens as int,
                    THREADS,
                    (self.num_experts + THREADS) * 4 + THREADS * 4,
                ),
                seq![
                    MoeArg::Logits,
                    MoeArg::ValidTokens,
                    MoeArg::Int(self.num_experts as i32),
                    MoeArg::Int(self.experts_per_token as i32),
                    MoeArg::TopkIds,
                    MoeArg::TopkWeights,
                ],
            ),
        ]
    }

    /// The dispatch tables. One block places a single token's pairs; a batch
    /// takes a counting pass and a scatter pass of one block per expert.
    pub open spec fn dispatch_steps(self) -> Seq<step::MoeStepView> {
        if self.max_tokens == 1 {
            seq![
                step::launches(
                    "moe_dispatch_t1"@,
                    step::flat(1, THREADS, (self.num_experts + 1) * 4),
                    seq![
                        MoeArg::TopkIds,
                        MoeArg::ValidTokens,
                        MoeArg::Int(self.experts_per_token as i32),
                        MoeArg::Int(self.num_experts as i32),
                        MoeArg::Int(self.block_size as i32),
                        MoeArg::Int(self.sorted_slots() as i32),
                        MoeArg::Int(self.dispatch_blocks() as i32),
                        MoeArg::SortedTokenIds,
                        MoeArg::ExpertIds,
                        MoeArg::NumTokensPostPad,
                    ],
                ),
            ]
        } else {
            seq![
                step::launches(
                    "moe_align_count"@,
                    step::flat(
                        self.num_experts as int,
                        THREADS,
                        THREADS * 4,
                    ),
                    seq![
                        MoeArg::TopkIds,
                        MoeArg::ValidTokens,
                        MoeArg::Int(self.experts_per_token as i32),
                        MoeArg::Int(self.sorted_slots() as i32),
                        MoeArg::Int(self.dispatch_blocks() as i32),
                        MoeArg::SortedTokenIds,
                        MoeArg::ExpertIds,
                        MoeArg::ExpertCounts,
                    ],
                ),
                step::launches(
                    "moe_align_block_size"@,
                    step::flat(
                        self.num_experts as int,
                        THREADS,
                        (self.num_experts + 1 + THREADS) * 4,
                    ),
                    seq![
                        MoeArg::TopkIds,
                        MoeArg::ValidTokens,
                        MoeArg::ExpertCounts,
                        MoeArg::Int(self.experts_per_token as i32),
                        MoeArg::Int(self.num_experts as i32),
                        MoeArg::Int(self.block_size as i32),
                        MoeArg::Int(self.sorted_slots() as i32),
                        MoeArg::Int(self.dispatch_blocks() as i32),
                        MoeArg::SortedTokenIds,
                        MoeArg::ExpertIds,
                        MoeArg::NumTokensPostPad,
                    ],
                ),
            ]
        }
    }

    /// Routing and dispatch: one fused launch for a single token, the two
    /// sequences otherwise.
    pub open spec fn route_and_dispatch_steps(self) -> Seq<
        step::MoeStepView,
    > {
        if self.max_tokens == 1 {
            seq![
                step::launches(
                    "moe_route_dispatch_t1"@,
                    step::flat(
                        1,
                        THREADS,
                        (self.num_experts + THREADS) * 4 + (THREADS + self.num_experts + 1) * 4,
                    ),
                    seq![
                        MoeArg::Logits,
                        MoeArg::ValidTokens,
                        MoeArg::Int(self.num_experts as i32),
                        MoeArg::Int(self.experts_per_token as i32),
                        MoeArg::Int(self.block_size as i32),
                        MoeArg::Int(self.sorted_slots() as i32),
                        MoeArg::Int(self.dispatch_blocks() as i32),
                        MoeArg::TopkIds,
                        MoeArg::TopkWeights,
                        MoeArg::SortedTokenIds,
                        MoeArg::ExpertIds,
                        MoeArg::NumTokensPostPad,
                    ],
                ),
            ]
        } else {
            self.route_steps() + self.dispatch_steps()
        }
    }

    /// Whether gate/up take the integer tensor cores: enough tokens, and both
    /// stacks in one format.
    pub open spec fn ffn_on_tensor_cores(
        self,
        tensor_cores: bool,
        gate: ExpertQuant,
        up: ExpertQuant,
    ) -> bool {
        tensor_cores && self.max_tokens >= MMA_MIN_TOKENS && gate == up
    }

    /// Whether the down projection takes the integer tensor cores: enough
    /// tokens, and its own stack in Q8_0.
    pub open spec fn down_on_tensor_cores(self, tensor_cores: bool, down: ExpertQuant) -> bool {
        tensor_cores && self.max_tokens >= MMA_MIN_TOKENS && down == ExpertQuant::Q8_0
    }

    /// Arguments of a fp32 gate/up kernel.
    pub open spec fn ffn_args(self, gate: ExpertQuant, up: ExpertQuant) -> Seq<MoeArg> {
        seq![
            MoeArg::Gate,
            MoeArg::Int(gate.kernel_code()),
            MoeArg::Up,
            MoeArg::Int(up.kernel_code()),
            MoeArg::Hidden,
            MoeArg::SortedTokenIds,
            MoeArg::ExpertIds,
            MoeArg::ValidTokens,
            MoeArg::Int(self.experts_per_token as i32),
            MoeArg::Int(self.block_size as i32),
            MoeArg::Int(self.hidden as i32),
            MoeArg::Int(self.intermediate as i32),
            MoeArg::Inter,
        ]
    }

    /// Arguments of a fp32 down kernel.
    pub open spec fn down_args(self, down: ExpertQuant) -> Seq<MoeArg> {
        seq![
            MoeArg::Down,
            MoeArg::Int(down.kernel_code()),
            MoeArg::Inter,
            MoeArg::TopkWeights,
            MoeArg::SortedTokenIds,
            MoeArg::ExpertIds,
            MoeArg::ValidTokens,
            MoeArg::Int(self.experts_per_token as i32),
            MoeArg::Int(self.block_size as i32),
            MoeArg::Int(self.hidden as i32),
            MoeArg::Int(self.intermediate as i32),
            MoeArg::Partial,
        ]
    }

    /// Gate/up over the dispatch blocks.
    pub open spec fn ffn_steps(
        self,
        tensor_cores: bool,
        gate: ExpertQuant,
        up: ExpertQuant,
    ) -> Seq<step::MoeStepView> {
        if self.max_tokens == 1 {
            seq![
                step::launches(
                    "moe_expert_ffn_gemv"@,
                    step::banded(
                        self.intermediate,
                        TILE_ROWS,
                        self.dispatch_blocks(),
                        GEMM_THREADS,
                        0,
                    ),
                    self.ffn_args(gate, up),
                ),
            ]
        } else if self.ffn_on_tensor_cores(tensor_cores, gate, up) {
            seq![
                step::MoeStepView::QuantizeRows {
                    source: MoeArg::Hidden,
                    quants: MoeArg::Xq,
                    scales: MoeArg::XqScales,
                    rows: self.max_tokens,
                    cols: self.hidden,
                },
                step::launches(
                    if gate == ExpertQuant::Q8_0 {
                        "moe_expert_ffn_mma_q8"@
                    } else {
                        "moe_expert_ffn_mma"@
                    },
                    step::banded(
                        self.intermediate,
                        MMA_ROWS,
                        self.dispatch_blocks(),
                        256,
                        if gate == ExpertQuant::Q8_0 {
                            step::mma_ffn_q8_shared()
                        } else {
                            step::mma_shared()
                        },
                    ),
                    seq![
                        MoeArg::Gate,
                        MoeArg::Up,
                        MoeArg::Xq,
                        MoeArg::XqScales,
                        MoeArg::SortedTokenIds,
                        MoeArg::ExpertIds,
                        MoeArg::ValidTokens,
                        MoeArg::Int(self.experts_per_token as i32),
                        MoeArg::Int(self.block_size as i32),
                        MoeArg::Int(self.hidden as i32),
                        MoeArg::Int(self.intermediate as i32),
                        MoeArg::Inter,
                    ],
                ),
            ]
        } else {
            seq![
                step::launches(
                    "moe_expert_ffn"@,
                    step::banded(
                        self.intermediate,
                        TILE_ROWS,
                        self.dispatch_blocks(),
                        GEMM_THREADS,
                        step::tile_shared(),
                    ),
                    self.ffn_args(gate, up),
                ),
            ]
        }
    }

    /// The down projection over the dispatch blocks.
    pub open spec fn down_steps(self, tensor_cores: bool, down: ExpertQuant) -> Seq<
        step::MoeStepView,
    > {
        if self.max_tokens == 1 {
            seq![
                step::launches(
                    "moe_expert_down_gemv"@,
                    step::banded(
                        self.hidden,
                        TILE_ROWS,
                        self.dispatch_blocks(),
                        GEMM_THREADS,
                        0,
                    ),
                    self.down_args(down),
                ),
            ]
        } else if self.down_on_tensor_cores(tensor_cores, down) {
            seq![
                step::MoeStepView::QuantizeRows {
                    source: MoeArg::Inter,
                    quants: MoeArg::Iq,
                    scales: MoeArg::IqScales,
                    rows: self.sorted_slots() as usize,
                    cols: self.intermediate,
                },
                step::launches(
                    "moe_expert_down_mma"@,
                    step::banded(
                        self.hidden,
                        MMA_ROWS,
                        self.dispatch_blocks(),
                        256,
                        step::mma_down_shared(),
                    ),
                    seq![
                        MoeArg::Down,
                        MoeArg::Iq,
                        MoeArg::IqScales,
                        MoeArg::TopkWeights,
                        MoeArg::SortedTokenIds,
                        MoeArg::ExpertIds,
                        MoeArg::ValidTokens,
                        MoeArg::Int(self.experts_per_token as i32),
                        MoeArg::Int(self.block_size as i32),
                        MoeArg::Int(self.hidden as i32),
                        MoeArg::Int(self.intermediate as i32),
                        MoeArg::Partial,
                    ],
                ),
            ]
        } else {
            seq![
                step::launches(
                    "moe_expert_down"@,
                    step::banded(
                        self.hidden,
                        TILE_ROWS,
                        self.dispatch_blocks(),
                        GEMM_THREADS,
                        step::tile_shared(),
                    ),
                    self.down_args(down),
                ),
            ]
        }
    }

    /// The grouped GEMM up to the per-`(token, k)` contributions, which are
    /// zeroed before the down projection fills them.
    pub open spec fn grouped_steps(
        self,
        tensor_cores: bool,
        gate: ExpertQuant,
        up: ExpertQuant,
        down: ExpertQuant,
    ) -> Seq<step::MoeStepView> {
        self.ffn_steps(tensor_cores, gate, up) + seq![
            step::MoeStepView::Zero(MoeArg::Partial),
        ] + self.down_steps(tensor_cores, down)
    }

    /// The weighted sum of each token's contributions.
    pub open spec fn reduce_step(self) -> step::MoeStepView {
        step::launches(
            "moe_reduce"@,
            LaunchConfig {
                grid_dim: (
                    self.max_tokens as u32,
                    launch::ceil_div((self.hidden as u32) as int, THREADS as int) as u32,
                    1,
                ),
                block_dim: (THREADS, 1, 1),
                shared_mem_bytes: 0,
            },
            seq![
                MoeArg::Partial,
                MoeArg::ValidTokens,
                MoeArg::Int(self.experts_per_token as i32),
                MoeArg::Int(self.hidden as i32),
                MoeArg::Output,
            ],
        )
    }

    /// Why a set of stacks of `expected` elements each is refused, if it is.
    pub open spec fn stacks_refusal(
        names: (&'static str, &'static str, &'static str),
        gate: QuantTensor,
        up: QuantTensor,
        down: QuantTensor,
        expected: int,
    ) -> Option<MoeError> {
        match gate.refusal(names.0, expected) {
            Some(e) => Some(e),
            None => match up.refusal(names.1, expected) {
                Some(e) => Some(e),
                None => down.refusal(names.2, expected),
            },
        }
    }
}

impl MoeGeometry {
    /// Shared bytes of the widest dispatch block: the prefix sum, and the
    /// placement scan of a batch.
    pub open spec fn dispatch_shared(self) -> int {
        if self.max_tokens == 1 {
            (self.num_experts + 1) * 4
        } else {
            (self.num_experts + 1 + THREADS) * 4
        }
    }

    /// Elements of one expert's matrix.
    pub open spec fn one_expert(self) -> int {
        self.intermediate * self.hidden
    }

    /// Why the shared expert is refused, if it is. Its one-token form splits
    /// the contraction over [`SHARED_WARPS`] warps in whole tiles.
    pub open spec fn shared_refusal(
        self,
        gate: QuantTensor,
        up: QuantTensor,
        down: QuantTensor,
    ) -> Option<MoeError> {
        match Self::stacks_refusal(
            ("shared gate", "shared up", "shared down"),
            gate,
            up,
            down,
            self.one_expert(),
        ) {
            Some(e) => Some(e),
            None => if self.max_tokens == 1 && self.hidden as int % (SHARED_WARPS * TILE_K) != 0 {
                Some(
                    self.refused(
                        "the one-token shared expert splits `hidden` over 8 warps in 128-element tiles, so it must be a multiple of 1024",
                    ),
                )
            } else {
                None
            },
        }
    }

    /// The shared expert: gate/up with SwiGLU, then down, with no routing.
    pub open spec fn shared_steps(self, gate: ExpertQuant, up: ExpertQuant, down: ExpertQuant) -> Seq<
        step::MoeStepView,
    > {
        let one = self.max_tokens == 1;
        let tiles = launch::ceil_div((self.max_tokens as u32) as int, TILE_M as int);
        seq![
            step::launches(
                if one {
                    "moe_shared_ffn_gemv"@
                } else {
                    "moe_shared_ffn"@
                },
                if one {
                    step::flat((self.intermediate as u32) as int, 128, 0)
                } else {
                    step::banded(
                        self.intermediate,
                        TILE_ROWS,
                        tiles,
                        GEMM_THREADS,
                        step::tile_shared(),
                    )
                },
                seq![
                    MoeArg::Gate,
                    MoeArg::Int(gate.kernel_code()),
                    MoeArg::Up,
                    MoeArg::Int(up.kernel_code()),
                    MoeArg::Hidden,
                    MoeArg::ValidTokens,
                    MoeArg::Int(self.hidden as i32),
                    MoeArg::Int(self.intermediate as i32),
                    MoeArg::SharedInter,
                ],
            ),
            step::launches(
                if one {
                    "moe_shared_down_gemv"@
                } else {
                    "moe_shared_down"@
                },
                if one {
                    step::banded(self.hidden, TILE_ROWS, 1, GEMM_THREADS, 0)
                } else {
                    step::banded(self.hidden, TILE_ROWS, tiles, GEMM_THREADS, step::tile_shared())
                },
                seq![
                    MoeArg::Down,
                    MoeArg::Int(down.kernel_code()),
                    MoeArg::SharedInter,
                    MoeArg::ValidTokens,
                    MoeArg::Int(self.hidden as i32),
                    MoeArg::Int(self.intermediate as i32),
                    MoeArg::Output,
                ],
            ),
        ]
    }

    /// The shared expert on the integer tensor cores: quantize, project twice,
    /// SwiGLU, quantize again, project down.
    pub open spec fn shared_mma_steps(self) -> Seq<step::MoeStepView> {
        let elems = self.max_tokens * self.intermediate;
        seq![
            step::MoeStepView::QuantizeRows {
                source: MoeArg::Hidden,
                quants: MoeArg::Xq,
                scales: MoeArg::XqScales,
                rows: self.max_tokens,
                cols: self.hidden,
            },
            step::MoeStepView::Project {
                weight: MoeArg::GateInt8,
                weight_scales: MoeArg::GateScales,
                input: MoeArg::Xq,
                input_scales: MoeArg::XqScales,
                output: MoeArg::SharedGateOut,
                k: self.hidden,
                n: self.intermediate,
                m: self.max_tokens,
            },
            step::MoeStepView::Project {
                weight: MoeArg::UpInt8,
                weight_scales: MoeArg::UpScales,
                input: MoeArg::Xq,
                input_scales: MoeArg::XqScales,
                output: MoeArg::SharedInter,
                k: self.hidden,
                n: self.intermediate,
                m: self.max_tokens,
            },
            step::launches(
                "moe_swiglu"@,
                step::flat(launch::ceil_div((elems as u32) as int, THREADS as int), THREADS, 0),
                seq![
                    MoeArg::SharedGateOut,
                    MoeArg::SharedInter,
                    MoeArg::Long(elems as i64),
                    MoeArg::SharedSwiglu,
                ],
            ),
            step::MoeStepView::QuantizeRows {
                source: MoeArg::SharedSwiglu,
                quants: MoeArg::Siq,
                scales: MoeArg::SiqScales,
                rows: self.max_tokens,
                cols: self.intermediate,
            },
            step::MoeStepView::Project {
                weight: MoeArg::DownInt8,
                weight_scales: MoeArg::DownScales,
                input: MoeArg::Siq,
                input_scales: MoeArg::SiqScales,
                output: MoeArg::Output,
                k: self.intermediate,
                n: self.hidden,
                m: self.max_tokens,
            },
        ]
    }
}

/// What an instance is: its geometry, and whether the integer tensor cores are
/// available to it.
pub struct MoeView {
    /// The geometry.
    pub geometry: MoeGeometry,
    /// Whether the integer path may be taken.
    pub tensor_cores: bool,
}

/// The MoE kernels for one fixed geometry.
pub struct MoeKernels {
    ptx: String,
    mma: Option<MmaKernels>,
    geometry: MoeGeometry,
}

impl View for MoeKernels {
    type V = MoeView;

    closed spec fn view(&self) -> MoeView {
        MoeView { geometry: self.geometry, tensor_cores: self.mma is Some }
    }
}

impl MoeKernels {
    #[verifier::type_invariant]
    spec fn geometry_is_supported(self) -> bool {
        self.geometry.supported()
    }

    /// The PTX the entry points are loaded from.
    pub closed spec fn image(self) -> Seq<char> {
        self.ptx@
    }

    /// The integer module's PTX, where there is one.
    pub closed spec fn mma_image(self) -> Option<Seq<char>> {
        match self.mma {
            Some(m) => Some(m.image()),
            None => None,
        }
    }

    /// Validate a geometry.
    fn validate(geometry: MoeGeometry) -> (r: Result<(), MoeError>)
        requires
            geometry.shape_reason() is None ==> geometry.sorted_slots() <= usize::MAX,
        ensures
            match geometry.reason() {
                Some(reason) => r == Err::<(), MoeError>(geometry.refused(reason)),
                None => r is Ok,
            },
    {
        let reason: &'static str;
        if geometry.block_size == 0 {
            reason = "block_size must be non-zero";
        } else if geometry.experts_per_token == 0 {
            reason = "experts_per_token must be non-zero";
        } else if geometry.experts_per_token > geometry.num_experts {
            reason = "experts_per_token must not exceed num_experts";
        } else if geometry.max_tokens == 0 {
            reason = "max_tokens must be non-zero";
        } else if geometry.hidden == 0 || geometry.intermediate == 0 {
            reason = "hidden and intermediate must be non-zero";
        } else if geometry.hidden % TILE_K != 0 {
            reason = "hidden must be a multiple of the 128-element tile";
        } else if geometry.intermediate % TILE_K != 0 {
            reason = "intermediate must be a multiple of the 128-element tile";
        } else if geometry.block_size > MMA_M {
            reason = "block_size exceeds the 16 slots the tensor-core tile stages";
        } else if geometry.expert_block_capacity() > GRID_Y_LIMIT {
            reason = "dispatch-block capacity exceeds the 65535 grid.y limit";
        } else if geometry.max_tokens > GRID_Y_LIMIT {
            reason = "max_tokens exceeds the 65535 grid limit";
        } else {
            return Ok(());
        }
        Err(MoeError::UnsupportedGeometry { geometry: Box::new(geometry), reason })
    }

    /// The kernels of already compiled PTX, with the integer module where it
    /// compiled.
    pub fn from_ptx(ptx: String, mma: Option<MmaKernels>, geometry: MoeGeometry) -> (r: Result<
        Self,
        MoeError,
    >)
        requires
            geometry.shape_reason() is None ==> geometry.sorted_slots() <= usize::MAX,
        ensures
            match geometry.reason() {
                Some(reason) => r == Err::<Self, MoeError>(geometry.refused(reason)),
                None => {
                    &&& r matches Ok(k)
                    &&& k@ == (MoeView { geometry, tensor_cores: mma is Some })
                    &&& k.image() == ptx@
                    &&& k.mma_image() == match mma {
                        Some(m) => Some(m.image()),
                        None => None,
                    }
                },
            },
    {
        Self::validate(geometry)?;
        Ok(MoeKernels { ptx, mma, geometry })
    }

    /// Both modules were compiled, the kernels' own and then the integer one,
    /// with the cache at `mid` between them. The integer module is missing only
    /// where the compiler rejected it.
    pub open spec fn compiled_both(
        k: Self,
        before: PtxCache,
        mid: PtxCache,
        after: PtxCache,
    ) -> bool {
        let src = crate::source::moe::moe_src_text();
        &&& ptx::obtained(before.entries(), mid.entries(), src, "moe"@, k.image())
        &&& ptx::counted(before, mid, src, "moe"@)
        &&& ptx::counted(mid, after, MMA_SRC@, "mma_int8"@)
        &&& match k.mma_image() {
            Some(m) => ptx::obtained(mid.entries(), after.entries(), MMA_SRC@, "mma_int8"@, m),
            None => {
                &&& exists|text: Seq<char>| #[trigger]
                    ptx::rejected(MMA_SRC@, "mma_int8"@, text)
                &&& !mid.entries().contains_key(MMA_SRC@)
                &&& after.entries() == mid.entries()
            },
        }
    }

    /// Compile and validate for `geometry`.
    ///
    /// The geometry is checked once, here, and a refused one compiles nothing.
    /// The integer module is compiled here too, so that a compiler without it
    /// is found at construction; where it does not compile the fp32 path stays
    /// available and every sequence falls back to it.
    pub fn new(cache: &mut PtxCache, geometry: MoeGeometry) -> (r: Result<Self, MoeError>)
        requires
            geometry.shape_reason() is None ==> geometry.sorted_slots() <= usize::MAX,
        ensures
            match geometry.reason() {
                Some(reason) => {
                    &&& r == Err::<Self, MoeError>(geometry.refused(reason))
                    &&& *final(cache) == *old(cache)
                },
                None => {
                    &&& old(cache).entries().contains_key(crate::source::moe::moe_src_text())
                        ==> r is Ok
                    &&& r matches Ok(k) ==> {
                        &&& k@.geometry == geometry
                        &&& k@.tensor_cores == k.mma_image() is Some
                        &&& old(cache).entries().contains_key(MMA_SRC@) ==> k@.tensor_cores
                        &&& exists|mid: PtxCache| #[trigger]
                            Self::compiled_both(k, *old(cache), mid, *final(cache))
                    }
                    &&& r matches Err(e) ==> {
                        &&& ptx::counted(
                            *old(cache),
                            *final(cache),
                            crate::source::moe::moe_src_text(),
                            "moe"@,
                        )
                        &&& e matches MoeError::Compile(m) && ptx::rejected(
                            crate::source::moe::moe_src_text(),
                            "moe"@,
                            m@,
                        )
                        &&& final(cache).entries() == old(cache).entries()
                    }
                },
            },
    {
        Self::validate(geometry)?;
        let src: String = moe_src();
        match compile_family(cache, src.as_str(), "moe") {
            Ok(ptx) => {
                let ghost mid = *cache;
                let mma: Option<MmaKernels> = match MmaKernels::new(cache) {
                    Ok(m) => Some(m),
                    Err(_) => None,
                };
                let r: Result<Self, MoeError> = Self::from_ptx(ptx, mma, geometry);
                assert(Self::compiled_both(r->Ok_0, *old(cache), mid, *cache));
                r
            },
            Err(m) => Err(MoeError::Compile(m)),
        }
    }

    /// The PTX to load.
    pub fn ptx(&self) -> (s: &str)
        ensures
            s@ == self.image(),
    {
        self.ptx.as_str()
    }

    /// The entry points to load.
    pub fn entry_points() -> (names: Vec<&'static str>)
        ensures
            names@ == seq![
                "moe_route",
                "moe_dispatch_t1",
                "moe_route_dispatch_t1",
                "moe_align_count",
                "moe_align_block_size",
                "moe_expert_ffn",
                "moe_expert_ffn_gemv",
                "moe_expert_down_gemv",
                "moe_expert_ffn_mma",
                "moe_expert_ffn_mma_q8",
                "moe_expert_down",
                "moe_expert_down_mma",
                "moe_reduce",
                "moe_shared_ffn",
                "moe_shared_down",
                "moe_shared_ffn_gemv",
                "moe_shared_down_gemv",
                "moe_swiglu",
            ],
    {
        vec![
            "moe_route",
            "moe_dispatch_t1",
            "moe_route_dispatch_t1",
            "moe_align_count",
            "moe_align_block_size",
            "moe_expert_ffn",
            "moe_expert_ffn_gemv",
            "moe_expert_down_gemv",
            "moe_expert_ffn_mma",
            "moe_expert_ffn_mma_q8",
            "moe_expert_down",
            "moe_expert_down_mma",
            "moe_reduce",
            "moe_shared_ffn",
            "moe_shared_down",
            "moe_shared_ffn_gemv",
            "moe_shared_down_gemv",
            "moe_swiglu",
        ]
    }

    /// The geometry this instance was compiled for.
    pub fn geometry(&self) -> (g: MoeGeometry)
        ensures
            g == self@.geometry,
            g.supported(),
    {
        proof {
            use_type_invariant(self);
        }
        self.geometry
    }

    /// Force the grouped GEMM back onto the fp32 kernels.
    pub fn disable_tensor_cores(&mut self)
        ensures
            final(self)@ == (MoeView { geometry: old(self)@.geometry, tensor_cores: false }),
            final(self).image() == old(self).image(),
            final(self).mma_image() is None,
    {
        proof {
            use_type_invariant(&*self);
        }
        self.mma = None;
    }

    /// Whether the integer tensor-core path may be taken.
    pub fn tensor_cores_enabled(&self) -> (b: bool)
        ensures
            b == self@.tensor_cores,
    {
        self.mma.is_some()
    }

    /// Softmax and top-k over all experts, on the device.
    pub fn route(&self) -> (r: Result<Vec<MoeStep>, MoeError>)
        ensures
            match self@.geometry.route_refusal() {
                Some(e) => r == Err::<Vec<MoeStep>, MoeError>(e),
                None => r matches Ok(steps) && step::steps_of(steps@)
                    == self@.geometry.route_steps(),
            },
    {
        let g: MoeGeometry = self.geometry();
        if g.num_experts > 32 * ROUTE_LANE_EXPERTS {
            return Err(
                MoeError::UnsupportedGeometry {
                    geometry: Box::new(g),
                    reason: "the routing warp holds 16 experts per lane, so at most 512 experts",
                },
            );
        }
        let shared: u32 = ((g.num_experts + THREADS as usize) * 4 + THREADS as usize * 4) as u32;
        let steps: Vec<MoeStep> = vec![
            launch_step(
                "moe_route",
                LaunchConfig {
                    grid_dim: (g.max_tokens as u32, 1, 1),
                    block_dim: (THREADS, 1, 1),
                    shared_mem_bytes: shared,
                },
                vec![
                    MoeArg::Logits,
                    MoeArg::ValidTokens,
                    MoeArg::Int(g.num_experts as i32),
                    MoeArg::Int(g.experts_per_token as i32),
                    MoeArg::TopkIds,
                    MoeArg::TopkWeights,
                ],
            ),
        ];
        assert(step::steps_of(steps@) =~= g.route_steps());
        Ok(steps)
    }

    /// Build the sorted-token indirection into the fixed-size buffers.
    pub fn build_dispatch(&self) -> (r: Result<Vec<MoeStep>, MoeError>)
        requires
            self@.geometry.dispatch_shared() <= usize::MAX,
        ensures
            r matches Ok(steps) && step::steps_of(steps@) == self@.geometry.dispatch_steps(),
    {
        let g: MoeGeometry = self.geometry();
        proof {
            step::lemma_supported_sizes(g);
        }
        let top_k: i32 = g.experts_per_token as i32;
        let num_experts: i32 = g.num_experts as i32;
        let block_size: i32 = g.block_size as i32;
        let sorted_capacity: i32 = g.sorted_capacity() as i32;
        let expert_capacity: i32 = g.expert_block_capacity() as i32;
        if g.max_tokens == 1 {
            let steps: Vec<MoeStep> = vec![
                launch_step(
                    "moe_dispatch_t1",
                    LaunchConfig {
                        grid_dim: (1, 1, 1),
                        block_dim: (THREADS, 1, 1),
                        shared_mem_bytes: ((g.num_experts + 1) * 4) as u32,
                    },
                    vec![
                        MoeArg::TopkIds,
                        MoeArg::ValidTokens,
                        MoeArg::Int(top_k),
                        MoeArg::Int(num_experts),
                        MoeArg::Int(block_size),
                        MoeArg::Int(sorted_capacity),
                        MoeArg::Int(expert_capacity),
                        MoeArg::SortedTokenIds,
                        MoeArg::ExpertIds,
                        MoeArg::NumTokensPostPad,
                    ],
                ),
            ];
            assert(step::steps_of(steps@) =~= g.dispatch_steps());
            return Ok(steps);
        }
        let steps: Vec<MoeStep> = vec![
            launch_step(
                "moe_align_count",
                LaunchConfig {
                    grid_dim: (g.num_experts as u32, 1, 1),
                    block_dim: (THREADS, 1, 1),
                    shared_mem_bytes: (THREADS as usize * 4) as u32,
                },
                vec![
                    MoeArg::TopkIds,
                    MoeArg::ValidTokens,
                    MoeArg::Int(top_k),
                    MoeArg::Int(sorted_capacity),
                    MoeArg::Int(expert_capacity),
                    MoeArg::SortedTokenIds,
                    MoeArg::ExpertIds,
                    MoeArg::ExpertCounts,
                ],
            ),
            launch_step(
                "moe_align_block_size",
                LaunchConfig {
                    grid_dim: (g.num_experts as u32, 1, 1),
                    block_dim: (THREADS, 1, 1),
                    shared_mem_bytes: ((g.num_experts + 1 + THREADS as usize) * 4) as u32,
                },
                vec![
                    MoeArg::TopkIds,
                    MoeArg::ValidTokens,
                    MoeArg::ExpertCounts,
                    MoeArg::Int(top_k),
                    MoeArg::Int(num_experts),
                    MoeArg::Int(block_size),
                    MoeArg::Int(sorted_capacity),
                    MoeArg::Int(expert_capacity),
                    MoeArg::SortedTokenIds,
                    MoeArg::ExpertIds,
                    MoeArg::NumTokensPostPad,
                ],
            ),
        ];
        assert(step::steps_of(steps@) =~= g.dispatch_steps());
        Ok(steps)
    }

    /// Routing and the dispatch table, in as few launches as the shape allows.
    pub fn route_and_dispatch(&self) -> (r: Result<Vec<MoeStep>, MoeError>)
        ensures
            match self@.geometry.route_refusal() {
                Some(e) => r == Err::<Vec<MoeStep>, MoeError>(e),
                None => r matches Ok(steps) && step::steps_of(steps@)
                    == self@.geometry.route_and_dispatch_steps(),
            },
    {
        let g: MoeGeometry = self.geometry();
        proof {
            step::lemma_supported_sizes(g);
        }
        if g.max_tokens != 1 {
            let mut steps: Vec<MoeStep> = self.route()?;
            let mut more: Vec<MoeStep> = self.build_dispatch()?;
            let ghost (a, b) = (steps@, more@);
            steps.append(&mut more);
            assert(step::steps_of(a + b) =~= step::steps_of(a) + step::steps_of(b));
            return Ok(steps);
        }
        if g.num_experts > 32 * ROUTE_LANE_EXPERTS {
            return Err(
                MoeError::UnsupportedGeometry {
                    geometry: Box::new(g),
                    reason: "the routing warp holds 16 experts per lane, so at most 512 experts",
                },
            );
        }
        let shared: u32 = ((g.num_experts + THREADS as usize) * 4 + (THREADS as usize
            + g.num_experts + 1) * 4) as u32;
        let steps: Vec<MoeStep> = vec![
            launch_step(
                "moe_route_dispatch_t1",
                LaunchConfig {
                    grid_dim: (1, 1, 1),
                    block_dim: (THREADS, 1, 1),
                    shared_mem_bytes: shared,
                },
                vec![
                    MoeArg::Logits,
                    MoeArg::ValidTokens,
                    MoeArg::Int(g.num_experts as i32),
                    MoeArg::Int(g.experts_per_token as i32),
                    MoeArg::Int(g.block_size as i32),
                    MoeArg::Int(g.sorted_capacity() as i32),
                    MoeArg::Int(g.expert_block_capacity() as i32),
                    MoeArg::TopkIds,
                    MoeArg::TopkWeights,
                    MoeArg::SortedTokenIds,
                    MoeArg::ExpertIds,
                    MoeArg::NumTokensPostPad,
                ],
            ),
        ];
        assert(step::steps_of(steps@) =~= g.route_and_dispatch_steps());
        Ok(steps)
    }

    /// Gate/up over the dispatch blocks.
    fn ffn(&self, gate: ExpertQuant, up: ExpertQuant) -> (steps: Vec<MoeStep>)
        ensures
            step::steps_of(steps@) == self@.geometry.ffn_steps(self@.tensor_cores, gate, up),
    {
        let g: MoeGeometry = self.geometry();
        proof {
            step::lemma_supported_sizes(g);
        }
        let top_k: i32 = g.experts_per_token as i32;
        let block_size: i32 = g.block_size as i32;
        let hidden: i32 = g.hidden as i32;
        let intermediate: i32 = g.intermediate as i32;
        let blocks: usize = g.expert_block_capacity();
        let gemv: bool = g.max_tokens == 1;
        if !gemv && self.mma.is_some() && g.max_tokens >= MMA_MIN_TOKENS && gate == up {
            let q8: bool = gate == ExpertQuant::Q8_0;
            let kernel: &'static str = if q8 {
                "moe_expert_ffn_mma_q8"
            } else {
                "moe_expert_ffn_mma"
            };
            let shared: u32 = if q8 {
                mma_ffn_q8_shared_bytes()
            } else {
                mma_shared_bytes()
            };
            let steps: Vec<MoeStep> = vec![
                MoeStep::QuantizeRows {
                    source: MoeArg::Hidden,
                    quants: MoeArg::Xq,
                    scales: MoeArg::XqScales,
                    rows: g.max_tokens,
                    cols: g.hidden,
                },
                launch_step(
                    kernel,
                    banded_config(g.intermediate, MMA_ROWS, blocks, MMA_WARPS * 32, shared),
                    vec![
                        MoeArg::Gate,
                        MoeArg::Up,
                        MoeArg::Xq,
                        MoeArg::XqScales,
                        MoeArg::SortedTokenIds,
                        MoeArg::ExpertIds,
                        MoeArg::ValidTokens,
                        MoeArg::Int(top_k),
                        MoeArg::Int(block_size),
                        MoeArg::Int(hidden),
                        MoeArg::Int(intermediate),
                        MoeArg::Inter,
                    ],
                ),
            ];
            assert(step::steps_of(steps@) =~= g.ffn_steps(self@.tensor_cores, gate, up));
            return steps;
        }
        let kernel: &'static str = if gemv {
            "moe_expert_ffn_gemv"
        } else {
            "moe_expert_ffn"
        };
        let shared: u32 = if gemv {
            0
        } else {
            tile_shared_bytes()
        };
        let steps: Vec<MoeStep> = vec![
            launch_step(
                kernel,
                banded_config(g.intermediate, TILE_ROWS, blocks, GEMM_THREADS, shared),
                vec![
                    MoeArg::Gate,
                    MoeArg::Int(gate.code()),
                    MoeArg::Up,
                    MoeArg::Int(up.code()),
                    MoeArg::Hidden,
                    MoeArg::SortedTokenIds,
                    MoeArg::ExpertIds,
                    MoeArg::ValidTokens,
                    MoeArg::Int(top_k),
                    MoeArg::Int(block_size),
                    MoeArg::Int(hidden),
                    MoeArg::Int(intermediate),
                    MoeArg::Inter,
                ],
            ),
        ];
        assert(step::steps_of(steps@) =~= g.ffn_steps(self@.tensor_cores, gate, up));
        steps
    }

    /// The down projection over the dispatch blocks.
    fn down(&self, down: ExpertQuant) -> (steps: Vec<MoeStep>)
        ensures
            step::steps_of(steps@) == self@.geometry.down_steps(self@.tensor_cores, down),
    {
        let g: MoeGeometry = self.geometry();
        proof {
            step::lemma_supported_sizes(g);
        }
        let top_k: i32 = g.experts_per_token as i32;
        let block_size: i32 = g.block_size as i32;
        let hidden: i32 = g.hidden as i32;
        let intermediate: i32 = g.intermediate as i32;
        let blocks: usize = g.expert_block_capacity();
        let gemv: bool = g.max_tokens == 1;
        if !gemv && self.mma.is_some() && g.max_tokens >= MMA_MIN_TOKENS && down
            == ExpertQuant::Q8_0 {
            let steps: Vec<MoeStep> = vec![
                MoeStep::QuantizeRows {
                    source: MoeArg::Inter,
                    quants: MoeArg::Iq,
                    scales: MoeArg::IqScales,
                    rows: g.sorted_capacity(),
                    cols: g.intermediate,
                },
                launch_step(
                    "moe_expert_down_mma",
                    banded_config(
                        g.hidden,
                        MMA_ROWS,
                        blocks,
                        MMA_WARPS * 32,
                        mma_down_shared_bytes(),
                    ),
                    vec![
                        MoeArg::Down,
                        MoeArg::Iq,
                        MoeArg::IqScales,
                        MoeArg::TopkWeights,
                        MoeArg::SortedTokenIds,
                        MoeArg::ExpertIds,
                        MoeArg::ValidTokens,
                        MoeArg::Int(top_k),
                        MoeArg::Int(block_size),
                        MoeArg::Int(hidden),
                        MoeArg::Int(intermediate),
                        MoeArg::Partial,
                    ],
                ),
            ];
            assert(step::steps_of(steps@) =~= g.down_steps(self@.tensor_cores, down));
            return steps;
        }
        let kernel: &'static str = if gemv {
            "moe_expert_down_gemv"
        } else {
            "moe_expert_down"
        };
        let shared: u32 = if gemv {
            0
        } else {
            tile_shared_bytes()
        };
        let steps: Vec<MoeStep> = vec![
            launch_step(
                kernel,
                banded_config(g.hidden, TILE_ROWS, blocks, GEMM_THREADS, shared),
                vec![
                    MoeArg::Down,
                    MoeArg::Int(down.code()),
                    MoeArg::Inter,
                    MoeArg::TopkWeights,
                    MoeArg::SortedTokenIds,
                    MoeArg::ExpertIds,
                    MoeArg::ValidTokens,
                    MoeArg::Int(top_k),
                    MoeArg::Int(block_size),
                    MoeArg::Int(hidden),
                    MoeArg::Int(intermediate),
                    MoeArg::Partial,
                ],
            ),
        ];
        assert(step::steps_of(steps@) =~= g.down_steps(self@.tensor_cores, down));
        steps
    }

    /// The grouped GEMM over the dispatch tables, stopping at the
    /// per-`(token, k)` contributions.
    ///
    /// The three stacks are checked against the geometry first. One token is a
    /// GEMV with its own pair of kernels; from [`MMA_MIN_TOKENS`] tokens on the
    /// two halves take the integer tensor cores, each on its own formats.
    pub fn grouped_forward_partial(
        &self,
        gate: QuantTensor,
        up: QuantTensor,
        down: QuantTensor,
    ) -> (r: Result<Vec<MoeStep>, MoeError>)
        requires
            self@.geometry.num_experts * self@.geometry.intermediate <= usize::MAX,
            self@.geometry.stack() <= usize::MAX,
            gate.whole() ==> gate.held() <= usize::MAX,
            up.whole() ==> up.held() <= usize::MAX,
            down.whole() ==> down.held() <= usize::MAX,
        ensures
            match MoeGeometry::stacks_refusal(
                ("gate", "up", "down"),
                gate,
                up,
                down,
                self@.geometry.stack(),
            ) {
                Some(e) => r == Err::<Vec<MoeStep>, MoeError>(e),
                None => r matches Ok(steps) && step::steps_of(steps@)
                    == self@.geometry.grouped_steps(
                    self@.tensor_cores,
                    gate.quant,
                    up.quant,
                    down.quant,
                ),
            },
    {
        let g: MoeGeometry = self.geometry();
        check_stack("gate", gate, g.stack_elements())?;
        check_stack("up", up, g.stack_elements())?;
        check_stack("down", down, g.stack_elements())?;
        let mut steps: Vec<MoeStep> = self.ffn(gate.quant, up.quant);
        let ghost a = steps@;
        steps.push(MoeStep::Zero(MoeArg::Partial));
        let mut more: Vec<MoeStep> = self.down(down.quant);
        let ghost b = more@;
        steps.append(&mut more);
        assert(step::steps_of(steps@) =~= step::steps_of(a) + seq![
            step::MoeStepView::Zero(MoeArg::Partial),
        ] + step::steps_of(b));
        Ok(steps)
    }

    /// The routed half of the block: the grouped GEMM, then the weighted sum
    /// of each token's contributions.
    pub fn grouped_forward(&self, gate: QuantTensor, up: QuantTensor, down: QuantTensor) -> (r:
        Result<Vec<MoeStep>, MoeError>)
        requires
            self@.geometry.num_experts * self@.geometry.intermediate <= usize::MAX,
            self@.geometry.stack() <= usize::MAX,
            gate.whole() ==> gate.held() <= usize::MAX,
            up.whole() ==> up.held() <= usize::MAX,
            down.whole() ==> down.held() <= usize::MAX,
        ensures
            match MoeGeometry::stacks_refusal(
                ("gate", "up", "down"),
                gate,
                up,
                down,
                self@.geometry.stack(),
            ) {
                Some(e) => r == Err::<Vec<MoeStep>, MoeError>(e),
                None => r matches Ok(steps) && step::steps_of(steps@)
                    == self@.geometry.grouped_steps(
                    self@.tensor_cores,
                    gate.quant,
                    up.quant,
                    down.quant,
                ).push(self@.geometry.reduce_step()),
            },
    {
        let mut steps: Vec<MoeStep> = self.grouped_forward_partial(gate, up, down)?;
        let ghost a = steps@;
        let g: MoeGeometry = self.geometry();
        steps.push(
            launch_step(
                "moe_reduce",
                LaunchConfig {
                    grid_dim: (
                        g.max_tokens as u32,
                        div_ceil_u32(g.hidden as u32, THREADS),
                        1,
                    ),
                    block_dim: (THREADS, 1, 1),
                    shared_mem_bytes: 0,
                },
                vec![
                    MoeArg::Partial,
                    MoeArg::ValidTokens,
                    MoeArg::Int(g.experts_per_token as i32),
                    MoeArg::Int(g.hidden as i32),
                    MoeArg::Output,
                ],
            ),
        );
        assert(step::steps_of(steps@) =~= step::steps_of(a).push(g.reduce_step()));
        Ok(steps)
    }

    /// The shared expert on the integer tensor cores.
    pub fn shared_expert_mma(&self) -> (r: Result<Vec<MoeStep>, MoeError>)
        requires
            self@.tensor_cores ==> self@.geometry.max_tokens * self@.geometry.intermediate
                <= usize::MAX,
        ensures
            !self@.tensor_cores ==> r == Err::<Vec<MoeStep>, MoeError>(
                self@.geometry.refused("the integer tensor cores are unavailable on this device"),
            ),
            self@.tensor_cores ==> (r matches Ok(steps) && step::steps_of(steps@)
                == self@.geometry.shared_mma_steps()),
    {
        let g: MoeGeometry = self.geometry();
        if self.mma.is_none() {
            return Err(
                MoeError::UnsupportedGeometry {
                    geometry: Box::new(g),
                    reason: "the integer tensor cores are unavailable on this device",
                },
            );
        }
        let elems: usize = g.max_tokens * g.intermediate;
        let steps: Vec<MoeStep> = vec![
            MoeStep::QuantizeRows {
                source: MoeArg::Hidden,
                quants: MoeArg::Xq,
                scales: MoeArg::XqScales,
                rows: g.max_tokens,
                cols: g.hidden,
            },
            MoeStep::Project {
                weight: MoeArg::GateInt8,
                weight_scales: MoeArg::GateScales,
                input: MoeArg::Xq,
                input_scales: MoeArg::XqScales,
                output: MoeArg::SharedGateOut,
                k: g.hidden,
                n: g.intermediate,
                m: g.max_tokens,
            },
            MoeStep::Project {
                weight: MoeArg::UpInt8,
                weight_scales: MoeArg::UpScales,
                input: MoeArg::Xq,
                input_scales: MoeArg::XqScales,
                output: MoeArg::SharedInter,
                k: g.hidden,
                n: g.intermediate,
                m: g.max_tokens,
            },
            launch_step(
                "moe_swiglu",
                LaunchConfig {
                    grid_dim: (div_ceil_u32(elems as u32, THREADS), 1, 1),
                    block_dim: (THREADS, 1, 1),
                    shared_mem_bytes: 0,
                },
                vec![
                    MoeArg::SharedGateOut,
                    MoeArg::SharedInter,
                    MoeArg::Long(elems as i64),
                    MoeArg::SharedSwiglu,
                ],
            ),
            MoeStep::QuantizeRows {
                source: MoeArg::SharedSwiglu,
                quants: MoeArg::Siq,
                scales: MoeArg::SiqScales,
                rows: g.max_tokens,
                cols: g.intermediate,
            },
            MoeStep::Project {
                weight: MoeArg::DownInt8,
                weight_scales: MoeArg::DownScales,
                input: MoeArg::Siq,
                input_scales: MoeArg::SiqScales,
                output: MoeArg::Output,
                k: g.intermediate,
                n: g.hidden,
                m: g.max_tokens,
            },
        ];
        assert(step::steps_of(steps@) =~= g.shared_mma_steps());
        Ok(steps)
    }

    /// The shared expert, applied to every token unconditionally.
    ///
    /// The stacks are single-expert: `[intermediate x hidden]` for gate and
    /// up, `[hidden x intermediate]` for down.
    pub fn shared_expert(&self, gate: QuantTensor, up: QuantTensor, down: QuantTensor) -> (r:
        Result<Vec<MoeStep>, MoeError>)
        requires
            self@.geometry.one_expert() <= usize::MAX,
            gate.whole() ==> gate.held() <= usize::MAX,
            up.whole() ==> up.held() <= usize::MAX,
            down.whole() ==> down.held() <= usize::MAX,
        ensures
            match self@.geometry.shared_refusal(gate, up, down) {
                Some(e) => r == Err::<Vec<MoeStep>, MoeError>(e),
                None => r matches Ok(steps) && step::steps_of(steps@)
                    == self@.geometry.shared_steps(gate.quant, up.quant, down.quant),
            },
    {
        let g: MoeGeometry = self.geometry();
        let one_expert: usize = g.intermediate * g.hidden;
        check_stack("shared gate", gate, one_expert)?;
        check_stack("shared up", up, one_expert)?;
        check_stack("shared down", down, one_expert)?;
        let ffn_args: Vec<MoeArg> = vec![
            MoeArg::Gate,
            MoeArg::Int(gate.quant.code()),
            MoeArg::Up,
            MoeArg::Int(up.quant.code()),
            MoeArg::Hidden,
            MoeArg::ValidTokens,
            MoeArg::Int(g.hidden as i32),
            MoeArg::Int(g.intermediate as i32),
            MoeArg::SharedInter,
        ];
        let down_args: Vec<MoeArg> = vec![
            MoeArg::Down,
            MoeArg::Int(down.quant.code()),
            MoeArg::SharedInter,
            MoeArg::ValidTokens,
            MoeArg::Int(g.hidden as i32),
            MoeArg::Int(g.intermediate as i32),
            MoeArg::Output,
        ];
        if g.max_tokens == 1 {
            if g.hidden % (SHARED_WARPS as usize * TILE_K) != 0 {
                return Err(
                    MoeError::UnsupportedGeometry {
                        geometry: Box::new(g),
                        reason:
                            "the one-token shared expert splits `hidden` over 8 warps in 128-element tiles, so it must be a multiple of 1024",
                    },
                );
            }
            let steps: Vec<MoeStep> = vec![
                launch_step(
                    "moe_shared_ffn_gemv",
                    LaunchConfig {
                        grid_dim: (g.intermediate as u32, 1, 1),
                        block_dim: (SHARED_WARPS * 32, 1, 1),
                        shared_mem_bytes: 0,
                    },
                    ffn_args,
                ),
                launch_step(
                    "moe_shared_down_gemv",
                    banded_config(g.hidden, TILE_ROWS, 1, GEMM_THREADS, 0),
                    down_args,
                ),
            ];
            assert(step::steps_of(steps@) =~= g.shared_steps(gate.quant, up.quant, down.quant));
            return Ok(steps);
        }
        let token_tiles: usize = div_ceil_u32(g.max_tokens as u32, TILE_M as u32) as usize;
        let shared: u32 = tile_shared_bytes();
        let steps: Vec<MoeStep> = vec![
            launch_step(
                "moe_shared_ffn",
                banded_config(g.intermediate, TILE_ROWS, token_tiles, GEMM_THREADS, shared),
                ffn_args,
            ),
            launch_step(
                "moe_shared_down",
                banded_config(g.hidden, TILE_ROWS, token_tiles, GEMM_THREADS, shared),
                down_args,
            ),
        ];
        assert(step::steps_of(steps@) =~= g.shared_steps(gate.quant, up.quant, down.quant));
        Ok(steps)
    }
}

} // verus!
