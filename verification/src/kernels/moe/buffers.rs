//! The buffers of the MoE path, by length, and the repacked shared expert.

use crate::kernels::mma::{MmaError, MmaKernels};
use crate::kernels::moe::family::MoeKernels;
use crate::kernels::moe::geometry::{ExpertQuant, MoeGeometry};
use crate::kernels::moe::step;
use crate::kernels::moe::step::{MoeError, QuantTensor};
use crate::kernels::ptx;
use crate::kernels::ptx::PtxCache;
use crate::source::mma::MMA_SRC;
use vstd::prelude::*;

verus! {

/// Length of every buffer the MoE path touches, in elements.
#[derive(Debug, Clone, Copy, PartialEq, Eq)]
pub struct MoeBufferSizes {
    /// `i32`, `[max_tokens][experts_per_token]`.
    pub topk_ids: usize,
    /// `f32`, as `topk_ids`.
    pub topk_weights: usize,
    /// `i32`, one per slot.
    pub sorted_token_ids: usize,
    /// `i32`, one per dispatch block.
    pub expert_ids: usize,
    /// `i32`, one per expert.
    pub expert_counts: usize,
    /// `i32`, one.
    pub num_tokens_post_pad: usize,
    /// `i32`, one.
    pub valid_tokens: usize,
    /// `f32`, `[slots][intermediate]`.
    pub inter: usize,
    /// `f32`, `[pairs][hidden]`.
    pub partial: usize,
    /// `f32`, `[max_tokens][intermediate]`.
    pub shared_inter: usize,
    /// `i8`, `[max_tokens][hidden]`.
    pub xq: usize,
    /// `f32`, one per 32 of `xq`.
    pub xq_scales: usize,
    /// `i8`, `[slots][intermediate]`.
    pub iq: usize,
    /// `f32`, one per 32 of `iq`.
    pub iq_scales: usize,
    /// `f32`, `[max_tokens][intermediate]`.
    pub shared_gate_out: usize,
    /// `f32`, `[max_tokens][intermediate]`.
    pub shared_swiglu: usize,
    /// `i8`, `[max_tokens][intermediate]`.
    pub siq: usize,
    /// `f32`, one per 32 of `siq`.
    pub siq_scales: usize,
}

impl MoeBufferSizes {
    /// Elements of the four-byte buffers.
    pub open spec fn words(self) -> int {
        self.topk_ids + self.topk_weights + self.sorted_token_ids + self.expert_ids
            + self.expert_counts + self.num_tokens_post_pad + self.valid_tokens + self.inter
            + self.partial + self.shared_inter + self.xq_scales + self.iq_scales
            + self.shared_gate_out + self.shared_swiglu + self.siq_scales
    }

    /// Bytes of all buffers.
    pub open spec fn total_bytes(self) -> int {
        self.words() * 4 + self.xq + self.iq + self.siq
    }
}

impl MoeGeometry {
    /// The buffers of this geometry. Nothing here depends on a step's token
    /// count.
    pub open spec fn buffer_sizes(self) -> MoeBufferSizes {
        MoeBufferSizes {
            topk_ids: self.pairs() as usize,
            topk_weights: self.pairs() as usize,
            sorted_token_ids: self.sorted_slots() as usize,
            expert_ids: self.dispatch_blocks() as usize,
            expert_counts: self.num_experts,
            num_tokens_post_pad: 1,
            valid_tokens: 1,
            inter: (self.sorted_slots() * self.intermediate) as usize,
            partial: (self.pairs() * self.hidden) as usize,
            shared_inter: (self.max_tokens * self.intermediate) as usize,
            xq: (self.max_tokens * self.hidden) as usize,
            xq_scales: (self.max_tokens * self.hidden / 32) as usize,
            iq: (self.sorted_slots() * self.intermediate) as usize,
            iq_scales: (self.sorted_slots() * self.intermediate / 32) as usize,
            shared_gate_out: (self.max_tokens * self.intermediate) as usize,
            shared_swiglu: (self.max_tokens * self.intermediate) as usize,
            siq: (self.max_tokens * self.intermediate) as usize,
            siq_scales: (self.max_tokens * self.intermediate / 32) as usize,
        }
    }

    /// Every buffer's length is a machine size.
    pub open spec fn buffers_fit(self) -> bool {
        &&& self.sorted_slots() * self.intermediate <= usize::MAX
        &&& self.pairs() * self.hidden <= usize::MAX
    }
}

/// Every buffer the MoE path touches, and the token count last published to
/// the device.
#[derive(Debug)]
pub struct MoeBuffers {
    sizes: MoeBufferSizes,
    valid_published: i32,
}

impl MoeBuffers {
    /// The buffers' lengths.
    pub closed spec fn lens(self) -> MoeBufferSizes {
        self.sizes
    }

    /// The token count last published.
    pub closed spec fn published(self) -> i32 {
        self.valid_published
    }

    /// The buffers' lengths.
    pub fn sizes(&self) -> (s: MoeBufferSizes)
        ensures
            s == self.lens(),
    {
        self.sizes
    }

    /// Length of the selected expert ids.
    pub fn topk_ids(&self) -> (n: usize)
        ensures
            n == self.lens().topk_ids,
    {
        self.sizes.topk_ids
    }

    /// Length of the routing weights.
    pub fn topk_weights(&self) -> (n: usize)
        ensures
            n == self.lens().topk_weights,
    {
        self.sizes.topk_weights
    }

    /// Length of the flat ids grouped by expert.
    pub fn sorted_token_ids(&self) -> (n: usize)
        ensures
            n == self.lens().sorted_token_ids,
    {
        self.sizes.sorted_token_ids
    }

    /// Length of the per-block expert ids.
    pub fn expert_ids(&self) -> (n: usize)
        ensures
            n == self.lens().expert_ids,
    {
        self.sizes.expert_ids
    }

    /// Length of the padded total.
    pub fn num_tokens_post_pad(&self) -> (n: usize)
        ensures
            n == self.lens().num_tokens_post_pad,
    {
        self.sizes.num_tokens_post_pad
    }

    /// Length of the token count.
    pub fn valid_tokens(&self) -> (n: usize)
        ensures
            n == self.lens().valid_tokens,
    {
        self.sizes.valid_tokens
    }

    /// Length of the per-`(token, k)` contributions.
    ///
    /// Slot `(t, k)` starts at `(t * experts_per_token + k) * hidden`.
    pub fn partial(&self) -> (n: usize)
        ensures
            n == self.lens().partial,
    {
        self.sizes.partial
    }

    /// Total device bytes held.
    pub fn bytes(&self) -> (n: usize)
        requires
            self.lens().total_bytes() <= usize::MAX,
        ensures
            n == self.lens().total_bytes(),
    {
        let s: MoeBufferSizes = self.sizes;
        (s.topk_ids + s.topk_weights + s.sorted_token_ids + s.expert_ids + s.expert_counts
            + s.num_tokens_post_pad + s.valid_tokens + s.inter + s.partial + s.shared_inter
            + s.xq_scales + s.iq_scales + s.shared_gate_out + s.shared_swiglu + s.siq_scales) * 4
            + s.xq + s.iq + s.siq
    }

    /// Note that `tokens` has reached the device.
    pub fn publish(&mut self, tokens: i32)
        ensures
            final(self).lens() == old(self).lens(),
            final(self).published() == tokens,
    {
        self.valid_published = tokens;
    }
}

/// What publishing `tokens` writes where `published` is already on the device.
pub open spec fn token_write(published: i32, tokens: usize) -> Option<i32> {
    if published == tokens as i32 {
        None
    } else {
        Some(tokens as i32)
    }
}

impl MoeKernels {
    /// Size every buffer, once. The published token count starts at zero, as
    /// zeroed buffers hold it.
    pub fn buffers(&self) -> (b: MoeBuffers)
        requires
            self@.geometry.buffers_fit(),
        ensures
            b.lens() == self@.geometry.buffer_sizes(),
            b.published() == 0,
    {
        let g: MoeGeometry = self.geometry();
        proof {
            step::lemma_supported_sizes(g);
            let (t, p, s) = (g.max_tokens as int, g.pairs(), g.sorted_slots());
            let (h, i) = (g.hidden as int, g.intermediate as int);
            assert(0 <= t * h <= p * h) by (nonlinear_arith)
                requires
                    0 <= t <= p,
                    0 <= h,
            ;
            assert(0 <= t * i <= s * i) by (nonlinear_arith)
                requires
                    0 <= t <= s,
                    0 <= i,
            ;
        }
        let pairs: usize = g.max_flat_pairs();
        let slots: usize = g.sorted_capacity();
        let sizes = MoeBufferSizes {
            topk_ids: pairs,
            topk_weights: pairs,
            sorted_token_ids: slots,
            expert_ids: g.expert_block_capacity(),
            expert_counts: g.num_experts,
            num_tokens_post_pad: 1,
            valid_tokens: 1,
            inter: slots * g.intermediate,
            partial: pairs * g.hidden,
            shared_inter: g.max_tokens * g.intermediate,
            xq: g.max_tokens * g.hidden,
            xq_scales: g.max_tokens * g.hidden / 32,
            iq: slots * g.intermediate,
            iq_scales: slots * g.intermediate / 32,
            shared_gate_out: g.max_tokens * g.intermediate,
            shared_swiglu: g.max_tokens * g.intermediate,
            siq: g.max_tokens * g.intermediate,
            siq_scales: g.max_tokens * g.intermediate / 32,
        };
        MoeBuffers { sizes, valid_published: 0 }
    }

    /// The value to write into the device's token count, or `None` where the
    /// device already holds it.
    ///
    /// A repeat with the same count writes nothing. The caller notes a
    /// completed write with [`MoeBuffers::publish`].
    pub fn set_valid_tokens(&self, buffers: &MoeBuffers, tokens: usize) -> (r: Result<
        Option<i32>,
        MoeError,
    >)
        ensures
            tokens > self@.geometry.max_tokens ==> r == Err::<Option<i32>, MoeError>(
                MoeError::TooManyTokens { tokens, max_tokens: self@.geometry.max_tokens },
            ),
            tokens <= self@.geometry.max_tokens ==> r == Ok::<Option<i32>, MoeError>(
                token_write(buffers.published(), tokens),
            ),
    {
        let g: MoeGeometry = self.geometry();
        if tokens > g.max_tokens {
            return Err(MoeError::TooManyTokens { tokens, max_tokens: g.max_tokens });
        }
        if buffers.valid_published == tokens as i32 {
            return Ok(None);
        }
        Ok(Some(tokens as i32))
    }
}

/// One layer's shared expert repacked for the integer tensor cores, by length:
/// three matrices of int8 with one scale per 32.
#[derive(Debug)]
pub struct SharedExpertInt8 {
    quants: usize,
    scales: usize,
}

/// Why a matrix is refused by the repacking.
pub open spec fn repack_reason(
    gate: ExpertQuant,
    up: ExpertQuant,
    down: ExpertQuant,
) -> Option<&'static str> {
    if gate != ExpertQuant::Q8_0 {
        Some("shared gate is not Q8_0")
    } else if up != ExpertQuant::Q8_0 {
        Some("shared up is not Q8_0")
    } else if down != ExpertQuant::Q8_0 {
        Some("shared down is not Q8_0")
    } else {
        None
    }
}

/// The geometry a refused repacking reports.
pub open spec fn repack_geometry() -> MoeGeometry {
    MoeGeometry {
        num_experts: 256,
        experts_per_token: 8,
        hidden: 2048,
        intermediate: 512,
        block_size: 16,
        max_tokens: 1,
    }
}

impl SharedExpertInt8 {
    /// Elements of one repacked matrix.
    pub closed spec fn elements(self) -> usize {
        self.quants
    }

    /// Scales of one repacked matrix.
    pub closed spec fn scale_count(self) -> usize {
        self.scales
    }

    fn validate(gate: QuantTensor, up: QuantTensor, down: QuantTensor) -> (r: Result<(), MoeError>)
        ensures
            match repack_reason(gate.quant, up.quant, down.quant) {
                Some(reason) => r == Err::<(), MoeError>(repack_geometry().refused(reason)),
                None => r is Ok,
            },
    {
        let reason: &'static str;
        if gate.quant != ExpertQuant::Q8_0 {
            reason = "shared gate is not Q8_0";
        } else if up.quant != ExpertQuant::Q8_0 {
            reason = "shared up is not Q8_0";
        } else if down.quant != ExpertQuant::Q8_0 {
            reason = "shared down is not Q8_0";
        } else {
            return Ok(());
        }
        Err(
            MoeError::UnsupportedGeometry {
                geometry: Box::new(MoeGeometry::qwen3_6(16, 1)),
                reason,
            },
        )
    }

    /// The repacked lengths, given what compiling the integer module came to.
    pub fn with_module(
        module: Result<MmaKernels, MmaError>,
        gate: QuantTensor,
        up: QuantTensor,
        down: QuantTensor,
        elements: usize,
    ) -> (r: Result<(Self, MmaKernels), MoeError>)
        ensures
            match repack_reason(gate.quant, up.quant, down.quant) {
                Some(reason) => r == Err::<(Self, MmaKernels), MoeError>(
                    repack_geometry().refused(reason),
                ),
                None => match module {
                    Err(e) => r == Err::<(Self, MmaKernels), MoeError>(MoeError::Mma(e)),
                    Ok(m) => r matches Ok(p) && p.1 == m && p.0.elements() == elements
                        && p.0.scale_count() == elements / 32,
                },
            },
            r matches Ok(p) ==> p.0.scale_count() * 32 <= elements < p.0.scale_count() * 32 + 32,
    {
        Self::validate(gate, up, down)?;
        match module {
            Err(e) => Err(MoeError::Mma(e)),
            Ok(m) => Ok((SharedExpertInt8 { quants: elements, scales: elements / 32 }, m)),
        }
    }

    /// Repack all three matrices. `elements` is `intermediate * hidden`, the
    /// same for each.
    ///
    /// Every matrix must be Q8_0; a refused one compiles nothing. The module
    /// that repacks comes back beside the lengths.
    pub fn repack(
        cache: &mut PtxCache,
        gate: QuantTensor,
        up: QuantTensor,
        down: QuantTensor,
        elements: usize,
    ) -> (r: Result<(Self, MmaKernels), MoeError>)
        ensures
            match repack_reason(gate.quant, up.quant, down.quant) {
                Some(reason) => {
                    &&& r == Err::<(Self, MmaKernels), MoeError>(repack_geometry().refused(reason))
                    &&& *final(cache) == *old(cache)
                },
                None => {
                    &&& old(cache).entries().contains_key(MMA_SRC@) ==> r is Ok
                    &&& ptx::counted(*old(cache), *final(cache), MMA_SRC@, "mma_int8"@)
                    &&& r matches Ok(p) ==> p.0.elements() == elements && p.0.scale_count()
                        == elements / 32 && ptx::obtained(
                        old(cache).entries(),
                        final(cache).entries(),
                        MMA_SRC@,
                        "mma_int8"@,
                        p.1.image(),
                    )
                    &&& r matches Err(e) ==> {
                        &&& e matches MoeError::Mma(MmaError::Compile(m)) && ptx::rejected(
                            MMA_SRC@,
                            "mma_int8"@,
                            m@,
                        )
                        &&& final(cache).entries() == old(cache).entries()
                    }
                },
            },
    {
        Self::validate(gate, up, down)?;
        let module: Result<MmaKernels, MmaError> = MmaKernels::new(cache);
        Self::with_module(module, gate, up, down, elements)
    }

    /// Device bytes held.
    pub fn bytes(&self) -> (n: usize)
        requires
            3 * self.elements() + 3 * self.scale_count() * 4 <= usize::MAX,
        ensures
            n == 3 * self.elements() + 3 * self.scale_count() * 4,
            n == 3 * (self.elements() + 4 * self.scale_count()),
    {
        self.quants + self.quants + self.quants + (self.scales + self.scales + self.scales) * 4
    }
}

} // verus!
