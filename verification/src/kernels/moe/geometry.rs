//! Expert weight formats and the sizes a geometry implies.

use crate::launch::div_ceil;
use std::borrow::Cow;
use crate::launch;
use vstd::prelude::*;

verus! {

/// Elements per Q8_0 block.
pub const QK8_0: usize = 32;

/// Elements per Q6_K superblock.
pub const QK_K: usize = 256;

/// Serialized bytes per Q8_0 block.
pub const BLOCK_Q8_0_BYTES: usize = 34;

/// Serialized bytes per Q6_K superblock.
pub const BLOCK_Q6_K_BYTES: usize = 210;

/// Bytes per Q6_K superblock once it is on the device.
///
/// A multiple of 16, so every superblock base is 16-byte aligned. See
/// [`ExpertQuant::block_bytes`].
pub const BLOCK_Q6_K_DEVICE_BYTES: usize = 224;

/// Storage format of one expert weight stack.
#[derive(Debug, Clone, Copy, PartialEq, Eq, Structural)]
pub enum ExpertQuant {
    /// 256 elements per superblock: 210 bytes in the file, 224 on the device.
    Q6K,
    /// 32 elements per 34-byte block.
    Q8_0,
}

impl ExpertQuant {
    /// The integer the kernels switch on.
    pub open spec fn kernel_code(self) -> i32 {
        match self {
            ExpertQuant::Q6K => 0,
            ExpertQuant::Q8_0 => 1,
        }
    }

    /// Elements per block.
    pub open spec fn elements_per_block(self) -> usize {
        match self {
            ExpertQuant::Q6K => QK_K,
            ExpertQuant::Q8_0 => QK8_0,
        }
    }

    /// Bytes per block in the file.
    pub open spec fn file_stride(self) -> usize {
        match self {
            ExpertQuant::Q6K => BLOCK_Q6_K_BYTES,
            ExpertQuant::Q8_0 => BLOCK_Q8_0_BYTES,
        }
    }

    /// Bytes per block on the device.
    pub open spec fn device_stride(self) -> usize {
        match self {
            ExpertQuant::Q6K => BLOCK_Q6_K_DEVICE_BYTES,
            ExpertQuant::Q8_0 => BLOCK_Q8_0_BYTES,
        }
    }

    /// The integer the kernels switch on.
    pub fn code(self) -> (c: i32)
        ensures
            c == self.kernel_code(),
    {
        match self {
            ExpertQuant::Q6K => 0,
            ExpertQuant::Q8_0 => 1,
        }
    }

    /// Elements per serialized block.
    pub fn block_elements(self) -> (n: usize)
        ensures
            n == self.elements_per_block(),
    {
        match self {
            ExpertQuant::Q6K => QK_K,
            ExpertQuant::Q8_0 => QK8_0,
        }
    }

    /// Bytes per block as the file stores them.
    pub fn file_block_bytes(self) -> (n: usize)
        ensures
            n == self.file_stride(),
    {
        match self {
            ExpertQuant::Q6K => BLOCK_Q6_K_BYTES,
            ExpertQuant::Q8_0 => BLOCK_Q8_0_BYTES,
        }
    }

    /// Bytes per block as the device holds them.
    ///
    /// Q6_K is padded from 210 to 224 bytes, so that every field of every
    /// superblock is 16-byte aligned. The pad bytes are never read.
    pub fn block_bytes(self) -> (n: usize)
        ensures
            n == self.device_stride(),
    {
        match self {
            ExpertQuant::Q6K => BLOCK_Q6_K_DEVICE_BYTES,
            ExpertQuant::Q8_0 => BLOCK_Q8_0_BYTES,
        }
    }
}

/// The two formats are told apart by their codes.
pub proof fn law_codes_are_distinct(a: ExpertQuant, b: ExpertQuant)
    ensures
        a.kernel_code() == b.kernel_code() ==> a == b,
{
}

/// Byte `i` of `out` holds what re-striding `bytes` puts there: byte `j` of
/// block `b` moves from `b * src + j` to `b * dst + j`, and the rest is zero.
pub open spec fn restrided_byte(bytes: Seq<u8>, src: int, dst: int, i: int) -> u8 {
    if i % dst < src {
        bytes[(i / dst) * src + i % dst]
    } else {
        0
    }
}

/// The device layout of a stack: every whole block of the file, at the
/// device's stride. Where the strides agree it is the file's own bytes.
pub open spec fn device_layout(quant: ExpertQuant, bytes: Seq<u8>) -> Seq<u8> {
    if quant.file_stride() == quant.device_stride() {
        bytes
    } else {
        let src = quant.file_stride() as int;
        let dst = quant.device_stride() as int;
        Seq::new(
            ((bytes.len() as int / src) * dst) as nat,
            |i: int| restrided_byte(bytes, src, dst, i),
        )
    }
}

/// Rewrite a serialized expert stack into the layout the kernels index.
///
/// Q6_K superblocks are re-strided to [`BLOCK_Q6_K_DEVICE_BYTES`]: the payload
/// bytes are copied unchanged and the rest is zero. Q8_0 is borrowed as it is.
pub fn to_device_layout<'a>(quant: ExpertQuant, bytes: &'a [u8]) -> (out: Cow<'a, [u8]>)
    requires
        bytes@.len() / quant.file_stride() as nat * quant.device_stride() <= usize::MAX,
    ensures
        match out {
            Cow::Borrowed(b) => quant is Q8_0 && b@ == device_layout(quant, bytes@),
            Cow::Owned(v) => quant is Q6K && v@ == device_layout(quant, bytes@),
        },
{
    let src_stride: usize = quant.file_block_bytes();
    let dst_stride: usize = quant.block_bytes();
    if src_stride == dst_stride {
        return Cow::Borrowed(bytes);
    }
    let blocks: usize = bytes.len() / src_stride;
    let mut out: Vec<u8> = Vec::new();
    let mut b: usize = 0;
    while b < blocks
        invariant
            quant is Q6K,
            src_stride == 210,
            dst_stride == 224,
            blocks == bytes@.len() as int / 210,
            blocks * 224 <= usize::MAX,
            b <= blocks,
            out@.len() == b * 224,
            forall|i: int|
                0 <= i < b * 224 ==> out@[i] == #[trigger] restrided_byte(bytes@, 210, 224, i),
        decreases blocks - b,
    {
        let mut j: usize = 0;
        while j < dst_stride
            invariant
                src_stride == 210,
                dst_stride == 224,
                blocks == bytes@.len() as int / 210,
                blocks * 224 <= usize::MAX,
                b < blocks,
                j <= 224,
                out@.len() == b * 224 + j,
                forall|i: int|
                    0 <= i < b * 224 + j ==> out@[i] == #[trigger] restrided_byte(
                        bytes@,
                        210,
                        224,
                        i,
                    ),
            decreases dst_stride - j,
        {
            let ghost at = b * 224 + j;
            assert(at % 224 == j && at / 224 == b as int);
            if j < src_stride {
                out.push(bytes[b * src_stride + j]);
            } else {
                out.push(0);
            }
            j = j + 1;
        }
        b = b + 1;
    }
    assert(out@ =~= device_layout(quant, bytes@));
    Cow::Owned(out)
}

/// Every payload byte of every whole block survives the re-striding at its
/// device position.
pub proof fn law_device_layout_keeps_the_payload(
    quant: ExpertQuant,
    bytes: Seq<u8>,
    b: int,
    j: int,
)
    requires
        0 <= b < bytes.len() as int / quant.file_stride() as int,
        0 <= j < quant.file_stride(),
    ensures
        b * quant.device_stride() + j < device_layout(quant, bytes).len(),
        device_layout(quant, bytes)[b * quant.device_stride() + j] == bytes[b
            * quant.file_stride() + j],
{
    match quant {
        ExpertQuant::Q6K => {
            let i = b * 224 + j;
            assert(i % 224 == j && i / 224 == b);
        },
        ExpertQuant::Q8_0 => {
            assert(b < bytes.len() as int / 34);
        },
    }
}

/// A Q6_K superblock starts on a 16-byte boundary on the device.
pub proof fn law_device_superblocks_are_aligned(b: int)
    ensures
        (b * BLOCK_Q6_K_DEVICE_BYTES) % 16 == 0,
{
}

/// The shapes an instance is compiled and sized for.
#[derive(Debug, Clone, Copy, PartialEq, Eq, Structural)]
pub struct MoeGeometry {
    /// Routed experts available.
    pub num_experts: usize,
    /// Routed experts selected per token.
    pub experts_per_token: usize,
    /// Residual stream width.
    pub hidden: usize,
    /// Per-expert FFN width.
    pub intermediate: usize,
    /// Grouped-GEMM tile width the dispatch tables pad to.
    pub block_size: usize,
    /// Largest token count any single step may present.
    pub max_tokens: usize,
}

impl MoeGeometry {
    /// Flat `(token, k)` pairs of a full step.
    pub open spec fn pairs(self) -> int {
        self.max_tokens * self.experts_per_token
    }

    /// Most experts that a step's pairs can reach.
    pub open spec fn active_experts(self) -> int {
        if self.num_experts < self.pairs() {
            self.num_experts as int
        } else {
            self.pairs()
        }
    }

    /// Slots the pairs need when every active expert pays a full block of
    /// padding but one slot.
    pub open spec fn padded_bound(self) -> int {
        self.pairs() + self.active_experts() * (self.block_size - 1)
    }

    /// Dispatch blocks that cover [`Self::padded_bound`].
    pub open spec fn dispatch_blocks(self) -> int {
        launch::ceil_div(self.padded_bound(), self.block_size as int)
    }

    /// Slots of those blocks.
    pub open spec fn sorted_slots(self) -> int {
        self.dispatch_blocks() * self.block_size
    }

    /// Elements of one expert stack.
    pub open spec fn stack(self) -> int {
        self.num_experts * self.intermediate * self.hidden
    }

    /// The Qwen3.6 shape, for `max_tokens` per step.
    pub fn qwen3_6(block_size: usize, max_tokens: usize) -> (g: Self)
        ensures
            g == (MoeGeometry {
                num_experts: 256,
                experts_per_token: 8,
                hidden: 2048,
                intermediate: 512,
                block_size,
                max_tokens,
            }),
    {
        MoeGeometry {
            num_experts: 256,
            experts_per_token: 8,
            hidden: 2048,
            intermediate: 512,
            block_size,
            max_tokens,
        }
    }

    /// Largest number of flat `(token, k)` pairs a step can produce.
    pub fn max_flat_pairs(&self) -> (n: usize)
        requires
            self.pairs() <= usize::MAX,
        ensures
            n == self.pairs(),
    {
        self.max_tokens * self.experts_per_token
    }

    /// Fixed capacity of the sorted token ids, in slots.
    ///
    /// The padded total of a step is the sum over active experts of their
    /// count rounded up to whole blocks. Each term is at most the count plus
    /// `block_size - 1`, the counts sum to the pairs, and at most
    /// `min(num_experts, pairs)` experts are active. Rounding that up to whole
    /// blocks keeps [`Self::expert_block_capacity`] exact.
    pub fn sorted_capacity(&self) -> (n: usize)
        requires
            self.block_size > 0,
            self.sorted_slots() <= usize::MAX,
        ensures
            n == self.sorted_slots(),
    {
        proof {
            lemma_capacity(*self);
        }
        let numel: usize = self.max_flat_pairs();
        let active: usize = if self.num_experts < numel {
            self.num_experts
        } else {
            numel
        };
        let bound: usize = numel + active * (self.block_size - 1);
        div_ceil(bound, self.block_size) * self.block_size
    }

    /// Fixed capacity of the expert ids, in blocks.
    pub fn expert_block_capacity(&self) -> (n: usize)
        requires
            self.block_size > 0,
            self.sorted_slots() <= usize::MAX,
        ensures
            n == self.dispatch_blocks(),
    {
        proof {
            lemma_capacity(*self);
            let (q, d) = (self.dispatch_blocks(), self.block_size as int);
            assert(q * d / d == q) by (nonlinear_arith)
                requires
                    0 < d,
            ;
        }
        self.sorted_capacity() / self.block_size
    }

    /// Elements one expert stack must hold.
    ///
    /// Gate and up are `[intermediate x hidden]` per expert; down is
    /// `[hidden x intermediate]`. Both come to the same count.
    pub fn stack_elements(&self) -> (n: usize)
        requires
            self.num_experts * self.intermediate <= usize::MAX,
            self.stack() <= usize::MAX,
        ensures
            n == self.stack(),
    {
        self.num_experts * self.intermediate * self.hidden
    }
}

/// The sizes under a capacity are no larger than the capacity.
pub proof fn lemma_capacity(g: MoeGeometry)
    requires
        g.block_size > 0,
    ensures
        0 <= g.pairs() <= g.padded_bound(),
        0 <= g.active_experts() <= g.num_experts,
        g.active_experts() <= g.pairs(),
        0 <= g.active_experts() * (g.block_size - 1) <= g.padded_bound(),
        g.padded_bound() <= g.sorted_slots() < g.padded_bound() + g.block_size,
        0 <= g.dispatch_blocks() <= g.sorted_slots(),
{
    assert(0 <= g.max_tokens * g.experts_per_token) by (nonlinear_arith);
    let (a, p) = (g.active_experts(), g.block_size - 1);
    assert(0 <= a * p) by (nonlinear_arith)
        requires
            0 <= a,
            0 <= p,
    ;
    launch::lemma_ceil_div_covers(g.padded_bound(), g.block_size as int);
    let (q, d) = (g.dispatch_blocks(), g.block_size as int);
    assert(q <= q * d) by (nonlinear_arith)
        requires
            0 <= q,
            1 <= d,
    ;
}

/// Slots `count` selections of one expert occupy, padded to whole blocks.
pub open spec fn padded_run(count: nat, block_size: int) -> int {
    launch::ceil_div(count as int, block_size) * block_size
}

/// Selections over all experts.
pub open spec fn total_selected(counts: Seq<nat>) -> nat
    decreases counts.len(),
{
    if counts.len() == 0 {
        0
    } else {
        total_selected(counts.drop_last()) + counts.last()
    }
}

/// Slots over all experts: what a step writes as its padded total.
pub open spec fn padded_total(counts: Seq<nat>, block_size: int) -> int
    decreases counts.len(),
{
    if counts.len() == 0 {
        0
    } else {
        padded_total(counts.drop_last(), block_size) + padded_run(counts.last(), block_size)
    }
}

/// Experts with at least one selection.
pub open spec fn selected_experts(counts: Seq<nat>) -> nat
    decreases counts.len(),
{
    if counts.len() == 0 {
        0
    } else if counts.last() == 0 {
        selected_experts(counts.drop_last())
    } else {
        selected_experts(counts.drop_last()) + 1
    }
}

/// First slot of expert `e`'s run.
pub open spec fn run_start(counts: Seq<nat>, e: int, block_size: int) -> int {
    padded_total(counts.take(e), block_size)
}

proof fn lemma_padding(counts: Seq<nat>, block_size: int)
    requires
        block_size > 0,
    ensures
        total_selected(counts) <= padded_total(counts, block_size),
        padded_total(counts, block_size) <= total_selected(counts) + selected_experts(counts) * (
        block_size - 1),
        selected_experts(counts) <= counts.len(),
        selected_experts(counts) <= total_selected(counts),
        padded_total(counts, block_size) % block_size == 0,
    decreases counts.len(),
{
    if counts.len() == 0 {
        assert(0int % block_size == 0) by (nonlinear_arith)
            requires
                block_size > 0,
        ;
    } else {
        let front = counts.drop_last();
        let c = counts.last();
        lemma_padding(front, block_size);
        launch::lemma_ceil_div_covers(c as int, block_size);
        let (s, p) = (selected_experts(front) as int, block_size - 1);
        assert((s + 1) * p == s * p + p) by (nonlinear_arith);
        let (x, q) = (padded_total(front, block_size), launch::ceil_div(c as int, block_size));
        assert(x + q * block_size == block_size * q + x) by (nonlinear_arith);
        vstd::arithmetic::div_mod::lemma_mod_multiples_vanish(q, x, block_size);
        if c == 0 {
            assert(q == 0) by (nonlinear_arith)
                requires
                    0 <= q * block_size < block_size,
                    block_size > 0,
            ;
            assert(q * block_size == 0) by (nonlinear_arith)
                requires
                    q == 0,
            ;
        }
    }
}

/// The dispatch capacity bounds every routing: however a step's selections
/// fall on the experts, the padded runs fit the slots and their blocks fit the
/// block table.
pub proof fn law_sorted_capacity_bounds_every_routing(g: MoeGeometry, counts: Seq<nat>)
    requires
        g.block_size > 0,
        counts.len() == g.num_experts,
        total_selected(counts) <= g.pairs(),
    ensures
        padded_total(counts, g.block_size as int) <= g.sorted_slots(),
        padded_total(counts, g.block_size as int) % (g.block_size as int) == 0,
        padded_total(counts, g.block_size as int) / (g.block_size as int) <= g.dispatch_blocks(),
{
    let bs = g.block_size as int;
    lemma_padding(counts, bs);
    lemma_capacity(g);
    let s = selected_experts(counts) as int;
    let (a, p) = (g.active_experts(), bs - 1);
    assert(s * p <= a * p) by (nonlinear_arith)
        requires
            s <= a,
            0 <= p,
    ;
    let (t, q) = (padded_total(counts, bs), g.dispatch_blocks());
    assert(t / bs <= q) by (nonlinear_arith)
        requires
            t <= q * bs,
            0 < bs,
    ;
}

/// The bound is reached: where every expert is selected one time more than a
/// multiple of the block, and the step is full, no slot of the capacity is
/// spare.
pub proof fn law_sorted_capacity_is_tight(g: MoeGeometry, counts: Seq<nat>)
    requires
        g.block_size > 0,
        counts.len() == g.num_experts,
        total_selected(counts) == g.pairs(),
        forall|e: int|
            0 <= e < counts.len() ==> counts[e] >= 1 && (#[trigger] counts[e] - 1) % (
            g.block_size as int) == 0,
    ensures
        padded_total(counts, g.block_size as int) == g.sorted_slots(),
{
    let bs = g.block_size as int;
    lemma_full_padding(counts, bs);
    lemma_padding(counts, bs);
    lemma_capacity(g);
    let t = padded_total(counts, bs);
    assert(g.active_experts() == g.num_experts);
    assert(t == g.padded_bound());
    launch::lemma_ceil_div_cases(t, bs);
    assert((t / bs) * bs == t) by (nonlinear_arith)
        requires
            t % bs == 0,
            0 < bs,
    ;
}

proof fn lemma_full_padding(counts: Seq<nat>, block_size: int)
    requires
        block_size > 0,
        forall|e: int|
            0 <= e < counts.len() ==> counts[e] >= 1 && (#[trigger] counts[e] - 1) % block_size
                == 0,
    ensures
        padded_total(counts, block_size) == total_selected(counts) + counts.len() * (block_size
            - 1),
        total_selected(counts) >= counts.len(),
    decreases counts.len(),
{
    if counts.len() > 0 {
        let front = counts.drop_last();
        let c = counts.last() as int;
        assert forall|e: int| 0 <= e < front.len() implies front[e] >= 1 && (#[trigger] front[e]
            - 1) % block_size == 0 by {
            assert(front[e] == counts[e]);
        }
        lemma_full_padding(front, block_size);
        assert((counts[counts.len() - 1] - 1) % block_size == 0);
        let q = (c - 1) / block_size;
        assert(c - 1 == q * block_size) by (nonlinear_arith)
            requires
                q == (c - 1) / block_size,
                (c - 1) % block_size == 0,
                0 < block_size,
        ;
        assert((c + block_size - 1) / block_size == q + 1) by (nonlinear_arith)
            requires
                c - 1 == q * block_size,
                0 < block_size,
        ;
        assert((q + 1) * block_size == c + (block_size - 1)) by (nonlinear_arith)
            requires
                c - 1 == q * block_size,
        ;
        let n = front.len() as int;
        assert((n + 1) * (block_size - 1) == n * (block_size - 1) + (block_size - 1))
            by (nonlinear_arith);
    } else {
        assert(0 * (block_size - 1) == 0) by (nonlinear_arith);
    }
}

proof fn lemma_total_take(counts: Seq<nat>, n: int, block_size: int)
    requires
        0 <= n < counts.len(),
        block_size > 0,
    ensures
        run_start(counts, n + 1, block_size) == run_start(counts, n, block_size) + padded_run(
            counts[n],
            block_size,
        ),
{
    assert(counts.take(n + 1).drop_last() =~= counts.take(n));
    assert(counts.take(n + 1).last() == counts[n]);
}

proof fn lemma_runs_ascend(counts: Seq<nat>, a: int, b: int, block_size: int)
    requires
        0 <= a <= b <= counts.len(),
        block_size > 0,
    ensures
        run_start(counts, a, block_size) <= run_start(counts, b, block_size),
    decreases b - a,
{
    if a < b {
        lemma_runs_ascend(counts, a, b - 1, block_size);
        lemma_total_take(counts, b - 1, block_size);
        launch::lemma_ceil_div_covers(counts[b - 1] as int, block_size);
    }
}

/// The runs of two experts never share a dispatch block: each starts on a
/// block boundary, holds its selections, and ends before the next begins.
pub proof fn law_expert_runs_are_disjoint(counts: Seq<nat>, e: int, f: int, block_size: int)
    requires
        block_size > 0,
        0 <= e < f < counts.len(),
    ensures
        run_start(counts, e, block_size) % block_size == 0,
        run_start(counts, e, block_size) + counts[e] <= run_start(counts, e + 1, block_size),
        run_start(counts, e + 1, block_size) <= run_start(counts, f, block_size),
        run_start(counts, f, block_size) + padded_run(counts[f], block_size) <= padded_total(
            counts,
            block_size,
        ),
{
    lemma_padding(counts.take(e), block_size);
    lemma_total_take(counts, e, block_size);
    launch::lemma_ceil_div_covers(counts[e] as int, block_size);
    lemma_runs_ascend(counts, e + 1, f, block_size);
    lemma_total_take(counts, f, block_size);
    lemma_runs_ascend(counts, f + 1, counts.len() as int, block_size);
    assert(counts.take(counts.len() as int) =~= counts);
}

} // verus!
