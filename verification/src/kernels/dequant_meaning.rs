//! What the dequantization launches compute.

use crate::kernels::dequant;
use crate::kernels::dequant::DequantArg;
use crate::launch;
use crate::meaning::{cover, given, of, Value};
use vstd::prelude::*;

verus! {

/// One operation of an expression.
pub enum DequantOp {
    /// The elements of Q8_0 blocks as floats, counted by elements.
    FromQ8_0,
    /// The elements of Q6_K superblocks as floats, counted by superblocks.
    FromQ6K,
}

/// What a buffer holds.
pub type DequantValue = Value<DequantArg, DequantOp>;

/// The contents of every buffer.
pub type DequantMemory = Map<DequantArg, DequantValue>;

/// The integer at a position of an argument list.
pub open spec fn int_at(args: Seq<DequantArg>, i: int) -> int {
    match args[i] {
        DequantArg::Long(n) => n as int,
        _ => -1,
    }
}

/// What one launch leaves behind: the positions are those of the parameters in
/// the declaration of the entry point.
pub open spec fn launched(l: launch::LaunchView<DequantArg>, m: DequantMemory) -> DequantMemory {
    let a = l.args;
    if l.kernel == "dequantize_q8_0"@ {
        // src, dst, n_elements
        m.insert(a[1], of(DequantOp::FromQ8_0, seq![m[a[0]]], seq![int_at(a, 2)]))
    } else if l.kernel == "dequantize_q6_k"@ {
        // src, dst, n_superblocks
        m.insert(a[1], of(DequantOp::FromQ6K, seq![m[a[0]]], seq![int_at(a, 2)]))
    } else {
        m
    }
}

/// A tensor of `blocks` whole blocks is widened into the output, every element
/// of it: 32 of each Q8_0 block of 34 bytes, all of each Q6_K superblock of 210
/// bytes. The source stays.
pub proof fn law_launches_widen_every_block(blocks: int, q8_0: usize, q6_k: usize)
    requires
        0 <= blocks,
        q8_0 == blocks * 34,
        q6_k == blocks * 210,
        blocks * 32 <= i64::MAX,
    ensures
        ({
            let start: DequantMemory = given();
            let first = launched(dequant::q8_0_launch(q8_0), start);
            let second = launched(dequant::q6_k_launch(q6_k), start);
            &&& first[DequantArg::Output] == of(
                DequantOp::FromQ8_0,
                seq![Value::Given(DequantArg::Source)],
                seq![blocks * 32],
            )
            &&& first[DequantArg::Source] == start[DequantArg::Source]
            &&& second[DequantArg::Output] == of(
                DequantOp::FromQ6K,
                seq![Value::Given(DequantArg::Source)],
                seq![blocks],
            )
            &&& second[DequantArg::Source] == start[DequantArg::Source]
        }),
{
    reveal_strlit("dequantize_q8_0");
    reveal_strlit("dequantize_q6_k");
    assert("dequantize_q8_0"@[12] != "dequantize_q6_k"@[12]);
    assert(q8_0 / 34 == blocks);
    assert(q6_k / 210 == blocks);
    let start: DequantMemory = given();
    assert(launched(dequant::q8_0_launch(q8_0), start)[DequantArg::Output] == of(
        DequantOp::FromQ8_0,
        seq![Value::Given(DequantArg::Source)],
        seq![blocks * 32],
    ));
    assert(launched(dequant::q6_k_launch(q6_k), start)[DequantArg::Output] == of(
        DequantOp::FromQ6K,
        seq![Value::Given(DequantArg::Source)],
        seq![blocks],
    ));
}

/// Blocks of 256 threads stand on the work: one thread to an element of Q8_0,
/// sixty-four to a superblock of Q6_K, four elements each.
pub proof fn law_dequant_launches_are_well_shaped(blocks: int, q8_0: usize, q6_k: usize)
    requires
        0 <= blocks,
        q8_0 == blocks * 34,
        q6_k == blocks * 210,
        blocks * 64 <= u32::MAX,
    ensures
        ({
            let first = dequant::q8_0_launch(q8_0).config;
            let second = dequant::q6_k_launch(q6_k).config;
            &&& cover(first.grid_dim.0 as int, 256, blocks * 32)
            &&& cover(second.grid_dim.0 as int, 256, blocks * 64)
            &&& first.grid_dim.1 == 1 && first.grid_dim.2 == 1
            &&& second.grid_dim.1 == 1 && second.grid_dim.2 == 1
            &&& first.block_dim == (256u32, 1u32, 1u32)
            &&& second.block_dim == (256u32, 1u32, 1u32)
            &&& first.shared_mem_bytes == 0
            &&& second.shared_mem_bytes == 0
        }),
{
    assert(q8_0 / 34 == blocks);
    assert(q6_k / 210 == blocks);
    launch::lemma_ceil_div_covers(blocks * 32, 256);
    launch::lemma_ceil_div_covers(blocks * 64, 256);
}

} // verus!
