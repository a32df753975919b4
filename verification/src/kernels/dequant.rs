//! Q8_0 and Q6_K dequantization to floats.
//!
//! A Q8_0 block is a half-precision delta and 32 signed bytes. A Q6_K
//! superblock is 128 bytes of low nibbles, 64 bytes of high bit pairs, 16
//! signed scales and a half-precision delta, for 256 codes.

use crate::kernels::ptx;
use crate::kernels::ptx::{compile_family, PtxCache};
use crate::launch;
use crate::launch::{div_ceil, Launch, LaunchConfig};
use crate::source::dequant::DEQUANT_SRC;
use crate::text;
use crate::text::push_decimal;
use vstd::arithmetic::div_mod::lemma_fundamental_div_mod_converse;
use vstd::prelude::*;
use vstd::string::StringExecFns;

verus! {

/// Elements per Q8_0 block.
pub const QK8_0: usize = 32;

/// Elements per Q6_K superblock.
pub const QK_K: usize = 256;

/// Bytes per Q8_0 block.
pub const BLOCK_Q8_0_BYTES: usize = 34;

/// Bytes per Q6_K superblock.
pub const BLOCK_Q6_K_BYTES: usize = 210;

/// Threads per block.
pub const THREADS: u32 = 256;

/// Threads per Q6_K superblock, each writing four elements.
pub const Q6_K_THREADS: usize = 64;

/// Something a dequantization refuses.
#[derive(Debug)]
pub enum DequantError {
    /// The source was rejected.
    Compile(String),
    /// The byte count is not a whole number of blocks.
    ///
    /// Rejected rather than truncated: a partial trailing block would read
    /// past the tensor.
    Ragged { format: &'static str, bytes: usize, block_bytes: usize },
}

impl DequantError {
    /// The text of the message.
    pub open spec fn text(self) -> Seq<char> {
        match self {
            DequantError::Compile(m) => "kernel compilation failed: "@ + m@,
            DequantError::Ragged { format, bytes, block_bytes } => text::decimal(bytes as nat)
                + " bytes is not a whole number of "@ + format@ + " blocks of "@ + text::decimal(
                block_bytes as nat,
            ) + " B"@,
        }
    }

    /// The message.
    pub fn message(&self) -> (s: String)
        ensures
            s@ == self.text(),
    {
        let mut s = String::new();
        match self {
            DequantError::Compile(m) => {
                s.append("kernel compilation failed: ");
                s.append(m.as_str());
            },
            DequantError::Ragged { format, bytes, block_bytes } => {
                push_decimal(&mut s, *bytes);
                s.append(" bytes is not a whole number of ");
                s.append(format);
                s.append(" blocks of ");
                push_decimal(&mut s, *block_bytes);
                s.append(" B");
            },
        }
        s
    }
}

/// An argument of a dequantization kernel.
#[derive(Debug, Clone, Copy, PartialEq, Eq)]
pub enum DequantArg {
    /// The quantized bytes.
    Source,
    /// The floats.
    Output,
    /// A wide integer by value.
    Long(i64),
}

/// A dequantization: the output to allocate, and the launch that fills it.
#[derive(Debug)]
pub struct DequantPlan {
    /// Floats in the output.
    pub elements: usize,
    /// The launch.
    pub launch: Launch<DequantArg>,
}

/// Shape of a launch of `n` threads.
pub open spec fn flat_config(n: int) -> LaunchConfig {
    LaunchConfig {
        grid_dim: (launch::ceil_div(n, THREADS as int) as u32, 1, 1),
        block_dim: (THREADS, 1, 1),
        shared_mem_bytes: 0,
    }
}

fn flat_cfg(n: usize) -> (c: LaunchConfig)
    ensures
        c == flat_config(n as int),
{
    LaunchConfig {
        grid_dim: (div_ceil(n, THREADS as usize) as u32, 1, 1),
        block_dim: (THREADS, 1, 1),
        shared_mem_bytes: 0,
    }
}

/// Elements of a Q8_0 tensor of `bytes` bytes.
pub open spec fn q8_0_elements(bytes: int) -> int {
    bytes / 34 * 32
}

/// Superblocks of a Q6_K tensor of `bytes` bytes.
pub open spec fn q6_k_superblocks(bytes: int) -> int {
    bytes / 210
}

/// The launch over a Q8_0 tensor.
pub open spec fn q8_0_launch(bytes: usize) -> launch::LaunchView<DequantArg> {
    launch::LaunchView {
        kernel: "dequantize_q8_0"@,
        config: flat_config(q8_0_elements(bytes as int)),
        args: seq![
            DequantArg::Source,
            DequantArg::Output,
            DequantArg::Long(q8_0_elements(bytes as int) as i64),
        ],
    }
}

/// The launch over a Q6_K tensor.
pub open spec fn q6_k_launch(bytes: usize) -> launch::LaunchView<DequantArg> {
    launch::LaunchView {
        kernel: "dequantize_q6_k"@,
        config: flat_config(q6_k_superblocks(bytes as int) * Q6_K_THREADS),
        args: seq![
            DequantArg::Source,
            DequantArg::Output,
            DequantArg::Long(q6_k_superblocks(bytes as int) as i64),
        ],
    }
}

/// The dequantization kernels.
pub struct Dequantizer {
    ptx: String,
}

impl Dequantizer {
    /// The PTX the entry points are loaded from.
    pub closed spec fn image(self) -> Seq<char> {
        self.ptx@
    }

    /// The kernels of already compiled PTX.
    pub fn from_ptx(ptx: String) -> (k: Self)
        ensures
            k.image() == ptx@,
    {
        Dequantizer { ptx }
    }

    /// Compile the kernels.
    pub fn new(cache: &mut PtxCache) -> (r: Result<Self, DequantError>)
        ensures
            old(cache).entries().contains_key(DEQUANT_SRC@) ==> r is Ok,
            ptx::counted(*old(cache), *final(cache), DEQUANT_SRC@, "dequant"@),
            r matches Ok(k) ==> ptx::obtained(
                old(cache).entries(),
                final(cache).entries(),
                DEQUANT_SRC@,
                "dequant"@,
                k.image(),
            ),
            r matches Err(e) ==> {
                &&& e matches DequantError::Compile(m) && ptx::rejected(DEQUANT_SRC@, "dequant"@, m@)
                &&& final(cache).entries() == old(cache).entries()
            },
    {
        match compile_family(cache, DEQUANT_SRC, "dequant") {
            Ok(ptx) => Ok(Self::from_ptx(ptx)),
            Err(m) => Err(DequantError::Compile(m)),
        }
    }

    /// The PTX to load.
    pub fn ptx(&self) -> (s: &str)
        ensures
            s@ == self.image(),
    {
        self.ptx.as_str()
    }

    /// The entry points to load.
    pub fn entry_points() -> (names: Vec<&'static str>)
        ensures
            names@ == seq!["dequantize_q8_0", "dequantize_q6_k"],
    {
        vec!["dequantize_q8_0", "dequantize_q6_k"]
    }

    /// Dequantize a Q8_0 tensor of `bytes` bytes: one thread per element.
    pub fn q8_0(&self, bytes: usize) -> (r: Result<DequantPlan, DequantError>)
        ensures
            r matches Ok(p) ==> p.launch@ == q8_0_launch(bytes),
            bytes % BLOCK_Q8_0_BYTES != 0 ==> r == Err::<DequantPlan, DequantError>(
                DequantError::Ragged { format: "q8_0", bytes, block_bytes: BLOCK_Q8_0_BYTES },
            ),
            bytes % BLOCK_Q8_0_BYTES == 0 ==> {
                &&& r matches Ok(p)
                &&& p.elements == q8_0_elements(bytes as int)
                &&& p.launch.runs(
                    "dequantize_q8_0"@,
                    flat_config(q8_0_elements(bytes as int)),
                    seq![
                        DequantArg::Source,
                        DequantArg::Output,
                        DequantArg::Long(q8_0_elements(bytes as int) as i64),
                    ],
                )
            },
    {
        if bytes % BLOCK_Q8_0_BYTES != 0 {
            return Err(
                DequantError::Ragged { format: "q8_0", bytes, block_bytes: BLOCK_Q8_0_BYTES },
            );
        }
        let n: usize = bytes / BLOCK_Q8_0_BYTES * QK8_0;
        Ok(
            DequantPlan {
                elements: n,
                launch: Launch {
                    kernel: "dequantize_q8_0",
                    config: flat_cfg(n),
                    args: vec![DequantArg::Source, DequantArg::Output, DequantArg::Long(n as i64)],
                },
            },
        )
    }

    /// Dequantize a Q6_K tensor of `bytes` bytes: [`Q6_K_THREADS`] threads per
    /// superblock, each writing four elements.
    pub fn q6_k(&self, bytes: usize) -> (r: Result<DequantPlan, DequantError>)
        requires
            bytes % BLOCK_Q6_K_BYTES == 0 ==> q6_k_superblocks(bytes as int) * QK_K <= usize::MAX,
        ensures
            r matches Ok(p) ==> p.launch@ == q6_k_launch(bytes),
            bytes % BLOCK_Q6_K_BYTES != 0 ==> r == Err::<DequantPlan, DequantError>(
                DequantError::Ragged { format: "q6_K", bytes, block_bytes: BLOCK_Q6_K_BYTES },
            ),
            bytes % BLOCK_Q6_K_BYTES == 0 ==> {
                &&& r matches Ok(p)
                &&& p.elements == q6_k_superblocks(bytes as int) * QK_K
                &&& p.launch.runs(
                    "dequantize_q6_k"@,
                    flat_config(q6_k_superblocks(bytes as int) * Q6_K_THREADS),
                    seq![
                        DequantArg::Source,
                        DequantArg::Output,
                        DequantArg::Long(q6_k_superblocks(bytes as int) as i64),
                    ],
                )
            },
    {
        if bytes % BLOCK_Q6_K_BYTES != 0 {
            return Err(
                DequantError::Ragged { format: "q6_K", bytes, block_bytes: BLOCK_Q6_K_BYTES },
            );
        }
        let superblocks: usize = bytes / BLOCK_Q6_K_BYTES;
        Ok(
            DequantPlan {
                elements: superblocks * QK_K,
                launch: Launch {
                    kernel: "dequantize_q6_k",
                    config: flat_cfg(superblocks * Q6_K_THREADS),
                    args: vec![
                        DequantArg::Source,
                        DequantArg::Output,
                        DequantArg::Long(superblocks as i64),
                    ],
                },
            },
        )
    }
}

/// Element `i` of a Q8_0 tensor reads its block's delta and its own code, both
/// inside the tensor; the code follows the delta and no two elements share
/// one.
#[verifier::spinoff_prover]
pub proof fn law_q8_0_reads_stay_in_bounds(bytes: int, i: int, k: int)
    requires
        bytes % 34 == 0,
        0 <= i < q8_0_elements(bytes),
        0 <= k < q8_0_elements(bytes),
    ensures
        ({
            let base = i / 32 * 34;
            let code = base + 2 + i % 32;
            &&& 0 <= base
            &&& base + 2 <= code < base + BLOCK_Q8_0_BYTES <= bytes
            &&& code == k / 32 * 34 + 2 + k % 32 ==> k == i
        }),
{
    let (bi, ri) = (i / 32, i % 32);
    let (bk, rk) = (k / 32, k % 32);
    assert(i == bi * 32 + ri && 0 <= ri < 32);
    assert(k == bk * 32 + rk && 0 <= rk < 32);
    let blocks = bytes / 34;
    assert(bytes == blocks * 34);
    assert(bi < blocks);
    if bi * 34 + 2 + ri == bk * 34 + 2 + rk {
        assert(bi == bk && ri == rk);
    }
}

/// The element quarter `quarter` of thread `t` writes in a Q6_K tensor.
pub open spec fn q6_k_output(t: int, quarter: int) -> int {
    t / 64 * 256 + t % 64 / 32 * 128 + quarter * 32 + t % 32
}

/// The thread that writes element `e` of a Q6_K tensor.
pub open spec fn q6_k_thread(e: int) -> int {
    e / 256 * 64 + e % 256 / 128 * 32 + e % 32
}

/// The four elements a Q6_K thread writes lie inside the output, and every
/// element of the output is written by exactly one thread and quarter.
pub proof fn law_q6_k_writes_cover_once(superblocks: int, e: int)
    requires
        0 <= e < superblocks * QK_K,
    ensures
        0 <= q6_k_thread(e) < superblocks * Q6_K_THREADS,
        0 <= e % 128 / 32 < 4,
        q6_k_output(q6_k_thread(e), e % 128 / 32) == e,
        forall|t: int, quarter: int|
            0 <= t && 0 <= quarter < 4 && #[trigger] q6_k_output(t, quarter) == e ==> t
                == q6_k_thread(e) && quarter == e % 128 / 32,
{
    lemma_q6_k_element(e);
    assert forall|t: int, quarter: int|
        0 <= t && 0 <= quarter < 4 && #[trigger] q6_k_output(t, quarter) == e implies t
        == q6_k_thread(e) && quarter == e % 128 / 32 by {
        lemma_q6_k_thread(t, quarter);
    }
}

/// An element is its thread's output.
#[verifier::spinoff_prover]
proof fn lemma_q6_k_element(e: int)
    requires
        0 <= e,
    ensures
        0 <= q6_k_thread(e),
        q6_k_thread(e) / 64 == e / 256,
        q6_k_output(q6_k_thread(e), e % 128 / 32) == e,
{
    let superblock = e / 256;
    let rest = e - superblock * 256;
    let half = rest / 128;
    let low = rest - half * 128;
    let quarter = low / 32;
    let l = low - quarter * 32;
    assert(0 <= rest < 256);
    assert(0 <= half < 2 && 0 <= low < 128);
    assert(0 <= quarter < 4 && 0 <= l < 32);
    assert(e == superblock * 256 + half * 128 + quarter * 32 + l);
    lemma_q6_k_position(superblock, half, quarter, l);
}

/// A thread's output names the thread.
#[verifier::spinoff_prover]
proof fn lemma_q6_k_thread(t: int, quarter: int)
    requires
        0 <= t,
        0 <= quarter < 4,
    ensures
        q6_k_thread(q6_k_output(t, quarter)) == t,
        q6_k_output(t, quarter) % 128 / 32 == quarter,
{
    let superblock = t / 64;
    let rest = t - superblock * 64;
    let half = rest / 32;
    let l = rest - half * 32;
    assert(0 <= rest < 64);
    assert(0 <= half < 2 && 0 <= l < 32);
    assert(t == superblock * 64 + half * 32 + l);
    lemma_q6_k_position(superblock, half, quarter, l);
}

/// The digits of a Q6_K element, and of the thread that writes it.
#[verifier::spinoff_prover]
proof fn lemma_q6_k_position(superblock: int, half: int, quarter: int, l: int)
    requires
        0 <= superblock,
        0 <= half < 2,
        0 <= quarter < 4,
        0 <= l < 32,
    ensures
        ({
            let t = superblock * 64 + half * 32 + l;
            let e = superblock * 256 + half * 128 + quarter * 32 + l;
            &&& t / 64 == superblock
            &&& t % 64 / 32 == half
            &&& t % 32 == l
            &&& e / 256 == superblock
            &&& e % 256 / 128 == half
            &&& e % 128 / 32 == quarter
            &&& e % 32 == l
        }),
{
    let t = superblock * 64 + half * 32 + l;
    let e = superblock * 256 + half * 128 + quarter * 32 + l;
    lemma_fundamental_div_mod_converse(t, 64, superblock, half * 32 + l);
    lemma_fundamental_div_mod_converse(half * 32 + l, 32, half, l);
    lemma_fundamental_div_mod_converse(t, 32, superblock * 2 + half, l);
    lemma_fundamental_div_mod_converse(e, 256, superblock, half * 128 + quarter * 32 + l);
    lemma_fundamental_div_mod_converse(
        half * 128 + quarter * 32 + l,
        128,
        half,
        quarter * 32 + l,
    );
    lemma_fundamental_div_mod_converse(e, 128, superblock * 2 + half, quarter * 32 + l);
    lemma_fundamental_div_mod_converse(quarter * 32 + l, 32, quarter, l);
    lemma_fundamental_div_mod_converse(e, 32, superblock * 8 + half * 4 + quarter, l);
}

/// What a Q6_K thread reads lies in the right field of its superblock: low
/// nibbles, high bit pairs, scales and delta, one after the other.
#[verifier::spinoff_prover]
pub proof fn law_q6_k_reads_stay_in_their_fields(bytes: int, t: int, quarter: int)
    requires
        bytes % 210 == 0,
        0 <= t < q6_k_superblocks(bytes) * Q6_K_THREADS,
        0 <= quarter < 4,
    ensures
        ({
            let base = t / 64 * 210;
            let half = t % 64 / 32;
            let l = t % 32;
            &&& 0 <= base && base + BLOCK_Q6_K_BYTES <= bytes
            &&& 0 <= half * 64 + l && half * 64 + l + 32 < 128
            &&& 128 <= 128 + half * 32 + l < 192
            &&& 192 <= 192 + half * 8 + l / 16 + 2 * quarter < 208
            &&& 208 + 2 == BLOCK_Q6_K_BYTES
        }),
{
}

/// The four codes of a Q6_K thread use the whole of their bytes once: the two
/// low nibbles of each of two bytes and the four bit pairs of a third, each
/// code a six-bit value.
pub proof fn law_q6_k_codes_partition_their_bytes(low: u8, low2: u8, high: u8)
    ensures
        (low & 0xF) | ((high & 3) << 4u8) <= 63,
        (low2 & 0xF) | (((high >> 2u8) & 3) << 4u8) <= 63,
        (low >> 4u8) | (((high >> 4u8) & 3) << 4u8) <= 63,
        (low2 >> 4u8) | (((high >> 6u8) & 3) << 4u8) <= 63,
        ((low >> 4u8) << 4u8) | (low & 0xF) == low,
        ((high >> 6u8) & 3) << 6u8 | ((high >> 4u8) & 3) << 4u8 | ((high >> 2u8) & 3) << 2u8 | (high
            & 3) == high,
{
    assert((low & 0xF) | ((high & 3) << 4u8) <= 63) by (bit_vector);
    assert((low2 & 0xF) | (((high >> 2u8) & 3) << 4u8) <= 63) by (bit_vector);
    assert((low >> 4u8) | (((high >> 4u8) & 3) << 4u8) <= 63) by (bit_vector);
    assert((low2 >> 4u8) | (((high >> 6u8) & 3) << 4u8) <= 63) by (bit_vector);
    assert(((low >> 4u8) << 4u8) | (low & 0xF) == low) by (bit_vector);
    assert(((high >> 6u8) & 3) << 6u8 | ((high >> 4u8) & 3) << 4u8 | ((high >> 2u8) & 3) << 2u8 | (
    high & 3) == high) by (bit_vector);
}

} // verus!
