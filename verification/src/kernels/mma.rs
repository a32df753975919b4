//! The int8 tensor-core GEMM: `d[m][n] = sum_k a[m][k] * b[n][k]`, exactly.
//!
//! One warp owns one `8 x 8` output tile and walks the contraction in steps of
//! the instruction's own depth.

use crate::kernels::ptx::{compile_family, PtxCache};
use crate::launch::{div_ceil, Launch, LaunchConfig};
use crate::source::mma::MMA_SRC;
use crate::text::push_decimal;
use crate::kernels::ptx;
use crate::text;
use crate::launch;
use vstd::prelude::*;
use vstd::string::StringExecFns;

verus! {

/// Rows of one output tile.
pub const MMA_M: usize = 8;

/// Columns of one output tile.
pub const MMA_N: usize = 8;

/// Contraction depth of one instruction.
pub const MMA_K: usize = 16;

/// Something the integer GEMM refuses.
#[derive(Debug)]
pub enum MmaError {
    /// The source was rejected.
    Compile(String),
    /// `k` is not a whole number of [`MMA_K`] steps.
    ///
    /// Rejected rather than padded: padding would need a masked tail load, and
    /// silently truncating would produce a plausible wrong product.
    RaggedContraction { k: usize },
    /// A buffer is not the size the declared shape implies.
    BufferShape { what: &'static str, expected: usize, actual: usize },
}

impl MmaError {
    /// The text of the message.
    pub open spec fn text(self) -> Seq<char> {
        match self {
            MmaError::Compile(m) => "integer MMA kernel compilation failed: "@ + m@,
            MmaError::RaggedContraction { k } => "contraction length "@ + text::decimal(
                k as nat,
            ) + " is not a multiple of "@ + text::decimal(MMA_K as nat)
                + ", which is the instruction's K and not a tunable"@,
            MmaError::BufferShape { what, expected, actual } => what@ + " holds "@
                + text::decimal(actual as nat) + " elements, the shape implies "@
                + text::decimal(expected as nat),
        }
    }

    /// The message.
    pub fn message(&self) -> (s: String)
        ensures
            s@ == self.text(),
    {
        let mut s = String::new();
        match self {
            MmaError::Compile(m) => {
                s.append("integer MMA kernel compilation failed: ");
                s.append(m.as_str());
            },
            MmaError::RaggedContraction { k } => {
                s.append("contraction length ");
                push_decimal(&mut s, *k);
                s.append(" is not a multiple of ");
                push_decimal(&mut s, MMA_K);
                s.append(", which is the instruction's K and not a tunable");
            },
            MmaError::BufferShape { what, expected, actual } => {
                s.append(what);
                s.append(" holds ");
                push_decimal(&mut s, *actual);
                s.append(" elements, the shape implies ");
                push_decimal(&mut s, *expected);
            },
        }
        s
    }
}

/// An argument of the integer GEMM.
#[derive(Debug, Clone, Copy, PartialEq, Eq)]
pub enum MmaArg {
    /// The left operand, `[m][k]`.
    A,
    /// The right operand, `[n][k]`.
    B,
    /// The product, `[m][n]`.
    D,
    /// An integer by value.
    Int(i32),
}

/// What the GEMM refuses, if anything.
pub open spec fn gemm_refusal(
    a: usize,
    b: usize,
    d: usize,
    m: usize,
    n: usize,
    k: usize,
) -> Option<MmaError> {
    if k % MMA_K != 0 {
        Some(MmaError::RaggedContraction { k })
    } else if a != m * k {
        Some(MmaError::BufferShape { what: "a", expected: (m * k) as usize, actual: a })
    } else if b != n * k {
        Some(MmaError::BufferShape { what: "b", expected: (n * k) as usize, actual: b })
    } else if d != m * n {
        Some(MmaError::BufferShape { what: "d", expected: (m * n) as usize, actual: d })
    } else {
        None
    }
}

/// One warp per output tile.
pub open spec fn gemm_config(m: usize, n: usize) -> LaunchConfig {
    LaunchConfig {
        grid_dim: (
            launch::ceil_div(n as int, MMA_N as int) as u32,
            launch::ceil_div(m as int, MMA_M as int) as u32,
            1,
        ),
        block_dim: (32, 1, 1),
        shared_mem_bytes: 0,
    }
}

/// The product of `[m][k]` and `[n][k]`.
pub open spec fn gemm_launch(m: usize, n: usize, k: usize) -> launch::LaunchView<MmaArg> {
    launch::LaunchView {
        kernel: "mma_int8_gemm"@,
        config: gemm_config(m, n),
        args: seq![
            MmaArg::A,
            MmaArg::B,
            MmaArg::D,
            MmaArg::Int(m as i32),
            MmaArg::Int(n as i32),
            MmaArg::Int(k as i32),
        ],
    }
}

/// The compiled integer tensor-core GEMM.
pub struct MmaKernels {
    ptx: String,
}

impl MmaKernels {
    /// The PTX the entry point is loaded from.
    pub closed spec fn image(self) -> Seq<char> {
        self.ptx@
    }

    /// The kernels of already compiled PTX.
    pub fn from_ptx(ptx: String) -> (k: Self)
        ensures
            k.image() == ptx@,
    {
        MmaKernels { ptx }
    }

    /// Compile the source.
    pub fn new(cache: &mut PtxCache) -> (r: Result<Self, MmaError>)
        ensures
            old(cache).entries().contains_key(MMA_SRC@) ==> r is Ok,
            ptx::counted(*old(cache), *final(cache), MMA_SRC@, "mma_int8"@),
            r matches Ok(k) ==> ptx::obtained(
                old(cache).entries(),
                final(cache).entries(),
                MMA_SRC@,
                "mma_int8"@,
                k.image(),
            ),
            r matches Err(e) ==> {
                &&& e matches MmaError::Compile(m) && ptx::rejected(MMA_SRC@, "mma_int8"@, m@)
                &&& final(cache).entries() == old(cache).entries()
            },
    {
        match compile_family(cache, MMA_SRC, "mma_int8") {
            Ok(ptx) => Ok(MmaKernels::from_ptx(ptx)),
            Err(m) => Err(MmaError::Compile(m)),
        }
    }

    /// The PTX to load.
    pub fn ptx(&self) -> (s: &str)
        ensures
            s@ == self.image(),
    {
        self.ptx.as_str()
    }

    /// The entry points to load.
    pub fn entry_points() -> (names: Vec<&'static str>)
        ensures
            names@ == seq!["mma_int8_gemm"],
    {
        vec!["mma_int8_gemm"]
    }

    /// `d[m][n] = sum_k a[m][k] * b[n][k]`, exactly.
    ///
    /// `a` is `[m][k]` and `b` is `[n][k]`, both row-major int8; `d` is
    /// `[m][n]` int32. All three are buffer lengths.
    pub fn gemm(&self, a: usize, b: usize, d: usize, m: usize, n: usize, k: usize) -> (r: Result<
        Launch<MmaArg>,
        MmaError,
    >)
        requires
            k % MMA_K == 0 ==> m * k <= usize::MAX,
            k % MMA_K == 0 && a == m * k ==> n * k <= usize::MAX,
            k % MMA_K == 0 && a == m * k && b == n * k ==> m * n <= usize::MAX,
        ensures
            r matches Ok(l) ==> l@ == gemm_launch(m, n, k),
            match gemm_refusal(a, b, d, m, n, k) {
                Some(e) => r == Err::<Launch<MmaArg>, MmaError>(e),
                None => r matches Ok(l) && l.runs(
                    "mma_int8_gemm"@,
                    gemm_config(m, n),
                    seq![
                        MmaArg::A,
                        MmaArg::B,
                        MmaArg::D,
                        MmaArg::Int(m as i32),
                        MmaArg::Int(n as i32),
                        MmaArg::Int(k as i32),
                    ],
                ),
            },
    {
        if k % MMA_K != 0 {
            return Err(MmaError::RaggedContraction { k });
        }
        expect_len("a", a, m * k)?;
        expect_len("b", b, n * k)?;
        expect_len("d", d, m * n)?;
        Ok(
            Launch {
                kernel: "mma_int8_gemm",
                config: LaunchConfig {
                    grid_dim: (div_ceil(n, MMA_N) as u32, div_ceil(m, MMA_M) as u32, 1),
                    block_dim: (32, 1, 1),
                    shared_mem_bytes: 0,
                },
                args: vec![
                    MmaArg::A,
                    MmaArg::B,
                    MmaArg::D,
                    MmaArg::Int(m as i32),
                    MmaArg::Int(n as i32),
                    MmaArg::Int(k as i32),
                ],
            },
        )
    }
}

/// An exact buffer length.
pub fn expect_len(what: &'static str, actual: usize, expected: usize) -> (r: Result<(), MmaError>)
    ensures
        actual == expected ==> r is Ok,
        actual != expected ==> r == Err::<(), MmaError>(
            MmaError::BufferShape { what, expected, actual },
        ),
{
    if actual == expected {
        Ok(())
    } else {
        Err(MmaError::BufferShape { what, expected, actual })
    }
}

/// Every output element lies in a tile of the grid, and its own and its
/// operands' positions lie inside the buffers.
pub proof fn law_gemm_covers_the_product(
    a: usize,
    b: usize,
    d: usize,
    m: usize,
    n: usize,
    k: usize,
    row: int,
    col: int,
    i: int,
)
    requires
        gemm_refusal(a, b, d, m, n, k) is None,
        0 <= row < m,
        0 <= col < n,
        0 <= i < k,
    ensures
        0 <= launch::at2(row, i, k as int) < a,
        0 <= launch::at2(col, i, k as int) < b,
        0 <= launch::at2(row, col, n as int) < d,
        row / (MMA_M as int) < launch::ceil_div(m as int, MMA_M as int),
        col / (MMA_N as int) < launch::ceil_div(n as int, MMA_N as int),
{
    launch::lemma_at2_bound(row, i, m as int, k as int);
    launch::lemma_at2_bound(col, i, n as int, k as int);
    launch::lemma_at2_bound(row, col, m as int, n as int);
    launch::law_flat_grid_covers_once(m as int, MMA_M as int, row);
    launch::law_flat_grid_covers_once(n as int, MMA_N as int, col);
}

/// A contraction that is not refused is a whole number of instructions.
pub proof fn law_contraction_is_never_ragged(
    a: usize,
    b: usize,
    d: usize,
    m: usize,
    n: usize,
    k: usize,
)
    ensures
        gemm_refusal(a, b, d, m, n, k) is None ==> k % MMA_K == 0,
        k % MMA_K != 0 ==> gemm_refusal(a, b, d, m, n, k) == Some(
            MmaError::RaggedContraction { k },
        ),
{
}

/// Element of the tile that accumulator `c` of a lane holds: row `lane / 4`,
/// columns `2 * (lane % 4)` and the next.
pub open spec fn accumulator_slot(lane: int, c: int) -> (int, int) {
    (lane / 4, (lane % 4) * 2 + c)
}

/// Operand element that byte `j` of a lane's load holds: row `lane / 4`, depth
/// `4 * (lane % 4) + j`.
pub open spec fn operand_slot(lane: int, j: int) -> (int, int) {
    (lane / 4, (lane % 4) * 4 + j)
}

/// The 32 lanes hold every element of an output tile exactly once.
pub proof fn law_accumulators_tile_the_output(row: int, col: int)
    requires
        0 <= row < MMA_M,
        0 <= col < MMA_N,
    ensures
        ({
            let lane = row * 4 + col / 2;
            &&& 0 <= lane < 32
            &&& accumulator_slot(lane, col % 2) == (row, col)
        }),
        forall|lane: int, c: int|
            0 <= lane < 32 && 0 <= c < 2 && #[trigger] accumulator_slot(lane, c) == (row, col)
                ==> lane == row * 4 + col / 2 && c == col % 2,
{
}

/// The 32 lanes load every operand element of a step exactly once.
pub proof fn law_operands_tile_the_step(row: int, depth: int)
    requires
        0 <= row < MMA_M,
        0 <= depth < MMA_K,
    ensures
        ({
            let lane = row * 4 + depth / 4;
            &&& 0 <= lane < 32
            &&& operand_slot(lane, depth % 4) == (row, depth)
        }),
        forall|lane: int, j: int|
            0 <= lane < 32 && 0 <= j < 4 && #[trigger] operand_slot(lane, j) == (row, depth)
                ==> lane == row * 4 + depth / 4 && j == depth % 4,
{
}

} // verus!
