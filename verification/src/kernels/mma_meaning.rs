//! What the integer GEMM computes.

use crate::kernels::mma;
use crate::kernels::mma::{MmaArg, MmaError};
use crate::launch;
use crate::meaning::{cover, given, of, Value};
use vstd::prelude::*;

verus! {

/// One operation of an expression.
pub enum MmaOp {
    /// Every row of the first input against every row of the second.
    RowProducts,
}

/// What a buffer holds.
pub type MmaValue = Value<MmaArg, MmaOp>;

/// The contents of every buffer.
pub type MmaMemory = Map<MmaArg, MmaValue>;

/// The integer at a position of an argument list.
pub open spec fn int_at(args: Seq<MmaArg>, i: int) -> int {
    match args[i] {
        MmaArg::Int(n) => n as int,
        _ => -1,
    }
}

/// What one launch leaves behind: the positions are those of the parameters in
/// the declaration of the entry point.
pub open spec fn launched(l: launch::LaunchView<MmaArg>, m: MmaMemory) -> MmaMemory {
    let a = l.args;
    if l.kernel == "mma_int8_gemm"@ {
        // a, b, d, m, n, k
        m.insert(
            a[2],
            of(
                MmaOp::RowProducts,
                seq![m[a[0]], m[a[1]]],
                seq![int_at(a, 3), int_at(a, 4), int_at(a, 5)],
            ),
        )
    } else {
        m
    }
}

/// The launch leaves the `m` rows of the left operand against the `n` rows of
/// the right one, over a depth of `k`, in the product, and the operands as they
/// were.
pub proof fn law_gemm_multiplies(m: usize, n: usize, k: usize)
    requires
        m <= i32::MAX,
        n <= i32::MAX,
        k <= i32::MAX,
    ensures
        ({
            let start: MmaMemory = given();
            let end = launched(mma::gemm_launch(m, n, k), start);
            &&& end[MmaArg::D] == of(
                MmaOp::RowProducts,
                seq![Value::Given(MmaArg::A), Value::Given(MmaArg::B)],
                seq![m as int, n as int, k as int],
            )
            &&& end[MmaArg::A] == start[MmaArg::A]
            &&& end[MmaArg::B] == start[MmaArg::B]
        }),
{
    let start: MmaMemory = given();
    let end = launched(mma::gemm_launch(m, n, k), start);
    assert(end[MmaArg::D] == of(
        MmaOp::RowProducts,
        seq![Value::Given(MmaArg::A), Value::Given(MmaArg::B)],
        seq![m as int, n as int, k as int],
    ));
}

/// One warp stands on every `8 x 8` tile of the product: columns along the
/// grid's x extent, rows along its y extent.
pub proof fn law_gemm_launch_is_well_shaped(m: usize, n: usize, k: usize)
    requires
        m <= i32::MAX,
        n <= i32::MAX,
    ensures
        ({
            let c = mma::gemm_launch(m, n, k).config;
            &&& cover(c.grid_dim.0 as int, 8, n as int)
            &&& cover(c.grid_dim.1 as int, 8, m as int)
            &&& c.grid_dim.2 == 1
            &&& c.block_dim == (32u32, 1u32, 1u32)
            &&& c.shared_mem_bytes == 0
        }),
{
    launch::lemma_ceil_div_covers(n as int, 8);
    launch::lemma_ceil_div_covers(m as int, 8);
}

/// The GEMM is accepted on a depth of whole steps of sixteen and on buffers of
/// exactly their shapes, and on nothing else.
pub proof fn law_gemm_accepts_exactly_its_shapes(
    a: usize,
    b: usize,
    d: usize,
    m: usize,
    n: usize,
    k: usize,
)
    ensures
        mma::gemm_refusal(a, b, d, m, n, k) is None <==> (k % 16 == 0 && a == m * k && b == n * k
            && d == m * n),
{
}

/// A refusal is true: it names the buffer that is wrong, the length it has and
/// the length its shape implies, and the operands are looked at before the
/// product.
pub proof fn law_gemm_refuses_truthfully(
    a: usize,
    b: usize,
    d: usize,
    m: usize,
    n: usize,
    k: usize,
    e: MmaError,
)
    requires
        mma::gemm_refusal(a, b, d, m, n, k) == Some(e),
        m * k <= usize::MAX,
        n * k <= usize::MAX,
        m * n <= usize::MAX,
    ensures
        match e {
            MmaError::Compile(_) => false,
            MmaError::RaggedContraction { k: depth } => depth == k && k % 16 != 0,
            MmaError::BufferShape { what, expected, actual } => {
                &&& k % 16 == 0
                &&& expected != actual
                &&& what@ == "a"@ || what@ == "b"@ || what@ == "d"@
                &&& what@ == "a"@ ==> actual == a && expected == m * k
                &&& what@ == "b"@ ==> actual == b && expected == n * k && a == m * k
                &&& what@ == "d"@ ==> actual == d && expected == m * n && a == m * k && b == n * k
            },
        },
{
    reveal_strlit("a");
    reveal_strlit("b");
    reveal_strlit("d");
    assert("a"@[0] != "b"@[0] && "a"@[0] != "d"@[0] && "b"@[0] != "d"@[0]);
}

} // verus!
