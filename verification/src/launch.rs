//! A kernel launch as a plain value.

use vstd::prelude::*;

verus! {

/// Grid, block and dynamic shared memory of one launch.
#[derive(Debug, Clone, Copy, PartialEq, Eq)]
pub struct LaunchConfig {
    /// Blocks along x, y and z.
    pub grid_dim: (u32, u32, u32),
    /// Threads per block along x, y and z.
    pub block_dim: (u32, u32, u32),
    /// Dynamic shared memory one block requests.
    pub shared_mem_bytes: u32,
}

/// One launch: the entry point, its shape and its arguments in order.
///
/// `A` is the argument type of the kernel family: a buffer by role, or a
/// scalar by value.
#[derive(Debug)]
pub struct Launch<A> {
    /// Entry point in the family's module.
    pub kernel: &'static str,
    /// Grid, block and shared memory.
    pub config: LaunchConfig,
    /// Arguments, in the order the entry point declares them.
    pub args: Vec<A>,
}

impl<A> Launch<A> {
    /// Exactly this entry point, shape and argument list.
    pub open spec fn runs(self, kernel: Seq<char>, config: LaunchConfig, args: Seq<A>) -> bool {
        &&& self.kernel@ == kernel
        &&& self.config == config
        &&& self.args@ == args
    }
}

/// A launch with its argument list as a sequence.
#[verifier::ext_equal]
pub struct LaunchView<A> {
    /// Entry point.
    pub kernel: Seq<char>,
    /// Grid, block and shared memory.
    pub config: LaunchConfig,
    /// Arguments, in order.
    pub args: Seq<A>,
}

impl<A> View for Launch<A> {
    type V = LaunchView<A>;

    open spec fn view(&self) -> LaunchView<A> {
        LaunchView { kernel: self.kernel@, config: self.config, args: self.args@ }
    }
}

/// `n / d`, rounded up.
pub open spec fn ceil_div(n: int, d: int) -> int {
    (n + d - 1) / d
}

/// `n / d`, rounded up.
pub fn div_ceil(n: usize, d: usize) -> (q: usize)
    requires
        d != 0,
    ensures
        q == ceil_div(n as int, d as int),
{
    proof {
        lemma_ceil_div_cases(n as int, d as int);
    }
    if n % d == 0 {
        n / d
    } else {
        n / d + 1
    }
}

/// `n / d`, rounded up.
pub fn div_ceil_u32(n: u32, d: u32) -> (q: u32)
    requires
        d != 0,
    ensures
        q == ceil_div(n as int, d as int),
{
    proof {
        lemma_ceil_div_cases(n as int, d as int);
    }
    if n % d == 0 {
        n / d
    } else {
        n / d + 1
    }
}

/// The smaller of two sizes.
pub fn min_usize(a: usize, b: usize) -> (m: usize)
    ensures
        m == if a <= b { a } else { b },
{
    if a <= b {
        a
    } else {
        b
    }
}

pub proof fn lemma_ceil_div_cases(n: int, d: int)
    requires
        0 <= n,
        0 < d,
    ensures
        n % d == 0 ==> ceil_div(n, d) == n / d,
        n % d != 0 ==> ceil_div(n, d) == n / d + 1,
        n % d != 0 ==> d > 1,
        0 <= n / d <= n,
        n % d != 0 ==> n / d + 1 <= n,
{
    let q = n / d;
    let r = n % d;
    assert(n == d * q + r && 0 <= r < d) by (nonlinear_arith)
        requires
            q == n / d,
            r == n % d,
            0 < d,
    ;
    assert(0 <= q <= n) by (nonlinear_arith)
        requires
            n == d * q + r,
            0 <= r < d,
            0 <= n,
            0 < d,
    ;
    if r == 0 {
        assert((n + d - 1) / d == q) by (nonlinear_arith)
            requires
                n == d * q,
                0 < d,
        ;
    } else {
        assert((n + d - 1) / d == q + 1) by (nonlinear_arith)
            requires
                n == d * q + r,
                0 < r < d,
        ;
        assert(q + 1 <= n) by (nonlinear_arith)
            requires
                n == d * q + r,
                0 < r < d,
                0 <= q,
        ;
    }
}

/// A quotient without a remainder multiplies back.
pub proof fn lemma_whole_quotient(n: int, d: int)
    requires
        0 < d,
        n % d == 0,
    ensures
        n / d * d == n,
{
    assert(n / d * d == n) by (nonlinear_arith)
        requires
            0 < d,
            n % d == 0,
    ;
}

/// Rounding up covers `n`, and by less than one whole `d`.
pub proof fn lemma_ceil_div_covers(n: int, d: int)
    requires
        0 <= n,
        0 < d,
    ensures
        n <= ceil_div(n, d) * d < n + d,
        0 <= ceil_div(n, d) <= n,
{
    lemma_ceil_div_cases(n, d);
    let q = n / d;
    let r = n % d;
    assert(n == d * q + r && 0 <= r < d) by (nonlinear_arith)
        requires
            q == n / d,
            r == n % d,
            0 < d,
    ;
    assert(q * d == d * q && (q + 1) * d == d * q + d) by (nonlinear_arith);
}

/// A flat grid of `ceil(n / threads)` blocks has exactly one thread for every
/// index below `n`.
pub proof fn law_flat_grid_covers_once(n: int, threads: int, i: int)
    requires
        0 <= i < n,
        0 < threads,
    ensures
        0 <= i / threads < ceil_div(n, threads),
        0 <= i % threads < threads,
        i == at2(i / threads, i % threads, threads),
        forall|b: int, t: int|
            0 <= t < threads && #[trigger] at2(b, t, threads) == i ==> b == i / threads && t == i
                % threads,
{
    lemma_ceil_div_covers(n, threads);
    let q = i / threads;
    let r = i % threads;
    let c = ceil_div(n, threads);
    assert(i == q * threads + r && 0 <= r < threads) by (nonlinear_arith)
        requires
            q == i / threads,
            r == i % threads,
            0 < threads,
    ;
    assert(0 <= q < c) by (nonlinear_arith)
        requires
            i == q * threads + r,
            0 <= r < threads,
            0 <= i < n,
            n <= c * threads,
            0 < threads,
    ;
    assert forall|b: int, t: int|
        0 <= t < threads && #[trigger] at2(b, t, threads) == i implies b == q && t == r by {
        assert(b == q) by (nonlinear_arith)
            requires
                b * threads + t == q * threads + r,
                0 <= t < threads,
                0 <= r < threads,
        ;
    }
}

/// Row-major position of `(row, col)` in a `rows x cols` buffer.
pub open spec fn at2(row: int, col: int, cols: int) -> int {
    row * cols + col
}

/// Row-major position of `(i, j, k)` in a `_ x nj x nk` buffer.
pub open spec fn at3(i: int, j: int, k: int, nj: int, nk: int) -> int {
    (i * nj + j) * nk + k
}

/// A row-major position lies inside its buffer.
pub proof fn lemma_at2_bound(row: int, col: int, rows: int, cols: int)
    requires
        0 <= row < rows,
        0 <= col < cols,
    ensures
        0 <= at2(row, col, cols) < rows * cols,
{
    assert(0 <= row * cols + col < rows * cols) by (nonlinear_arith)
        requires
            0 <= row < rows,
            0 <= col < cols,
    ;
}

/// Distinct cells have distinct row-major positions.
pub proof fn lemma_at2_injective(r1: int, c1: int, r2: int, c2: int, cols: int)
    requires
        0 <= c1 < cols,
        0 <= c2 < cols,
        at2(r1, c1, cols) == at2(r2, c2, cols),
    ensures
        r1 == r2,
        c1 == c2,
{
    assert(r1 == r2) by (nonlinear_arith)
        requires
            0 <= c1 < cols,
            0 <= c2 < cols,
            r1 * cols + c1 == r2 * cols + c2,
    ;
}

/// A three-dimensional row-major position lies inside its buffer.
pub proof fn lemma_at3_bound(i: int, j: int, k: int, ni: int, nj: int, nk: int)
    requires
        0 <= i < ni,
        0 <= j < nj,
        0 <= k < nk,
    ensures
        0 <= at3(i, j, k, nj, nk) < ni * nj * nk,
{
    lemma_at2_bound(i, j, ni, nj);
    lemma_at2_bound(at2(i, j, nj), k, ni * nj, nk);
}

/// The last position of a buffer is one short of its length.
pub proof fn lemma_at3_last(ni: int, nj: int, nk: int)
    ensures
        at3(ni - 1, nj - 1, nk - 1, nj, nk) + 1 == ni * nj * nk,
{
    assert(((ni - 1) * nj + (nj - 1)) * nk + (nk - 1) + 1 == ni * nj * nk) by (nonlinear_arith);
}

} // verus!
