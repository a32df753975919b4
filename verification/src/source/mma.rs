//! CUDA C++ source. The int8 tensor-core GEMM.

use vstd::prelude::*;

verus! {

pub const MMA_SRC: &'static str = r#"
extern "C" {

// d[m][n] = sum_k a[m][k] * b[n][k], int8 operands, int32 accumulate.
//
// `a` is [M][K] row-major and `b` is [N][K] row-major -- b is the transpose of
// the mathematical right operand, which is what `.col` means and what every
// quantized weight layout in this project already stores.
__global__ void mma_int8_gemm(
    const signed char* __restrict__ a,
    const signed char* __restrict__ b,
    int* __restrict__ d,
    int m, int n, int k
) {
    int tile_n = blockIdx.x * 8;
    int tile_m = blockIdx.y * 8;
    int lane = threadIdx.x;

    int a_row = tile_m + (lane >> 2);
    int b_col = tile_n + (lane >> 2);
    int elem0 = (lane & 3) * 4;

    int d_row = tile_m + (lane >> 2);
    int d_col = tile_n + (lane & 3) * 2;

    int acc0 = 0, acc1 = 0;

    for (int k0 = 0; k0 < k; k0 += 16) {
        unsigned int af = 0, bf = 0;
        if (a_row < m) {
            const signed char* p = a + (long long)a_row * k + k0 + elem0;
            af = *(const unsigned int*)p;
        }
        if (b_col < n) {
            const signed char* p = b + (long long)b_col * k + k0 + elem0;
            bf = *(const unsigned int*)p;
        }

        asm volatile(
            "mma.sync.aligned.m8n8k16.row.col.s32.s8.s8.s32 "
            "{%0,%1}, {%2}, {%3}, {%0,%1};"
            : "+r"(acc0), "+r"(acc1)
            : "r"(af), "r"(bf)
        );
    }

    if (d_row < m) {
        if (d_col     < n) d[(long long)d_row * n + d_col    ] = acc0;
        if (d_col + 1 < n) d[(long long)d_row * n + d_col + 1] = acc1;
    }
}

}
"#;

} // verus!
