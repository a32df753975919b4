//! CUDA C++ source. The four probes of the toolchain check.

use vstd::prelude::*;

verus! {

pub const VECADD_SRC: &'static str = r#"
extern "C" __global__ void vecadd(const float* a, const float* b, float* out, int n) {
    int i = blockIdx.x * blockDim.x + threadIdx.x;
    if (i < n) out[i] = a[i] + b[i];
}
"#;

pub const INLINE_PTX_SRC: &'static str = r#"
extern "C" __global__ void inline_ptx_fma(const float* a, const float* b, float* out, int n) {
    int i = blockIdx.x * blockDim.x + threadIdx.x;
    if (i >= n) return;
    float x = a[i], y = b[i], r;
    // Fused multiply-add expressed directly in PTX: r = x * y + 1.0
    asm volatile("fma.rn.f32 %0, %1, %2, 0f3F800000;" : "=f"(r) : "f"(x), "f"(y));
    out[i] = r;
}
"#;

pub const ACCUM_SRC: &'static str = r#"
extern "C" __global__ void accum(const float* a, float* acc, int n) {
    int i = blockIdx.x * blockDim.x + threadIdx.x;
    if (i < n) acc[i] += a[i];
}
"#;

pub const WARP_SRC: &'static str = r#"
extern "C" __global__ void warp_ops(const float* in, float* sums, int* counts, int n) {
    int lane = threadIdx.x & 31;
    int i = blockIdx.x * blockDim.x + threadIdx.x;
    float v = (i < n) ? in[i] : 0.0f;

    // Butterfly all-reduce across the warp.
    float s = v;
    for (int off = 16; off > 0; off >>= 1) {
        s += __shfl_xor_sync(0xffffffff, s, off);
    }

    // Count lanes holding a value above threshold.
    unsigned mask = __ballot_sync(0xffffffff, v > 0.5f);
    int c = __popc(mask);

    if (lane == 0) {
        int w = i >> 5;
        sums[w] = s;
        counts[w] = c;
    }
}
"#;

} // verus!
