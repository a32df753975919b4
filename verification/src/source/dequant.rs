//! CUDA C++ source. Q8_0 and Q6_K dequantization.

use vstd::prelude::*;

verus! {

pub const DEQUANT_SRC: &'static str = r#"
extern "C" {

// Reinterpret two little-endian bytes as an IEEE half and widen to float.
__device__ __forceinline__ float load_half_le(const unsigned char* p) {
    unsigned short bits = (unsigned short)p[0] | ((unsigned short)p[1] << 8);
    float f;
    asm("cvt.f32.f16 %0, %1;" : "=f"(f) : "h"(bits));
    return f;
}

// One thread per output element.
//
// `qs` for block b starts at b*34 + 2; the fp16 delta is the first two bytes
// of the block. Reading the quant as `signed char` is load-bearing: the
// codes are int8 on disk, and reading them unsigned would flip the sign of
// roughly half of every tensor while leaving magnitudes plausible.
__global__ void dequantize_q8_0(
    const unsigned char* __restrict__ src,
    float* __restrict__ dst,
    long long n_elements
) {
    long long i = blockIdx.x * (long long)blockDim.x + threadIdx.x;
    if (i >= n_elements) return;

    long long block = i / 32;
    int lane = (int)(i % 32);
    const unsigned char* base = src + block * 34;

    float d = load_half_le(base);
    signed char q = (signed char)base[2 + lane];
    dst[i] = (float)q * d;
}

// One thread per (superblock, half, l) triple; each writes four outputs.
//
// The superblock is processed as two 128-element halves. Within a half, 32
// positions `l` each address four interleaved 6-bit codes at flat offsets
// l, l+32, l+64, l+96, and `is = l/16` selects which of two per-16-element
// int8 scales applies to each. Every code is (low4 | high2<<4) - 32, i.e. an
// unsigned 6-bit value re-centered to [-32, 31].
__global__ void dequantize_q6_k(
    const unsigned char* __restrict__ src,
    float* __restrict__ dst,
    long long n_superblocks
) {
    long long t = blockIdx.x * (long long)blockDim.x + threadIdx.x;
    long long total = n_superblocks * 64;
    if (t >= total) return;

    long long sb = t / 64;
    int rem  = (int)(t % 64);
    int half = rem / 32;
    int l    = rem % 32;

    const unsigned char* base = src + sb * 210;
    const unsigned char* ql = base + half * 64;
    const unsigned char* qh = base + 128 + half * 32;
    const signed char*   sc = (const signed char*)(base + 192 + half * 8);
    float d = load_half_le(base + 208);

    int is = l / 16;

    int raw1 = (ql[l]      & 0xF) | ((qh[l] & 3) << 4);
    int raw2 = (ql[l + 32] & 0xF) | (((qh[l] >> 2) & 3) << 4);
    int raw3 = (ql[l]      >> 4)  | (((qh[l] >> 4) & 3) << 4);
    int raw4 = (ql[l + 32] >> 4)  | (((qh[l] >> 6) & 3) << 4);

    float* y = dst + sb * 256 + half * 128;

    y[l]      = d * (float)sc[is]     * (float)(raw1 - 32);
    y[l + 32] = d * (float)sc[is + 2] * (float)(raw2 - 32);
    y[l + 64] = d * (float)sc[is + 4] * (float)(raw3 - 32);
    y[l + 96] = d * (float)sc[is + 6] * (float)(raw4 - 32);
}

}
"#;

} // verus!
