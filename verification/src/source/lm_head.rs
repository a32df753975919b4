//! CUDA C++ source. The LM head GEMV per weight format, and the argmax passes.

use vstd::prelude::*;
use vstd::string::StringExecFns;

verus! {

/// The staged Q8_0 body and its batch- and row-tiled entry points.
pub const Q8_0_SRC: &'static str = r#"
#define ARGMAX_THREADS 256
#define LM_HEAD_STAGE_BLOCKS 16
#define LM_HEAD_STAGE_U4 ((LM_HEAD_STAGE_BLOCKS * 34) / 16)
#define LM_HEAD_STAGE_PER_LANE ((LM_HEAD_STAGE_U4 + 31) / 32)

// Reinterpret two little-endian bytes as an IEEE half and widen to float.
__device__ __forceinline__ float load_half_le(const unsigned char* p) {
    unsigned short bits = (unsigned short)p[0] | ((unsigned short)p[1] << 8);
    float f;
    asm("cvt.f32.f16 %0, %1;" : "=f"(f) : "h"(bits));
    return f;
}

// One warp per RT adjacent vocabulary rows; BT tokens share the pass.
//
// grid.x  : ceil(vocab / (warps_per_block * RT))
// blockDim: (32, warps_per_block)
template <int BT, int RT>
__device__ __forceinline__ void lm_head_rows(
    const unsigned char* __restrict__ weight,
    const float* __restrict__ hidden_states,
    int hidden_dim,
    int vocab,
    int token_base,
    float* __restrict__ logits
) {
    extern __shared__ uint4 lm_head_stage[];

    int row = (blockIdx.x * blockDim.y + threadIdx.y) * RT;
    int lane = threadIdx.x;
    uint4* s4 = lm_head_stage + threadIdx.y * (LM_HEAD_STAGE_U4 * RT);
    const unsigned char* mine = (const unsigned char*)s4;

    if (row >= vocab) return;

    int nblocks = hidden_dim >> 5;
    const uint4* g4[RT];
    #pragma unroll
    for (int rt = 0; rt < RT; ++rt) {
        g4[rt] = (const uint4*)(weight + (long long)(row + rt) * nblocks * 34);
    }
    const float* x = hidden_states + (long long)token_base * hidden_dim;

    int blk = lane >> 3;
    int sub = lane & 7;

    float acc[RT * BT];
    #pragma unroll
    for (int t = 0; t < RT * BT; ++t) acc[t] = 0.0f;

    // LM_HEAD_STAGE_BLOCKS * 34 = 544 bytes = 34 uint4 per warp per stage.
    // 544 is a multiple of 32, and a row starts at a multiple of
    // (hidden/32)*34 which is also a multiple of 32, so every stage begins at
    // a 32-byte boundary and the 32-lane uint4 load below covers exactly 16
    // whole sectors. Nothing is fetched that is not used.
    //
    // `hidden` is validated to be a multiple of 32 * LM_HEAD_STAGE_BLOCKS at
    // construction, so the last stage is never ragged and no load runs past
    // the row.
    uint4 pre[RT][LM_HEAD_STAGE_PER_LANE];
    #pragma unroll
    for (int rt = 0; rt < RT; ++rt) {
        #pragma unroll
        for (int k = 0; k < LM_HEAD_STAGE_PER_LANE; ++k) {
            int i = lane + k * 32;
            if (i < LM_HEAD_STAGE_U4) pre[rt][k] = g4[rt][i];
        }
    }

    for (int seg = 0; seg < nblocks; seg += LM_HEAD_STAGE_BLOCKS) {
        #pragma unroll
        for (int rt = 0; rt < RT; ++rt) {
            #pragma unroll
            for (int k = 0; k < LM_HEAD_STAGE_PER_LANE; ++k) {
                int i = lane + k * 32;
                if (i < LM_HEAD_STAGE_U4) s4[rt * LM_HEAD_STAGE_U4 + i] = pre[rt][k];
            }
        }
        __syncwarp();

        int next = seg + LM_HEAD_STAGE_BLOCKS;
        if (next < nblocks) {
            #pragma unroll
            for (int rt = 0; rt < RT; ++rt) {
                const uint4* src = g4[rt] + (next / LM_HEAD_STAGE_BLOCKS) * LM_HEAD_STAGE_U4;
                #pragma unroll
                for (int k = 0; k < LM_HEAD_STAGE_PER_LANE; ++k) {
                    int i = lane + k * 32;
                    if (i < LM_HEAD_STAGE_U4) pre[rt][k] = src[i];
                }
            }
        }

        #pragma unroll
        for (int r = 0; r < LM_HEAD_STAGE_BLOCKS; r += 4) {
            int j = ((seg + r + blk) << 5) + 4 * sub;
            float4 xv[BT];
            #pragma unroll
            for (int t = 0; t < BT; ++t) {
                // 16-byte aligned: `hidden_dim` is a multiple of 512 and `j`
                // a multiple of 4, and the base allocation is 256-aligned.
                xv[t] = *(const float4*)(x + (long long)t * hidden_dim + j);
            }
            #pragma unroll
            for (int rt = 0; rt < RT; ++rt) {
                const unsigned char* bp = mine + rt * (LM_HEAD_STAGE_U4 * 16) + (r + blk) * 34;
                float d = load_half_le(bp);

                const unsigned short* qp = (const unsigned short*)(bp + 2 + 4 * sub);
                unsigned short p0 = qp[0];
                unsigned short p1 = qp[1];
                float w0 = (float)(signed char)(unsigned char)(p0 & 0xFF) * d;
                float w1 = (float)(signed char)(unsigned char)(p0 >> 8) * d;
                float w2 = (float)(signed char)(unsigned char)(p1 & 0xFF) * d;
                float w3 = (float)(signed char)(unsigned char)(p1 >> 8) * d;

                #pragma unroll
                for (int t = 0; t < BT; ++t) {
                    acc[rt * BT + t] += w0 * xv[t].x + w1 * xv[t].y + w2 * xv[t].z + w3 * xv[t].w;
                }
            }
        }
        __syncwarp();
    }

    #pragma unroll
    for (int rt = 0; rt < RT; ++rt) {
        #pragma unroll
        for (int t = 0; t < BT; ++t) {
            float v = acc[rt * BT + t];
            for (int off = 16; off > 0; off >>= 1) {
                v += __shfl_down_sync(0xffffffff, v, off);
            }
            if (lane == 0) {
                logits[(long long)(token_base + t) * vocab + row + rt] = v;
            }
        }
    }
}

#define LM_HEAD_ENTRY(NAME, BT)                                             \
extern "C" __global__ void NAME(                                            \
    const unsigned char* __restrict__ weight,                               \
    const float* __restrict__ hidden_states,                                \
    int hidden_dim,                                                         \
    int vocab,                                                              \
    int token_base,                                                         \
    float* __restrict__ logits                                              \
) {                                                                         \
    lm_head_rows<BT, 1>(weight, hidden_states, hidden_dim, vocab,           \
                        token_base, logits);                                \
}

LM_HEAD_ENTRY(lm_head_gemv_b1, 1)
LM_HEAD_ENTRY(lm_head_gemv_b2, 2)
LM_HEAD_ENTRY(lm_head_gemv_b3, 3)
LM_HEAD_ENTRY(lm_head_gemv_b4, 4)
LM_HEAD_ENTRY(lm_head_gemv_b5, 5)
LM_HEAD_ENTRY(lm_head_gemv_b6, 6)
LM_HEAD_ENTRY(lm_head_gemv_b7, 7)
LM_HEAD_ENTRY(lm_head_gemv_b8, 8)

#define LM_HEAD_ENTRY_RT(NAME, BT, RT)                                      \
extern "C" __global__ void NAME(                                            \
    const unsigned char* __restrict__ weight,                               \
    const float* __restrict__ hidden_states,                                \
    int hidden_dim,                                                         \
    int vocab,                                                              \
    int token_base,                                                         \
    float* __restrict__ logits                                              \
) {                                                                         \
    lm_head_rows<BT, RT>(weight, hidden_states, hidden_dim, vocab,          \
                         token_base, logits);                               \
}

LM_HEAD_ENTRY_RT(lm_head_gemv_b3r2, 3, 2)
LM_HEAD_ENTRY_RT(lm_head_gemv_b3r4, 3, 4)

"#;

/// The bf16 and f16 bodies.
pub const DENSE_SRC: &'static str = r#"// ---------------------------------------------------------------------------
// The same GEMV over a bf16 weight tensor.
// ---------------------------------------------------------------------------
__device__ __forceinline__ float widen_bf16(unsigned int bits) {
    return __int_as_float((int)(bits << 16));
}

template <int BT, int RT>
__device__ __forceinline__ void lm_head_rows_bf16(
    const unsigned char* __restrict__ weight,
    const float* __restrict__ hidden_states,
    int hidden_dim,
    int vocab,
    int token_base,
    float* __restrict__ logits
) {
    int row = (blockIdx.x * blockDim.y + threadIdx.y) * RT;
    int lane = threadIdx.x;
    if (row >= vocab) return;

    const uint4* g4[RT];
    #pragma unroll
    for (int rt = 0; rt < RT; ++rt) {
        g4[rt] = (const uint4*)(weight + (long long)(row + rt) * hidden_dim * 2);
    }
    const float* x = hidden_states + (long long)token_base * hidden_dim;

    float acc[RT * BT];
    #pragma unroll
    for (int t = 0; t < RT * BT; ++t) acc[t] = 0.0f;

    for (int base = 0; base < hidden_dim; base += 32 * 8) {
        int j = base + lane * 8;
        float4 xa[BT];
        float4 xb[BT];
        #pragma unroll
        for (int t = 0; t < BT; ++t) {
            const float* xt = x + (long long)t * hidden_dim + j;
            xa[t] = *(const float4*)xt;
            xb[t] = *(const float4*)(xt + 4);
        }
        #pragma unroll
        for (int rt = 0; rt < RT; ++rt) {
            uint4 p = g4[rt][(base >> 3) + lane];
            float w0 = widen_bf16(p.x & 0xFFFFu);
            float w1 = widen_bf16(p.x >> 16);
            float w2 = widen_bf16(p.y & 0xFFFFu);
            float w3 = widen_bf16(p.y >> 16);
            float w4 = widen_bf16(p.z & 0xFFFFu);
            float w5 = widen_bf16(p.z >> 16);
            float w6 = widen_bf16(p.w & 0xFFFFu);
            float w7 = widen_bf16(p.w >> 16);
            #pragma unroll
            for (int t = 0; t < BT; ++t) {
                acc[rt * BT + t] += w0 * xa[t].x + w1 * xa[t].y
                                  + w2 * xa[t].z + w3 * xa[t].w
                                  + w4 * xb[t].x + w5 * xb[t].y
                                  + w6 * xb[t].z + w7 * xb[t].w;
            }
        }
    }

    #pragma unroll
    for (int rt = 0; rt < RT; ++rt) {
        #pragma unroll
        for (int t = 0; t < BT; ++t) {
            float v = acc[rt * BT + t];
            for (int off = 16; off > 0; off >>= 1) {
                v += __shfl_down_sync(0xffffffff, v, off);
            }
            if (lane == 0) {
                logits[(long long)(token_base + t) * vocab + row + rt] = v;
            }
        }
    }
}

#define LM_HEAD_BF16_ENTRY(NAME, BT, RT)                                    \
extern "C" __global__ void NAME(                                            \
    const unsigned char* __restrict__ weight,                               \
    const float* __restrict__ hidden_states,                                \
    int hidden_dim,                                                         \
    int vocab,                                                              \
    int token_base,                                                         \
    float* __restrict__ logits                                              \
) {                                                                         \
    lm_head_rows_bf16<BT, RT>(weight, hidden_states, hidden_dim, vocab,     \
                              token_base, logits);                          \
}

LM_HEAD_BF16_ENTRY(lm_head_bf16_b1, 1, 1)
LM_HEAD_BF16_ENTRY(lm_head_bf16_b2, 2, 1)
LM_HEAD_BF16_ENTRY(lm_head_bf16_b3, 3, 1)
LM_HEAD_BF16_ENTRY(lm_head_bf16_b4, 4, 1)
LM_HEAD_BF16_ENTRY(lm_head_bf16_b5, 5, 1)
LM_HEAD_BF16_ENTRY(lm_head_bf16_b6, 6, 1)
LM_HEAD_BF16_ENTRY(lm_head_bf16_b7, 7, 1)
LM_HEAD_BF16_ENTRY(lm_head_bf16_b8, 8, 1)
LM_HEAD_BF16_ENTRY(lm_head_bf16_b3r2, 3, 2)
LM_HEAD_BF16_ENTRY(lm_head_bf16_b3r4, 3, 4)

// ---------------------------------------------------------------------------
// The same GEMV over an F16 weight tensor.
// ---------------------------------------------------------------------------
__device__ __forceinline__ float widen_f16(unsigned int bits) {
    unsigned short h = (unsigned short)(bits & 0xFFFFu);
    float f;
    asm("cvt.f32.f16 %0, %1;" : "=f"(f) : "h"(h));
    return f;
}

template <int BT>
__device__ __forceinline__ void lm_head_rows_f16(
    const unsigned char* __restrict__ weight,
    const float* __restrict__ hidden_states,
    int hidden_dim,
    int vocab,
    int token_base,
    float* __restrict__ logits
) {
    int row = blockIdx.x * blockDim.y + threadIdx.y;
    int lane = threadIdx.x;
    if (row >= vocab) return;

    const uint4* g4 = (const uint4*)(weight + (long long)row * hidden_dim * 2);
    const float* x = hidden_states + (long long)token_base * hidden_dim;

    float acc[BT];
    #pragma unroll
    for (int t = 0; t < BT; ++t) acc[t] = 0.0f;

    for (int base = 0; base < hidden_dim; base += 32 * 8) {
        int j = base + lane * 8;
        uint4 p = g4[(base >> 3) + lane];
        float w0 = widen_f16(p.x);
        float w1 = widen_f16(p.x >> 16);
        float w2 = widen_f16(p.y);
        float w3 = widen_f16(p.y >> 16);
        float w4 = widen_f16(p.z);
        float w5 = widen_f16(p.z >> 16);
        float w6 = widen_f16(p.w);
        float w7 = widen_f16(p.w >> 16);

        #pragma unroll
        for (int t = 0; t < BT; ++t) {
            const float* xt = x + (long long)t * hidden_dim + j;
            float4 xa = *(const float4*)xt;
            float4 xb = *(const float4*)(xt + 4);
            acc[t] += w0 * xa.x + w1 * xa.y + w2 * xa.z + w3 * xa.w
                    + w4 * xb.x + w5 * xb.y + w6 * xb.z + w7 * xb.w;
        }
    }

    #pragma unroll
    for (int t = 0; t < BT; ++t) {
        float v = acc[t];
        for (int off = 16; off > 0; off >>= 1) {
            v += __shfl_down_sync(0xffffffff, v, off);
        }
        if (lane == 0) {
            logits[(long long)(token_base + t) * vocab + row] = v;
        }
    }
}

#define LM_HEAD_F16_ENTRY(NAME, BT)                                         \
extern "C" __global__ void NAME(                                            \
    const unsigned char* __restrict__ weight,                               \
    const float* __restrict__ hidden_states,                                \
    int hidden_dim,                                                         \
    int vocab,                                                              \
    int token_base,                                                         \
    float* __restrict__ logits                                              \
) {                                                                         \
    lm_head_rows_f16<BT>(weight, hidden_states, hidden_dim, vocab,          \
                         token_base, logits);                               \
}

LM_HEAD_F16_ENTRY(lm_head_f16_b1, 1)
LM_HEAD_F16_ENTRY(lm_head_f16_b2, 2)
LM_HEAD_F16_ENTRY(lm_head_f16_b3, 3)
LM_HEAD_F16_ENTRY(lm_head_f16_b4, 4)
LM_HEAD_F16_ENTRY(lm_head_f16_b5, 5)
LM_HEAD_F16_ENTRY(lm_head_f16_b6, 6)
LM_HEAD_F16_ENTRY(lm_head_f16_b7, 7)
LM_HEAD_F16_ENTRY(lm_head_f16_b8, 8)

"#;

/// The Q4_0, Q4_K and Q5_K bodies.
pub const AFFINE_SRC: &'static str = r#"// ---------------------------------------------------------------------------
// The same GEMV over Q4_0, Q4_K and Q5_K weight tensors.
// ---------------------------------------------------------------------------
__device__ __forceinline__ float k_affine_value(float d1, int code, float m1) {
    float c = (float)code;
    float t, r;
    asm("mul.rn.f32 %0, %1, %2;" : "=f"(t) : "f"(d1), "f"(c));
    asm("sub.rn.f32 %0, %1, %2;" : "=f"(r) : "f"(t), "f"(m1));
    return r;
}

// The packed 6-bit sub-scale/sub-min reader shared by Q4_K and Q5_K.
__device__ __forceinline__ void get_scale_min_k4(
    int j, const unsigned char* __restrict__ q, int* sc, int* m
) {
    if (j < 4) {
        *sc = q[j] & 63;
        *m  = q[j + 4] & 63;
    } else {
        *sc = (q[j + 4] & 0xF) | ((q[j - 4] >> 6) << 4);
        *m  = (q[j + 4] >> 4)  | ((q[j]     >> 6) << 4);
    }
}

// Q4_0: 32 elements per 18-byte block, one fp16 delta, codes centred by -8.
//
// A warp covers two blocks (64 elements) per step: lane L takes block `L>>4`
// of the pair and byte `L&15` of it. The two nibbles of that byte are elements
// `j` and `j + 16` of the block — **not** adjacent outputs, which is the one
// way this format is easy to get wrong. `hidden_dim` must be a multiple of 64;
// the geometry check already requires a multiple of 512.
template <int BT>
__device__ __forceinline__ void lm_head_rows_q4_0(
    const unsigned char* __restrict__ weight,
    const float* __restrict__ hidden_states,
    int hidden_dim,
    int vocab,
    int token_base,
    float* __restrict__ logits
) {
    int row = blockIdx.x * blockDim.y + threadIdx.y;
    int lane = threadIdx.x;
    if (row >= vocab) return;

    int nblocks = hidden_dim >> 5;
    const unsigned char* w = weight + (long long)row * nblocks * 18;
    const float* x = hidden_states + (long long)token_base * hidden_dim;

    float acc[BT];
    #pragma unroll
    for (int t = 0; t < BT; ++t) acc[t] = 0.0f;

    int sub = lane >> 4;        // which block of the pair
    int j   = lane & 15;        // which byte within it

    for (int b = 0; b < nblocks; b += 2) {
        const unsigned char* blk = w + (long long)(b + sub) * 18;
        float d = load_half_le(blk);
        unsigned int q = blk[2 + j];

        float w0 = (float)((int)(q & 0xFu) - 8) * d;
        float w1 = (float)((int)(q >> 4) - 8) * d;

        int i = ((b + sub) << 5) + j;
        #pragma unroll
        for (int t = 0; t < BT; ++t) {
            const float* xt = x + (long long)t * hidden_dim + i;
            acc[t] += w0 * xt[0] + w1 * xt[16];
        }
    }

    #pragma unroll
    for (int t = 0; t < BT; ++t) {
        float v = acc[t];
        for (int off = 16; off > 0; off >>= 1) {
            v += __shfl_down_sync(0xffffffff, v, off);
        }
        if (lane == 0) {
            logits[(long long)(token_base + t) * vocab + row] = v;
        }
    }
}

// Q4_K (144 B) and Q5_K (176 B): 256 elements as four 64-element passes, each
// pass split into a low-nibble half under sub-scale `2g` and a high-nibble
// half under `2g+1`.
//
// One lane per `l`, so a lane owns eight elements per superblock at flat
// positions `64g + 32*sub + l`. Byte `qs[32g + l]` carries the two of them
// that share `g`.
template <bool HIGH, int BT>
__device__ __forceinline__ void lm_head_rows_k_affine(
    const unsigned char* __restrict__ weight,
    const float* __restrict__ hidden_states,
    int hidden_dim,
    int vocab,
    int token_base,
    float* __restrict__ logits
) {
    const int SB = HIGH ? 176 : 144;
    const int QS = HIGH ? 48 : 16;   // byte offset of `qs` within a superblock

    int row = blockIdx.x * blockDim.y + threadIdx.y;
    int lane = threadIdx.x;
    if (row >= vocab) return;

    int nsb = hidden_dim >> 8;
    const unsigned char* w = weight + (long long)row * nsb * SB;
    const float* x = hidden_states + (long long)token_base * hidden_dim;

    float acc[BT];
    #pragma unroll
    for (int t = 0; t < BT; ++t) acc[t] = 0.0f;

    for (int sb = 0; sb < nsb; ++sb) {
        const unsigned char* base = w + (long long)sb * SB;
        float d    = load_half_le(base);
        float dmin = load_half_le(base + 2);
        const unsigned char* scales = base + 4;
        const unsigned char* qh     = base + 16;   // Q5_K only
        const unsigned char* qs     = base + QS;

        unsigned int hbits = HIGH ? qh[lane] : 0u;

        #pragma unroll
        for (int g = 0; g < 4; ++g) {
            unsigned int byte = qs[g * 32 + lane];
            #pragma unroll
            for (int sub = 0; sub < 2; ++sub) {
                int js = 2 * g + sub;
                int sc, m;
                get_scale_min_k4(js, scales, &sc, &m);
                float d1 = d * (float)sc;
                float m1 = dmin * (float)m;

                int code = (int)(sub ? (byte >> 4) : (byte & 0xFu));
                if (HIGH) code |= (int)((hbits >> js) & 1u) << 4;

                float wv = k_affine_value(d1, code, m1);
                int i = (sb << 8) + g * 64 + sub * 32 + lane;
                #pragma unroll
                for (int t = 0; t < BT; ++t) {
                    acc[t] += wv * x[(long long)t * hidden_dim + i];
                }
            }
        }
    }

    #pragma unroll
    for (int t = 0; t < BT; ++t) {
        float v = acc[t];
        for (int off = 16; off > 0; off >>= 1) {
            v += __shfl_down_sync(0xffffffff, v, off);
        }
        if (lane == 0) {
            logits[(long long)(token_base + t) * vocab + row] = v;
        }
    }
}

#define LM_HEAD_Q4_0_ENTRY(NAME, BT)                                        \
extern "C" __global__ void NAME(                                            \
    const unsigned char* __restrict__ weight,                               \
    const float* __restrict__ hidden_states,                                \
    int hidden_dim, int vocab, int token_base,                              \
    float* __restrict__ logits                                              \
) {                                                                         \
    lm_head_rows_q4_0<BT>(weight, hidden_states, hidden_dim, vocab,         \
                          token_base, logits);                              \
}

#define LM_HEAD_KAFF_ENTRY(NAME, HIGH, BT)                                  \
extern "C" __global__ void NAME(                                            \
    const unsigned char* __restrict__ weight,                               \
    const float* __restrict__ hidden_states,                                \
    int hidden_dim, int vocab, int token_base,                              \
    float* __restrict__ logits                                              \
) {                                                                         \
    lm_head_rows_k_affine<HIGH, BT>(weight, hidden_states, hidden_dim,      \
                                    vocab, token_base, logits);             \
}

LM_HEAD_Q4_0_ENTRY(lm_head_q4_0_b1, 1)
LM_HEAD_Q4_0_ENTRY(lm_head_q4_0_b2, 2)
LM_HEAD_Q4_0_ENTRY(lm_head_q4_0_b3, 3)
LM_HEAD_Q4_0_ENTRY(lm_head_q4_0_b4, 4)
LM_HEAD_Q4_0_ENTRY(lm_head_q4_0_b5, 5)
LM_HEAD_Q4_0_ENTRY(lm_head_q4_0_b6, 6)
LM_HEAD_Q4_0_ENTRY(lm_head_q4_0_b7, 7)
LM_HEAD_Q4_0_ENTRY(lm_head_q4_0_b8, 8)

LM_HEAD_KAFF_ENTRY(lm_head_q4_k_b1, false, 1)
LM_HEAD_KAFF_ENTRY(lm_head_q4_k_b2, false, 2)
LM_HEAD_KAFF_ENTRY(lm_head_q4_k_b3, false, 3)
LM_HEAD_KAFF_ENTRY(lm_head_q4_k_b4, false, 4)
LM_HEAD_KAFF_ENTRY(lm_head_q4_k_b5, false, 5)
LM_HEAD_KAFF_ENTRY(lm_head_q4_k_b6, false, 6)
LM_HEAD_KAFF_ENTRY(lm_head_q4_k_b7, false, 7)
LM_HEAD_KAFF_ENTRY(lm_head_q4_k_b8, false, 8)

LM_HEAD_KAFF_ENTRY(lm_head_q5_k_b1, true, 1)
LM_HEAD_KAFF_ENTRY(lm_head_q5_k_b2, true, 2)
LM_HEAD_KAFF_ENTRY(lm_head_q5_k_b3, true, 3)
LM_HEAD_KAFF_ENTRY(lm_head_q5_k_b4, true, 4)
LM_HEAD_KAFF_ENTRY(lm_head_q5_k_b5, true, 5)
LM_HEAD_KAFF_ENTRY(lm_head_q5_k_b6, true, 6)
LM_HEAD_KAFF_ENTRY(lm_head_q5_k_b7, true, 7)
LM_HEAD_KAFF_ENTRY(lm_head_q5_k_b8, true, 8)

"#;

/// The Q6_K body.
pub const Q6_K_SRC: &'static str = r#"// ---------------------------------------------------------------------------
// The same GEMV over a Q6_K weight tensor.
// ---------------------------------------------------------------------------
template <int BT>
__device__ __forceinline__ void lm_head_rows_q6_k(
    const unsigned char* __restrict__ weight,
    const float* __restrict__ hidden_states,
    int hidden_dim,
    int vocab,
    int token_base,
    float* __restrict__ logits
) {
    int row = blockIdx.x * blockDim.y + threadIdx.y;
    int lane = threadIdx.x;
    if (row >= vocab) return;

    int nsb = hidden_dim >> 8;
    const unsigned char* w = weight + (long long)row * nsb * 210;
    const float* x = hidden_states + (long long)token_base * hidden_dim;

    float acc[BT];
    #pragma unroll
    for (int t = 0; t < BT; ++t) acc[t] = 0.0f;

    // `is` selects which of the two per-16-element scales in a lane's quarter
    // applies, and depends only on the lane, so it is hoisted out of both
    // loops.
    int is = lane >> 4;

    for (int sb = 0; sb < nsb; ++sb) {
        const unsigned char* base = w + (long long)sb * 210;
        // One broadcast load of the superblock delta for all 256 elements.
        float d = load_half_le(base + 208);

        #pragma unroll
        for (int half = 0; half < 2; ++half) {
            const unsigned char* ql = base + half * 64;
            const unsigned char* qh = base + 128 + half * 32;
            const signed char*   sc = (const signed char*)(base + 192 + half * 8);

            // Three contiguous 32-byte warp reads. The four codes a lane owns
            // are interleaved across the half at l, l+32, l+64, l+96 — the
            // format's own layout, not a choice made here.
            unsigned int ql0 = ql[lane];
            unsigned int ql1 = ql[lane + 32];
            unsigned int qhb = qh[lane];

            int raw1 = (int)((ql0 & 0xFu) | ((qhb & 3u) << 4));
            int raw2 = (int)((ql1 & 0xFu) | (((qhb >> 2) & 3u) << 4));
            int raw3 = (int)((ql0 >> 4)   | (((qhb >> 4) & 3u) << 4));
            int raw4 = (int)((ql1 >> 4)   | (((qhb >> 6) & 3u) << 4));

            float w0 = d * (float)sc[is]     * (float)(raw1 - 32);
            float w1 = d * (float)sc[is + 2] * (float)(raw2 - 32);
            float w2 = d * (float)sc[is + 4] * (float)(raw3 - 32);
            float w3 = d * (float)sc[is + 6] * (float)(raw4 - 32);

            int j = (sb << 8) + half * 128 + lane;
            #pragma unroll
            for (int t = 0; t < BT; ++t) {
                const float* xt = x + (long long)t * hidden_dim + j;
                acc[t] += w0 * xt[0] + w1 * xt[32] + w2 * xt[64] + w3 * xt[96];
            }
        }
    }

    #pragma unroll
    for (int t = 0; t < BT; ++t) {
        float v = acc[t];
        for (int off = 16; off > 0; off >>= 1) {
            v += __shfl_down_sync(0xffffffff, v, off);
        }
        if (lane == 0) {
            logits[(long long)(token_base + t) * vocab + row] = v;
        }
    }
}

#define LM_HEAD_Q6_K_ENTRY(NAME, BT)                                        \
extern "C" __global__ void NAME(                                            \
    const unsigned char* __restrict__ weight,                               \
    const float* __restrict__ hidden_states,                                \
    int hidden_dim,                                                         \
    int vocab,                                                              \
    int token_base,                                                         \
    float* __restrict__ logits                                              \
) {                                                                         \
    lm_head_rows_q6_k<BT>(weight, hidden_states, hidden_dim, vocab,         \
                          token_base, logits);                              \
}

LM_HEAD_Q6_K_ENTRY(lm_head_q6_k_b1, 1)
LM_HEAD_Q6_K_ENTRY(lm_head_q6_k_b2, 2)
LM_HEAD_Q6_K_ENTRY(lm_head_q6_k_b3, 3)
LM_HEAD_Q6_K_ENTRY(lm_head_q6_k_b4, 4)
LM_HEAD_Q6_K_ENTRY(lm_head_q6_k_b5, 5)
LM_HEAD_Q6_K_ENTRY(lm_head_q6_k_b6, 6)
LM_HEAD_Q6_K_ENTRY(lm_head_q6_k_b7, 7)
LM_HEAD_Q6_K_ENTRY(lm_head_q6_k_b8, 8)

"#;

/// The two argmax passes and the probability of the maximum.
pub const ARGMAX_SRC: &'static str = r#"__device__ __forceinline__ void argmax_merge(float& bv, int& bi, float v, int i) {
    if (v > bv || (v == bv && i < bi)) { bv = v; bi = i; }
}

// Reduce one block's per-thread candidate to thread 0.
__device__ __forceinline__ void argmax_reduce_block(float& bv, int& bi) {
    __shared__ float sv[ARGMAX_THREADS / 32];
    __shared__ int   si[ARGMAX_THREADS / 32];
    int lane = threadIdx.x & 31;
    int warp = threadIdx.x >> 5;
    for (int off = 16; off > 0; off >>= 1) {
        float ov = __shfl_down_sync(0xffffffff, bv, off);
        int   oi = __shfl_down_sync(0xffffffff, bi, off);
        argmax_merge(bv, bi, ov, oi);
    }
    if (lane == 0) { sv[warp] = bv; si[warp] = bi; }
    __syncthreads();
    if (threadIdx.x == 0) {
        for (int w = 1; w < ARGMAX_THREADS / 32; ++w) {
            argmax_merge(bv, bi, sv[w], si[w]);
        }
    }
}

extern "C" __global__ void argmax_partial(
    const float* __restrict__ x,
    int n,
    float* __restrict__ pv,
    int* __restrict__ pi
) {
    float bv = x[0];
    int   bi = 0;
    for (int i = blockIdx.x * ARGMAX_THREADS + threadIdx.x;
         i < n;
         i += gridDim.x * ARGMAX_THREADS) {
        argmax_merge(bv, bi, x[i], i);
    }
    argmax_reduce_block(bv, bi);
    if (threadIdx.x == 0) { pv[blockIdx.x] = bv; pi[blockIdx.x] = bi; }
}

extern "C" __global__ void argmax_final(
    const float* __restrict__ pv,
    const int* __restrict__ pi,
    int n,
    int* __restrict__ out
) {
    float bv = pv[0];
    int   bi = pi[0];
    for (int i = threadIdx.x; i < n; i += ARGMAX_THREADS) {
        argmax_merge(bv, bi, pv[i], pi[i]);
    }
    argmax_reduce_block(bv, bi);
    if (threadIdx.x == 0) out[0] = bi;
}

// Softmax probability of the row's maximum: p = 1 / sum(exp(x - max)).
// One block per call; two grid-stride passes over the row (max, then the
// stabilized exp-sum). The 2 MB the second pass rereads is noise next to
// the GEMM that produced the row.
extern "C" __global__ void argmax_prob(
    const float* __restrict__ x,
    int n,
    float* __restrict__ out
) {
    __shared__ float sv[ARGMAX_THREADS / 32];

    float bv = x[0];
    int   bi = 0;
    for (int i = threadIdx.x; i < n; i += ARGMAX_THREADS) {
        argmax_merge(bv, bi, x[i], i);
    }
    argmax_reduce_block(bv, bi);
    if (threadIdx.x == 0) sv[0] = bv;
    __syncthreads();
    const float row_max = sv[0];
    __syncthreads();

    float acc = 0.0f;
    for (int i = threadIdx.x; i < n; i += ARGMAX_THREADS) {
        acc += expf(x[i] - row_max);
    }
    // warp then cross-warp sum
    for (int off = 16; off > 0; off >>= 1) {
        acc += __shfl_down_sync(0xffffffffu, acc, off);
    }
    if ((threadIdx.x & 31) == 0) sv[threadIdx.x >> 5] = acc;
    __syncthreads();
    if (threadIdx.x == 0) {
        float total = 0.0f;
        for (int w = 0; w < ARGMAX_THREADS / 32; ++w) total += sv[w];
        out[0] = 1.0f / total;
    }
}
"#;

/// The whole source text.
pub open spec fn lm_head_src_text() -> Seq<char> {
    Q8_0_SRC@ + DENSE_SRC@ + AFFINE_SRC@ + Q6_K_SRC@ + ARGMAX_SRC@
}

/// The whole source.
pub fn lm_head_src() -> (s: String)
    ensures
        s@ == lm_head_src_text(),
{
    let mut s = String::new();
    s.append(Q8_0_SRC);
    s.append(DENSE_SRC);
    s.append(AFFINE_SRC);
    s.append(Q6_K_SRC);
    s.append(ARGMAX_SRC);
    s
}

} // verus!
