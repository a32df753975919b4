//! CUDA C++ source. Routing, dispatch, grouped GEMM and the shared expert.

use vstd::prelude::*;
use vstd::string::StringExecFns;

verus! {

/// Tile shape, unpacking and the fp32 tile GEMM.
pub const HELPERS_SRC: &'static str = r#"
#define Q6K_SB 224
#define MOE_SHARED_WARPS 4
#define MOE_ROUTE_LANE_EXPERTS 16
#define MOE_TM   16
#define MOE_TK   128
#define MOE_TN   4
#define MOE_ROWS 8
// Contraction passes a decode GEMV issues before consuming any of them.
#define MOE_DOWN_UNROLL 4

// Derived: activation floats each thread stages per pass, and the tile-row
// stride between the rows one thread owns. Both are compile-time so the
// staging loops unroll and hold their prefetch in registers.
#define MOE_MSTEP ((MOE_ROWS * 32) / MOE_TK)
#define MOE_STAGE (MOE_TM / MOE_MSTEP)

// Reinterpret two little-endian bytes as an IEEE half and widen to float.
__device__ __forceinline__ float load_half_le(const unsigned char* p) {
    unsigned short bits = (unsigned short)p[0] | ((unsigned short)p[1] << 8);
    float f;
    asm("cvt.f32.f16 %0, %1;" : "=f"(f) : "h"(bits));
    return f;
}

__device__ __forceinline__ float half_bits_to_float(unsigned short bits) {
    float f;
    asm("cvt.f32.f16 %0, %1;" : "=f"(f) : "h"(bits));
    return f;
}

__device__ __forceinline__ float q6k_value(float d, const signed char* sc, int si, int raw) {
    return d * (float)sc[si] * (float)(raw - 32);
}

// The Q8_0 reconstruction, same reasoning.
__device__ __forceinline__ float q8_0_value(signed char q, float d) {
    return (float)q * d;
}

// Unpack the MOE_TK consecutive Q6_K elements starting at `i0`. Warp lane L
// owns the **four consecutive** elements 4L .. 4L+3.
__device__ __forceinline__ void dequant_tile_q6k(
    const unsigned char* __restrict__ src, long long i0, int wlane, float* out
) {
    const unsigned char* base = src + (i0 >> 8) * Q6K_SB;
    int half = (int)((i0 >> 7) & 1);
    const unsigned char* ql = base + half * 64;
    const unsigned char* qh = base + 128 + half * 32;
    const signed char*   sc = (const signed char*)(base + 192 + half * 8);
    float d = load_half_le(base + 208);

    int grp = wlane >> 3;
    int l   = (wlane * 4) & 31;
    int si  = (l >> 4) + 2 * grp;
    const unsigned char* qlp = ql + ((grp & 1) ? l + 32 : l);
    int shift = 2 * grp;

    unsigned int qlw = *(const unsigned int*)(qlp);
    unsigned int qhw = *(const unsigned int*)(qh + l);

    unsigned int lo4 = (grp < 2) ? (qlw & 0x0F0F0F0Fu) : ((qlw >> 4) & 0x0F0F0F0Fu);
    unsigned int raw4 = lo4 | (((qhw >> shift) & 0x03030303u) << 4);

    #pragma unroll
    for (int t = 0; t < MOE_TN; ++t) {
        int raw = (int)((raw4 >> (8 * t)) & 0xFFu);
        out[t] = q6k_value(d, sc, si, raw);
    }
}

// The same tile in Q8_0. A Q8_0 block *is* 32 elements, so a lane's four
// consecutive elements always share one block and its fp16 delta is read
// once for all four.
//
// Reading the code as `signed char` is load-bearing: the quants are int8 on
// disk, and reading them unsigned flips the sign of roughly half of every
// tensor while leaving magnitudes plausible.
__device__ __forceinline__ void dequant_tile_q8_0(
    const unsigned char* __restrict__ src, long long i0, int wlane, float* out
) {
    const unsigned char* base = src + ((i0 >> 5) + (wlane >> 3)) * 34;
    float d = load_half_le(base);
    int first = (wlane * 4) & 31;

    #pragma unroll
    for (int t = 0; t < MOE_TN; ++t) {
        int lane = first + t;
        signed char q = (signed char)base[2 + lane];
        out[t] = q8_0_value(q, d);
    }
}

// The GEMM prologue: unpack exactly the weight tile about to be multiplied.
// Nothing is materialized in fp32 beyond the four values in registers.
__device__ __forceinline__ void dequant_tile(
    const unsigned char* __restrict__ src, int quant, long long i0, int wlane, float* out
) {
    if (quant == 0) dequant_tile_q6k(src, i0, wlane, out);
    else            dequant_tile_q8_0(src, i0, wlane, out);
}

template<int TM>
__device__ __forceinline__ void prefetch_tile(
    const float* __restrict__ src, const long long* rows, int j0, float* pf
) {
    int k = threadIdx.x & (MOE_TK - 1);
    int m0 = threadIdx.x / MOE_TK;
    #pragma unroll
    for (int i = 0; i < TM / MOE_MSTEP; ++i) {
        long long row = rows[m0 + i * MOE_MSTEP];
        pf[i] = row < 0 ? 0.0f : src[row + j0 + k];
    }
}

template<int TM>
__device__ __forceinline__ void commit_tile(const float* pf, float* xs) {
    int k = threadIdx.x & (MOE_TK - 1);
    int m0 = threadIdx.x / MOE_TK;
    #pragma unroll
    for (int i = 0; i < TM / MOE_MSTEP; ++i) {
        xs[(m0 + i * MOE_MSTEP) * MOE_TK + k] = pf[i];
    }
}

// How many of a tile's MOE_TM rows carry a real token, and the compile-time
// tile height that covers them.
__device__ __forceinline__ int live_tile_rows(const long long* rows) {
    int bm = 0;
    #pragma unroll
    for (int m = 0; m < MOE_TM; ++m) {
        if (rows[m] >= 0) bm = m + 1;
    }
    return bm;
}

__device__ __forceinline__ float4 tile_row4(const float* xs, int m, int wlane) {
    return *(const float4*)(xs + m * MOE_TK + 4 * wlane);
}

// Shared-memory pool. One declaration, one type, for every kernel below:
// two `extern __shared__` arrays of different element types in the same
// translation unit is a redeclaration error, so integer users cast. The
// explicit alignment is what makes `tile_row4`'s 128-bit load legal.
extern __shared__ __align__(16) float xabe_shared[];

template<int TM>
__device__ __forceinline__ void warp_reduce_tile(float* acc) {
    #pragma unroll
    for (int m = 0; m < TM; ++m) {
        #pragma unroll
        for (int off = 16; off > 0; off >>= 1) {
            acc[m] += __shfl_xor_sync(0xffffffff, acc[m], off);
        }
    }
}

// Gate/up half of one expert's FFN for a TM-row tile: contract two weight
// rows against the staged activations and leave the two dot products in every
// lane of the owning warp.
template<int TM>
__device__ __forceinline__ void tile_gemm_pair(
    const unsigned char* __restrict__ gate_q, int gate_quant,
    const unsigned char* __restrict__ up_q,   int up_quant,
    const float* __restrict__ src, const long long* rows, float* xs,
    long long wrow, int k_len, int lane, int live, float* ag, float* au
) {
    #pragma unroll
    for (int m = 0; m < TM; ++m) { ag[m] = 0.0f; au[m] = 0.0f; }

    float pf[TM / MOE_MSTEP];
    prefetch_tile<TM>(src, rows, 0, pf);

    for (int j0 = 0; j0 < k_len; j0 += MOE_TK) {
        __syncthreads();
        commit_tile<TM>(pf, xs);
        __syncthreads();
        if (j0 + MOE_TK < k_len) prefetch_tile<TM>(src, rows, j0 + MOE_TK, pf);
        if (live) {
            float wg[MOE_TN];
            float wu[MOE_TN];
            dequant_tile(gate_q, gate_quant, wrow + j0, lane, wg);
            dequant_tile(up_q,   up_quant,   wrow + j0, lane, wu);
            #pragma unroll
            for (int m = 0; m < TM; ++m) {
                float4 xv = tile_row4(xs, m, lane);
                ag[m] += wg[0] * xv.x;  au[m] += wu[0] * xv.x;
                ag[m] += wg[1] * xv.y;  au[m] += wu[1] * xv.y;
                ag[m] += wg[2] * xv.z;  au[m] += wu[2] * xv.z;
                ag[m] += wg[3] * xv.w;  au[m] += wu[3] * xv.w;
            }
        }
    }
    warp_reduce_tile<TM>(ag);
    warp_reduce_tile<TM>(au);
}

// As above for a single weight matrix: the down projection.
template<int TM>
__device__ __forceinline__ void tile_gemm_single(
    const unsigned char* __restrict__ w_q, int w_quant,
    const float* __restrict__ src, const long long* rows, float* xs,
    long long wrow, int k_len, int lane, int live, float* ad
) {
    #pragma unroll
    for (int m = 0; m < TM; ++m) ad[m] = 0.0f;

    float pf[TM / MOE_MSTEP];
    prefetch_tile<TM>(src, rows, 0, pf);

    for (int j0 = 0; j0 < k_len; j0 += MOE_TK) {
        __syncthreads();
        commit_tile<TM>(pf, xs);
        __syncthreads();
        if (j0 + MOE_TK < k_len) prefetch_tile<TM>(src, rows, j0 + MOE_TK, pf);
        if (live) {
            float wd[MOE_TN];
            dequant_tile(w_q, w_quant, wrow + j0, lane, wd);
            #pragma unroll
            for (int m = 0; m < TM; ++m) {
                float4 xv = tile_row4(xs, m, lane);
                ad[m] += wd[0] * xv.x;
                ad[m] += wd[1] * xv.y;
                ad[m] += wd[2] * xv.z;
                ad[m] += wd[3] * xv.w;
            }
        }
    }
    warp_reduce_tile<TM>(ad);
}

// Dispatch the two workhorses on the live tile height, rounded **up** to the
// nearest specialization.
#define MOE_TILE_DISPATCH(CALL)        \
    if      (bm > 8) { CALL(16); }     \
    else if (bm > 2) { CALL(8);  }     \
    else             { CALL(2);  }

// Write one slot's weighted contribution, or nothing at all if the slot is
// padding.
__device__ __forceinline__ void store_slot_contribution(
    float* __restrict__ partial, const float* __restrict__ topk_weights,
    int flat, int numel, int hidden, int h, float s
) {
    if (flat >= numel) return;
    partial[(long long)flat * hidden + h] = topk_weights[flat] * s;
}

extern "C" {

"#;

/// Routing and the dispatch tables.
pub const ROUTING_SRC: &'static str = r#"// -------------------------------------------------------------------------
// 1. Routing: softmax over all experts, top-k, renormalize.
// -------------------------------------------------------------------------
//
// grid: one block per token slot (always `max_tokens`, never the live count).
// block: THREADS threads, strided over the experts.
__device__ void route_token(
    const float* __restrict__ logits,
    int token,
    int num_experts,
    int top_k,
    float* probs,
    float* rval,
    int* ridx,
    int* __restrict__ topk_ids,
    float* __restrict__ topk_weights
) {

    const float* row = logits + (long long)token * num_experts;

    // --- max logit (exact: max is associative and rounds nothing) ---------
    float local = row[0];
    for (int e = threadIdx.x; e < num_experts; e += blockDim.x) {
        local = fmaxf(local, row[e]);
    }
    #pragma unroll
    for (int off = 16; off > 0; off >>= 1) {
        local = fmaxf(local, __shfl_down_sync(0xffffffff, local, off));
    }
    if ((threadIdx.x & 31) == 0) rval[threadIdx.x >> 5] = local;
    __syncthreads();
    float max_logit = rval[0];
    for (int w = 1; w < (int)(blockDim.x >> 5); ++w) max_logit = fmaxf(max_logit, rval[w]);
    __syncthreads();

    // --- exp, sum, normalize ---------------------------------------------
    float esum = 0.0f;
    for (int e = threadIdx.x; e < num_experts; e += blockDim.x) {
        float p = expf(row[e] - max_logit);
        probs[e] = p;
        esum += p;
    }
    rval[threadIdx.x] = esum;
    __syncthreads();
    for (int s = blockDim.x >> 1; s > 16; s >>= 1) {
        if (threadIdx.x < s) rval[threadIdx.x] += rval[threadIdx.x + s];
        __syncthreads();
    }
    if (threadIdx.x < 32) {
        #pragma unroll
        for (int s = 16; s > 0; s >>= 1) {
            if (threadIdx.x < s) rval[threadIdx.x] += rval[threadIdx.x + s];
            __syncwarp();
        }
    }
    __syncthreads();
    float sum_exp = rval[0];

    // --- k successive argmax passes, ties to the lower index --------------
    if (threadIdx.x < 32) {
        int lane = threadIdx.x;
        float p[MOE_ROUTE_LANE_EXPERTS];
        #pragma unroll
        for (int i = 0; i < MOE_ROUTE_LANE_EXPERTS; ++i) {
            int e = lane + 32 * i;
            p[i] = (e < num_experts) ? probs[e] / sum_exp : -1.0f;
        }
        for (int j = 0; j < top_k; ++j) {
            float bv = -1.0f;
            int   bi = -1;
            #pragma unroll
            for (int i = 0; i < MOE_ROUTE_LANE_EXPERTS; ++i) {
                int e = lane + 32 * i;
                if (p[i] > bv || (p[i] == bv && (bi < 0 || e < bi))) { bv = p[i]; bi = e; }
            }
            #pragma unroll
            for (int off = 16; off > 0; off >>= 1) {
                float cv = __shfl_xor_sync(0xffffffff, bv, off);
                int   ci = __shfl_xor_sync(0xffffffff, bi, off);
                if (cv > bv || (cv == bv && ci >= 0 && (bi < 0 || ci < bi))) { bv = cv; bi = ci; }
            }
            #pragma unroll
            for (int i = 0; i < MOE_ROUTE_LANE_EXPERTS; ++i) {
                if (bi >= 0 && lane + 32 * i == bi) p[i] = -1.0f;
            }
            if (lane == 0) {
                topk_ids[(long long)token * top_k + j] = bi;
                topk_weights[(long long)token * top_k + j] = bv;
            }
        }
    }

    // --- renormalize over just the selected k -----------------------------
    if (threadIdx.x == 0) {
        long long b = (long long)token * top_k;
        float s = 0.0f;
        for (int j = 0; j < top_k; ++j) s += topk_weights[b + j];
        if (s > 0.0f) {
            for (int j = 0; j < top_k; ++j) topk_weights[b + j] = topk_weights[b + j] / s;
        } else {
            for (int j = 0; j < top_k; ++j) topk_weights[b + j] = 1.0f / (float)top_k;
        }
    }
}

// grid: (max_tokens,). block: MOE_THREADS.
__global__ void moe_route(
    const float* __restrict__ logits,
    const int* __restrict__ valid_tokens,
    int num_experts,
    int top_k,
    int* __restrict__ topk_ids,
    float* __restrict__ topk_weights
) {
    int token = blockIdx.x;
    if (token >= *valid_tokens) return;
    float* probs = xabe_shared;
    float* rval  = xabe_shared + num_experts;
    int*   ridx  = (int*)(rval + blockDim.x);
    route_token(logits, token, num_experts, top_k, probs, rval, ridx,
                topk_ids, topk_weights);
}

// -------------------------------------------------------------------------
// 2. Sorted-token indirection, into fixed-size buffers.
// -------------------------------------------------------------------------
__device__ void dispatch_token(
    const int* __restrict__ topk_ids,
    const int* __restrict__ valid_tokens,
    int top_k,
    int num_experts,
    int block_size,
    int sorted_capacity,
    int expert_capacity,
    int* cumsum,
    int* __restrict__ sorted_token_ids,
    int* __restrict__ expert_ids,
    int* __restrict__ num_tokens_post_pad
) {
    int tid = threadIdx.x;
    int numel = (*valid_tokens) * top_k;

    for (int s = tid; s < sorted_capacity; s += blockDim.x) sorted_token_ids[s] = numel;
    for (int b = tid; b < expert_capacity; b += blockDim.x) expert_ids[b] = -1;

    for (int e = tid; e < num_experts; e += blockDim.x) {
        int c = 0;
        for (int i = 0; i < numel; ++i) {
            if (topk_ids[i] == e) ++c;
        }
        cumsum[e + 1] = ((c + block_size - 1) / block_size) * block_size;
    }
    __syncthreads();

    if (tid == 0) {
        cumsum[0] = 0;
        for (int i = 0; i < num_experts; ++i) cumsum[i + 1] += cumsum[i];
        *num_tokens_post_pad = cumsum[num_experts];
    }
    __syncthreads();

    for (int e = tid; e < num_experts; e += blockDim.x) {
        int base = cumsum[e];
        int w = 0;
        for (int i = 0; i < numel; ++i) {
            if (topk_ids[i] == e) {
                int slot = base + w;
                if (slot < sorted_capacity) sorted_token_ids[slot] = i;
                ++w;
            }
        }
        int first = cumsum[e] / block_size;
        int last  = cumsum[e + 1] / block_size;
        for (int b = first; b < last && b < expert_capacity; ++b) expert_ids[b] = e;
    }
}

// grid: (1,). block: MOE_THREADS.
__global__ void moe_dispatch_t1(
    const int* __restrict__ topk_ids,
    const int* __restrict__ valid_tokens,
    int top_k,
    int num_experts,
    int block_size,
    int sorted_capacity,
    int expert_capacity,
    int* __restrict__ sorted_token_ids,
    int* __restrict__ expert_ids,
    int* __restrict__ num_tokens_post_pad
) {
    dispatch_token(topk_ids, valid_tokens, top_k, num_experts, block_size,
                   sorted_capacity, expert_capacity, (int*)xabe_shared,
                   sorted_token_ids, expert_ids, num_tokens_post_pad);
}

// Routing and the dispatch table it feeds, in one launch.
__global__ void moe_route_dispatch_t1(
    const float* __restrict__ logits,
    const int* __restrict__ valid_tokens,
    int num_experts,
    int top_k,
    int block_size,
    int sorted_capacity,
    int expert_capacity,
    int* __restrict__ topk_ids,
    float* __restrict__ topk_weights,
    int* __restrict__ sorted_token_ids,
    int* __restrict__ expert_ids,
    int* __restrict__ num_tokens_post_pad
) {
    if (*valid_tokens < 1) return;
    float* probs  = xabe_shared;
    float* rval   = xabe_shared + num_experts;
    int*   ridx   = (int*)(rval + blockDim.x);
    int*   cumsum = ridx + blockDim.x;

    route_token(logits, 0, num_experts, top_k, probs, rval, ridx,
                topk_ids, topk_weights);
    __syncthreads();
    dispatch_token(topk_ids, valid_tokens, top_k, num_experts, block_size,
                   sorted_capacity, expert_capacity, cumsum,
                   sorted_token_ids, expert_ids, num_tokens_post_pad);
}

__global__ void moe_align_count(
    const int* __restrict__ topk_ids,
    const int* __restrict__ valid_tokens,
    int top_k,
    int sorted_capacity,
    int expert_capacity,
    int* __restrict__ sorted_token_ids,
    int* __restrict__ expert_ids,
    int* __restrict__ counts
) {
    int* scratch = (int*)xabe_shared;
    int numel = (*valid_tokens) * top_k;
    int e = blockIdx.x;
    int tid = threadIdx.x;

    int gtid = blockIdx.x * blockDim.x + tid;
    int gstride = gridDim.x * blockDim.x;
    for (int s = gtid; s < sorted_capacity; s += gstride) sorted_token_ids[s] = numel;
    for (int b = gtid; b < expert_capacity; b += gstride) expert_ids[b] = -1;

    int c = 0;
    for (int i = tid; i < numel; i += blockDim.x) {
        if (topk_ids[i] == e) ++c;
    }
    scratch[tid] = c;
    __syncthreads();
    for (int s = blockDim.x >> 1; s > 0; s >>= 1) {
        if (tid < s) scratch[tid] += scratch[tid + s];
        __syncthreads();
    }
    // Integer addition is associative, so the tree order here cannot change
    // the count the way it would change a float sum.
    if (tid == 0) counts[e] = scratch[0];
}

// grid: (num_experts, 1, 1). Block `e` places expert `e`'s tokens.
__global__ void moe_align_block_size(
    const int* __restrict__ topk_ids,
    const int* __restrict__ valid_tokens,
    const int* __restrict__ counts,
    int top_k,
    int num_experts,
    int block_size,
    int sorted_capacity,
    int expert_capacity,
    int* __restrict__ sorted_token_ids,
    int* __restrict__ expert_ids,
    int* __restrict__ num_tokens_post_pad
) {
    int* cumsum = (int*)xabe_shared;              // num_experts + 1
    int* scan   = cumsum + num_experts + 1;       // blockDim.x

    int numel = (*valid_tokens) * top_k;
    int e = blockIdx.x;
    int tid = threadIdx.x;

    for (int i = tid; i < num_experts; i += blockDim.x) {
        int c = counts[i];
        cumsum[i + 1] = ((c + block_size - 1) / block_size) * block_size;
    }
    __syncthreads();

    if (tid == 0) {
        cumsum[0] = 0;
        for (int i = 0; i < num_experts; ++i) cumsum[i + 1] += cumsum[i];
        if (e == 0) *num_tokens_post_pad = cumsum[num_experts];
    }
    __syncthreads();

    // 3. scatter in ascending flat index.
    int base = cumsum[e];
    int written = 0;
    for (int o = 0; o < numel; o += blockDim.x) {
        int i = o + tid;
        int hit = (i < numel && topk_ids[i] == e) ? 1 : 0;
        scan[tid] = hit;
        __syncthreads();
        for (int d = 1; d < blockDim.x; d <<= 1) {
            int v = tid >= d ? scan[tid - d] : 0;
            __syncthreads();
            scan[tid] += v;
            __syncthreads();
        }
        int rank  = scan[tid] - hit;
        int total = scan[blockDim.x - 1];
        if (hit) {
            int slot = base + written + rank;
            if (slot < sorted_capacity) sorted_token_ids[slot] = i;
        }
        written += total;
        __syncthreads();
    }

    // 4. claim this expert's blocks.
    int first = cumsum[e] / block_size;
    int last  = cumsum[e + 1] / block_size;
    for (int b = first + tid; b < last && b < expert_capacity; b += blockDim.x) expert_ids[b] = e;
}

"#;

/// The fp32 grouped GEMM and its one-token forms.
pub const GROUPED_SRC: &'static str = r#"// -------------------------------------------------------------------------
// 3. Grouped GEMM: gate/up + SwiGLU, then down.
// -------------------------------------------------------------------------
//
// grid: (ceil(intermediate / MOE_ROWS), expert_block_capacity). One block per
// (band of MOE_ROWS output rows, dispatch block). The grid is the fixed
// *capacity*, never `num_tokens_post_pad` — that value lives only on the
// device. Blocks past the live region carry INACTIVE_EXPERT and exit after
// one load. The predicate is uniform across the block, so the early `return`
// never strands a `__syncthreads()`.
__global__ void moe_expert_ffn(
    const unsigned char* __restrict__ gate_q, int gate_quant,
    const unsigned char* __restrict__ up_q,   int up_quant,
    const float* __restrict__ hidden_states,
    const int* __restrict__ sorted_token_ids,
    const int* __restrict__ expert_ids,
    const int* __restrict__ valid_tokens,
    int top_k,
    int block_size,
    int hidden,
    int intermediate,
    float* __restrict__ inter
) {
    float*     xs   = xabe_shared;                              // [MOE_TM][MOE_TK]
    long long* rows = (long long*)(xs + MOE_TM * MOE_TK);       // [MOE_TM]

    int blk = blockIdx.y;
    int e = expert_ids[blk];
    if (e < 0) return;

    int numel = (*valid_tokens) * top_k;
    int lane = threadIdx.x & 31;
    int warp = threadIdx.x >> 5;
    int r = blockIdx.x * MOE_ROWS + warp;
    int live = r < intermediate;
    long long wrow = ((long long)e * intermediate + r) * hidden;

    for (int m0 = 0; m0 < block_size; m0 += MOE_TM) {
        __syncthreads();
        if (threadIdx.x < MOE_TM) {
            int m = m0 + threadIdx.x;
            int flat = m < block_size
                ? sorted_token_ids[(long long)blk * block_size + m]
                : numel;
            rows[threadIdx.x] =
                flat < numel ? (long long)(flat / top_k) * hidden : -1;
        }
        __syncthreads();

        int bm = live_tile_rows(rows);
        float ag[MOE_TM];
        float au[MOE_TM];
#define MOE_FFN_TILE(TM) tile_gemm_pair<TM>(                                  \
            gate_q, gate_quant, up_q, up_quant, hidden_states, rows, xs,      \
            wrow, hidden, lane, live, ag, au)
        MOE_TILE_DISPATCH(MOE_FFN_TILE)
#undef MOE_FFN_TILE

        if (live && lane == 0) {
            #pragma unroll
            for (int m = 0; m < MOE_TM; ++m) {
                if (m < bm) {
                    float act = ag[m] / (1.0f + expf(-ag[m]));
                    inter[((long long)blk * block_size + m0 + m) * intermediate + r] =
                        act * au[m];
                }
            }
        }
    }
}

// -------------------------------------------------------------------------
// 3a. The same two projections when there is exactly one token.
// -------------------------------------------------------------------------
__global__ void moe_expert_ffn_gemv(
    const unsigned char* __restrict__ gate_q, int gate_quant,
    const unsigned char* __restrict__ up_q,   int up_quant,
    const float* __restrict__ hidden_states,
    const int* __restrict__ sorted_token_ids,
    const int* __restrict__ expert_ids,
    const int* __restrict__ valid_tokens,
    int top_k,
    int block_size,
    int hidden,
    int intermediate,
    float* __restrict__ inter
) {
    int blk = blockIdx.y;
    int e = expert_ids[blk];
    if (e < 0) return;

    int flat = sorted_token_ids[(long long)blk * block_size];
    if (flat >= (*valid_tokens) * top_k) return;
    const float* xs = hidden_states + (long long)(flat / top_k) * hidden;

    int lane = threadIdx.x & 31;
    int warp = threadIdx.x >> 5;
    int r = blockIdx.x * MOE_ROWS + warp;
    if (r >= intermediate) return;
    long long wrow = ((long long)e * intermediate + r) * hidden;

    float ag[1] = {0.0f};
    float au[1] = {0.0f};
    #pragma unroll 2
    for (int j0 = 0; j0 < hidden; j0 += MOE_TK) {
        float wg[MOE_TN];
        float wu[MOE_TN];
        dequant_tile(gate_q, gate_quant, wrow + j0, lane, wg);
        dequant_tile(up_q,   up_quant,   wrow + j0, lane, wu);
        // `hidden` is a multiple of MOE_TK and the row base of a multiple of
        // it, so this 16-byte load is aligned by construction.
        float4 xv = *(const float4*)(xs + j0 + 4 * lane);
        ag[0] += wg[0] * xv.x;  au[0] += wu[0] * xv.x;
        ag[0] += wg[1] * xv.y;  au[0] += wu[1] * xv.y;
        ag[0] += wg[2] * xv.z;  au[0] += wu[2] * xv.z;
        ag[0] += wg[3] * xv.w;  au[0] += wu[3] * xv.w;
    }
    warp_reduce_tile<1>(ag);
    warp_reduce_tile<1>(au);

    if (lane == 0) {
        float act = ag[0] / (1.0f + expf(-ag[0]));
        inter[(long long)blk * block_size * intermediate + r] = act * au[0];
    }
}

// The down projection of the same step. Contracts over `intermediate` and
// writes through `store_slot_contribution`, exactly as the tiled kernel does.
//
// grid: (ceil(hidden / MOE_ROWS), expert_block_capacity).
__global__ void moe_expert_down_gemv(
    const unsigned char* __restrict__ down_q, int down_quant,
    const float* __restrict__ inter,
    const float* __restrict__ topk_weights,
    const int* __restrict__ sorted_token_ids,
    const int* __restrict__ expert_ids,
    const int* __restrict__ valid_tokens,
    int top_k,
    int block_size,
    int hidden,
    int intermediate,
    float* __restrict__ partial
) {
    int blk = blockIdx.y;
    int e = expert_ids[blk];
    if (e < 0) return;

    int numel = (*valid_tokens) * top_k;
    int flat = sorted_token_ids[(long long)blk * block_size];
    if (flat >= numel) return;
    const float* xs = inter + (long long)blk * block_size * intermediate;

    int lane = threadIdx.x & 31;
    int warp = threadIdx.x >> 5;
    int h = blockIdx.x * MOE_ROWS + warp;
    if (h >= hidden) return;
    long long wrow = ((long long)e * hidden + h) * intermediate;

    float ad[1] = {0.0f};
    // One dequantized matrix a pass, where gate/up has two, so this
    // loop starts with half the requests in flight and needs the deeper
    // unroll. Accumulation stays sequential into `ad[0]`, so the result is
    // bit-identical to the rolled form.
    #pragma unroll MOE_DOWN_UNROLL
    for (int j0 = 0; j0 < intermediate; j0 += MOE_TK) {
        float wd[MOE_TN];
        dequant_tile(down_q, down_quant, wrow + j0, lane, wd);
        float4 xv = *(const float4*)(xs + j0 + 4 * lane);
        ad[0] += wd[0] * xv.x;
        ad[0] += wd[1] * xv.y;
        ad[0] += wd[2] * xv.z;
        ad[0] += wd[3] * xv.w;
    }
    warp_reduce_tile<1>(ad);

    if (lane == 0) {
        store_slot_contribution(partial, topk_weights, flat, numel, hidden, h, ad[0]);
    }
}

"#;

/// Gate/up on the integer tensor cores.
pub const FFN_MMA_SRC: &'static str = r#"// -------------------------------------------------------------------------
// 3b. The same gate/up projection on the integer tensor cores.
// -------------------------------------------------------------------------
//
// # Why Q6_K is an integer format and not a float one
//
// A Q6_K weight is `d * scale[sub] * (raw - 32)`, where `raw - 32` lands in
// `[-32, 31]` — an int8 with two bits of headroom. The two multipliers are
// constant over a 16-element run and a 256-element superblock respectively,
// so they factor straight out of the contraction:
//
//     sum_k w[k] x[k]  =  d * sum_sub scale[sub] * ( sum_{k in sub} q[k] x[k] )

#define MOE_MMA_WARPS 8
#define MOE_MMA_N     8
#define MOE_MMA_ROWS  (MOE_MMA_WARPS * MOE_MMA_N)
#define MOE_MMA_M     32
#define MOE_MMA_MF    (MOE_MMA_M / 8)
#define MOE_MMA_KC    128

// Bytes per staged activation row.
#define MOE_MMA_ASTRIDE (MOE_MMA_KC + 16)

// Bytes per staged weight row: 64 of `ql`, then 32 of `qh` at offset 64.
//
// 112 and not the 96 the payload needs. The operand load varies the row over
// eight values and the word within a row over four, so a conflict-free stride
// has to send each row exactly four banks along from the last: **the stride in
// words must be 4 mod 32**. 112 bytes is 28 words, `28 * i mod 32` walks
// 0, 28, 24, ..., 4, and the four words each row contributes fill the gaps, so
// the warp's 32 lanes tile the 32 banks exactly once.
#define MOE_MMA_WSTRIDE 112
// Bytes per staged scale row: 8 int8 sub-scales, then the fp32 superblock
// delta at offset 8 (which is where the 4-byte alignment requirement lands).
#define MOE_MMA_SSTRIDE 16

// Three blocks per SM, asked for explicitly.
#define MOE_MMA_BLOCKS_PER_SM 3

__global__ void __launch_bounds__(MOE_MMA_WARPS * 32, MOE_MMA_BLOCKS_PER_SM)
moe_expert_ffn_mma(
    const unsigned char* __restrict__ gate_q,
    const unsigned char* __restrict__ up_q,
    const signed char* __restrict__ xq,
    const float* __restrict__ xscale,
    const int* __restrict__ sorted_token_ids,
    const int* __restrict__ expert_ids,
    const int* __restrict__ valid_tokens,
    int top_k,
    int block_size,
    int hidden,
    int intermediate,
    float* __restrict__ inter
) {
    unsigned char* swg = (unsigned char*)xabe_shared;
    unsigned char* swu = swg + MOE_MMA_ROWS * MOE_MMA_WSTRIDE;
    unsigned char* ssg = swu + MOE_MMA_ROWS * MOE_MMA_WSTRIDE;
    unsigned char* ssu = ssg + MOE_MMA_ROWS * MOE_MMA_SSTRIDE;
    signed char*   sa  = (signed char*)(ssu + MOE_MMA_ROWS * MOE_MMA_SSTRIDE);
    float*         sas = (float*)(sa + MOE_MMA_M * MOE_MMA_ASTRIDE);
    long long*     rows = (long long*)(sas + MOE_MMA_M * (MOE_MMA_KC / 32));

    int blk = blockIdx.y;
    int e = expert_ids[blk];
    if (e < 0) return;
    int numel = (*valid_tokens) * top_k;

    int tid  = threadIdx.x;
    int lane = tid & 31;
    int warp = tid >> 5;
    int r0   = blockIdx.x * MOE_MMA_ROWS;

    if (tid < MOE_MMA_M) {
        int flat = tid < block_size
            ? sorted_token_ids[(long long)blk * block_size + tid]
            : numel;
        // The activation *row*, not a byte offset: this tile indexes int8.
        rows[tid] = flat < numel ? (long long)(flat / top_k) : -1;
    }
    __syncthreads();

    // Lane roles. The operand split (stride 4) and the accumulator split
    // (stride 2) are different, which is the characteristic MMA trap: `nload`
    // is the row this lane *loads* an operand for, `ccol` the two columns it
    // *owns* in the accumulator. They are not the same rows.
    int nload = warp * MOE_MMA_N + (lane >> 2);
    int arow  = lane >> 2;
    int quad  = (lane & 3) * 4;
    int ccol  = warp * MOE_MMA_N + (lane & 3) * 2;

    long long ebase = (long long)e * intermediate * hidden;
    int kblocks = hidden >> 5;

    float accg[MOE_MMA_MF][2];
    float accu[MOE_MMA_MF][2];
    #pragma unroll
    for (int mf = 0; mf < MOE_MMA_MF; ++mf) {
        accg[mf][0] = 0.0f; accg[mf][1] = 0.0f;
        accu[mf][0] = 0.0f; accu[mf][1] = 0.0f;
    }

    for (int kc = 0; kc < hidden; kc += MOE_MMA_KC) {
        __syncthreads();

        int half = (kc >> 7) & 1;
        {
            int jq = lane & 7;
            int c4 = lane >> 3;
            int rq = warp * MOE_MMA_N + jq;
            int nq = r0 + rq;
            int live = nq < intermediate;
            long long iq = ebase + (long long)nq * hidden + kc;
            const unsigned char* gq = gate_q + (iq >> 8) * Q6K_SB;
            const unsigned char* uq = up_q   + (iq >> 8) * Q6K_SB;

            if (live) {
                *(uint4*)(swg + rq * MOE_MMA_WSTRIDE + c4 * 16) =
                    *(const uint4*)(gq + half * 64 + c4 * 16);
                *(uint4*)(swu + rq * MOE_MMA_WSTRIDE + c4 * 16) =
                    *(const uint4*)(uq + half * 64 + c4 * 16);
                if (lane < 16) {
                    *(uint4*)(swg + rq * MOE_MMA_WSTRIDE + 64 + c4 * 16) =
                        *(const uint4*)(gq + 128 + half * 32 + c4 * 16);
                    *(uint4*)(swu + rq * MOE_MMA_WSTRIDE + 64 + c4 * 16) =
                        *(const uint4*)(uq + 128 + half * 32 + c4 * 16);
                }
            }
            if (lane < 8) {
                if (live) {
                    *(uint2*)(ssg + rq * MOE_MMA_SSTRIDE) =
                        *(const uint2*)(gq + 192 + half * 8);
                    *(uint2*)(ssu + rq * MOE_MMA_SSTRIDE) =
                        *(const uint2*)(uq + 192 + half * 8);
                    *(float*)(ssg + rq * MOE_MMA_SSTRIDE + 8) =
                        half_bits_to_float(*(const unsigned short*)(gq + 208));
                    *(float*)(ssu + rq * MOE_MMA_SSTRIDE + 8) =
                        half_bits_to_float(*(const unsigned short*)(uq + 208));
                } else {
                    // A row past `intermediate` contributes nothing, and
                    // zeroing the *scale* is enough to guarantee that without
                    // zeroing 96 bytes of quants: every product it feeds is
                    // multiplied by it.
                    *(float*)(ssg + rq * MOE_MMA_SSTRIDE + 8) = 0.0f;
                    *(float*)(ssu + rq * MOE_MMA_SSTRIDE + 8) = 0.0f;
                }
            }
        }

        // Stage the activations as words: `hidden` and `MOE_MMA_KC` are
        // multiples of 4, so every one of these is aligned. A padding slot
        // stages zeros, which makes its products exactly zero and keeps the
        // inner loop branch-free.
        for (int idx = tid; idx < MOE_MMA_M * (MOE_MMA_KC / 4); idx += blockDim.x) {
            int m  = idx / (MOE_MMA_KC / 4);
            int k4 = (idx % (MOE_MMA_KC / 4)) * 4;
            long long row = rows[m];
            unsigned int v = row >= 0
                ? *(const unsigned int*)(xq + row * hidden + kc + k4)
                : 0u;
            *(unsigned int*)(sa + m * MOE_MMA_ASTRIDE + k4) = v;
        }
        for (int idx = tid; idx < MOE_MMA_M * (MOE_MMA_KC / 32); idx += blockDim.x) {
            int m  = idx / (MOE_MMA_KC / 32);
            int kb = idx % (MOE_MMA_KC / 32);
            long long row = rows[m];
            sas[m * (MOE_MMA_KC / 32) + kb] =
                row >= 0 ? xscale[row * kblocks + (kc >> 5) + kb] : 0.0f;
        }
        __syncthreads();

        // Hoisted: the superblock delta moves once per staged half, not once
        // per sub-block.
        float dg0 = *(const float*)(ssg + ccol * MOE_MMA_SSTRIDE + 8);
        float dg1 = *(const float*)(ssg + (ccol + 1) * MOE_MMA_SSTRIDE + 8);
        float du0 = *(const float*)(ssu + ccol * MOE_MMA_SSTRIDE + 8);
        float du1 = *(const float*)(ssu + (ccol + 1) * MOE_MMA_SSTRIDE + 8);

        for (int kk = 0; kk < MOE_MMA_KC; kk += 32) {
            unsigned int bg[2], bu[2];
            #pragma unroll
            for (int h = 0; h < 2; ++h) {
                int rp  = kk + 16 * h + quad;
                int grp = rp >> 5;
                int l   = rp & 31;
                int shift = 2 * grp;
                unsigned int qlg = *(const unsigned int*)(
                    swg + nload * MOE_MMA_WSTRIDE + ((grp & 1) ? l + 32 : l));
                unsigned int qhg = *(const unsigned int*)(
                    swg + nload * MOE_MMA_WSTRIDE + 64 + l);
                unsigned int qlu = *(const unsigned int*)(
                    swu + nload * MOE_MMA_WSTRIDE + ((grp & 1) ? l + 32 : l));
                unsigned int qhu = *(const unsigned int*)(
                    swu + nload * MOE_MMA_WSTRIDE + 64 + l);

                // Four Q6_K codes to four signed bytes with no per-element work
                // at all. Every step below acts on all four lanes of the word at
                // once, and none of them can carry a bit across a byte boundary.
                unsigned int tg = ((((grp < 2) ? qlg : (qlg >> 4)) & 0x0F0F0F0Fu)
                    | (((qhg >> shift) & 0x03030303u) << 4)) ^ 0x20202020u;
                unsigned int tu = ((((grp < 2) ? qlu : (qlu >> 4)) & 0x0F0F0F0Fu)
                    | (((qhu >> shift) & 0x03030303u) << 4)) ^ 0x20202020u;
                unsigned int sg = tg & 0x20202020u;
                unsigned int su = tu & 0x20202020u;
                bg[h] = tg | (sg << 1) | (sg << 2);
                bu[h] = tu | (su << 1) | (su << 2);
            }

            int sub = kk >> 4;
            int cg0[2], cg1[2], cu0[2], cu1[2];
            #pragma unroll
            for (int h = 0; h < 2; ++h) {
                cg0[h] = (signed char)ssg[ccol * MOE_MMA_SSTRIDE + sub + h];
                cg1[h] = (signed char)ssg[(ccol + 1) * MOE_MMA_SSTRIDE + sub + h];
                cu0[h] = (signed char)ssu[ccol * MOE_MMA_SSTRIDE + sub + h];
                cu1[h] = (signed char)ssu[(ccol + 1) * MOE_MMA_SSTRIDE + sub + h];
            }

            #pragma unroll
            for (int mf = 0; mf < MOE_MMA_MF; ++mf) {
                float dx = sas[(mf * 8 + arow) * (MOE_MMA_KC / 32) + (kk >> 5)];
                #pragma unroll
                for (int h = 0; h < 2; ++h) {
                    unsigned int a = *(const unsigned int*)(
                        sa + (mf * 8 + arow) * MOE_MMA_ASTRIDE + kk + 16 * h + quad);
                    int g0 = 0, g1 = 0, u0 = 0, u1 = 0;
                    asm volatile(
                        "mma.sync.aligned.m8n8k16.row.col.s32.s8.s8.s32 "
                        "{%0,%1}, {%2}, {%3}, {%0,%1};"
                        : "+r"(g0), "+r"(g1) : "r"(a), "r"(bg[h]));
                    asm volatile(
                        "mma.sync.aligned.m8n8k16.row.col.s32.s8.s8.s32 "
                        "{%0,%1}, {%2}, {%3}, {%0,%1};"
                        : "+r"(u0), "+r"(u1) : "r"(a), "r"(bu[h]));
                    accg[mf][0] += (float)g0 * dx * (dg0 * (float)cg0[h]);
                    accg[mf][1] += (float)g1 * dx * (dg1 * (float)cg1[h]);
                    accu[mf][0] += (float)u0 * dx * (du0 * (float)cu0[h]);
                    accu[mf][1] += (float)u1 * dx * (du1 * (float)cu1[h]);
                }
            }
        }
    }

    #pragma unroll
    for (int mf = 0; mf < MOE_MMA_MF; ++mf) {
        int m = mf * 8 + arow;
        if (m < block_size && rows[m] >= 0) {
            #pragma unroll
            for (int j = 0; j < 2; ++j) {
                int n = r0 + ccol + j;
                if (n < intermediate) {
                    float g = (j == 0) ? accg[mf][0] : accg[mf][1];
                    float u = (j == 0) ? accu[mf][0] : accu[mf][1];
                    float act = g / (1.0f + expf(-g));
                    inter[((long long)blk * block_size + m) * intermediate + n] = act * u;
                }
            }
        }
    }
}

"#;

/// The down projections and the Q8_0 gate/up tensor-core form.
pub const DOWN_SRC: &'static str = r#"__global__ void moe_expert_down(
    const unsigned char* __restrict__ down_q, int down_quant,
    const float* __restrict__ inter,
    const float* __restrict__ topk_weights,
    const int* __restrict__ sorted_token_ids,
    const int* __restrict__ expert_ids,
    const int* __restrict__ valid_tokens,
    int top_k,
    int block_size,
    int hidden,
    int intermediate,
    float* __restrict__ partial
) {
    float*     xs        = xabe_shared;                          // [MOE_TM][MOE_TK]
    long long* rows      = (long long*)(xs + MOE_TM * MOE_TK);   // [MOE_TM]
    int*       slot_flat = (int*)(rows + MOE_TM);                // [MOE_TM]

    int blk = blockIdx.y;
    int e = expert_ids[blk];
    if (e < 0) return;

    int numel = (*valid_tokens) * top_k;
    int lane = threadIdx.x & 31;
    int warp = threadIdx.x >> 5;
    int h = blockIdx.x * MOE_ROWS + warp;
    int live = h < hidden;
    long long wrow = ((long long)e * hidden + h) * intermediate;

    for (int m0 = 0; m0 < block_size; m0 += MOE_TM) {
        __syncthreads();
        if (threadIdx.x < MOE_TM) {
            int m = m0 + threadIdx.x;
            int flat = m < block_size
                ? sorted_token_ids[(long long)blk * block_size + m]
                : numel;
            slot_flat[threadIdx.x] = flat;
            rows[threadIdx.x] = flat < numel
                ? ((long long)blk * block_size + m) * intermediate
                : -1;
        }
        __syncthreads();

        int bm = live_tile_rows(rows);
        float ad[MOE_TM];
#define MOE_DOWN_TILE(TM) tile_gemm_single<TM>(                               \
            down_q, down_quant, inter, rows, xs,                              \
            wrow, intermediate, lane, live, ad)
        MOE_TILE_DISPATCH(MOE_DOWN_TILE)
#undef MOE_DOWN_TILE

        if (live && lane == 0) {
            #pragma unroll
            for (int m = 0; m < MOE_TM; ++m) {
                if (m < bm) {
                    store_slot_contribution(
                        partial, topk_weights, slot_flat[m], numel, hidden, h, ad[m]);
                }
            }
        }
    }
}

// -------------------------------------------------------------------------
// 3c. The down projection on the integer tensor cores.
// -------------------------------------------------------------------------

// Bytes per staged weight row: MOE_MMA_KC quants, then one fp32 scale per 32
// at offset MOE_MMA_KC.
//
// 144 is 36 words, and the eight rows a warp reads land on banks
// `4r + (quad/4)` — thirty-two distinct banks across the warp, no conflict.
#define MOE_MMA_DSTRIDE (MOE_MMA_KC + (MOE_MMA_KC / 32) * 4)

#define MOE_DOWN_BLOCKS_PER_SM 4

__global__ void __launch_bounds__(MOE_MMA_WARPS * 32, MOE_DOWN_BLOCKS_PER_SM)
moe_expert_down_mma(
    const unsigned char* __restrict__ down_q,
    const signed char* __restrict__ iq,
    const float* __restrict__ iscale,
    const float* __restrict__ topk_weights,
    const int* __restrict__ sorted_token_ids,
    const int* __restrict__ expert_ids,
    const int* __restrict__ valid_tokens,
    int top_k,
    int block_size,
    int hidden,
    int intermediate,
    float* __restrict__ partial
) {
    unsigned char* sw  = (unsigned char*)xabe_shared;
    signed char*   sa  = (signed char*)(sw + MOE_MMA_ROWS * MOE_MMA_DSTRIDE);
    float*         sas = (float*)(sa + MOE_MMA_M * MOE_MMA_ASTRIDE);
    long long*     rows = (long long*)(sas + MOE_MMA_M * (MOE_MMA_KC / 32));
    int*           slot_flat = (int*)(rows + MOE_MMA_M);

    int blk = blockIdx.y;
    int e = expert_ids[blk];
    if (e < 0) return;
    int numel = (*valid_tokens) * top_k;

    int tid  = threadIdx.x;
    int lane = tid & 31;
    int warp = tid >> 5;
    int r0   = blockIdx.x * MOE_MMA_ROWS;

    if (tid < MOE_MMA_M) {
        int m = tid;
        int flat = m < block_size
            ? sorted_token_ids[(long long)blk * block_size + m]
            : numel;
        slot_flat[m] = flat;
        // The `inter` row, which is the *slot* index and not the token index:
        // the ffn kernel wrote one row per dispatch slot.
        rows[m] = flat < numel ? (long long)blk * block_size + m : -1;
    }
    __syncthreads();

    int nload = warp * MOE_MMA_N + (lane >> 2);
    int arow  = lane >> 2;
    int quad  = (lane & 3) * 4;
    int ccol  = warp * MOE_MMA_N + (lane & 3) * 2;

    long long ebase = (long long)e * hidden * intermediate;
    int kblocks = intermediate >> 5;

    float acc[MOE_MMA_MF][2];
    #pragma unroll
    for (int mf = 0; mf < MOE_MMA_MF; ++mf) { acc[mf][0] = 0.0f; acc[mf][1] = 0.0f; }

    for (int kc = 0; kc < intermediate; kc += MOE_MMA_KC) {
        __syncthreads();

        for (int r = warp; r < MOE_MMA_ROWS; r += MOE_MMA_WARPS) {
            int n = r0 + r;
            if (n < hidden) {
                const unsigned char* src =
                    down_q + ((ebase + (long long)n * intermediate + kc) >> 5) * 34;
                // Each trip reads 32 bytes contiguous within one block, so the
                // fetch coalesces even though the block stride does not let it
                // be a word load.
                // Two bytes per lane. The quants of a Q8_0 block start at
                // byte 2 of a 34-byte block, so they are even-aligned and
                // never word-aligned; 16-bit is the widest legal load, and it
                // halves the instructions this copy costs.
                for (int t = lane * 2; t < MOE_MMA_KC; t += 64) {
                    *(unsigned short*)(sw + r * MOE_MMA_DSTRIDE + t) =
                        *(const unsigned short*)(src + (t >> 5) * 34 + 2 + (t & 31));
                }
                if (lane < (MOE_MMA_KC / 32)) {
                    *(float*)(sw + r * MOE_MMA_DSTRIDE + MOE_MMA_KC + lane * 4) =
                        half_bits_to_float(*(const unsigned short*)(src + lane * 34));
                }
            } else if (lane < (MOE_MMA_KC / 32)) {
                // Zeroing the scale is enough: every product it feeds is
                // multiplied by it.
                *(float*)(sw + r * MOE_MMA_DSTRIDE + MOE_MMA_KC + lane * 4) = 0.0f;
            }
        }

        for (int idx = tid; idx < MOE_MMA_M * (MOE_MMA_KC / 4); idx += blockDim.x) {
            int m  = idx / (MOE_MMA_KC / 4);
            int k4 = (idx % (MOE_MMA_KC / 4)) * 4;
            long long row = rows[m];
            unsigned int v = row >= 0
                ? *(const unsigned int*)(iq + row * intermediate + kc + k4)
                : 0u;
            *(unsigned int*)(sa + m * MOE_MMA_ASTRIDE + k4) = v;
        }
        for (int idx = tid; idx < MOE_MMA_M * (MOE_MMA_KC / 32); idx += blockDim.x) {
            int m  = idx / (MOE_MMA_KC / 32);
            int kb = idx % (MOE_MMA_KC / 32);
            long long row = rows[m];
            sas[m * (MOE_MMA_KC / 32) + kb] =
                row >= 0 ? iscale[row * kblocks + (kc >> 5) + kb] : 0.0f;
        }
        __syncthreads();

        for (int kk = 0; kk < MOE_MMA_KC; kk += 16) {
            unsigned int b = *(const unsigned int*)(
                sw + nload * MOE_MMA_DSTRIDE + kk + quad);

            // One Q8_0 scale spans 32 contraction elements, so it is the same
            // for this k-step and the next.
            int sb = kk >> 5;
            float w0 = *(const float*)(
                sw + ccol * MOE_MMA_DSTRIDE + MOE_MMA_KC + sb * 4);
            float w1 = *(const float*)(
                sw + (ccol + 1) * MOE_MMA_DSTRIDE + MOE_MMA_KC + sb * 4);

            #pragma unroll
            for (int mf = 0; mf < MOE_MMA_MF; ++mf) {
                unsigned int a = *(const unsigned int*)(
                    sa + (mf * 8 + arow) * MOE_MMA_ASTRIDE + kk + quad);
                int d0 = 0, d1 = 0;
                asm volatile(
                    "mma.sync.aligned.m8n8k16.row.col.s32.s8.s8.s32 "
                    "{%0,%1}, {%2}, {%3}, {%0,%1};"
                    : "+r"(d0), "+r"(d1) : "r"(a), "r"(b));
                float dx = sas[(mf * 8 + arow) * (MOE_MMA_KC / 32) + sb];
                acc[mf][0] += (float)d0 * dx * w0;
                acc[mf][1] += (float)d1 * dx * w1;
            }
        }
    }

    #pragma unroll
    for (int mf = 0; mf < MOE_MMA_MF; ++mf) {
        int m = mf * 8 + arow;
        if (m < block_size) {
            #pragma unroll
            for (int j = 0; j < 2; ++j) {
                int n = r0 + ccol + j;
                if (n < hidden) {
                    store_slot_contribution(
                        partial, topk_weights, slot_flat[m], numel, hidden, n,
                        (j == 0) ? acc[mf][0] : acc[mf][1]);
                }
            }
        }
    }
}

// Gate/up half of the grouped GEMM when both stacks are Q8_0.
__global__ void moe_expert_ffn_mma_q8(
    const unsigned char* __restrict__ gate_q,
    const unsigned char* __restrict__ up_q,
    const signed char* __restrict__ xq,
    const float* __restrict__ xscale,
    const int* __restrict__ sorted_token_ids,
    const int* __restrict__ expert_ids,
    const int* __restrict__ valid_tokens,
    int top_k,
    int block_size,
    int hidden,
    int intermediate,
    float* __restrict__ inter
) {
    unsigned char* swg = (unsigned char*)xabe_shared;
    unsigned char* swu = swg + MOE_MMA_ROWS * MOE_MMA_DSTRIDE;
    signed char*   sa  = (signed char*)(swu + MOE_MMA_ROWS * MOE_MMA_DSTRIDE);
    float*         sas = (float*)(sa + MOE_MMA_M * MOE_MMA_ASTRIDE);
    long long*     rows = (long long*)(sas + MOE_MMA_M * (MOE_MMA_KC / 32));

    int blk = blockIdx.y;
    int e = expert_ids[blk];
    if (e < 0) return;
    int numel = (*valid_tokens) * top_k;

    int tid  = threadIdx.x;
    int lane = tid & 31;
    int warp = tid >> 5;
    int r0   = blockIdx.x * MOE_MMA_ROWS;

    if (tid < MOE_MMA_M) {
        int flat = tid < block_size
            ? sorted_token_ids[(long long)blk * block_size + tid]
            : numel;
        rows[tid] = flat < numel ? (long long)(flat / top_k) : -1;
    }
    __syncthreads();

    int nload = warp * MOE_MMA_N + (lane >> 2);
    int arow  = lane >> 2;
    int quad  = (lane & 3) * 4;
    int ccol  = warp * MOE_MMA_N + (lane & 3) * 2;

    long long ebase = (long long)e * intermediate * hidden;
    int kblocks = hidden >> 5;

    float accg[MOE_MMA_MF][2];
    float accu[MOE_MMA_MF][2];
    #pragma unroll
    for (int mf = 0; mf < MOE_MMA_MF; ++mf) {
        accg[mf][0] = 0.0f; accg[mf][1] = 0.0f;
        accu[mf][0] = 0.0f; accu[mf][1] = 0.0f;
    }

    for (int kc = 0; kc < hidden; kc += MOE_MMA_KC) {
        __syncthreads();

        // A warp stages whole rows of both matrices. The quants of a Q8_0
        // block start at byte 2 of a 34-byte block, so they are even-aligned
        // and never word-aligned; 16 bits is the widest legal load, and `t` is
        // even so a pair never straddles a block boundary.
        for (int r = warp; r < MOE_MMA_ROWS; r += MOE_MMA_WARPS) {
            int n = r0 + r;
            if (n < intermediate) {
                long long off = (ebase + (long long)n * hidden + kc) >> 5;
                const unsigned char* sg = gate_q + off * 34;
                const unsigned char* su = up_q   + off * 34;
                for (int t = lane * 2; t < MOE_MMA_KC; t += 64) {
                    int at = (t >> 5) * 34 + 2 + (t & 31);
                    *(unsigned short*)(swg + r * MOE_MMA_DSTRIDE + t) =
                        *(const unsigned short*)(sg + at);
                    *(unsigned short*)(swu + r * MOE_MMA_DSTRIDE + t) =
                        *(const unsigned short*)(su + at);
                }
                if (lane < (MOE_MMA_KC / 32)) {
                    *(float*)(swg + r * MOE_MMA_DSTRIDE + MOE_MMA_KC + lane * 4) =
                        half_bits_to_float(*(const unsigned short*)(sg + lane * 34));
                    *(float*)(swu + r * MOE_MMA_DSTRIDE + MOE_MMA_KC + lane * 4) =
                        half_bits_to_float(*(const unsigned short*)(su + lane * 34));
                }
            } else if (lane < (MOE_MMA_KC / 32)) {
                // A row past `intermediate` contributes nothing, and zeroing
                // the scale is enough to guarantee it: every product it feeds
                // is multiplied by it.
                *(float*)(swg + r * MOE_MMA_DSTRIDE + MOE_MMA_KC + lane * 4) = 0.0f;
                *(float*)(swu + r * MOE_MMA_DSTRIDE + MOE_MMA_KC + lane * 4) = 0.0f;
            }
        }

        for (int idx = tid; idx < MOE_MMA_M * (MOE_MMA_KC / 4); idx += blockDim.x) {
            int m  = idx / (MOE_MMA_KC / 4);
            int k4 = (idx % (MOE_MMA_KC / 4)) * 4;
            long long row = rows[m];
            unsigned int v = row >= 0
                ? *(const unsigned int*)(xq + row * hidden + kc + k4)
                : 0u;
            *(unsigned int*)(sa + m * MOE_MMA_ASTRIDE + k4) = v;
        }
        for (int idx = tid; idx < MOE_MMA_M * (MOE_MMA_KC / 32); idx += blockDim.x) {
            int m  = idx / (MOE_MMA_KC / 32);
            int kb = idx % (MOE_MMA_KC / 32);
            long long row = rows[m];
            sas[m * (MOE_MMA_KC / 32) + kb] =
                row >= 0 ? xscale[row * kblocks + (kc >> 5) + kb] : 0.0f;
        }
        __syncthreads();

        for (int kk = 0; kk < MOE_MMA_KC; kk += 16) {
            unsigned int bg = *(const unsigned int*)(
                swg + nload * MOE_MMA_DSTRIDE + kk + quad);
            unsigned int bu = *(const unsigned int*)(
                swu + nload * MOE_MMA_DSTRIDE + kk + quad);

            // One Q8_0 scale spans 32 contraction elements, so it is the same
            // for this k-step and the next.
            int sb = kk >> 5;
            float wg0 = *(const float*)(
                swg + ccol * MOE_MMA_DSTRIDE + MOE_MMA_KC + sb * 4);
            float wg1 = *(const float*)(
                swg + (ccol + 1) * MOE_MMA_DSTRIDE + MOE_MMA_KC + sb * 4);
            float wu0 = *(const float*)(
                swu + ccol * MOE_MMA_DSTRIDE + MOE_MMA_KC + sb * 4);
            float wu1 = *(const float*)(
                swu + (ccol + 1) * MOE_MMA_DSTRIDE + MOE_MMA_KC + sb * 4);

            #pragma unroll
            for (int mf = 0; mf < MOE_MMA_MF; ++mf) {
                float dx = sas[(mf * 8 + arow) * (MOE_MMA_KC / 32) + sb];
                unsigned int a = *(const unsigned int*)(
                    sa + (mf * 8 + arow) * MOE_MMA_ASTRIDE + kk + quad);
                int g0 = 0, g1 = 0, u0 = 0, u1 = 0;
                asm volatile(
                    "mma.sync.aligned.m8n8k16.row.col.s32.s8.s8.s32 "
                    "{%0,%1}, {%2}, {%3}, {%0,%1};"
                    : "+r"(g0), "+r"(g1) : "r"(a), "r"(bg));
                asm volatile(
                    "mma.sync.aligned.m8n8k16.row.col.s32.s8.s8.s32 "
                    "{%0,%1}, {%2}, {%3}, {%0,%1};"
                    : "+r"(u0), "+r"(u1) : "r"(a), "r"(bu));
                accg[mf][0] += (float)g0 * dx * wg0;
                accg[mf][1] += (float)g1 * dx * wg1;
                accu[mf][0] += (float)u0 * dx * wu0;
                accu[mf][1] += (float)u1 * dx * wu1;
            }
        }
    }

    #pragma unroll
    for (int mf = 0; mf < MOE_MMA_MF; ++mf) {
        int m = mf * 8 + arow;
        if (m < block_size && rows[m] >= 0) {
            #pragma unroll
            for (int j = 0; j < 2; ++j) {
                int n = r0 + ccol + j;
                if (n < intermediate) {
                    float g = (j == 0) ? accg[mf][0] : accg[mf][1];
                    float u = (j == 0) ? accu[mf][0] : accu[mf][1];
                    float act = g / (1.0f + expf(-g));
                    inter[((long long)blk * block_size + m) * intermediate + n] = act * u;
                }
            }
        }
    }
}

"#;

/// SwiGLU, the reduction and the shared expert.
pub const SHARED_SRC: &'static str = r#"// SwiGLU for the shared expert's tensor-core path.
//
// The fp32 shared-expert kernel fuses this into its epilogue; the tensor-core
// path cannot, because `mma_q8_0_proj_split` is a projection and knows nothing
// about what its output feeds. One elementwise pass over `[max_tokens]
// [intermediate]` is a rounding error against the two projections it sits
// between.
__global__ void moe_swiglu(
    const float* __restrict__ gate,
    const float* __restrict__ up,
    long long n,
    float* __restrict__ out
) {
    long long i = (long long)blockIdx.x * blockDim.x + threadIdx.x;
    if (i >= n) return;
    float g = gate[i];
    out[i] = (g / (1.0f + expf(-g))) * up[i];
}

// The shared expert at one token, for the same reason as
// `moe_expert_ffn_gemv`: at this shape the tiled kernel's staging and barriers
// buy nothing, because each dequantized weight is multiplied once.
//
// Simpler than the routed pair — the shared expert consults no dispatch table
// and is applied to every token unconditionally, so there is no slot to look
// up and no routing weight to apply.
__global__ void moe_shared_ffn_gemv(
    const unsigned char* __restrict__ gate_q, int gate_quant,
    const unsigned char* __restrict__ up_q,   int up_quant,
    const float* __restrict__ hidden_states,
    const int* __restrict__ valid_tokens,
    int hidden,
    int intermediate,
    float* __restrict__ inter
) {
    if (*valid_tokens < 1) return;
    int lane = threadIdx.x & 31;
    int warp = threadIdx.x >> 5;
    int r = blockIdx.x;
    if (r >= intermediate) return;
    long long wrow = (long long)r * hidden;

    int chunk = hidden / MOE_SHARED_WARPS;
    int stop = warp * chunk + chunk;

    float ag[1] = {0.0f};
    float au[1] = {0.0f};
    #pragma unroll 2
    for (int j0 = warp * chunk; j0 < stop; j0 += MOE_TK) {
        float wg[MOE_TN];
        float wu[MOE_TN];
        dequant_tile(gate_q, gate_quant, wrow + j0, lane, wg);
        dequant_tile(up_q,   up_quant,   wrow + j0, lane, wu);
        float4 xv = *(const float4*)(hidden_states + j0 + 4 * lane);
        ag[0] += wg[0] * xv.x;  au[0] += wu[0] * xv.x;
        ag[0] += wg[1] * xv.y;  au[0] += wu[1] * xv.y;
        ag[0] += wg[2] * xv.z;  au[0] += wu[2] * xv.z;
        ag[0] += wg[3] * xv.w;  au[0] += wu[3] * xv.w;
    }
    warp_reduce_tile<1>(ag);
    warp_reduce_tile<1>(au);

    __shared__ float sg[MOE_SHARED_WARPS];
    __shared__ float su[MOE_SHARED_WARPS];
    if (lane == 0) { sg[warp] = ag[0]; su[warp] = au[0]; }
    __syncthreads();
    if (threadIdx.x == 0) {
        float g = 0.0f;
        float u = 0.0f;
        for (int w = 0; w < MOE_SHARED_WARPS; ++w) { g += sg[w]; u += su[w]; }
        inter[r] = (g / (1.0f + expf(-g))) * u;
    }
}

// grid: (ceil(hidden / MOE_ROWS),).
__global__ void moe_shared_down_gemv(
    const unsigned char* __restrict__ down_q, int down_quant,
    const float* __restrict__ inter,
    const int* __restrict__ valid_tokens,
    int hidden,
    int intermediate,
    float* __restrict__ out
) {
    if (*valid_tokens < 1) return;
    int lane = threadIdx.x & 31;
    int warp = threadIdx.x >> 5;
    int h = blockIdx.x * MOE_ROWS + warp;
    if (h >= hidden) return;
    long long wrow = (long long)h * intermediate;

    float ad[1] = {0.0f};
    // Same single-stream contraction as the routed down projection above.
    #pragma unroll MOE_DOWN_UNROLL
    for (int j0 = 0; j0 < intermediate; j0 += MOE_TK) {
        float wd[MOE_TN];
        dequant_tile(down_q, down_quant, wrow + j0, lane, wd);
        float4 xv = *(const float4*)(inter + j0 + 4 * lane);
        ad[0] += wd[0] * xv.x;
        ad[0] += wd[1] * xv.y;
        ad[0] += wd[2] * xv.z;
        ad[0] += wd[3] * xv.w;
    }
    warp_reduce_tile<1>(ad);

    if (lane == 0) out[h] = ad[0];
}

// -------------------------------------------------------------------------
// 4. fp32 weighted sum of each token's top-k contributions.
// -------------------------------------------------------------------------
__global__ void moe_reduce(
    const float* __restrict__ partial,
    const int* __restrict__ valid_tokens,
    int top_k,
    int hidden,
    float* __restrict__ out
) {
    int token = blockIdx.x;
    if (token >= *valid_tokens) return;
    int h = blockIdx.y * blockDim.x + threadIdx.x;
    if (h >= hidden) return;
    float acc = 0.0f;
    for (int k = 0; k < top_k; ++k) {
        acc += partial[((long long)token * top_k + k) * hidden + h];
    }
    out[(long long)token * hidden + h] = acc;
}

// -------------------------------------------------------------------------
// 5. The shared expert, hoisted out of the routed path.
// -------------------------------------------------------------------------
//
// No routing, no sorting, no indirection, no routing weight: one expert
// applied to every token unconditionally.
__global__ void moe_shared_ffn(
    const unsigned char* __restrict__ gate_q, int gate_quant,
    const unsigned char* __restrict__ up_q,   int up_quant,
    const float* __restrict__ hidden_states,
    const int* __restrict__ valid_tokens,
    int hidden,
    int intermediate,
    float* __restrict__ inter
) {
    float*     xs   = xabe_shared;                              // [MOE_TM][MOE_TK]
    long long* rows = (long long*)(xs + MOE_TM * MOE_TK);       // [MOE_TM]

    int nvalid = *valid_tokens;
    int t0 = blockIdx.y * MOE_TM;
    if (t0 >= nvalid) return;

    int lane = threadIdx.x & 31;
    int warp = threadIdx.x >> 5;
    int r = blockIdx.x * MOE_ROWS + warp;
    int live = r < intermediate;
    long long wrow = (long long)r * hidden;

    if (threadIdx.x < MOE_TM) {
        int token = t0 + threadIdx.x;
        rows[threadIdx.x] = token < nvalid ? (long long)token * hidden : -1;
    }
    __syncthreads();

    int bm = live_tile_rows(rows);
    float ag[MOE_TM];
    float au[MOE_TM];
#define MOE_SHARED_FFN_TILE(TM) tile_gemm_pair<TM>(                           \
        gate_q, gate_quant, up_q, up_quant, hidden_states, rows, xs,          \
        wrow, hidden, lane, live, ag, au)
    MOE_TILE_DISPATCH(MOE_SHARED_FFN_TILE)
#undef MOE_SHARED_FFN_TILE

    if (live && lane == 0) {
        #pragma unroll
        for (int m = 0; m < MOE_TM; ++m) {
            if (m < bm) {
                float act = ag[m] / (1.0f + expf(-ag[m]));
                inter[(long long)(t0 + m) * intermediate + r] = act * au[m];
            }
        }
    }
}

// grid: (ceil(hidden / MOE_ROWS), ceil(max_tokens / MOE_TM)).
__global__ void moe_shared_down(
    const unsigned char* __restrict__ down_q, int down_quant,
    const float* __restrict__ inter,
    const int* __restrict__ valid_tokens,
    int hidden,
    int intermediate,
    float* __restrict__ out
) {
    float*     xs   = xabe_shared;                              // [MOE_TM][MOE_TK]
    long long* rows = (long long*)(xs + MOE_TM * MOE_TK);       // [MOE_TM]

    int nvalid = *valid_tokens;
    int t0 = blockIdx.y * MOE_TM;
    if (t0 >= nvalid) return;

    int lane = threadIdx.x & 31;
    int warp = threadIdx.x >> 5;
    int h = blockIdx.x * MOE_ROWS + warp;
    int live = h < hidden;
    long long wrow = (long long)h * intermediate;

    if (threadIdx.x < MOE_TM) {
        int token = t0 + threadIdx.x;
        rows[threadIdx.x] = token < nvalid ? (long long)token * intermediate : -1;
    }
    __syncthreads();

    int bm = live_tile_rows(rows);
    float ad[MOE_TM];
#define MOE_SHARED_DOWN_TILE(TM) tile_gemm_single<TM>(                        \
        down_q, down_quant, inter, rows, xs,                                  \
        wrow, intermediate, lane, live, ad)
    MOE_TILE_DISPATCH(MOE_SHARED_DOWN_TILE)
#undef MOE_SHARED_DOWN_TILE

    if (live && lane == 0) {
        #pragma unroll
        for (int m = 0; m < MOE_TM; ++m) {
            if (m < bm) out[(long long)(t0 + m) * hidden + h] = ad[m];
        }
    }
}

}
"#;

/// The whole source text.
pub open spec fn moe_src_text() -> Seq<char> {
    HELPERS_SRC@ + ROUTING_SRC@ + GROUPED_SRC@ + FFN_MMA_SRC@ + DOWN_SRC@ + SHARED_SRC@
}

/// The whole source.
pub fn moe_src() -> (s: String)
    ensures
        s@ == moe_src_text(),
{
    let mut s = String::new();
    s.append(HELPERS_SRC);
    s.append(ROUTING_SRC);
    s.append(GROUPED_SRC);
    s.append(FFN_MMA_SRC);
    s.append(DOWN_SRC);
    s.append(SHARED_SRC);
    s
}

} // verus!
