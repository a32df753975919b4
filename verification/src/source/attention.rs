//! CUDA C++ source. Query/gate split, rotary embedding, causal attention and cache append.

use vstd::prelude::*;

verus! {

pub const ATTENTION_SRC: &'static str = r#"
extern "C" {

// NVRTC compiles from a string with no include path, so <math.h>'s INFINITY
// macro is not reachable. `__int_as_float` is a builtin and always is.
__device__ __forceinline__ float neg_inf() { return __int_as_float(0xff800000); }

// Deinterleave the packed query/gate tensor.
//
// grid: (n_tokens, q_heads). block: head_dim threads.
__global__ void attn_split_query_gate(
    const float* __restrict__ packed,
    float* __restrict__ q,
    float* __restrict__ gate,
    int q_heads,
    int head_dim
) {
    long long t = blockIdx.x;
    int h = blockIdx.y;
    int d = threadIdx.x;

    long long row = t * (long long)q_heads * 2 * head_dim;
    long long dst = (t * (long long)q_heads + h) * (long long)head_dim + d;

    q[dst]    = packed[row + (long long)(2 * h)     * head_dim + d];
    gate[dst] = packed[row + (long long)(2 * h + 1) * head_dim + d];
}

// Partial rotary position embedding, NEOX (split-half) pairing.
//
// grid: (n_tokens, n_heads). block: head_dim threads.
__global__ void attn_rope_partial_neox(
    const float* __restrict__ in,
    float* __restrict__ out,
    int n_heads,
    int head_dim,
    int rope_dim,
    const int* __restrict__ pos_offset,
    float theta_base
) {
    long long t = blockIdx.x;
    int h = blockIdx.y;
    int d = threadIdx.x;
    long long base = (t * (long long)n_heads + h) * (long long)head_dim;

    int half = rope_dim >> 1;

    if (d >= rope_dim) {
        out[base + d] = in[base + d];
        return;
    }
    // Dimensions [half, rope_dim) are written by their partner thread d-half.
    if (d >= half) return;

    double pos = (double)(*pos_offset) + (double)t;
    double freq = pow((double)theta_base, -2.0 * (double)d / (double)rope_dim);
    double angle = pos * freq;
    float sin_a = (float)sin(angle);
    float cos_a = (float)cos(angle);

    float x0 = in[base + d];
    float x1 = in[base + d + half];
    out[base + d]        = x0 * cos_a - x1 * sin_a;
    out[base + d + half] = x0 * sin_a + x1 * cos_a;
}

// Causal GQA attention, online-softmax streaming form.
//
// grid: (n_query, q_heads) — one block per (query row, query head).
// block: head_dim threads = head_dim/32 warps.
#define ATTN_KT 4

__global__ void attn_flash_causal(
    const float* __restrict__ q,
    const float* __restrict__ k,
    const float* __restrict__ v,
    float* __restrict__ out,
    int q_heads,
    int kv_heads,
    int head_dim,
    const int* __restrict__ key_offset,
    float scale
) {
    extern __shared__ float smem[];
    int n_warps = blockDim.x >> 5;
    int tile = n_warps * ATTN_KT;              // keys per barrier pair
    float* q_sh     = smem;                    // head_dim floats
    float* score_sh = smem + head_dim;         // tile floats
    float* w_sh     = score_sh + tile;         // tile floats

    long long qi = blockIdx.x;
    int h = blockIdx.y;
    int kvh = h / (q_heads / kv_heads);        // GQA: never assume 1:1
    int tid = threadIdx.x;
    int lane = tid & 31;
    int warp = tid >> 5;

    long long qbase = (qi * (long long)q_heads + h) * (long long)head_dim;
    q_sh[tid] = q[qbase + tid];
    __syncthreads();

    // The causal bound, written once. Query row qi sits at absolute position
    // key_offset + qi and sees keys [0, key_offset + qi] inclusive.
    long long n_visible = (long long)(*key_offset) + qi + 1;

    float m = neg_inf();
    float l = 0.0f;
    float acc = 0.0f;

    for (long long j0 = 0; j0 < n_visible; j0 += tile) {
        // ATTN_KT keys per warp per trip, not one.
        #pragma unroll
        for (int r = 0; r < ATTN_KT; ++r) {
            long long key = j0 + (long long)warp * ATTN_KT + r;
            float partial = 0.0f;
            if (key < n_visible) {
                const float* krow =
                    k + (key * (long long)kv_heads + kvh) * (long long)head_dim;
                // Lane l takes dimensions l, l+32, l+64, ...: consecutive lanes
                // read consecutive floats, so every load is a full 128 B
                // transaction, and q_sh[d] with d = lane + 32*i hits a distinct
                // bank per lane.
                for (int d = lane; d < head_dim; d += 32) partial += q_sh[d] * krow[d];
            }
            for (int off = 16; off > 0; off >>= 1) {
                partial += __shfl_xor_sync(0xffffffff, partial, off);
            }
            if (lane == 0) score_sh[warp * ATTN_KT + r] = partial * scale;
        }
        __syncthreads();

        long long remaining = n_visible - j0;
        int n_this = (int)(remaining < (long long)tile ? remaining : (long long)tile);

        float tile_max = neg_inf();
        for (int w = 0; w < n_this; ++w) tile_max = fmaxf(tile_max, score_sh[w]);
        float new_m = fmaxf(m, tile_max);
        float corr = (m == neg_inf()) ? 0.0f : expf(m - new_m);

        // w_sh and score_sh are disjoint, so this write races nothing above.
        if (tid < n_this) w_sh[tid] = expf(score_sh[tid] - new_m);
        __syncthreads();

        float lsum = 0.0f;
        for (int w = 0; w < n_this; ++w) lsum += w_sh[w];
        l = l * corr + lsum;

        float a = acc * corr;
        for (int w = 0; w < n_this; ++w) {
            a += w_sh[w] * v[((j0 + w) * (long long)kv_heads + kvh) * (long long)head_dim + tid];
        }
        acc = a;
        m = new_m;

        // Before the next iteration overwrites score_sh and w_sh.
        __syncthreads();
    }

    out[qbase + tid] = acc / l;
}

// Append this batch's roped keys and raw values to the cache, at the absolute
// position the sequence has reached.
__global__ void attn_kv_append(
    const float* __restrict__ key,
    const float* __restrict__ value,
    float* __restrict__ k_cache,
    float* __restrict__ v_cache,
    const int* __restrict__ position,
    int span,
    int row
) {
    int i = blockIdx.x * blockDim.x + threadIdx.x;
    if (i >= 2 * span) return;
    // `span` is `n_tokens * row`; the cache is indexed by *position*, so the
    // destination base is one row per position and not one span.
    long long at = (long long)(*position) * (long long)row;
    if (i < span) {
        k_cache[at + i] = key[i];
    } else {
        int j = i - span;
        v_cache[at + j] = value[j];
    }
}

}
"#;

} // verus!
