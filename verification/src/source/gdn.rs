//! CUDA C++ source. The recurrent step of the gated delta rule.

use vstd::prelude::*;

verus! {

pub const GDN_SRC: &'static str = r#"
extern "C" {

// Sum across a block of up to 1024 threads.
__device__ __forceinline__ float block_reduce_sum(float v, float* scratch) {
    for (int offset = 16; offset > 0; offset >>= 1) {
        v += __shfl_down_sync(0xffffffff, v, offset);
    }
    int lane = threadIdx.x & 31;
    int warp = threadIdx.x >> 5;
    if (lane == 0) scratch[warp] = v;
    __syncthreads();

    int n_warps = (blockDim.x + 31) >> 5;
    float total = 0.0f;
    if (threadIdx.x == 0) {
        for (int w = 0; w < n_warps; ++w) total += scratch[w];
        scratch[0] = total;
    }
    __syncthreads();
    return scratch[0];
}

// L2-normalize q and k per query/key head, and fold the 1/sqrt(head_dim)
// output scale into q.
__global__ void gdn_normalize_qk(
    const float* __restrict__ q_in,
    const float* __restrict__ k_in,
    float* __restrict__ q_out,
    float* __restrict__ k_out,
    int head_dim,
    float eps,
    float scale
) {
    extern __shared__ float scratch[];
    int head = blockIdx.x;
    int j = threadIdx.x;
    int base = head * head_dim;

    float qv = q_in[base + j];
    float kv = k_in[base + j];

    float q_sq = block_reduce_sum(qv * qv, scratch);
    __syncthreads();
    float k_sq = block_reduce_sum(kv * kv, scratch);
    __syncthreads();

    q_out[base + j] = qv * (1.0f / fmaxf(sqrtf(q_sq), eps)) * scale;
    k_out[base + j] = kv * (1.0f / fmaxf(sqrtf(k_sq), eps));
}

// Sum across one warp, leaving the total in every lane.
__device__ __forceinline__ float warp_reduce_sum(float v) {
    for (int offset = 16; offset > 0; offset >>= 1) {
        v += __shfl_xor_sync(0xffffffff, v, offset);
    }
    return v;
}

// One recurrent step of the gated delta rule, for every value head at once.
//
// grid: (head_dim / warps_per_block, n_v_heads, sequences), one warp per state
// row.
#define STEP_MAX_CHUNKS 4

__global__ void gdn_recurrent_step(
    unsigned long long s0, unsigned long long s1,
    unsigned long long s2, unsigned long long s3,
    unsigned long long s4, unsigned long long s5,
    unsigned long long s6, unsigned long long s7,
    const float* __restrict__ q,
    const float* __restrict__ k,
    const float* __restrict__ v,
    const float* __restrict__ log_decay,
    const float* __restrict__ beta,
    float* __restrict__ out,
    int head_dim,
    int qk_heads
) {
    int lane = threadIdx.x & 31;
    int vi = blockIdx.x * (blockDim.x >> 5) + (threadIdx.x >> 5);
    int h  = blockIdx.y;
    int z  = blockIdx.z;
    if (vi >= head_dim) return;
    float* state;
    switch (z) {
        case 0: state = (float*)s0; break;
        case 1: state = (float*)s1; break;
        case 2: state = (float*)s2; break;
        case 3: state = (float*)s3; break;
        case 4: state = (float*)s4; break;
        case 5: state = (float*)s5; break;
        case 6: state = (float*)s6; break;
        default: state = (float*)s7; break;
    }

    int qk_head = h % qk_heads;
    int n_v_heads = gridDim.y;
    int qk_base = (z * qk_heads + qk_head) * head_dim;
    int v_base  = (z * n_v_heads + h) * head_dim;
    int g_at    = z * n_v_heads + h;

    int chunks = head_dim >> 7;
    int j0 = 4 * lane;

    float decay = expf(log_decay[g_at]);
    long long row = ((long long)h * head_dim + vi) * head_dim;

    float4 s[STEP_MAX_CHUNKS];
    float4 kc[STEP_MAX_CHUNKS];
    float partial = 0.0f;
    #pragma unroll
    for (int c = 0; c < STEP_MAX_CHUNKS; ++c) {
        if (c < chunks) {
            int j = (c << 7) + j0;
            kc[c] = *(const float4*)(k + qk_base + j);
            float4 sv = *(const float4*)(state + row + j);
            sv.x *= decay; sv.y *= decay; sv.z *= decay; sv.w *= decay;
            s[c] = sv;
            partial += sv.x * kc[c].x;
            partial += sv.y * kc[c].y;
            partial += sv.z * kc[c].z;
            partial += sv.w * kc[c].w;
        }
    }

    // 2. Delta correction against the decayed state.
    float predicted = warp_reduce_sum(partial);
    float vcorr = beta[g_at] * (v[v_base + vi] - predicted);

    // 3. Outer-product update, and the output's dot product from the
    //    *updated* state.
    partial = 0.0f;
    #pragma unroll
    for (int c = 0; c < STEP_MAX_CHUNKS; ++c) {
        if (c < chunks) {
            int j = (c << 7) + j0;
            float4 sv = s[c];
            sv.x += vcorr * kc[c].x;
            sv.y += vcorr * kc[c].y;
            sv.z += vcorr * kc[c].z;
            sv.w += vcorr * kc[c].w;
            *(float4*)(state + row + j) = sv;
            float4 qv = *(const float4*)(q + qk_base + j);
            partial += sv.x * qv.x;
            partial += sv.y * qv.y;
            partial += sv.z * qv.z;
            partial += sv.w * qv.w;
        }
    }

    // 4. Output from the updated state.
    float o = warp_reduce_sum(partial);
    if (lane == 0) out[v_base + vi] = o;
}

}
"#;

} // verus!
