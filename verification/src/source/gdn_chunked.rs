//! CUDA C++ source. The gated delta rule over a sequence: chunked prefill and scan.

use vstd::prelude::*;

verus! {

pub const GDN_CHUNKED_SRC: &'static str = r#"
extern "C" {

__device__ __forceinline__ float block_reduce_sum(float v, float* scratch) {
    for (int offset = 16; offset > 0; offset >>= 1) {
        v += __shfl_down_sync(0xffffffff, v, offset);
    }
    int lane = threadIdx.x & 31;
    int warp = threadIdx.x >> 5;
    if (lane == 0) scratch[warp] = v;
    __syncthreads();

    int n_warps = (blockDim.x + 31) >> 5;
    float total = 0.0f;
    if (threadIdx.x == 0) {
        for (int w = 0; w < n_warps; ++w) total += scratch[w];
        scratch[0] = total;
    }
    __syncthreads();
    return scratch[0];
}

// L2-normalize q and k for every (token, query/key head), folding the
// 1/sqrt(head_dim) output scale into q.
__global__ void gdn_chunk_normalize_qk(
    const float* __restrict__ q_in,
    const float* __restrict__ k_in,
    float* __restrict__ q_out,
    float* __restrict__ k_out,
    int head_dim,
    float eps,
    float scale
) {
    extern __shared__ float scratch[];
    long long base = (long long)blockIdx.x * head_dim;
    int j = threadIdx.x;

    float qv = q_in[base + j];
    float kv = k_in[base + j];

    float q_sq = block_reduce_sum(qv * qv, scratch);
    __syncthreads();
    float k_sq = block_reduce_sum(kv * kv, scratch);
    __syncthreads();

    q_out[base + j] = qv * (1.0f / fmaxf(sqrtf(q_sq), eps)) * scale;
    k_out[base + j] = kv * (1.0f / fmaxf(sqrtf(k_sq), eps));
}

// The whole sequence as a sequential scan, with the state in registers.
#define SCAN_WARPS 4
// Head dimensions one lane carries. `head_dim / 32`, bounded so the state is a
// register array indexed by constants after unrolling -- a runtime bound
// spills it to local memory and the whole design with it.
#define SCAN_MAXR 4

__global__ void gdn_scan_prefill(
    float* __restrict__ state,
    const float* __restrict__ q_norm,
    const float* __restrict__ k_norm,
    const float* __restrict__ v,
    const float* __restrict__ log_decay,
    const float* __restrict__ beta,
    float* __restrict__ out,
    int head_dim,
    int value_heads,
    int qk_heads,
    int seq_len
) {
    int h  = blockIdx.x;
    int vi = blockIdx.y * SCAN_WARPS + threadIdx.y;
    if (vi >= head_dim) return;
    int lane = threadIdx.x;
    int nr = head_dim >> 5;

    int hq = h % qk_heads;

    float sreg[SCAN_MAXR];
    long long sbase = ((long long)h * head_dim + vi) * head_dim;
    #pragma unroll
    for (int r = 0; r < SCAN_MAXR; ++r) {
        sreg[r] = (r < nr) ? state[sbase + r * 32 + lane] : 0.0f;
    }

    for (int t = 0; t < seq_len; ++t) {
        long long ht = (long long)t * value_heads + h;
        long long qk = ((long long)t * qk_heads + hq) * head_dim;

        float kj[SCAN_MAXR], qj[SCAN_MAXR];
        #pragma unroll
        for (int r = 0; r < SCAN_MAXR; ++r) {
            if (r < nr) {
                kj[r] = k_norm[qk + r * 32 + lane];
                qj[r] = q_norm[qk + r * 32 + lane];
            } else {
                kj[r] = 0.0f;
                qj[r] = 0.0f;
            }
        }

        float decay = expf(log_decay[ht]);

        float predicted = 0.0f;
        #pragma unroll
        for (int r = 0; r < SCAN_MAXR; ++r) {
            sreg[r] *= decay;
            predicted += sreg[r] * kj[r];
        }
        for (int off = 16; off > 0; off >>= 1) {
            predicted += __shfl_xor_sync(0xffffffff, predicted, off);
        }
        float vcorr = beta[ht] * (v[ht * head_dim + vi] - predicted);

        float o = 0.0f;
        #pragma unroll
        for (int r = 0; r < SCAN_MAXR; ++r) {
            sreg[r] += vcorr * kj[r];
            o += sreg[r] * qj[r];
        }
        for (int off = 16; off > 0; off >>= 1) {
            o += __shfl_xor_sync(0xffffffff, o, off);
        }
        if (lane == 0) out[ht * head_dim + vi] = o;
    }

    #pragma unroll
    for (int r = 0; r < SCAN_MAXR; ++r) {
        if (r < nr) state[sbase + r * 32 + lane] = sreg[r];
    }
}

// The two intra-chunk Gram matrices, per query/key head:
//
//   kk[hq][t][i] = k_i . k_t      (the delta rule's key interference)
//   kq[hq][t][i] = k_i . q_t      (the intra-chunk causal attention)
__global__ void gdn_chunk_gram(
    const float* __restrict__ q_norm,
    const float* __restrict__ k_norm,
    float* __restrict__ kk,
    float* __restrict__ kq,
    int head_dim,
    int qk_heads,
    int chunk_start,
    int c
) {
    // k_t and q_t, staged once so the C threads broadcast from shared rather
    // than each re-reading the same 512 bytes from global.
    extern __shared__ float staged[];
    float* sk = staged;
    float* sq = staged + head_dim;

    int t = blockIdx.x;
    int hq = blockIdx.y;
    long long base_t = ((long long)(chunk_start + t) * qk_heads + hq) * head_dim;
    for (int d = threadIdx.x; d < head_dim; d += blockDim.x) {
        sk[d] = k_norm[base_t + d];
        sq[d] = q_norm[base_t + d];
    }
    __syncthreads();

    int i = threadIdx.x;
    long long base_i = ((long long)(chunk_start + i) * qk_heads + hq) * head_dim;
    float dot_kk = 0.0f;
    float dot_kq = 0.0f;
    const float4* ki4 = (const float4*)(k_norm + base_i);
    int nd4 = head_dim >> 2;
    for (int d4 = 0; d4 < nd4; ++d4) {
        float4 kv = ki4[d4];
        int d = d4 << 2;
        dot_kk += kv.x * sk[d];
        dot_kq += kv.x * sq[d];
        dot_kk += kv.y * sk[d + 1];
        dot_kq += kv.y * sq[d + 1];
        dot_kk += kv.z * sk[d + 2];
        dot_kq += kv.z * sq[d + 2];
        dot_kk += kv.w * sk[d + 3];
        dot_kq += kv.w * sq[d + 3];
    }

    long long o = ((long long)hq * c + t) * c + i;
    kk[o] = dot_kk;
    kq[o] = dot_kq;
}

// The two products against the state carried into this chunk:
//
//   sik[h][t][vi]  = sum_j S_in[h][vi][j] k_t[j]     (what the state predicts)
//   oint[h][t][vi] = sum_j S_in[h][vi][j] q_t[j]     (the inter-chunk output)
#define INTER_TT 16

__global__ void gdn_chunk_inter(
    const float* __restrict__ state,
    const float* __restrict__ q_norm,
    const float* __restrict__ k_norm,
    float* __restrict__ sik,
    float* __restrict__ oint,
    int head_dim,
    int qk_heads,
    int chunk_start,
    int c
) {
    extern __shared__ float staged[];
    float* sk = staged;                             // [INTER_TT][head_dim]
    float* sq = staged + INTER_TT * head_dim;       // [INTER_TT][head_dim]

    int t0 = blockIdx.x * INTER_TT;
    int h = blockIdx.y;
    int vi = threadIdx.x;
    int hq = h % qk_heads;

    #pragma unroll
    for (int u = 0; u < INTER_TT; ++u) {
        int t = t0 + u;
        if (t < c) {
            long long base_t = ((long long)(chunk_start + t) * qk_heads + hq) * head_dim;
            sk[u * head_dim + vi] = k_norm[base_t + vi];
            sq[u * head_dim + vi] = q_norm[base_t + vi];
        } else {
            // Multiplied into accumulators that are never stored, so the
            // value only has to be finite.
            sk[u * head_dim + vi] = 0.0f;
            sq[u * head_dim + vi] = 0.0f;
        }
    }
    __syncthreads();

    const float* row = state + ((long long)h * head_dim + vi) * head_dim;
    float acc_k[INTER_TT];
    float acc_q[INTER_TT];
    #pragma unroll
    for (int u = 0; u < INTER_TT; ++u) { acc_k[u] = 0.0f; acc_q[u] = 0.0f; }

    const float4* row4 = (const float4*)row;
    int nj4 = head_dim >> 2;
    for (int j4 = 0; j4 < nj4; ++j4) {
        float4 sv = row4[j4];
        int j = j4 << 2;
        #pragma unroll
        for (int u = 0; u < INTER_TT; ++u) {
            float4 kv = *(const float4*)(sk + u * head_dim + j);
            float4 qv = *(const float4*)(sq + u * head_dim + j);
            acc_k[u] += sv.x * kv.x;
            acc_q[u] += sv.x * qv.x;
            acc_k[u] += sv.y * kv.y;
            acc_q[u] += sv.y * qv.y;
            acc_k[u] += sv.z * kv.z;
            acc_q[u] += sv.z * qv.z;
            acc_k[u] += sv.w * kv.w;
            acc_q[u] += sv.w * qv.w;
        }
    }

    #pragma unroll
    for (int u = 0; u < INTER_TT; ++u) {
        int t = t0 + u;
        if (t < c) {
            long long o = ((long long)h * c + t) * head_dim + vi;
            sik[o] = acc_k[u];
            oint[o] = acc_q[u];
        }
    }
}

// The chunk: solve for U', emit every token's output, publish U'.
//
// grid: (value_heads, bands of VB value indices). block: VB * SOLVE_TT threads.
// shared: U'[c][VB], then gcum[c], then one decay row of c per token lane.
#define VB 32

// Token positions the block's *output* section works on at once.
#define SOLVE_TT 8

__global__ void gdn_chunk_solve_and_apply(
    float* __restrict__ uprime,
    float* __restrict__ lambda_last,
    const float* __restrict__ v,
    const float* __restrict__ log_decay,
    const float* __restrict__ beta,
    const float* __restrict__ k_norm,
    const float* __restrict__ kk,
    const float* __restrict__ kq,
    const float* __restrict__ sik,
    const float* __restrict__ oint,
    float* __restrict__ out,
    int head_dim,
    int value_heads,
    int qk_heads,
    int chunk_start,
    int c
) {
    extern __shared__ float shared[];
    float* u     = shared;                              // [c][VB], holds U'
    float* gcum  = shared + (long long)c * VB;          // [c], log space
    float* decay = gcum + c;                            // [SOLVE_TT][c]

    int h = blockIdx.x;
    // `vl` is the value index within the band and `tsub` the output section's
    // token lane. Sections 1, 2 and 4a use `vl` alone and idle the rest.
    int vl = threadIdx.x & (VB - 1);
    int tsub = threadIdx.x / VB;
    int vi = blockIdx.y * VB + vl;
    int hq = h % qk_heads;

    if (threadIdx.x == 0) {
        float running = 0.0f;
        for (int t = 0; t < c; ++t) {
            running += log_decay[(long long)(chunk_start + t) * value_heads + h];
            gcum[t] = running;
        }
    }
    __syncthreads();

    // --- 1/2. Forward substitution for U', one row per iteration. ----------
    //
    // u'_t = W'_t - beta_t * sum_{i<t} (k_i . k_t) exp(gcum_t - gcum_i) u'_i,
    // W'_t = beta_t * (v_t - exp(gcum_t) * (S_in k_t)).
    //
    // Thread vi owns column vi of U' throughout, so the inner reduction is a
    // per-thread sequential loop over i with no cross-thread communication —
    // only the __syncthreads() that publishes row t before row t+1 reads it.
    // u[i * VB + vl] is bank-conflict free: consecutive vl land in
    // consecutive banks.
    for (int t = 0; t < c; ++t) {
        long long ht = (long long)(chunk_start + t) * value_heads + h;
        float beta_t = beta[ht];
        const float* kk_row = kk + ((long long)hq * c + t) * c;

        for (int i = threadIdx.x; i < t; i += blockDim.x) {
            decay[i] = beta_t * kk_row[i] * expf(gcum[t] - gcum[i]);
        }
        __syncthreads();

        if (tsub == 0) {
        float v_t = v[ht * head_dim + vi];

        float acc = beta_t * (v_t - expf(gcum[t]) * sik[((long long)h * c + t) * head_dim + vi]);

        for (int i = 0; i < t; ++i) {
            acc -= decay[i] * u[i * VB + vl];
        }

        u[t * VB + vl] = acc;
        }
        // Publishes row t, and holds every thread until the whole block is
        // done reading `decay` before the next iteration overwrites it.
        __syncthreads();
    }

    // --- 3. Per-token output, from the state *including* token t's update. --
    for (int t0 = 0; t0 < c; t0 += SOLVE_TT) {
        int t = t0 + tsub;
        // One `decay` row per token lane, so the SOLVE_TT tokens in flight do
        // not overwrite each other's.
        float* dec = decay + tsub * c;
        if (t < c) {
            const float* kq_row = kq + ((long long)hq * c + t) * c;
            for (int i = vl; i <= t; i += VB) {
                dec[i] = kq_row[i] * expf(gcum[t] - gcum[i]);
            }
        }
        __syncthreads();

        if (t < c) {
        float o_intra = 0.0f;
        for (int i = 0; i <= t; ++i) {
            o_intra += dec[i] * u[i * VB + vl];
        }
        float o_inter = expf(gcum[t]) * oint[((long long)h * c + t) * head_dim + vi];
        long long ht = (long long)(chunk_start + t) * value_heads + h;
        out[ht * head_dim + vi] = o_inter + o_intra;
        }
        __syncthreads();
    }

    // --- 4a. Publish U' with the chunk-end decay folded in. ---------------
    for (int i = threadIdx.x; i < c; i += blockDim.x) {
        decay[i] = expf(gcum[c - 1] - gcum[i]);
    }
    __syncthreads();

    // Every `i` is independent, so this walks the token lanes as well.
    for (int i = tsub; i < c; i += SOLVE_TT) {
        uprime[((long long)h * c + i) * head_dim + vi] = u[i * VB + vl] * decay[i];
    }
    if (threadIdx.x == 0 && blockIdx.y == 0) lambda_last[h] = expf(gcum[c - 1]);
}

#define STATE_VT 4
// State columns one thread owns, and value indices it owns. Both 4, so the
// two operands of the outer product are one `float4` each and the thread does
// sixteen multiply-adds with them.
#define STATE_JT 4
// Threads spanning the block's value band and its column band. The `j` lanes
// are the fast axis so that a warp's 32 `float4` column loads are 512
// contiguous bytes -- four full transactions -- while its `su` load is one
// address broadcast to all 32.
#define STATE_VLANES 8
#define STATE_JLANES 32
#define STATE_VB (STATE_VLANES * STATE_VT)
#define STATE_JB (STATE_JLANES * STATE_JT)

__global__ void gdn_chunk_state_update(
    float* __restrict__ state,
    const float* __restrict__ uprime,
    const float* __restrict__ k_norm,
    const float* __restrict__ lambda_last,
    int head_dim,
    int qk_heads,
    int chunk_start,
    int c
) {
    extern __shared__ float su[];                       // [c][STATE_VB]

    int h  = blockIdx.x;
    int v0 = blockIdx.y * STATE_VB;
    int j0 = blockIdx.z * STATE_JB;
    int hq = h % qk_heads;

    // `j` is the fast axis: consecutive threads take consecutive columns, so
    // a warp's column loads are contiguous and its `su` load is a broadcast.
    int jl = threadIdx.x & (STATE_JLANES - 1);
    int vl = threadIdx.x / STATE_JLANES;
    int vi = v0 + vl * STATE_VT;
    int j  = j0 + jl * STATE_JT;

    for (int idx = threadIdx.x; idx < c * STATE_VB; idx += blockDim.x) {
        int i = idx / STATE_VB;
        int lv = idx % STATE_VB;
        su[idx] = v0 + lv < head_dim
            ? uprime[((long long)h * c + i) * head_dim + v0 + lv]
            : 0.0f;
    }
    __syncthreads();

    // `head_dim` is a multiple of 32 and `vi` and `j` are multiples of 4, so
    // one bound checked here covers all four cells and both `float4` loads.
    int live = vi < head_dim && j < head_dim;

    float acc[STATE_VT][STATE_JT];
    #pragma unroll
    for (int a = 0; a < STATE_VT; ++a) {
        #pragma unroll
        for (int b = 0; b < STATE_JT; ++b) acc[a][b] = 0.0f;
    }

    if (live) {
        for (int i = 0; i < c; ++i) {
            float4 uu = *(const float4*)(su + i * STATE_VB + vl * STATE_VT);
            float4 kk = *(const float4*)(
                k_norm + ((long long)(chunk_start + i) * qk_heads + hq) * head_dim + j);
            const float* up = (const float*)&uu;
            const float* kp = (const float*)&kk;
            #pragma unroll
            for (int a = 0; a < STATE_VT; ++a) {
                #pragma unroll
                for (int b = 0; b < STATE_JT; ++b) acc[a][b] += up[a] * kp[b];
            }
        }

        float lam = lambda_last[h];
        #pragma unroll
        for (int a = 0; a < STATE_VT; ++a) {
            float* cell = state + ((long long)h * head_dim + vi + a) * head_dim + j;
            #pragma unroll
            for (int b = 0; b < STATE_JT; ++b) cell[b] = lam * cell[b] + acc[a][b];
        }
    }
}

}
"#;

} // verus!
