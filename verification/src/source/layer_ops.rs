//! CUDA C++ source. Norms, rotary embedding, activations and the depthwise convolution.

use vstd::prelude::*;

verus! {

pub const LAYER_OPS_SRC: &'static str = r#"
#define MAX_CONV_KERNEL 8

extern "C" {

__device__ __forceinline__ float block_reduce_sum(float v, float* scratch) {
    for (int offset = 16; offset > 0; offset >>= 1) {
        v += __shfl_down_sync(0xffffffff, v, offset);
    }
    int lane = threadIdx.x & 31;
    int warp = threadIdx.x >> 5;
    if (lane == 0) scratch[warp] = v;
    __syncthreads();

    int n_warps = (blockDim.x + 31) >> 5;
    float total = 0.0f;
    if (threadIdx.x == 0) {
        for (int w = 0; w < n_warps; ++w) total += scratch[w];
        scratch[0] = total;
    }
    __syncthreads();
    return scratch[0];
}

// y = x / sqrt(mean(x^2) + eps) * weight, one row at a time.
//
// grid: one block per row. block: a whole number of warps, at most 1024;
// rows wider than the block are covered by a strided loop, which is what lets
// one kernel serve hidden 2048 and head_dim 128 without recompiling.
__global__ void rms_norm_rows(
    const float* __restrict__ x,
    const float* __restrict__ weight,
    float* __restrict__ out,
    int width,
    float eps
) {
    extern __shared__ float scratch[];
    long long base = (long long)blockIdx.x * width;

    float partial = 0.0f;
    for (int j = threadIdx.x; j < width; j += blockDim.x) {
        float v = x[base + j];
        partial += v * v;
    }
    float sum_sq = block_reduce_sum(partial, scratch);

    float inv_rms = 1.0f / sqrtf(sum_sq / (float)width + eps);

    for (int j = threadIdx.x; j < width; j += blockDim.x) {
        out[base + j] = x[base + j] * inv_rms * weight[j];
    }
}

// Partial rotary embedding, NEOX (split-half) pairing: dimension i pairs with
// i + rope_dim/2, and dimensions [rope_dim, head_dim) pass through untouched.
//
// grid: (heads, tokens). block: head_dim threads, one per head element.
__global__ void rope_partial(
    const float* __restrict__ x,
    const unsigned int* __restrict__ positions,
    float* __restrict__ out,
    int heads,
    int head_dim,
    int rope_dim,
    float theta_base
) {
    int h = blockIdx.x;
    int t = blockIdx.y;
    int j = threadIdx.x;
    long long base = ((long long)t * heads + h) * head_dim;

    if (j >= rope_dim) {
        out[base + j] = x[base + j];
        return;
    }

    int half = rope_dim >> 1;
    int i = (j < half) ? j : (j - half);

    double freq = pow((double)theta_base, -2.0 * (double)i / (double)rope_dim);
    double angle = (double)positions[t] * freq;
    float sin_a = (float)sin(angle);
    float cos_a = (float)cos(angle);

    float x0 = x[base + i];
    float x1 = x[base + i + half];
    out[base + j] = (j < half) ? (x0 * cos_a - x1 * sin_a)
                               : (x0 * sin_a + x1 * cos_a);
}

// RMSNorm of a row, then out = silu(gate) * normed.
__global__ void rms_norm_swiglu_rows(
    const float* __restrict__ x,
    const float* __restrict__ weight,
    const float* __restrict__ gate,
    float* __restrict__ normed,
    float* __restrict__ out,
    int width,
    float eps
) {
    extern __shared__ float scratch[];
    long long base = (long long)blockIdx.x * width;

    float partial = 0.0f;
    for (int j = threadIdx.x; j < width; j += blockDim.x) {
        float v = x[base + j];
        partial += v * v;
    }
    float sum_sq = block_reduce_sum(partial, scratch);

    float inv_rms = 1.0f / sqrtf(sum_sq / (float)width + eps);

    for (int j = threadIdx.x; j < width; j += blockDim.x) {
        float nv = x[base + j] * inv_rms * weight[j];
        normed[base + j] = nv;
        float g = gate[base + j];
        out[base + j] = (g / (1.0f + expf(-g))) * nv;
    }
}

// out = silu(gate) * up, elementwise.
__global__ void swiglu_mul(
    const float* __restrict__ gate,
    const float* __restrict__ up,
    float* __restrict__ out,
    long long n
) {
    long long stride = (long long)blockDim.x * gridDim.x;
    for (long long i = (long long)blockIdx.x * blockDim.x + threadIdx.x; i < n; i += stride) {
        float g = gate[i];
        out[i] = (g / (1.0f + expf(-g))) * up[i];
    }
}

// out = sigmoid(gate) * x, and the sigmoid itself on request.
__global__ void sigmoid_gate_mul(
    const float* __restrict__ x,
    const float* __restrict__ gate,
    float* __restrict__ sig,
    float* __restrict__ out,
    long long n,
    int width,
    int broadcast
) {
    long long stride = (long long)blockDim.x * gridDim.x;
    for (long long i = (long long)blockIdx.x * blockDim.x + threadIdx.x; i < n; i += stride) {
        long long g = i;
        bool write_sig = true;
        if (broadcast) {
            long long row = i / (long long)width;
            write_sig = (i - row * (long long)width) == 0;
            g = row;
        }
        float s = 1.0f / (1.0f + expf(-gate[g]));
        if (write_sig) sig[g] = s;
        out[i] = x[i] * s;
    }
}

// out = a + b, elementwise. The residual add.
__global__ void tensor_add(
    const float* __restrict__ a,
    const float* __restrict__ b,
    float* __restrict__ out,
    long long n
) {
    long long stride = (long long)blockDim.x * gridDim.x;
    for (long long i = (long long)blockIdx.x * blockDim.x + threadIdx.x; i < n; i += stride) {
        out[i] = a[i] + b[i];
    }
}

// out = log(1 + exp(x)), linear above the threshold.
__global__ void softplus_elementwise(
    const float* __restrict__ x,
    float* __restrict__ out,
    long long n
) {
    long long stride = (long long)blockDim.x * gridDim.x;
    for (long long i = (long long)blockIdx.x * blockDim.x + threadIdx.x; i < n; i += stride) {
        float v = x[i];
        out[i] = (v > 20.0f) ? v : logf(1.0f + expf(v));
    }
}

// Causal depthwise convolution over the fused GDN q/k/v stream.
//
// out[t][ch] = sum_{i<K} w[ch][i] * xw(t - (K-1) + i, ch)
__global__ void conv1d_causal_depthwise(
    const float* __restrict__ x,
    const float* __restrict__ weight,
    const float* __restrict__ state,
    float* __restrict__ out,
    int channels,
    int conv_kernel
) {
    int ch = blockIdx.x * blockDim.x + threadIdx.x;
    if (ch >= channels) return;
    int t = blockIdx.y;
    int carry = conv_kernel - 1;

    float acc = 0.0f;
    for (int i = 0; i < conv_kernel; ++i) {
        int u = t - carry + i;
        float xv = (u >= 0)
            ? x[(long long)u * channels + ch]
            : state[(long long)ch * carry + (u + carry)];
        acc = __fadd_rn(acc, __fmul_rn(xv, weight[(long long)ch * conv_kernel + i]));
    }
    out[(long long)t * channels + ch] = acc;
}

// The whole convolution for a one-token step: output and cache advance in
// one launch.
__global__ void conv1d_step(
    const float* __restrict__ x,
    const float* __restrict__ weight,
    float* __restrict__ state,
    float* __restrict__ out,
    int channels,
    int conv_kernel
) {
    int ch = blockIdx.x * blockDim.x + threadIdx.x;
    if (ch >= channels) return;
    int carry = conv_kernel - 1;

    float staged[MAX_CONV_KERNEL];
    for (int j = 0; j < carry; ++j) {
        staged[j] = state[(long long)ch * carry + j];
    }
    float xv0 = x[ch];

    float acc = 0.0f;
    for (int i = 0; i < conv_kernel; ++i) {
        float xv = (i < carry) ? staged[i] : xv0;
        acc = __fadd_rn(acc, __fmul_rn(xv, weight[(long long)ch * conv_kernel + i]));
    }
    out[ch] = acc;

    for (int j = 0; j + 1 < carry; ++j) {
        state[(long long)ch * carry + j] = staged[j + 1];
    }
    if (carry > 0) {
        state[(long long)ch * carry + carry - 1] = xv0;
    }
}

// Advance the convolution cache to the last conv_kernel-1 inputs.
__global__ void conv1d_update_state(
    const float* __restrict__ x,
    float* __restrict__ state,
    int seq_len,
    int channels,
    int conv_kernel
) {
    int carry = conv_kernel - 1;
    long long stride = (long long)blockDim.x * gridDim.x;
    for (long long ch = (long long)blockIdx.x * blockDim.x + threadIdx.x;
         ch < channels;
         ch += stride) {
        float staged[MAX_CONV_KERNEL];
        for (int j = 0; j < carry; ++j) {
            int u = seq_len - carry + j;
            staged[j] = (u >= 0)
                ? x[(long long)u * channels + ch]
                : state[ch * carry + (u + carry)];
        }
        for (int j = 0; j < carry; ++j) {
            state[ch * carry + j] = staged[j];
        }
    }
}

}
"#;

} // verus!
