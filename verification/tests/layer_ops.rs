//! Norms, rotary embedding, activations, gates and the short convolution.

use xabe_cuda::kernels::layer_ops::{
    block_for_width, check_len, elementwise_cfg, GateShape, LayerOpsArg, LayerOpsError,
    LayerOpsKernels, MAX_BLOCK, MAX_CONV_KERNEL,
};
use xabe_cuda::kernels::ptx::{nvrtc_invocations, record, PtxCache};
use xabe_cuda::source::layer_ops::LAYER_OPS_SRC;

/// Where a snippet starts in the kernel source, or a failure naming it.
fn at(needle: &str) -> usize {
    LAYER_OPS_SRC
        .find(needle)
        .unwrap_or_else(|| panic!("kernel source no longer contains `{needle}`"))
}

#[test]
fn the_rotary_tail_is_copied_not_computed() {
    assert!(LAYER_OPS_SRC.contains(
        "    if (j >= rope_dim) {\n        out[base + j] = x[base + j];\n        return;\n    }"
    ));
}

#[test]
fn the_rotary_pairing_is_split_half_neox_not_interleaved() {
    assert!(LAYER_OPS_SRC.contains("int half = rope_dim >> 1;"));
    assert!(LAYER_OPS_SRC.contains("float x1 = x[base + i + half];"));
}

#[test]
fn the_rotation_signs_are_the_forward_rotation_not_its_transpose() {
    assert!(LAYER_OPS_SRC.contains("(x0 * cos_a - x1 * sin_a)"));
    assert!(LAYER_OPS_SRC.contains("(x0 * sin_a + x1 * cos_a)"));
}

#[test]
fn the_convolution_denies_the_compiler_its_fma_contraction() {
    assert!(LAYER_OPS_SRC.contains("acc = __fadd_rn(acc, __fmul_rn(xv,"));
    let conv_start = at("__global__ void conv1d_causal_depthwise(");
    let conv_end = at("__global__ void conv1d_update_state(");
    let body = &LAYER_OPS_SRC[conv_start..conv_end];
    assert!(
        !body.contains("acc +="),
        "the accumulation reverted to a contractible form",
    );
}

#[test]
fn the_convolution_taps_run_forward_so_the_last_tap_is_the_current_token() {
    assert!(LAYER_OPS_SRC.contains("int u = t - carry + i;"));
    assert!(LAYER_OPS_SRC.contains("for (int i = 0; i < conv_kernel; ++i) {"));
}

#[test]
fn the_convolution_reads_only_the_current_token_and_its_predecessors() {
    let conv_kernel = 4i32;
    let carry = conv_kernel - 1;
    for t in 0..8i32 {
        let positions: Vec<i32> = (0..conv_kernel).map(|i| t - carry + i).collect();
        assert_eq!(*positions.iter().max().unwrap(), t);
        assert_eq!(*positions.iter().min().unwrap(), t - carry);
    }
}

#[test]
fn the_state_update_stages_before_it_writes() {
    let read = at("staged[j] = (u >= 0)");
    let write = at("state[ch * carry + j] = staged[j];");
    assert!(read < write, "the cache is written before it is fully read");
}

#[test]
fn the_state_array_bound_covers_the_widest_supported_kernel() {
    assert!(LAYER_OPS_SRC.contains("#define MAX_CONV_KERNEL 8"));
    assert_eq!(MAX_CONV_KERNEL, 8);
    assert!(4 <= MAX_CONV_KERNEL);
}

#[test]
fn rms_norm_divides_by_sqrt_rather_than_calling_rsqrtf() {
    assert!(
        LAYER_OPS_SRC.contains("float inv_rms = 1.0f / sqrtf(sum_sq / (float)width + eps);")
    );
    assert!(LAYER_OPS_SRC.contains("out[base + j] = x[base + j] * inv_rms * weight[j];"));
    let body = &LAYER_OPS_SRC[at("__global__ void rms_norm_rows(")..at("// Partial rotary")];
    assert!(!body.contains("rsqrtf"), "rms_norm reverted to rsqrtf");
}

#[test]
fn swiglu_uses_the_accurate_exponential() {
    assert!(LAYER_OPS_SRC.contains("out[i] = (g / (1.0f + expf(-g))) * up[i];"));
    let body = &LAYER_OPS_SRC[at("__global__ void swiglu_mul(")..at("// out = sigmoid(gate)")];
    assert!(!body.contains("__expf"), "swiglu reverted to __expf");
}

#[test]
fn the_sigmoid_is_ggmls_reciprocal_form_and_not_an_algebraic_equivalent() {
    assert!(LAYER_OPS_SRC.contains("float s = 1.0f / (1.0f + expf(-gate[g]));"));
    let body = &LAYER_OPS_SRC
        [at("__global__ void sigmoid_gate_mul(")..at("// out = a + b, elementwise")];
    assert!(
        !body.contains("tanh"),
        "the sigmoid was rewritten as a tanh"
    );
    assert!(!body.contains("__expf"), "sigmoid_gate reverted to __expf");
}

#[test]
fn the_sigmoid_gate_indexes_the_gate_by_row_only_when_it_broadcasts() {
    assert!(LAYER_OPS_SRC.contains("long long row = i / (long long)width;"));
    assert!(LAYER_OPS_SRC.contains("            g = row;"));
    assert!(LAYER_OPS_SRC.contains("        long long g = i;"));
}

#[test]
fn the_broadcast_sigmoid_is_written_once_per_row_not_once_per_element() {
    assert!(
        LAYER_OPS_SRC.contains("write_sig = (i - row * (long long)width) == 0;"),
        "the broadcast sigmoid lost its single-writer guard",
    );
    assert!(LAYER_OPS_SRC.contains("if (write_sig) sig[g] = s;"));
}

#[test]
fn the_residual_add_is_a_single_rounding() {
    assert!(LAYER_OPS_SRC.contains("        out[i] = a[i] + b[i];"));
    let body =
        &LAYER_OPS_SRC[at("__global__ void tensor_add(")..at("// out = log(1 + exp(x))")];
    assert!(!body.contains("fma"), "the residual add grew an FMA");
    let store = body
        .lines()
        .find(|l| l.contains("out[i]"))
        .expect("the residual add still stores through out[i]");
    assert_eq!(
        store.trim(),
        "out[i] = a[i] + b[i];",
        "the residual add is no longer a bare sum",
    );
}

#[test]
fn the_softplus_keeps_ggmls_large_argument_passthrough() {
    assert!(LAYER_OPS_SRC.contains("out[i] = (v > 20.0f) ? v : logf(1.0f + expf(v));"));
    assert!(100.0f32.exp().is_infinite());
    assert!(!(1.0f32 + 100.0f32.exp()).ln().is_finite());
    assert!((1.0f32 + 20.0f32.exp()).ln() - 20.0f32 < 1e-6);
}

#[test]
fn the_gate_length_a_shape_demands_is_the_one_the_model_actually_has() {
    const TOKENS: usize = 64;
    assert_eq!(
        GateShape::Elementwise.gate_len(TOKENS, 4096),
        TOKENS * 4096,
        "the attention output gate is elementwise over the q projection",
    );
    assert_eq!(
        GateShape::PerRow.gate_len(TOKENS, 2048),
        TOKENS,
        "the shared expert's gate is one scalar per token",
    );
    assert_eq!(GateShape::Elementwise.gate_len(0, 4096), 0);
    assert_eq!(GateShape::PerRow.gate_len(0, 2048), 0);
}

#[test]
fn the_elementwise_grid_is_capped_and_does_not_track_n() {
    for n in [1usize, 255, 256, 1 << 20, 1 << 28] {
        let cfg = elementwise_cfg(n);
        assert_eq!(cfg.block_dim, (256, 1, 1), "at n={n}");
        assert!((1..=1024).contains(&cfg.grid_dim.0), "at n={n}");
        assert_eq!(cfg.shared_mem_bytes, 0);
    }
    assert_eq!(elementwise_cfg(1).grid_dim.0, 1);
    assert_eq!(elementwise_cfg(1 << 28).grid_dim.0, 1024);
}

#[test]
fn the_block_width_is_always_a_whole_number_of_warps() {
    for width in [1usize, 31, 32, 33, 128, 256, 2048, 4096, 8192] {
        let block = block_for_width(width);
        assert_eq!(block % 32, 0, "width {width} gave block {block}");
        assert!((32..=MAX_BLOCK).contains(&block), "width {width}");
    }
    assert_eq!(block_for_width(2048), 1024);
    assert_eq!(block_for_width(256), 256);
    assert_eq!(block_for_width(128), 128);
}

#[test]
fn layer_ops_geometry_is_validated_not_assumed() {
    assert!(
        LayerOpsError::UnsupportedWidth { width: 0 }
            .message()
            .contains('0')
    );
    assert!(
        LayerOpsError::UnsupportedRotaryShape {
            head_dim: 2048,
            rope_dim: 64,
        }
        .message()
        .contains("2048")
    );
    assert!(
        LayerOpsError::UnsupportedConvKernel { conv_kernel: 9 }
            .message()
            .contains('9')
    );
    assert!(
        LayerOpsError::ShapeMismatch {
            what: "conv1d state",
            expected: 24576,
            got: 8192,
        }
        .message()
        .contains("24576")
    );
}

#[test]
fn a_length_that_matches_the_geometry_is_accepted_and_one_that_does_not_is_not() {
    assert!(check_len("x", 4, 4).is_ok());
    assert!(check_len("x", 4, 5).is_err());
}

fn kernels() -> LayerOpsKernels {
    LayerOpsKernels::from_ptx("ptx".to_string())
}

#[test]
fn layer_ops_are_compiled_once_and_served_from_the_cache() {
    let mut cache = PtxCache::new();
    record(&mut cache, LAYER_OPS_SRC, "layer_ops", Ok(".entry".to_string())).unwrap();
    for _ in 0..4 {
        assert_eq!(LayerOpsKernels::new(&mut cache).unwrap().ptx(), ".entry");
    }
    assert_eq!(nvrtc_invocations(&cache), 1);
    for name in LayerOpsKernels::entry_points() {
        assert!(LAYER_OPS_SRC.contains(&format!("void {name}(")));
    }
}

#[test]
fn layer_ops_messages_are_exact() {
    assert_eq!(
        LayerOpsError::UnsupportedWidth { width: 0 }.message(),
        "row width 0 must be non-zero",
    );
    assert_eq!(
        LayerOpsError::UnsupportedRotaryShape { head_dim: 64, rope_dim: 65 }.message(),
        "rope_dim 65 must be even and at most head_dim 64, which must itself be non-zero and at \
         most 1024 (it is the block width)",
    );
    assert_eq!(
        LayerOpsError::UnsupportedConvKernel { conv_kernel: 9 }.message(),
        "conv_kernel 9 must be in 1..=8",
    );
    assert_eq!(
        LayerOpsError::ShapeMismatch { what: "add b", expected: 4, got: 5 }.message(),
        "add b must hold 4 floats, holds 5",
    );
    assert_eq!(LayerOpsError::Compile("x".to_string()).message(), "kernel compilation failed: x");
}

#[test]
fn rms_norm_launches_one_block_per_row() {
    let k = kernels();
    let l = k.rms_norm(3 * 2048, 2048, 3 * 2048, 3, 2048).unwrap().unwrap();
    assert_eq!(l.kernel, "rms_norm_rows");
    assert_eq!(l.config.grid_dim, (3, 1, 1));
    assert_eq!(l.config.block_dim, (1024, 1, 1));
    assert_eq!(l.config.shared_mem_bytes, 128);
    assert_eq!(
        l.args,
        [
            LayerOpsArg::X,
            LayerOpsArg::Weight,
            LayerOpsArg::Out,
            LayerOpsArg::Int(2048),
            LayerOpsArg::Eps,
        ],
    );
    assert!(k.rms_norm(0, 128, 0, 0, 128).unwrap().is_none());
    assert!(matches!(
        k.rms_norm(0, 0, 0, 3, 0),
        Err(LayerOpsError::UnsupportedWidth { width: 0 })
    ));
    for (x, w, o, what) in [
        (383, 128, 384, "rms_norm x"),
        (384, 127, 384, "rms_norm weight"),
        (384, 128, 385, "rms_norm out"),
    ] {
        assert!(matches!(
            k.rms_norm(x, w, o, 3, 128),
            Err(LayerOpsError::ShapeMismatch { what: named, .. }) if named == what
        ));
    }
}

#[test]
fn the_fused_norm_checks_all_five_buffers_in_order() {
    let k = kernels();
    let l = k.rms_norm_swiglu(256, 128, 256, 256, 256, 2, 128).unwrap().unwrap();
    assert_eq!(l.kernel, "rms_norm_swiglu_rows");
    assert_eq!(l.config.block_dim, (128, 1, 1));
    assert_eq!(l.config.shared_mem_bytes, 16);
    assert_eq!(l.args[3], LayerOpsArg::Normed);
    let names =
        ["rms_norm x", "rms_norm weight", "swiglu gate", "rms_norm out", "swiglu out"];
    for (i, name) in names.iter().enumerate() {
        let mut n = [256, 128, 256, 256, 256];
        n[i] += 1;
        assert!(matches!(
            k.rms_norm_swiglu(n[0], n[1], n[2], n[3], n[4], 2, 128),
            Err(LayerOpsError::ShapeMismatch { what, .. }) if what == *name
        ));
    }
    assert!(k.rms_norm_swiglu(0, 128, 0, 0, 0, 0, 128).unwrap().is_none());
    assert!(k.rms_norm_swiglu(0, 0, 0, 0, 0, 1, 0).is_err());
}

#[test]
fn rope_launches_over_heads_and_tokens() {
    let k = kernels();
    let n = 5 * 16 * 256;
    let l = k.rope(n, 5, n, 5, 16, 256, 64).unwrap().unwrap();
    assert_eq!(l.kernel, "rope_partial");
    assert_eq!(l.config.grid_dim, (16, 5, 1));
    assert_eq!(l.config.block_dim, (256, 1, 1));
    assert_eq!(l.args[3..6], [16, 256, 64].map(LayerOpsArg::Int));
    for (head_dim, rope_dim) in [(0, 0), (1025, 64), (256, 63), (256, 258)] {
        assert!(matches!(
            k.rope(n, 5, n, 5, 16, head_dim, rope_dim),
            Err(LayerOpsError::UnsupportedRotaryShape { .. })
        ));
    }
    assert!(k.rope(n - 1, 5, n, 5, 16, 256, 64).is_err());
    assert!(k.rope(n, 5, n - 1, 5, 16, 256, 64).is_err());
    assert!(k.rope(n, 4, n, 5, 16, 256, 64).is_err());
    assert!(k.rope(0, 0, 0, 0, 16, 256, 64).unwrap().is_none());
    assert!(k.rope(0, 5, 0, 5, 0, 256, 64).unwrap().is_none());
}

#[test]
fn rotation_pairs_are_mutual_and_stay_below_the_tail() {
    let rope_dim = 64;
    let partner = |j: usize| if j < rope_dim / 2 { j + rope_dim / 2 } else { j - rope_dim / 2 };
    for j in 0..rope_dim {
        assert!(partner(j) < rope_dim && partner(j) != j);
        assert_eq!(partner(partner(j)), j);
    }
}

#[test]
fn elementwise_launches_check_every_buffer() {
    let k = kernels();
    let l = k.swiglu(300, 300, 300, 300).unwrap().unwrap();
    assert_eq!((l.kernel, l.config.grid_dim), ("swiglu_mul", (2, 1, 1)));
    assert_eq!(l.args[3], LayerOpsArg::Long(300));
    let l = k.add(300, 300, 300, 300).unwrap().unwrap();
    assert_eq!(l.args[..3], [LayerOpsArg::A, LayerOpsArg::B, LayerOpsArg::Out]);
    assert_eq!(l.kernel, "tensor_add");
    let l = k.softplus(300, 300, 300).unwrap().unwrap();
    assert_eq!(l.kernel, "softplus_elementwise");
    assert!(k.swiglu(0, 0, 0, 0).unwrap().is_none());
    assert!(k.add(0, 0, 0, 0).unwrap().is_none());
    assert!(k.softplus(0, 0, 0).unwrap().is_none());
    for e in [
        k.swiglu(299, 300, 300, 300),
        k.swiglu(300, 299, 300, 300),
        k.swiglu(300, 300, 299, 300),
        k.add(299, 300, 300, 300),
        k.add(300, 299, 300, 300),
        k.add(300, 300, 299, 300),
        k.softplus(299, 300, 300),
        k.softplus(300, 299, 300),
    ] {
        assert!(matches!(
            e,
            Err(LayerOpsError::ShapeMismatch { expected: 300, got: 299, .. })
        ));
    }
}

#[test]
fn a_grid_stride_launch_visits_every_element_once() {
    for n in [1usize, 257, 300_000] {
        let cfg = elementwise_cfg(n);
        let threads = (cfg.grid_dim.0 * cfg.block_dim.0) as usize;
        let mut seen = vec![0u8; n];
        for t in 0..threads {
            for i in (t..n).step_by(threads) {
                seen[i] += 1;
            }
        }
        assert!(seen.iter().all(|&c| c == 1));
    }
    assert_eq!(elementwise_cfg(1 << 18), elementwise_cfg(1 << 30));
}

#[test]
fn the_sigmoid_gate_takes_its_shape_as_an_argument() {
    let k = kernels();
    let l = k.sigmoid_gate(12, 12, 12, 12, 3, 4, GateShape::Elementwise).unwrap().unwrap();
    assert_eq!(l.kernel, "sigmoid_gate_mul");
    assert_eq!(l.args[4..], [LayerOpsArg::Long(12), LayerOpsArg::Int(4), LayerOpsArg::Int(0)]);
    let l = k.sigmoid_gate(12, 3, 3, 12, 3, 4, GateShape::PerRow).unwrap().unwrap();
    assert_eq!(l.args[6], LayerOpsArg::Int(1));
    assert!(k.sigmoid_gate(12, 3, 3, 12, 3, 4, GateShape::Elementwise).is_err());
    assert!(k.sigmoid_gate(12, 12, 12, 12, 3, 4, GateShape::PerRow).is_err());
    assert!(k.sigmoid_gate(11, 12, 12, 12, 3, 4, GateShape::Elementwise).is_err());
    assert!(k.sigmoid_gate(12, 12, 11, 12, 3, 4, GateShape::Elementwise).is_err());
    assert!(k.sigmoid_gate(12, 12, 12, 11, 3, 4, GateShape::Elementwise).is_err());
    assert!(k.sigmoid_gate(0, 0, 0, 0, 3, 0, GateShape::PerRow).is_err());
    assert!(k.sigmoid_gate(0, 0, 0, 0, 0, 4, GateShape::PerRow).unwrap().is_none());
}

#[test]
fn every_broadcast_sigmoid_has_one_writer() {
    let (rows, width) = (3, 4);
    let mut written = vec![0; GateShape::PerRow.gate_len(rows, width)];
    for i in 0..rows * width {
        let row = i / width;
        if i - row * width == 0 {
            written[row] += 1;
        }
    }
    assert_eq!(written, [1, 1, 1]);
}

#[test]
fn a_convolution_takes_one_launch_for_a_token_and_two_for_a_sequence() {
    let k = kernels();
    let (channels, width) = (8192, 4);
    assert!(k.conv1d(0, channels * 4, channels * 3, 0, 0, channels, width).unwrap().is_empty());
    let one = k.conv1d(channels, channels * 4, channels * 3, channels, 1, channels, width).unwrap();
    assert_eq!(one.len(), 1);
    assert_eq!(one[0].kernel, "conv1d_step");
    assert_eq!(one[0].config.grid_dim, (32, 1, 1));
    let n = 5 * channels;
    let many = k.conv1d(n, channels * 4, channels * 3, n, 5, channels, width).unwrap();
    assert_eq!(many.len(), 2);
    assert_eq!(many[0].kernel, "conv1d_causal_depthwise");
    assert_eq!(many[0].config.grid_dim, (32, 5, 1));
    assert_eq!(many[1].kernel, "conv1d_update_state");
    assert_eq!(many[1].config.grid_dim, (32, 1, 1));
    assert_eq!(many[1].args[2..], [5, 8192, 4].map(LayerOpsArg::Int));
    let wide = 1 << 20;
    let many = k.conv1d(2 * wide, wide, 0, 2 * wide, 2, wide, 1).unwrap();
    assert_eq!(many[0].config.grid_dim, (4096, 2, 1));
    assert_eq!(many[1].config.grid_dim, (1024, 1, 1));
}

#[test]
fn a_convolution_refuses_what_it_cannot_service() {
    let k = kernels();
    for conv_kernel in [0, 9] {
        assert!(matches!(
            k.conv1d(8, 8, 8, 8, 1, 8, conv_kernel),
            Err(LayerOpsError::UnsupportedConvKernel { conv_kernel: c }) if c == conv_kernel
        ));
    }
    assert!(matches!(
        k.conv1d(0, 0, 0, 0, 1, 0, 4),
        Err(LayerOpsError::UnsupportedWidth { width: 0 })
    ));
    let names = ["conv1d x", "conv1d weight", "conv1d state", "conv1d out"];
    for (i, name) in names.iter().enumerate() {
        let mut n = [16, 32, 24, 16];
        n[i] -= 1;
        assert!(matches!(
            k.conv1d(n[0], n[1], n[2], n[3], 2, 8, 4),
            Err(LayerOpsError::ShapeMismatch { what, .. }) if what == *name
        ));
    }
}

/// The windows of one channel and the cache it leaves, as the kernels index
/// them.
fn convolve(cache: &[i32], inputs: &[i32]) -> (Vec<Vec<i32>>, Vec<i32>) {
    let carry = cache.len() as i32;
    let at = |u: i32| if u >= 0 { inputs[u as usize] } else { cache[(u + carry) as usize] };
    let windows = (0..inputs.len() as i32)
        .map(|t| (0..=carry).map(|i| at(t - carry + i)).collect())
        .collect();
    let next = (0..carry).map(|j| at(inputs.len() as i32 - carry + j)).collect();
    (windows, next)
}

#[test]
fn a_convolution_is_the_same_in_pieces_and_reads_nothing_later() {
    let (cache, inputs) = ([-3, -2, -1], [0, 1, 2, 3, 4]);
    let (whole, end) = convolve(&cache, &inputs);
    assert_eq!(whole[0], [-3, -2, -1, 0]);
    assert_eq!(whole[4], [1, 2, 3, 4]);
    assert_eq!(end, [2, 3, 4]);
    for cut in 0..=inputs.len() {
        let (mut pieces, middle) = convolve(&cache, &inputs[..cut]);
        let (rest, last) = convolve(&middle, &inputs[cut..]);
        pieces.extend(rest);
        assert_eq!(pieces, whole);
        assert_eq!(last, end);
    }
    let (changed, _) = convolve(&cache, &[0, 1, 2, 9, 9]);
    assert_eq!(changed[..3], whole[..3]);
}

#[test]
fn a_single_token_shifts_the_cache() {
    let (windows, next) = convolve(&[5, 6, 7], &[8]);
    assert_eq!(windows, [vec![5, 6, 7, 8]]);
    assert_eq!(next, [6, 7, 8]);
    let (windows, next) = convolve(&[], &[8]);
    assert_eq!((windows, next), (vec![vec![8]], vec![]));
}
