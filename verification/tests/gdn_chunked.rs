//! The chunked and scanned gated delta rule.

use xabe_cuda::kernels::gdn_chunked::{
    shared_bytes_for_solve, GdnChunkedArg, GdnChunkedError, GdnChunkedKernels, INTER_TT,
    MAX_SHARED_BYTES, SOLVE_TT, SOLVE_VB, STATE_JB, STATE_VB,
};
use xabe_cuda::kernels::ptx::{nvrtc_invocations, record, PtxCache};
use xabe_cuda::source::gdn_chunked::GDN_CHUNKED_SRC;

/// The kernel source with `//` comments stripped.
fn code_only(src: &str) -> String {
    src.lines()
        .map(|l| match l.find("//") {
            Some(i) => &l[..i],
            None => l,
        })
        .collect::<Vec<_>>()
        .join("\n")
}

/// Where a snippet starts in the kernel source, or a failure naming it.
fn at(needle: &str) -> usize {
    GDN_CHUNKED_SRC
        .find(needle)
        .unwrap_or_else(|| panic!("kernel source no longer contains `{needle}`"))
}

#[test]
fn the_substitution_excludes_the_diagonal_and_the_output_includes_it() {
    assert!(GDN_CHUNKED_SRC.contains(
        "for (int i = 0; i < t; ++i) {\n            acc -= decay[i] * u[i * VB + vl];"
    ));
    assert!(
        GDN_CHUNKED_SRC.contains("for (int i = threadIdx.x; i < t; i += blockDim.x) {"),
        "the substitution's coefficient row is no longer filled exclusively",
    );
    assert!(
        GDN_CHUNKED_SRC.contains("for (int i = vl; i <= t; i += VB) {"),
        "the output's coefficient row is no longer filled inclusively",
    );
    assert!(GDN_CHUNKED_SRC.contains(
        "for (int i = 0; i <= t; ++i) {\n            o_intra += dec[i] * u[i * VB + vl];"
    ));
}

#[test]
fn the_state_is_brought_forward_to_the_value_rather_than_the_value_back_to_the_state() {
    let rescale = at("float acc = beta_t * (v_t - expf(gcum[t]) * sik[");
    let subtract = at("acc -= decay[i] * u[i * VB + vl];");
    assert!(
        rescale < subtract,
        "the interference sum is subtracted before the carried-in state is decayed",
    );
}

#[test]
fn no_cumulative_decay_is_ever_divided_by() {
    let code = code_only(GDN_CHUNKED_SRC);
    let solve = code
        .find("__global__ void gdn_chunk_solve_and_apply(")
        .expect("the fused solve kernel is still there");
    let body = &code[solve..];
    for forbidden in ["/ lambda", "v_t /", "1.0f / expf", "lambda[t] = expf"] {
        assert!(
            !body.contains(forbidden),
            "the solve kernel divides by a cumulative decay again: `{forbidden}`",
        );
    }
    assert!(GDN_CHUNKED_SRC.contains("gcum[t] = running;"));
    assert!(
        GDN_CHUNKED_SRC.contains("decay[i] = beta_t * kk_row[i] * expf(gcum[t] - gcum[i]);")
    );
    assert!(GDN_CHUNKED_SRC.contains("dec[i] = kq_row[i] * expf(gcum[t] - gcum[i]);"));
    assert!(GDN_CHUNKED_SRC.contains("decay[i] = expf(gcum[c - 1] - gcum[i]);"));
}

#[test]
fn the_inter_tile_constant_matches_the_kernel_define() {
    let needle = format!("#define INTER_TT {INTER_TT}\n");
    assert!(
        GDN_CHUNKED_SRC.contains(&needle),
        "the kernel's INTER_TT is not {INTER_TT}; the shared staging \
         `gdn_chunked_forward` allocates would be the wrong size",
    );
}

#[test]
fn the_output_and_the_state_are_rescaled_by_the_right_cumulative_decay() {
    assert!(GDN_CHUNKED_SRC.contains(
        "float o_inter = expf(gcum[t]) * oint[((long long)h * c + t) * head_dim + vi];"
    ));
    assert!(GDN_CHUNKED_SRC.contains("out[ht * head_dim + vi] = o_inter + o_intra;"));
    assert!(GDN_CHUNKED_SRC.contains("lambda_last[h] = expf(gcum[c - 1]);"));
    assert!(GDN_CHUNKED_SRC.contains("float lam = lambda_last[h];"));
    assert!(GDN_CHUNKED_SRC.contains("cell[b] = lam * cell[b] + acc[a][b];"));
}

#[test]
fn gdn_chunked_the_query_key_head_is_selected_by_modulo_not_division() {
    assert_eq!(
        GDN_CHUNKED_SRC.matches("int hq = h % qk_heads;").count(),
        4,
        "gdn_scan_prefill, gdn_chunk_inter, gdn_chunk_solve_and_apply and \
         gdn_chunk_state_update must all use modulo",
    );
    assert!(
        !GDN_CHUNKED_SRC.contains("heads_per_kv"),
        "a kernel still takes the sharing ratio, which only division needs",
    );
}

#[test]
fn gdn_chunked_the_l2_epsilon_floors_the_norm_rather_than_being_added_to_the_sum() {
    assert!(!GDN_CHUNKED_SRC.contains("q_sq + eps"));
    assert!(!GDN_CHUNKED_SRC.contains("k_sq + eps"));
}

#[test]
fn the_state_update_consumes_the_solved_corrections_not_the_raw_residuals() {
    let publish = at("u[t * VB + vl] = acc;");
    let fold =
        at("uprime[((long long)h * c + i) * head_dim + vi] = u[i * VB + vl] * decay[i];");
    assert!(
        publish < fold,
        "U' is published to global before it is solved"
    );
    assert!(
        GDN_CHUNKED_SRC
            .contains("for (int b = 0; b < STATE_JT; ++b) acc[a][b] += up[a] * kp[b];"),
        "the state update must consume the solved U', not the raw residuals",
    );
}

#[test]
fn gdn_chunked_the_scale_is_folded_into_q_only() {
    assert!(
        GDN_CHUNKED_SRC
            .contains("q_out[base + j] = qv * (1.0f / fmaxf(sqrtf(q_sq), eps)) * scale;")
    );
    assert!(
        GDN_CHUNKED_SRC.contains("k_out[base + j] = kv * (1.0f / fmaxf(sqrtf(k_sq), eps));")
    );
}

#[test]
fn beta_is_not_folded_into_the_shared_gram_matrix() {
    let gram_start = at("__global__ void gdn_chunk_gram(");
    let gram_end = at("__global__ void gdn_chunk_inter(");
    let gram_body = &GDN_CHUNKED_SRC[gram_start..gram_end];
    assert!(
        !gram_body.contains("beta"),
        "the Gram kernel must not see beta; it is per value head",
    );
}

#[test]
fn the_cumulative_decay_is_accumulated_sequentially() {
    assert!(GDN_CHUNKED_SRC.contains("running += log_decay["));
    assert!(GDN_CHUNKED_SRC.contains("gcum[t] = running;"));
}

#[test]
fn no_inverse_is_materialised() {
    assert!(!GDN_CHUNKED_SRC.contains("inv"));
    assert!(GDN_CHUNKED_SRC.contains("Forward substitution for U"));
}

#[test]
fn shared_memory_at_the_real_geometry_fits_a_turing_block() {
    let needed = shared_bytes_for_solve(64);
    assert_eq!(
        needed,
        (64 * SOLVE_VB as usize + 64 + SOLVE_TT as usize * 64) * 4,
    );
    assert_eq!(
        SOLVE_VB * SOLVE_TT,
        256,
        "the solve block is SOLVE_VB * SOLVE_TT threads",
    );
    assert!(needed < MAX_SHARED_BYTES, "{needed} bytes");
    assert!(needed + 64 * 64 * 4 < MAX_SHARED_BYTES);
}

#[test]
fn gdn_chunked_geometry_is_validated_not_assumed() {
    assert!(
        GdnChunkedError::UnsupportedHeadDim { head_dim: 100 }
            .message()
            .contains("100")
    );
    assert!(
        GdnChunkedError::UnevenHeadGrouping {
            value_heads: 32,
            qk_heads: 5,
        }
        .message()
        .contains("32")
    );
    assert!(
        GdnChunkedError::UnsupportedChunkLen { chunk_len: 0 }
            .message()
            .contains('0')
    );
    assert!(
        GdnChunkedError::SharedMemoryExceeded {
            needed: 99_000,
            available: MAX_SHARED_BYTES,
        }
        .message()
        .contains("99000")
    );
    assert!(
        GdnChunkedError::SequenceTooLong {
            seq_len: 4096,
            capacity: 512,
        }
        .message()
        .contains("4096")
    );
}

fn kernels(chunk_len: usize) -> GdnChunkedKernels {
    GdnChunkedKernels::from_ptx("ptx".to_string(), 128, 32, 16, chunk_len).unwrap()
}

#[test]
fn gdn_chunked_refuses_before_compiling() {
    let mut cache = PtxCache::new();
    assert!(matches!(
        GdnChunkedKernels::new(&mut cache, 100, 32, 16, 64),
        Err(GdnChunkedError::UnsupportedHeadDim { head_dim: 100 })
    ));
    assert!(matches!(
        GdnChunkedKernels::new(&mut cache, 128, 32, 5, 64),
        Err(GdnChunkedError::UnevenHeadGrouping { value_heads: 32, qk_heads: 5 })
    ));
    for chunk_len in [0, 1025] {
        assert!(matches!(
            GdnChunkedKernels::new(&mut cache, 128, 32, 16, chunk_len),
            Err(GdnChunkedError::UnsupportedChunkLen { .. })
        ));
    }
    let e = GdnChunkedKernels::new(&mut cache, 128, 32, 16, 512).err().unwrap();
    assert_eq!(
        e.message(),
        "the chunk needs 83968 bytes of shared memory per block, 49152 available",
    );
    assert_eq!(nvrtc_invocations(&cache), 0);
}

#[test]
fn gdn_chunked_is_served_from_the_cache() {
    let mut cache = PtxCache::new();
    record(&mut cache, GDN_CHUNKED_SRC, "gdn_chunked", Ok(".entry".to_string())).unwrap();
    let k = GdnChunkedKernels::new(&mut cache, 128, 32, 16, 64).unwrap();
    assert_eq!(k.ptx(), ".entry");
    assert_eq!((k.chunk_len(), k.heads_per_kv(), k.state_bytes()), (64, 2, 2 << 20));
    for name in GdnChunkedKernels::entry_points() {
        assert!(GDN_CHUNKED_SRC.contains(&format!("void {name}(")));
    }
}

#[test]
fn the_scratch_holds_the_longest_sequence() {
    let s = kernels(64).scratch(512);
    assert_eq!(s.max_seq_len(), 512);
    let sizes = s.sizes();
    assert_eq!(sizes.qk_norm, 512 * 16 * 128);
    assert_eq!(sizes.gram, 16 * 64 * 64);
    assert_eq!(sizes.inter, 32 * 64 * 128);
    assert_eq!(sizes.lambda_last, 32);
}

#[test]
fn a_sequence_past_the_scratch_is_refused() {
    let k = kernels(64);
    let s = k.scratch(512);
    let e = k.prefill(&s, 513).unwrap_err();
    assert_eq!(e.message(), "sequence of 513 tokens exceeds the scratch capacity of 512");
    assert!(k.scan(&s, 513).is_err());
    assert!(matches!(
        k.prefill(&s, usize::MAX),
        Err(GdnChunkedError::SequenceTooLong { seq_len: usize::MAX, capacity: 512 }),
    ));
    assert!(k.scan(&s, usize::MAX).is_err());
    assert!(k.prefill(&s, 0).unwrap().is_empty());
    assert!(k.scan(&s, 0).unwrap().is_empty());
}

#[test]
fn a_prefill_walks_the_chunks_in_order() {
    let k = kernels(64);
    let launches = k.prefill(&k.scratch(512), 150).unwrap();
    assert_eq!(launches.len(), 1 + 4 * 3);
    assert_eq!(launches[0].kernel, "gdn_chunk_normalize_qk");
    assert_eq!(launches[0].config.grid_dim, (150 * 16, 1, 1));
    let mut next = 0;
    for (i, chunk) in launches[1..].chunks(4).enumerate() {
        let tokens = if i < 2 { 64 } else { 22 };
        let names: Vec<&str> = chunk.iter().map(|l| l.kernel).collect();
        assert_eq!(
            names,
            [
                "gdn_chunk_gram",
                "gdn_chunk_inter",
                "gdn_chunk_solve_and_apply",
                "gdn_chunk_state_update",
            ],
        );
        for l in chunk {
            let n = l.args.len();
            assert_eq!(l.args[n - 2], GdnChunkedArg::Int(next));
            assert_eq!(l.args[n - 1], GdnChunkedArg::Int(tokens));
        }
        assert_eq!(chunk[0].config.grid_dim, (tokens as u32, 16, 1));
        assert_eq!(chunk[1].config.grid_dim, ((tokens as u32).div_ceil(INTER_TT), 32, 1));
        assert_eq!(
            chunk[2].config.shared_mem_bytes as usize,
            shared_bytes_for_solve(tokens as usize),
        );
        assert_eq!(chunk[3].config.grid_dim, (32, 128 / STATE_VB, 128 / STATE_JB));
        next += tokens;
    }
    assert_eq!(next, 150);
}

#[test]
fn a_prefill_resumes_at_a_chunk_boundary() {
    let k = kernels(64);
    let s = k.scratch(512);
    let whole = k.prefill(&s, 128 + 150).unwrap();
    let first = k.prefill(&s, 128).unwrap();
    let rest = k.prefill(&s, 150).unwrap();
    assert_eq!(whole.len(), first.len() + rest.len() - 1);
    for (w, l) in whole[1..].iter().zip(&first[1..]) {
        assert_eq!((w.kernel, w.config, &w.args), (l.kernel, l.config, &l.args));
    }
    for (n, (w, l)) in whole[first.len()..].iter().zip(&rest[1..]).enumerate() {
        assert_eq!((w.kernel, w.config), (l.kernel, l.config));
        let mut args = l.args.clone();
        let start = args.len() - 2;
        assert_eq!(args[start], GdnChunkedArg::Int(n as i32 / 4 * 64));
        args[start] = GdnChunkedArg::Int(128 + n as i32 / 4 * 64);
        assert_eq!(w.args, args);
    }
}

#[test]
fn the_scan_keeps_narrow_heads_only() {
    let k = kernels(64);
    let launches = k.scan(&k.scratch(512), 7).unwrap();
    assert_eq!(launches.len(), 2);
    assert_eq!(launches[1].kernel, "gdn_scan_prefill");
    assert_eq!(launches[1].config.grid_dim, (32, 32, 1));
    assert_eq!(launches[1].config.block_dim, (32, 4, 1));
    let wide = GdnChunkedKernels::from_ptx("ptx".to_string(), 256, 32, 16, 64).unwrap();
    assert!(matches!(
        wide.scan(&wide.scratch(512), 7),
        Err(GdnChunkedError::UnsupportedHeadDim { head_dim: 256 })
    ));
    assert!(wide.prefill(&wide.scratch(512), 7).is_ok());
}

#[test]
fn the_state_update_covers_the_state_once() {
    let k = kernels(64);
    let launches = k.prefill(&k.scratch(64), 64).unwrap();
    let grid = launches[4].config.grid_dim;
    let mut seen = vec![0; 128 * 128];
    for (by, bz) in (0..grid.1).flat_map(|y| (0..grid.2).map(move |z| (y, z))) {
        for thread in 0..256u32 {
            let (v0, j0) = (thread / 32 * 4 + by * STATE_VB, thread % 32 * 4 + bz * STATE_JB);
            for (a, b) in (0..4).flat_map(|a| (0..4).map(move |b| (a, b))) {
                seen[((v0 + a) * 128 + j0 + b) as usize] += 1;
            }
        }
    }
    assert!(seen.iter().all(|&n| n == 1));
}

#[test]
fn the_solve_fits_every_chunk_of_a_supported_length() {
    let k = kernels(256);
    for l in k.prefill(&k.scratch(1000), 1000).unwrap() {
        assert!(l.config.shared_mem_bytes as usize <= MAX_SHARED_BYTES);
    }
    assert_eq!(shared_bytes_for_solve(256), 256 * 41 * 4);
}
