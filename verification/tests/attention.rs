//! The attention kernels: layouts, bounds and refusals.

use xabe_cuda::kernels::attention::{
    attn_packed_gate_offset, attn_packed_query_offset, AttentionArg, AttentionError,
    AttentionKernels,
};
use xabe_cuda::kernels::ptx::{nvrtc_invocations, record, PtxCache};
use xabe_cuda::source::attention::ATTENTION_SRC;

#[test]
fn the_packed_query_layout_is_interleaved_not_halved() {
    let head_dim = 256;
    assert_eq!(attn_packed_query_offset(0, head_dim), 0);
    assert_eq!(attn_packed_gate_offset(0, head_dim), head_dim);

    for head in 1..16 {
        assert_ne!(
            attn_packed_query_offset(head, head_dim),
            head * head_dim,
            "head {head}: interleaved offset collapsed onto the halves split",
        );
    }

    let q_dim = 16 * head_dim;
    assert!(attn_packed_query_offset(8, head_dim) >= q_dim);
    assert_eq!(attn_packed_gate_offset(15, head_dim) + head_dim, 2 * q_dim);
}

#[test]
fn the_split_kernel_strides_by_two_head_dims() {
    assert!(
        ATTENTION_SRC.contains("packed[row + (long long)(2 * h)     * head_dim + d]"),
        "query slice is no longer read at the interleaved 2*h stride",
    );
    assert!(
        ATTENTION_SRC.contains("packed[row + (long long)(2 * h + 1) * head_dim + d]"),
        "gate slice is no longer read at the interleaved 2*h+1 stride",
    );
}

#[test]
fn the_causal_bound_is_inclusive_of_the_query_position() {
    assert!(
        ATTENTION_SRC.contains("long long n_visible = (long long)(*key_offset) + qi + 1;"),
        "the causal window bound changed shape",
    );
    assert!(
        ATTENTION_SRC.contains("for (long long j0 = 0; j0 < n_visible; j0 += tile)")
            && ATTENTION_SRC.contains("long long key = j0 + (long long)warp * ATTN_KT + r;")
            && ATTENTION_SRC.contains("if (key < n_visible) {"),
        "the key loop no longer stops at the causal bound",
    );
}

#[test]
fn the_rope_tail_is_copied_rather_than_computed() {
    assert!(
        ATTENTION_SRC.contains("if (d >= rope_dim) {\n        out[base + d] = in[base + d];"),
        "the untouched rotary tail is no longer a plain copy",
    );
}

#[test]
fn the_accumulator_is_rescaled_before_the_new_contributions_land() {
    let rescale_l = ATTENTION_SRC
        .find("l = l * corr + lsum;")
        .expect("normalizer rescale present");
    let rescale_acc = ATTENTION_SRC
        .find("float a = acc * corr;")
        .expect("accumulator rescale present");
    let fold_in = ATTENTION_SRC
        .find("a += w_sh[w] * v[")
        .expect("value accumulation present");
    assert!(rescale_acc < fold_in, "values folded in before rescaling");
    assert!(rescale_l < fold_in, "normalizer updated after the values");
}

#[test]
fn gqa_is_a_grouping_not_an_identity() {
    assert!(
        ATTENTION_SRC.contains("int kvh = h / (q_heads / kv_heads);"),
        "the kv head mapping is no longer a GQA grouping",
    );
    let kv_of = |h: usize| h / (16 / 2);
    assert_eq!(kv_of(0), 0);
    assert_eq!(kv_of(7), 0);
    assert_eq!(kv_of(8), 1);
    assert_eq!(kv_of(15), 1);
}

#[test]
fn the_shared_memory_budget_fits_turing_at_the_real_geometry() {
    const TURING_SHARED_PER_BLOCK: usize = 48 * 1024;
    let head_dim = 256usize;
    let keys_per_tile = head_dim / 32;
    let bytes = (head_dim + 2 * keys_per_tile) * size_of::<f32>();
    assert_eq!(bytes, 1088);
    assert!(bytes < TURING_SHARED_PER_BLOCK / 40);

    let tiled = |bm: usize, bn: usize| (bm + 2 * bn) * head_dim * 4 + bm * bn * 4;
    assert!(tiled(64, 64) > TURING_SHARED_PER_BLOCK);
    assert!(tiled(32, 32) > TURING_SHARED_PER_BLOCK);
    assert!(tiled(16, 16) > TURING_SHARED_PER_BLOCK);
    assert!(tiled(8, 8) < TURING_SHARED_PER_BLOCK);
}

#[test]
fn attention_head_geometry_is_validated_not_assumed() {
    assert!(
        AttentionError::UnsupportedHeadDim { head_dim: 100 }
            .message()
            .contains("100")
    );
    assert!(
        AttentionError::UnevenGqaGrouping {
            q_heads: 16,
            kv_heads: 5,
        }
        .message()
        .contains("16")
    );
    assert!(
        AttentionError::QueryPastKeys {
            key_offset: 100,
            n_query: 8,
            n_keys: 104,
        }
        .message()
        .contains("108")
    );
    assert_eq!(256 % 32, 0);
    assert_eq!(16 % 2, 0);
    assert_eq!(64 % 2, 0);
}

#[test]
fn a_kv_cache_may_be_longer_than_its_filled_window_but_never_shorter() {
    assert!(AttentionKernels::expect_at_least("key", 4096, 4096).is_ok());
    assert!(AttentionKernels::expect_at_least("key", 1 << 20, 4096).is_ok());

    let err = AttentionKernels::expect_at_least("key", 4095, 4096)
        .expect_err("one float short must not be accepted");
    let message = err.message();
    assert!(
        message.contains("4096") && message.contains("4095"),
        "{message}"
    );

    assert!(AttentionKernels::expect_len("query", 4097, 4096).is_err());
}

fn kernels() -> AttentionKernels {
    AttentionKernels::from_ptx("ptx".to_string(), 16, 2, 256).unwrap()
}

#[test]
fn a_refused_head_geometry_compiles_nothing() {
    let mut cache = PtxCache::new();
    for head_dim in [0, 100, 2048] {
        assert!(matches!(
            AttentionKernels::new(&mut cache, 16, 2, head_dim),
            Err(AttentionError::UnsupportedHeadDim { head_dim: d }) if d == head_dim
        ));
    }
    assert!(matches!(
        AttentionKernels::new(&mut cache, 16, 5, 256),
        Err(AttentionError::UnevenGqaGrouping { q_heads: 16, kv_heads: 5 })
    ));
    assert!(matches!(
        AttentionKernels::new(&mut cache, 16, 0, 256),
        Err(AttentionError::UnevenGqaGrouping { .. })
    ));
    assert_eq!(nvrtc_invocations(&cache), 0);
}

#[test]
fn a_cached_source_builds_the_family_without_compiling() {
    let mut cache = PtxCache::new();
    record(&mut cache, ATTENTION_SRC, "attention", Ok(".entry".to_string())).unwrap();
    let k = AttentionKernels::new(&mut cache, 16, 2, 256).unwrap();
    assert_eq!(k.ptx(), ".entry");
    assert_eq!(nvrtc_invocations(&cache), 1);
    for name in AttentionKernels::entry_points() {
        assert!(ATTENTION_SRC.contains(&format!("void {name}(")));
    }
}

#[test]
fn the_tile_and_its_shared_memory_are_exact() {
    let k = kernels();
    assert_eq!(k.gqa_ratio(), 8);
    assert_eq!(k.keys_per_tile(), 32);
    assert_eq!(k.shared_bytes(), (256 + 64) * 4);
}

#[test]
fn packed_slices_tile_the_row_without_overlap() {
    let (heads, head_dim) = (3, 32);
    let mut seen = vec![0; 2 * heads * head_dim];
    for h in 0..heads {
        for d in 0..head_dim {
            seen[attn_packed_query_offset(h, head_dim) + d] += 1;
            seen[attn_packed_gate_offset(h, head_dim) + d] += 1;
        }
    }
    assert!(seen.iter().all(|&n| n == 1));
}

#[test]
fn the_split_launches_one_block_per_token_and_head() {
    let k = kernels();
    let n = 3 * 16 * 256;
    let l = k.split_query_and_gate(2 * n, n, n, 3).unwrap();
    assert_eq!(l.kernel, "attn_split_query_gate");
    assert_eq!(l.config.grid_dim, (3, 16, 1));
    assert_eq!(l.config.block_dim, (256, 1, 1));
    assert_eq!(l.args[..3], [AttentionArg::Packed, AttentionArg::Query, AttentionArg::Gate]);
    let e = k.split_query_and_gate(2 * n, n - 1, n, 3).unwrap_err();
    assert_eq!(e.message(), "query holds 12287 floats, but this geometry needs 12288");
    assert!(k.split_query_and_gate(n, n, n, 3).is_err());
    assert!(k.split_query_and_gate(2 * n, n, n + 1, 3).is_err());
}

#[test]
fn rope_refuses_an_odd_or_wide_rotary_dimension() {
    let k = kernels();
    let n = 2 * 16 * 256;
    assert_eq!(k.rope(n, n, 2, 16, 64, 1).unwrap().config.grid_dim, (2, 16, 1));
    for rope_dim in [63, 258] {
        let e = k.rope(n, n, 2, 16, rope_dim, 1).unwrap_err();
        assert_eq!(
            e.message(),
            format!("rope_dim {rope_dim} must be even and at most head_dim 256"),
        );
    }
    assert!(matches!(
        k.rope(n, n, 2, 16, 64, 2),
        Err(AttentionError::BufferShape { what: "rope position", expected: 1, actual: 2 })
    ));
    assert!(k.rope(n + 1, n, 2, 16, 64, 1).is_err());
    assert!(k.rope(n, n + 1, 2, 16, 64, 1).is_err());
}

#[test]
fn attention_accepts_a_longer_cache_and_refuses_a_shorter_one() {
    let k = kernels();
    let (q, kv) = (2 * 16 * 256, 100 * 2 * 256);
    let l = k.forward(q, kv + 7, kv, q, 2, 100, 1).unwrap();
    assert_eq!(l.kernel, "attn_flash_causal");
    assert_eq!(l.config.grid_dim, (2, 16, 1));
    assert_eq!(l.config.shared_mem_bytes, 1280);
    assert!(matches!(
        k.forward(q, kv - 1, kv, q, 2, 100, 1),
        Err(AttentionError::BufferShape { what: "key", .. })
    ));
    assert!(matches!(
        k.forward(q, kv, kv - 1, q, 2, 100, 1),
        Err(AttentionError::BufferShape { what: "value", .. })
    ));
    assert!(k.forward(q + 1, kv, kv, q, 2, 100, 1).is_err());
    assert!(k.forward(q, kv, kv, q + 1, 2, 100, 1).is_err());
    assert!(k.forward(q, kv, kv, q, 2, 100, 0).is_err());
}

#[test]
fn the_append_covers_both_halves_of_its_batch() {
    let k = kernels();
    let (span, cache) = (3 * 2 * 256, 100 * 2 * 256);
    let l = k.append_kv(span, span, cache, cache, 3, 100, 1).unwrap();
    assert_eq!(l.kernel, "attn_kv_append");
    assert_eq!(l.config.block_dim, (256, 1, 1));
    let threads = l.config.grid_dim.0 * 256;
    assert!(threads as usize >= 2 * span && (threads as usize) < 2 * span + 256);
    assert!(k.append_kv(span - 1, span, cache, cache, 3, 100, 1).is_err());
    assert!(k.append_kv(span, span - 1, cache, cache, 3, 100, 1).is_err());
    assert!(k.append_kv(span, span, cache - 1, cache, 3, 100, 1).is_err());
    assert!(k.append_kv(span, span, cache, cache - 1, 3, 100, 1).is_err());
    assert!(k.append_kv(span, span, cache, cache, 3, 100, 2).is_err());
}

#[test]
fn a_query_past_its_keys_names_the_rows() {
    let e = AttentionError::QueryPastKeys { key_offset: 100, n_query: 8, n_keys: 104 };
    assert_eq!(e.message(), "query rows at offset 100..108 run past the 104-key window");
    let e = AttentionError::Compile("attention: nope".to_string());
    assert_eq!(e.message(), "kernel compilation failed: attention: nope");
}
