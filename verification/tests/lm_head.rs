//! The vocabulary projection.

use xabe_cuda::kernels::lm_head::family::{
    check_len, row_tile_entry, tile_entry, LmHeadArg, LmHeadError, LmHeadKernels, ARGMAX_BLOCKS,
    GRID_X_LIMIT, STAGE_BLOCKS, WARP, WARPS_PER_BLOCK,
};
use xabe_cuda::kernels::lm_head::geometry::{
    batch_tile, HeadFormat, HeadTensor, LmHeadGeometry, BLOCK_Q8_0_BYTES, MAX_BATCH_TILE, QK8_0,
    QK_K, SM_COUNT, WARPS_PER_SM,
};
use xabe_cuda::kernels::ptx::{nvrtc_invocations, record, PtxCache};
use xabe_cuda::source::lm_head::lm_head_src;

fn qwen() -> LmHeadGeometry {
    LmHeadGeometry::qwen3_6(64)
}

#[test]
fn lm_head_the_dequant_prologue_multiplies_in_the_reference_order() {
    let src = lm_head_src();
    for lane in 0..4 {
        let expected = format!(
            "float w{lane} = (float)(signed char)(unsigned char)(p{} {}) * d;",
            lane / 2,
            if lane % 2 == 0 { "& 0xFF" } else { ">> 8" },
        );
        assert!(
            src.contains(&expected),
            "quant {lane} reassociated away from `(float)q * d`, or stopped \
             narrowing through `unsigned char` first: expected `{expected}`",
        );
    }
}

#[test]
fn quants_are_read_as_signed_and_the_high_byte_is_narrowed_first() {
    let src = lm_head_src();
    assert_eq!(
        src
            .matches("(float)(signed char)(unsigned char)")
            .count(),
        4,
        "the four quants are no longer all read as narrowed signed bytes",
    );
    assert!(
        !src.contains("(signed char)(p0 >> 8)"),
        "the high byte skipped the `unsigned char` narrowing",
    );
}

#[test]
fn the_delta_is_loaded_once_per_four_elements_not_once_per_element() {
    let src = lm_head_src();
    let body = &src[at("void lm_head_rows")..at("#define LM_HEAD_ENTRY")];
    assert_eq!(
        body.matches("load_half_le").count(),
        1,
        "the delta load moved into, or out of, the four-element group",
    );
    assert!(body.contains("float d = load_half_le(bp);"));
}

#[test]
fn a_row_is_owned_by_one_warp_so_the_reduction_needs_no_block_barrier() {
    let src = lm_head_src();
    assert!(src.contains("int row = (blockIdx.x * blockDim.y + threadIdx.y) * RT;"));
    assert!(src.contains("v += __shfl_down_sync(0xffffffff, v, off);"));
    let body = &src[at("void lm_head_rows")..at("#define LM_HEAD_ENTRY")];
    assert!(
        !body.contains("__syncthreads"),
        "a block-wide barrier appeared behind a warp-uniform early return",
    );
    assert!(
        body.contains("__syncwarp()"),
        "the shared staging buffer lost the warp barrier that publishes it",
    );
    assert_eq!(WARP, 32, "the full shuffle mask assumes a 32-lane warp");
}

#[test]
fn every_global_weight_read_is_a_sector_aligned_vector_load() {
    let src = lm_head_src();
    let body = &src[at("void lm_head_rows")..at("#define LM_HEAD_ENTRY")];
    assert!(body.contains("g4[rt] = (const uint4*)(weight"));
    assert!(
        !body.contains("weight["),
        "a scalar index into `weight` came back; the 34-byte block stride \
         makes any sub-16-byte global load straddle sectors",
    );

    let g = qwen();
    let stage_bytes = STAGE_BLOCKS * BLOCK_Q8_0_BYTES;
    assert_eq!(stage_bytes, 544);
    assert!(stage_bytes.is_multiple_of(32), "a stage straddles sectors");
    assert!(
        stage_bytes.is_multiple_of(16),
        "a stage is not a whole uint4 count"
    );
    assert!(
        g.row_bytes().is_multiple_of(stage_bytes),
        "the last stage of a row would be ragged and read past it",
    );
    assert!(g.row_bytes().is_multiple_of(32), "rows straddle sectors");
    assert_eq!(g.row_bytes() / stage_bytes, 4, "four stages per row");
}

#[test]
fn the_activation_read_is_one_float4_per_lane_over_four_blocks_per_warp() {
    let src = lm_head_src();
    assert!(src.contains("int blk = lane >> 3;"));
    assert!(src.contains("int sub = lane & 7;"));
    assert!(
        src.contains("xv[t] = *(const float4*)(x + (long long)t * hidden_dim + j);")
    );
    assert!(
        src
            .find("xv[t] = *(const float4*)")
            .expect("xv load present")
            < src
                .find(
                    "for (int rt = 0; rt < RT; ++rt) {\n                const unsigned char* bp"
                )
                .expect("row unpack loop present"),
        "the activation load moved inside the row loop; it would then \
         scale with RT and the tile would buy nothing",
    );
    assert!(src.contains("for (int r = 0; r < LM_HEAD_STAGE_BLOCKS; r += 4) {"));

    let mut seen = vec![0u8; STAGE_BLOCKS * QK8_0];
    for r in (0..STAGE_BLOCKS).step_by(4) {
        for lane in 0..32usize {
            let (blk, sub) = (lane >> 3, lane & 7);
            let j = (r + blk) * QK8_0 + 4 * sub;
            assert!(j.is_multiple_of(4), "float4 load would be misaligned");
            for n in seen.iter_mut().skip(j).take(4) {
                *n += 1;
            }
        }
    }
    assert!(
        seen.iter().all(|&n| n == 1),
        "the lane mapping double-counts or drops elements of a stage",
    );
}

#[test]
fn there_is_one_compiled_entry_point_for_every_tile_not_just_powers_of_two() {
    let src = lm_head_src();
    for tile in 1..=MAX_BATCH_TILE {
        assert!(
            src.contains(&format!("LM_HEAD_ENTRY(lm_head_gemv_b{tile}, {tile})")),
            "no entry point for a batch tile of {tile}",
        );
    }
    assert_eq!(
        src.matches("LM_HEAD_ENTRY(lm_head_gemv_b").count(),
        MAX_BATCH_TILE,
    );
    assert_eq!(MAX_BATCH_TILE, 8);
}

#[test]
fn the_row_tiled_entry_points_exist_and_fit_the_real_geometry() {
    let src = lm_head_src();
    assert!(src.contains("LM_HEAD_ENTRY_RT(lm_head_gemv_b3r2, 3, 2)"));
    assert!(src.contains("LM_HEAD_ENTRY_RT(lm_head_gemv_b3r4, 3, 4)"));

    let g = qwen();
    assert!(g.vocab.is_multiple_of(2) && g.vocab.is_multiple_of(4));

    let shared_rt4 = WARPS_PER_BLOCK as usize * 4 * STAGE_BLOCKS * BLOCK_Q8_0_BYTES;
    assert_eq!(shared_rt4, 17_408);
    assert!(shared_rt4 <= 48 * 1024);
}

#[test]
fn the_batch_tiling_reads_the_weights_once_per_tile_not_once_per_token() {
    let g = qwen();
    assert_eq!(g.weight_passes(1), 1);
    assert_eq!(g.weight_passes(8), 1);
    assert_eq!(g.weight_passes(9), 2);
    assert_eq!(g.weight_passes(37), 5);
    assert_eq!(g.weight_passes(64), 8);

    for tokens in 1..=g.max_tokens {
        let mut remaining = tokens;
        let mut passes = 0;
        while remaining > 0 {
            let tile = batch_tile(remaining);
            assert!((1..=MAX_BATCH_TILE).contains(&tile));
            remaining -= tile;
            passes += 1;
        }
        assert_eq!(passes, g.weight_passes(tokens), "at {tokens} tokens");
        assert!(passes <= tokens);
    }

    assert_eq!(g.weight_bytes_read(8), g.weight_bytes());
    assert_eq!(g.weight_bytes_read(9), 2 * g.weight_bytes());
}

#[test]
fn the_real_geometry_costs_the_540_mb_per_token_the_model_docs_claim() {
    let g = qwen();
    assert_eq!(g.hidden, 2048);
    assert_eq!(g.vocab, 248_320);
    assert_eq!(g.row_bytes(), 2176);
    assert_eq!(g.elements(), 508_559_360);
    assert_eq!(g.weight_bytes(), 540_344_320);
    assert_eq!(g.weight_bytes() / BLOCK_Q8_0_BYTES, 15_892_480);
    let floor_us = g.weight_bytes() as f64 / 672.0e9 * 1.0e6;
    assert!(
        (800.0..810.0).contains(&floor_us),
        "the roofline floor moved to {floor_us:.0} us",
    );
}

#[test]
fn the_grid_oversubscribes_the_card_enough_that_split_k_would_buy_nothing() {
    let g = qwen();
    assert_eq!(SM_COUNT * WARPS_PER_SM, 2304);
    assert_eq!(g.occupancy_surplus(), 107);
    assert!(
        g.occupancy_surplus() >= 8,
        "one warp per row no longer fills the card by a wide margin; \
         split-K may now be worth what it costs",
    );
    let blocks = g.vocab.div_ceil(WARPS_PER_BLOCK as usize);
    assert_eq!(blocks, 31_040);
    assert!(blocks / SM_COUNT > 100);
}

#[test]
fn arithmetic_intensity_puts_this_kernel_far_below_the_ridge_point() {
    let g = qwen();
    let intensity = 2.0 * g.elements() as f64 / g.weight_bytes() as f64;
    let ridge = 16.3e12 / 672.0e9;
    assert!((1.87..1.89).contains(&intensity), "{intensity}");
    assert!(
        intensity * 10.0 < ridge,
        "{intensity:.2} FLOP/byte is no longer an order of magnitude below \
         the {ridge:.1} FLOP/byte ridge point",
    );
}

#[test]
fn lm_head_geometry_is_validated_not_assumed() {
    let bad = LmHeadError::UnsupportedGeometry {
        geometry: Box::new(LmHeadGeometry {
            hidden: 100,
            ..qwen()
        }),
        reason: "hidden must be a whole number of 32-element Q8_0 blocks",
    };
    assert!(bad.message().contains("Q8_0 blocks"));
    assert!(
        LmHeadError::RaggedContraction {
            format: "Q6_K",
            hidden: 100,
            step: QK_K,
        }
        .message()
        .contains("Q6_K"),
    );
    assert!(
        LmHeadError::RaggedWeights {
            bytes: 2177,
            block_bytes: 34,
        }
        .message()
        .contains("2177"),
    );
    assert!(
        LmHeadError::WrongElementCount {
            expected: 508_559_360,
            found: 2048,
        }
        .message()
        .contains("508559360"),
    );
    assert!(
        LmHeadError::ShapeMismatch {
            what: "logits",
            expected: 15_892_480,
            got: 2048,
        }
        .message()
        .contains("15892480"),
    );
    assert!(
        LmHeadError::TooManyTokens {
            tokens: 0,
            max_tokens: 64,
        }
        .message()
        .contains("1..=64"),
    );
    assert!(check_len("logits", 4, 4).is_ok());
    assert!(check_len("logits", 4, 5).is_err());
}

/// Where a snippet starts in the kernel source, or a failure naming it.
fn at(needle: &str) -> usize {
    lm_head_src()
        .find(needle)
        .unwrap_or_else(|| panic!("kernel source no longer contains `{needle}`"))
}

const FORMATS: [HeadFormat; 7] = [
    HeadFormat::Q8_0,
    HeadFormat::Bf16,
    HeadFormat::Q6K,
    HeadFormat::F16,
    HeadFormat::Q4_0,
    HeadFormat::Q4K,
    HeadFormat::Q5K,
];

fn small() -> LmHeadGeometry {
    LmHeadGeometry { hidden: 512, vocab: 12, max_tokens: 16 }
}

fn kernels(row_tile: Option<usize>) -> LmHeadKernels {
    LmHeadKernels::from_ptx("ptx".to_string(), small(), row_tile).unwrap()
}

#[test]
fn every_unsupported_head_geometry_is_named() {
    let g = small();
    let mut cache = PtxCache::new();
    let cases = [
        (g, Some(3), "the only compiled row tiles are 2 and 4"),
        (LmHeadGeometry { hidden: 0, ..g }, None, "hidden and vocab must be non-zero"),
        (LmHeadGeometry { vocab: 0, ..g }, None, "hidden and vocab must be non-zero"),
        (
            LmHeadGeometry { hidden: 256, ..g },
            None,
            "hidden must be a whole number of 16-block staging segments (a multiple of 512)",
        ),
        (LmHeadGeometry { max_tokens: 0, ..g }, None, "max_tokens must be non-zero"),
        (
            LmHeadGeometry { vocab: 1 << 36, ..g },
            None,
            "vocabulary exceeds the grid.x limit",
        ),
    ];
    for (geometry, row_tile, expected) in cases {
        match LmHeadKernels::with_row_tile(&mut cache, geometry, row_tile) {
            Err(LmHeadError::UnsupportedGeometry { reason, .. }) => assert_eq!(reason, expected),
            _ => panic!("{expected}"),
        }
    }
    assert_eq!(nvrtc_invocations(&cache), 0);
    let e = LmHeadKernels::new(&mut cache, LmHeadGeometry { hidden: 256, ..g }).err().unwrap();
    assert!(e.message().starts_with(
        "unsupported LM head geometry LmHeadGeometry { hidden: 256, vocab: 12, max_tokens: 16 }: ",
    ));
}

#[test]
fn the_vocabulary_may_reach_the_grid_limit_and_not_pass_it() {
    let g = LmHeadGeometry { hidden: 512, vocab: 1 << 34, max_tokens: 1 };
    let mut cache = PtxCache::new();
    let e = LmHeadKernels::with_row_tile(&mut cache, g, None).err().unwrap();
    let LmHeadError::UnsupportedGeometry { geometry, reason } = e else { panic!("a refusal") };
    assert_eq!(*geometry, g);
    assert_eq!(reason, "vocabulary exceeds the grid.x limit");
    let widest = LmHeadGeometry { vocab: (1 << 34) - 8, ..g };
    let k = LmHeadKernels::from_ptx("ptx".to_string(), widest, None).unwrap();
    let weight = HeadTensor::q8_0(widest.weight_bytes());
    let launches = k.forward(weight, 512, 1, widest.vocab).unwrap();
    assert_eq!(launches[0].config.grid_dim.0, GRID_X_LIMIT as u32);
    assert_eq!(GRID_X_LIMIT, (1 << 31) - 1);
}

#[test]
fn a_ragged_tensor_is_refused_before_any_size_is_formed() {
    let g = LmHeadGeometry { hidden: 1 << 62, vocab: 8, max_tokens: 1 << 62 };
    let k = LmHeadKernels::from_ptx("ptx".to_string(), g, None).unwrap();
    let ragged = HeadTensor::q8_0(35);
    assert!(!g.is_whole(ragged));
    assert!(matches!(
        k.forward(ragged, 0, 1, 0),
        Err(LmHeadError::RaggedWeights { bytes: 35, block_bytes: 34 }),
    ));
    assert!(small().is_whole(HeadTensor::bf16(2 * 512 * 12)));
    assert!(!LmHeadGeometry { hidden: 100, ..g }.is_whole(HeadTensor::bf16(200)));
    assert!(kernels(None).check_weight(HeadTensor::q8_0(small().weight_bytes())).is_ok());
    assert!(matches!(
        kernels(None).check_weight(HeadTensor::q8_0(34)),
        Err(LmHeadError::WrongElementCount { found: 32, .. }),
    ));
}

#[test]
fn the_head_is_served_from_the_cache() {
    let mut cache = PtxCache::new();
    record(&mut cache, &lm_head_src(), "lm_head", Ok(".entry".to_string())).unwrap();
    let k = LmHeadKernels::new(&mut cache, small()).unwrap();
    assert_eq!(k.ptx(), ".entry");
    assert_eq!(k.geometry(), small());
    assert_eq!(nvrtc_invocations(&cache), 1);
    let src = lm_head_src();
    for name in k.entry_points() {
        assert!(src.contains(name), "{name}");
    }
}

#[test]
fn entry_points_are_named_by_format_and_tile() {
    assert_eq!(tile_entry(HeadFormat::Q8_0, 1), "lm_head_gemv_b1");
    assert_eq!(tile_entry(HeadFormat::Bf16, 8), "lm_head_bf16_b8");
    assert_eq!(row_tile_entry(HeadFormat::Q8_0, 2), "lm_head_gemv_b3r2");
    assert_eq!(row_tile_entry(HeadFormat::Bf16, 4), "lm_head_bf16_b3r4");
    let mut names: Vec<&str> = Vec::new();
    for f in FORMATS {
        for tile in 1..=MAX_BATCH_TILE {
            names.push(tile_entry(f, tile));
        }
    }
    names.sort();
    names.dedup();
    assert_eq!(names.len(), 7 * MAX_BATCH_TILE);
}

#[test]
fn formats_are_read_by_name() {
    let named = ["q8_0", "bf16", "q6_K", "f16", "q4_0", "q4_K", "q5_K"];
    for (name, f) in named.iter().zip(FORMATS) {
        assert_eq!(HeadFormat::from_ggml(name), Some(f));
    }
    assert_eq!(HeadFormat::from_ggml("q6_k"), None);
    assert_eq!(HeadFormat::from_ggml(""), None);
}

#[test]
fn every_format_has_its_serialized_size() {
    let g = small();
    let bytes = [544, 1024, 420, 1024, 288, 288, 352];
    for (f, row) in FORMATS.into_iter().zip(bytes) {
        assert_eq!(g.row_bytes_for(f), row);
        assert_eq!(g.weight_bytes_for(f), row * 12);
    }
    assert_eq!(g.row_bytes(), 544);
    assert_eq!(g.elements(), 512 * 12);
    assert_eq!(HeadTensor::q8_0(1), HeadTensor { bytes: 1, format: HeadFormat::Q8_0 });
    assert_eq!(HeadTensor::bf16(1).format, HeadFormat::Bf16);
    assert_eq!(HeadTensor::q6_k(1).format, HeadFormat::Q6K);
    assert_eq!(HeadTensor::half(1).format, HeadFormat::F16);
}

#[test]
fn a_forward_pass_tiles_the_tokens() {
    let g = small();
    let k = kernels(None);
    for f in FORMATS {
        let w = HeadTensor { bytes: g.weight_bytes_for(f), format: f };
        for tokens in 1..=16usize {
            let launches = k.forward(w, 16 * 512, tokens, 16 * 12).unwrap();
            assert_eq!(launches.len(), g.weight_passes(tokens));
            let mut base = 0;
            for l in &launches {
                let tile = batch_tile(tokens - base);
                assert_eq!(l.kernel, tile_entry(f, tile));
                assert_eq!(l.args[4], LmHeadArg::Int(base as i32));
                assert_eq!(l.config.grid_dim, (2, 1, 1));
                assert_eq!(l.config.block_dim, (32, 8, 1));
                base += tile;
            }
            assert_eq!(base, tokens);
        }
    }
}

#[test]
fn a_row_tile_serves_three_tokens_of_the_two_formats_that_have_one() {
    let g = small();
    let k = kernels(Some(4));
    let q8 = HeadTensor::q8_0(g.weight_bytes());
    let l = &k.forward(q8, 16 * 512, 3, 16 * 12).unwrap()[0];
    assert_eq!(l.kernel, "lm_head_gemv_b3r4");
    assert_eq!(l.config.grid_dim, (1, 1, 1));
    assert_eq!(l.config.shared_mem_bytes, 8 * 4 * 544);
    let l = &k.forward(q8, 16 * 512, 2, 16 * 12).unwrap()[0];
    assert_eq!((l.kernel, l.config.shared_mem_bytes), ("lm_head_gemv_b2", 8 * 544));
    let q6 = HeadTensor::q6_k(g.weight_bytes_for(HeadFormat::Q6K));
    let l = &k.forward(q6, 16 * 512, 3, 16 * 12).unwrap()[0];
    assert_eq!(l.kernel, tile_entry(HeadFormat::Q6K, 3));
    assert_eq!(l.config.shared_mem_bytes, 0);
    let odd = LmHeadGeometry { vocab: 13, ..g };
    let k = LmHeadKernels::from_ptx("ptx".to_string(), odd, Some(4)).unwrap();
    let l = &k.forward(HeadTensor::q8_0(odd.weight_bytes()), 16 * 512, 3, 16 * 13).unwrap()[0];
    assert_eq!(l.kernel, "lm_head_gemv_b3");
}

#[test]
fn a_forward_pass_refuses_in_order() {
    let g = small();
    let k = kernels(None);
    let w = HeadTensor::q8_0(g.weight_bytes());
    let e = k.forward(HeadTensor::q8_0(35), 16 * 512, 1, 16 * 12).unwrap_err();
    assert_eq!(e.message(), "LM head: 35 bytes is not a whole number of 34 B Q8_0 blocks");
    let e = k.forward(HeadTensor::q8_0(34), 16 * 512, 1, 16 * 12).unwrap_err();
    assert_eq!(
        e.message(),
        "LM head: expected 6144 elements for this geometry, tensor holds 32",
    );
    for tokens in [0, 17] {
        let e = k.forward(w, 16 * 512, tokens, 16 * 12).unwrap_err();
        assert_eq!(
            e.message(),
            format!("{tokens} tokens is outside 1..=16, the range the buffers were sized for"),
        );
    }
    let e = k.forward(w, 1, 1, 16 * 12).unwrap_err();
    assert_eq!(e.message(), "hidden states: expected 8192 elements, got 1");
    let e = k.forward(w, 16 * 512, 1, 1).unwrap_err();
    assert_eq!(e.message(), "logits: expected 192 elements, got 1");
    let e = LmHeadError::RaggedContraction { format: "Q6_K", hidden: 100, step: 256 };
    assert_eq!(
        e.message(),
        "the Q6_K GEMV covers 256 elements per warp step, so `hidden` must be a multiple of 256, \
         not 100",
    );
    assert_eq!(LmHeadError::Compile("x".to_string()).message(), "kernel compilation failed: x");
}

#[test]
fn the_argmax_is_two_passes_over_a_capped_grid() {
    let k = kernels(None);
    let (first, second) = k.argmax(248_320, 248_320, ARGMAX_BLOCKS, ARGMAX_BLOCKS, 1).unwrap();
    assert_eq!((first.kernel, first.config.grid_dim), ("argmax_partial", (512, 1, 1)));
    assert_eq!((second.kernel, second.config.grid_dim), ("argmax_final", (1, 1, 1)));
    assert_eq!(second.args[2], LmHeadArg::Int(512));
    let (first, _) = k.argmax(300, 257, ARGMAX_BLOCKS, ARGMAX_BLOCKS, 1).unwrap();
    assert_eq!(first.config.grid_dim, (2, 1, 1));
    for (n, pv, pi, out, name) in [
        (0, 512, 512, 1, "argmax length"),
        (301, 512, 512, 1, "argmax length"),
        (300, 511, 512, 1, "argmax partial values"),
        (300, 512, 513, 1, "argmax partial indices"),
        (300, 512, 512, 2, "argmax output"),
    ] {
        assert!(matches!(
            k.argmax(300, n, pv, pi, out),
            Err(LmHeadError::ShapeMismatch { what, .. }) if what == name
        ));
    }
    let l = k.argmax_prob(300, 300, 1).unwrap();
    assert_eq!((l.kernel, l.config.grid_dim), ("argmax_prob", (1, 1, 1)));
    assert!(k.argmax_prob(300, 0, 1).is_err());
    assert!(k.argmax_prob(300, 301, 1).is_err());
    assert!(k.argmax_prob(300, 300, 0).is_err());
}

#[test]
fn a_strided_argmax_sees_every_value_once() {
    let n = 200_000usize;
    let (first, _) = kernels(None).argmax(n, n, ARGMAX_BLOCKS, ARGMAX_BLOCKS, 1).unwrap();
    let threads = (first.config.grid_dim.0 * first.config.block_dim.0) as usize;
    let mut seen = vec![0u8; n];
    for t in 0..threads {
        for i in (t..n).step_by(threads) {
            seen[i] += 1;
        }
    }
    assert!(seen.iter().all(|&c| c == 1));
}

#[test]
fn warps_cover_the_vocabulary_rows_once() {
    let g = LmHeadGeometry { vocab: 20, ..small() };
    for (row_tile, tokens, rows) in [(None, 1, 1usize), (Some(4), 3, 4)] {
        let k = LmHeadKernels::from_ptx("ptx".to_string(), g, row_tile).unwrap();
        let l = &k.forward(HeadTensor::q8_0(g.weight_bytes()), 16 * 512, tokens, 16 * 20).unwrap()
            [0];
        let mut seen = vec![0; 20];
        for block in 0..l.config.grid_dim.0 {
            for warp in 0..l.config.block_dim.1 {
                let row = (block * l.config.block_dim.1 + warp) as usize * rows;
                if row < 20 {
                    for r in row..row + rows {
                        seen[r] += 1;
                    }
                }
            }
        }
        assert!(seen.iter().all(|&n| n == 1));
    }
}
