//! The mixture of experts.

use std::borrow::Cow;
use xabe_cuda::kernels::mma::{MmaError, MmaKernels};
use xabe_cuda::kernels::moe::buffers::SharedExpertInt8;
use xabe_cuda::kernels::moe::family::MoeKernels;
use xabe_cuda::kernels::moe::geometry::{
    to_device_layout, ExpertQuant, MoeGeometry, BLOCK_Q6_K_BYTES, BLOCK_Q8_0_BYTES, QK8_0, QK_K,
};
use xabe_cuda::kernels::moe::step::{
    check_stack, mma_down_shared_bytes, mma_ffn_q8_shared_bytes, mma_shared_bytes,
    tile_shared_bytes, MoeArg, MoeError, MoeStep, QuantTensor, GEMM_THREADS, MMA_M, MMA_WARPS,
    ROUTE_LANE_EXPERTS, SHARED_WARPS, TILE_K, TILE_M, TILE_ROWS,
};
use xabe_cuda::kernels::ptx::{nvrtc_invocations, record, PtxCache};
use xabe_cuda::source::mma::MMA_SRC;
use xabe_cuda::source::moe::moe_src;

fn qwen() -> MoeGeometry {
    MoeGeometry::qwen3_6(16, 64)
}

#[test]
fn tile_shape_is_mirrored_in_rust() {
    let src = moe_src();
    for (name, value) in [
        ("MOE_TM", TILE_M),
        ("MOE_TK", TILE_K),
        ("MOE_TN", TILE_K / 32),
        ("MOE_ROWS", TILE_ROWS as usize),
        ("MOE_ROUTE_LANE_EXPERTS", ROUTE_LANE_EXPERTS),
        ("MOE_MMA_WARPS", MMA_WARPS as usize),
        ("MOE_MMA_M", MMA_M),
        ("MOE_SHARED_WARPS", SHARED_WARPS as usize),
    ] {
        let found = src
            .split(&format!("#define {name} "))
            .skip(1)
            .any(|rest| rest.trim_start().starts_with(&format!("{value}\n")));
        assert!(
            found,
            "{name} is {value} in Rust but not in the kernel source",
        );
    }
    assert_eq!(GEMM_THREADS, TILE_ROWS * 32, "one warp per output row");
    assert_eq!(TILE_K * 2, 256, "a tile must be one Q6_K superblock half");
    assert_eq!(
        tile_shared_bytes(),
        16 * 128 * 4 + 16 * 8 + 16 * 4,
        "8 KiB of activation tile plus the row offsets and slot ids",
    );
}

#[test]
fn moe_the_dequant_prologue_multiplies_in_the_reference_order() {
    let src = moe_src();
    assert!(
        src.contains("return d * (float)sc[si] * (float)(raw - 32);"),
        "Q6_K prologue reassociated away from (d * scale) * q",
    );
    assert!(
        src.contains("return (float)q * d;"),
        "Q8_0 prologue reassociated away from q * d",
    );
}

#[test]
fn quants_and_scales_are_read_as_signed() {
    let src = moe_src();
    assert!(src.contains("signed char q = (signed char)base[2 + lane];"));
    assert!(src.contains("(const signed char*)(base + 192 + half * 8)"));
}

#[test]
fn the_padding_sentinel_is_num_tokens_times_top_k() {
    let src = moe_src();
    assert!(src.contains("int numel = (*valid_tokens) * top_k;"));
    assert!(src.contains("sorted_token_ids[s] = numel;"));
    assert!(src.contains("if (flat >= numel) return;"));
}

#[test]
fn inactive_blocks_are_minus_one() {
    let src = moe_src();
    assert!(src.contains("expert_ids[b] = -1;"));
    assert!(src.contains("if (e < 0) return;"));
}

#[test]
fn the_dispatch_scatter_is_ordered_not_atomic() {
    let src = moe_src();
    let start = src
        .find("void moe_align_block_size")
        .expect("dispatch kernel present");
    let end = src[start..]
        .find("void moe_expert_ffn")
        .expect("next kernel present")
        + start;
    assert!(
        !src[start..end].contains("atomic"),
        "the dispatch scatter must not use atomics; ordering is the contract",
    );
}

#[test]
fn the_grid_guard_bounds_the_block_count_and_not_the_slot_count() {
    let g = MoeGeometry::qwen3_6(16, 32_768);
    assert_eq!(g.sorted_capacity(), 265_984);
    assert_eq!(g.expert_block_capacity(), 16_624);
    assert!(
        g.expert_block_capacity() <= 65_535,
        "32K tokens must be inside the grid.y limit, not outside it",
    );
    assert!(
        g.sorted_capacity() > 65_535,
        "this test is only meaningful while the two quantities disagree",
    );
}

#[test]
fn every_grid_dimension_is_a_function_of_the_geometry_alone() {
    for max_tokens in [1usize, 19, 128, 512] {
        let g = MoeGeometry::qwen3_6(16, max_tokens);
        let routed_y = g.expert_block_capacity() as u32;
        assert_eq!(routed_y, (g.sorted_capacity() / g.block_size) as u32);
        let shared_y = (g.max_tokens as u32).div_ceil(TILE_M as u32);
        assert_eq!(shared_y as usize, g.max_tokens.div_ceil(TILE_M));
        assert!(routed_y <= 65_535 && shared_y <= 65_535);
        assert_eq!((g.intermediate as u32).div_ceil(TILE_ROWS), 64);
        assert_eq!((g.hidden as u32).div_ceil(TILE_ROWS), 256);
        assert!(g.hidden.is_multiple_of(TILE_K) && g.intermediate.is_multiple_of(TILE_K));
    }
}

#[test]
fn routing_selection_carries_the_index_so_ties_break_low() {
    let src = moe_src();
    assert!(src.contains("if (p[i] > bv || (p[i] == bv && (bi < 0 || e < bi)))"));
    assert!(src.contains("if (cv > bv || (cv == bv && ci >= 0 && (bi < 0 || ci < bi)))"));
    assert!(src.contains("if (bi >= 0 && lane + 32 * i == bi) p[i] = -1.0f;"));
}

#[test]
fn sorted_capacity_bounds_the_worst_case_at_the_real_geometry() {
    let g = qwen();
    assert_eq!(g.max_flat_pairs(), 512);
    assert_eq!(g.sorted_capacity(), 4352);
    assert_eq!(g.expert_block_capacity(), 272);
    assert!(g.sorted_capacity().is_multiple_of(g.block_size));

    let small = MoeGeometry {
        num_experts: 4,
        experts_per_token: 2,
        hidden: 8,
        intermediate: 4,
        block_size: 4,
        max_tokens: 3,
    };
    let numel = small.max_flat_pairs();
    let mut worst = 0usize;
    for a in 0..=numel {
        for b in 0..=numel - a {
            for c in 0..=numel - a - b {
                let d = numel - a - b - c;
                let total: usize = [a, b, c, d]
                    .iter()
                    .map(|&n| n.div_ceil(small.block_size) * small.block_size)
                    .sum();
                worst = worst.max(total);
            }
        }
    }
    assert!(
        small.sorted_capacity() >= worst,
        "capacity {} is below the enumerated worst case {worst}",
        small.sorted_capacity(),
    );
}

#[test]
fn every_buffer_is_sized_from_the_geometry_alone() {
    let g = qwen();
    assert_eq!(g.stack_elements(), 256 * 512 * 2048);
    assert_eq!(g.sorted_capacity() * g.intermediate, 4352 * 512);
    assert_eq!(g.max_flat_pairs() * g.hidden, 512 * 2048);
}

#[test]
fn moe_geometry_is_validated_not_assumed() {
    let bad = MoeError::UnsupportedGeometry {
        geometry: Box::new(MoeGeometry {
            block_size: 0,
            ..qwen()
        }),
        reason: "block_size must be non-zero",
    };
    assert!(bad.message().contains("block_size must be non-zero"));

    let ragged = MoeError::RaggedWeights {
        which: "gate",
        bytes: 211,
        block_bytes: 210,
    };
    assert!(ragged.message().contains("211"));

    let wrong = MoeError::WrongElementCount {
        which: "down",
        expected: 268_435_456,
        found: 1024,
    };
    assert!(wrong.message().contains("268435456"));

    let too_many = MoeError::TooManyTokens {
        tokens: 65,
        max_tokens: 64,
    };
    assert!(too_many.message().contains("65"));
}

#[test]
fn quant_block_geometry_matches_the_ggml_layout() {
    assert_eq!(ExpertQuant::Q6K.block_elements(), 256);
    assert_eq!(ExpertQuant::Q6K.file_block_bytes(), 210);
    assert_eq!(ExpertQuant::Q6K.block_bytes(), 224);
    assert_eq!(ExpertQuant::Q8_0.block_elements(), 32);
    assert_eq!(ExpertQuant::Q8_0.block_bytes(), 34);
    assert_eq!(BLOCK_Q6_K_BYTES, QK_K / 2 + QK_K / 4 + QK_K / 16 + 2);
    assert_eq!(BLOCK_Q8_0_BYTES, 2 + QK8_0);
    assert_ne!(ExpertQuant::Q6K.code(), ExpertQuant::Q8_0.code());
}

#[test]
fn the_shared_expert_has_no_indirection() {
    let src = moe_src();
    let start = src
        .find("void moe_shared_ffn")
        .expect("shared ffn present");
    let tail = &src[start..];
    assert!(
        !tail.contains("sorted_token_ids"),
        "the shared expert must not consult the routed dispatch tables",
    );
    assert!(
        !tail.contains("topk_weights"),
        "the shared expert has no routing weight",
    );
}

fn kernels(max_tokens: usize, tensor_cores: bool) -> MoeKernels {
    let mma = if tensor_cores { Some(MmaKernels::from_ptx("mma".to_string())) } else { None };
    MoeKernels::from_ptx("ptx".to_string(), mma, MoeGeometry::qwen3_6(16, max_tokens)).unwrap()
}

/// A stack of `elements` elements in `quant`.
fn stack(quant: ExpertQuant, elements: usize) -> QuantTensor {
    QuantTensor { bytes: elements / quant.block_elements() * quant.block_bytes(), quant }
}

/// Names of the launches, and of the other steps.
fn names(steps: &[MoeStep]) -> Vec<&'static str> {
    steps
        .iter()
        .map(|s| match s {
            MoeStep::Launch(l) => l.kernel,
            MoeStep::QuantizeRows { .. } => "quantize",
            MoeStep::Project { .. } => "project",
            MoeStep::Zero(_) => "zero",
        })
        .collect()
}

#[test]
fn every_unsupported_moe_geometry_is_named() {
    let g = qwen();
    let cases = [
        (MoeGeometry { block_size: 0, ..g }, "block_size must be non-zero"),
        (MoeGeometry { experts_per_token: 0, ..g }, "experts_per_token must be non-zero"),
        (
            MoeGeometry { experts_per_token: 257, ..g },
            "experts_per_token must not exceed num_experts",
        ),
        (MoeGeometry { max_tokens: 0, ..g }, "max_tokens must be non-zero"),
        (MoeGeometry { hidden: 0, ..g }, "hidden and intermediate must be non-zero"),
        (
            MoeGeometry { hidden: 100, ..g },
            "hidden must be a multiple of the 128-element tile",
        ),
        (
            MoeGeometry { intermediate: 100, ..g },
            "intermediate must be a multiple of the 128-element tile",
        ),
        (
            MoeGeometry { block_size: 33, ..g },
            "block_size exceeds the 16 slots the tensor-core tile stages",
        ),
        (
            MoeGeometry { max_tokens: 200_000, ..g },
            "dispatch-block capacity exceeds the 65535 grid.y limit",
        ),
        (
            MoeGeometry { max_tokens: 65_536, experts_per_token: 1, num_experts: 1, ..g },
            "max_tokens exceeds the 65535 grid limit",
        ),
    ];
    let mut cache = PtxCache::new();
    for (geometry, expected) in cases {
        match MoeKernels::new(&mut cache, geometry) {
            Err(MoeError::UnsupportedGeometry { reason, geometry: named }) => {
                assert_eq!(reason, expected);
                assert_eq!(*named, geometry);
            }
            _ => panic!("{expected}"),
        }
    }
    assert_eq!(nvrtc_invocations(&cache), 0);
}

#[test]
fn moe_messages_are_exact() {
    let e = MoeError::UnsupportedGeometry { geometry: Box::new(qwen()), reason: "because" };
    assert_eq!(
        e.message(),
        "unsupported MoE geometry MoeGeometry { num_experts: 256, experts_per_token: 8, \
         hidden: 2048, intermediate: 512, block_size: 16, max_tokens: 64 }: because",
    );
    let e = check_stack("gate", QuantTensor { bytes: 225, quant: ExpertQuant::Q6K }, 256);
    assert_eq!(
        e.unwrap_err().message(),
        "gate: 225 bytes is not a whole number of 224 B blocks",
    );
    let e = check_stack("down", stack(ExpertQuant::Q8_0, 64), 32);
    assert_eq!(
        e.unwrap_err().message(),
        "down: expected 32 elements for this geometry, stack holds 64",
    );
    assert!(check_stack("down", stack(ExpertQuant::Q8_0, 64), 64).is_ok());
    let e = MoeError::TooManyTokens { tokens: 65, max_tokens: 64 };
    assert_eq!(e.message(), "65 tokens exceeds the 64 the buffers were sized for");
    let e = MoeError::Mma(MmaError::RaggedContraction { k: 1 });
    assert!(e.message().starts_with("contraction length 1"));
    assert_eq!(MoeError::Compile("x".to_string()).message(), "kernel compilation failed: x");
}

#[test]
fn the_moe_family_is_served_from_the_cache() {
    let mut cache = PtxCache::new();
    record(&mut cache, &moe_src(), "moe", Ok("moe ptx".to_string())).unwrap();
    record(&mut cache, MMA_SRC, "mma_int8", Ok("mma ptx".to_string())).unwrap();
    let mut k = MoeKernels::new(&mut cache, qwen()).unwrap();
    assert_eq!(k.ptx(), "moe ptx");
    assert_eq!(k.geometry(), qwen());
    assert!(k.tensor_cores_enabled());
    k.disable_tensor_cores();
    assert!(!k.tensor_cores_enabled());
    assert_eq!(nvrtc_invocations(&cache), 2);
    let src = moe_src();
    for name in MoeKernels::entry_points() {
        assert!(src.contains(&format!("{name}(")), "{name}");
    }
}

#[test]
fn routing_and_dispatch_fuse_for_one_token_only() {
    let one = kernels(1, true);
    assert_eq!(names(&one.route_and_dispatch().unwrap()), ["moe_route_dispatch_t1"]);
    assert_eq!(names(&one.build_dispatch().unwrap()), ["moe_dispatch_t1"]);
    let many = kernels(64, true);
    assert_eq!(
        names(&many.route_and_dispatch().unwrap()),
        ["moe_route", "moe_align_count", "moe_align_block_size"],
    );
    assert_eq!(names(&many.route().unwrap()), ["moe_route"]);
    let steps = many.build_dispatch().unwrap();
    let MoeStep::Launch(place) = &steps[1] else { panic!("a launch") };
    assert_eq!(place.config.grid_dim, (256, 1, 1));
    assert_eq!(place.config.shared_mem_bytes, (256 + 1 + 256) * 4);
    assert_eq!(place.args[3..8], [8, 256, 16, 4352, 272].map(MoeArg::Int));
}

#[test]
fn routing_refuses_more_experts_than_its_warp_holds() {
    let g = MoeGeometry { num_experts: 32 * ROUTE_LANE_EXPERTS + 1, ..qwen() };
    let k = MoeKernels::from_ptx("ptx".to_string(), None, g).unwrap();
    for r in [k.route(), k.route_and_dispatch()] {
        assert!(r
            .unwrap_err()
            .message()
            .ends_with("the routing warp holds 16 experts per lane, so at most 512 experts"));
    }
    assert!(k.build_dispatch().is_ok());
}

#[test]
fn the_grouped_gemm_picks_its_path_from_tokens_and_formats() {
    let n = 256 * 512 * 2048;
    let (q6, q8) = (stack(ExpertQuant::Q6K, n), stack(ExpertQuant::Q8_0, n));
    let one = kernels(1, true);
    assert_eq!(
        names(&one.grouped_forward_partial(q6, q6, q8).unwrap()),
        ["moe_expert_ffn_gemv", "zero", "moe_expert_down_gemv"],
    );
    let many = kernels(64, true);
    assert_eq!(
        names(&many.grouped_forward_partial(q6, q6, q8).unwrap()),
        ["quantize", "moe_expert_ffn_mma", "zero", "quantize", "moe_expert_down_mma"],
    );
    assert_eq!(
        names(&many.grouped_forward_partial(q8, q8, q6).unwrap()),
        ["quantize", "moe_expert_ffn_mma_q8", "zero", "moe_expert_down"],
    );
    assert_eq!(
        names(&many.grouped_forward_partial(q6, q8, q6).unwrap()),
        ["moe_expert_ffn", "zero", "moe_expert_down"],
    );
    assert_eq!(
        names(&kernels(7, true).grouped_forward_partial(q6, q6, q8).unwrap()),
        ["moe_expert_ffn", "zero", "moe_expert_down"],
    );
    assert_eq!(
        names(&kernels(64, false).grouped_forward(q6, q6, q8).unwrap()),
        ["moe_expert_ffn", "zero", "moe_expert_down", "moe_reduce"],
    );
}

#[test]
fn the_grouped_gemm_refuses_a_wrong_stack() {
    let n = 256 * 512 * 2048;
    let q8 = stack(ExpertQuant::Q8_0, n);
    let k = kernels(64, true);
    let short = stack(ExpertQuant::Q8_0, n - 32);
    for (gate, up, down, name) in
        [(short, q8, q8, "gate"), (q8, short, q8, "up"), (q8, q8, short, "down")]
    {
        assert!(matches!(
            k.grouped_forward(gate, up, down),
            Err(MoeError::WrongElementCount { which, .. }) if which == name
        ));
    }
    let ragged = QuantTensor { bytes: q8.bytes + 1, quant: ExpertQuant::Q8_0 };
    assert!(matches!(
        k.grouped_forward_partial(ragged, q8, q8),
        Err(MoeError::RaggedWeights { which: "gate", block_bytes: 34, .. })
    ));
}

#[test]
fn tensor_core_tiles_are_sized_exactly() {
    assert_eq!(mma_shared_bytes(), 2 * 64 * 112 + 2 * 64 * 16 + 32 * 144 + 32 * 16 + 32 * 8);
    assert_eq!(mma_ffn_q8_shared_bytes(), 2 * 64 * 144 + 32 * 144 + 32 * 16 + 32 * 8);
    assert_eq!(mma_down_shared_bytes(), 64 * 144 + 32 * 144 + 32 * 16 + 32 * 8 + 32 * 4);
    let n = 256 * 512 * 2048;
    let q8 = stack(ExpertQuant::Q8_0, n);
    let steps = kernels(64, true).grouped_forward_partial(q8, q8, q8).unwrap();
    let MoeStep::Launch(ffn) = &steps[1] else { panic!("a launch") };
    assert_eq!(ffn.config.grid_dim, (512 / 64, 272, 1));
    assert_eq!(ffn.config.block_dim, (256, 1, 1));
    assert_eq!(ffn.config.shared_mem_bytes, mma_ffn_q8_shared_bytes());
}

#[test]
fn the_shared_expert_runs_without_routing() {
    let n = 512 * 2048;
    let q8 = stack(ExpertQuant::Q8_0, n);
    let many = kernels(64, true);
    let steps = many.shared_expert(q8, q8, q8).unwrap();
    assert_eq!(names(&steps), ["moe_shared_ffn", "moe_shared_down"]);
    for s in &steps {
        let MoeStep::Launch(l) = s else { panic!("a launch") };
        assert!(!l.args.contains(&MoeArg::SortedTokenIds));
        assert!(!l.args.contains(&MoeArg::TopkWeights));
        assert_eq!(l.config.grid_dim.1, 4);
    }
    let one = kernels(1, true).shared_expert(q8, q8, q8).unwrap();
    assert_eq!(names(&one), ["moe_shared_ffn_gemv", "moe_shared_down_gemv"]);
    let MoeStep::Launch(ffn) = &one[0] else { panic!("a launch") };
    assert_eq!(ffn.config.grid_dim, (512, 1, 1));
    assert_eq!(ffn.config.block_dim, (SHARED_WARPS * 32, 1, 1));
    assert!(matches!(
        many.shared_expert(q8, stack(ExpertQuant::Q8_0, n - 32), q8),
        Err(MoeError::WrongElementCount { which: "shared up", .. })
    ));
    let narrow = MoeGeometry { hidden: 128, max_tokens: 1, ..qwen() };
    let k = MoeKernels::from_ptx("ptx".to_string(), None, narrow).unwrap();
    let w = stack(ExpertQuant::Q8_0, 512 * 128);
    assert!(k.shared_expert(w, w, w).unwrap_err().message().contains("8 warps"));
}

#[test]
fn the_integer_shared_expert_needs_its_module() {
    let steps = kernels(64, true).shared_expert_mma().unwrap();
    assert_eq!(
        names(&steps),
        ["quantize", "project", "project", "moe_swiglu", "quantize", "project"],
    );
    let MoeStep::Project { output, k, n, m, .. } = &steps[5] else { panic!("a projection") };
    assert_eq!((*output, *k, *n, *m), (MoeArg::Output, 512, 2048, 64));
    assert!(kernels(64, false)
        .shared_expert_mma()
        .unwrap_err()
        .message()
        .ends_with("the integer tensor cores are unavailable on this device"));
}

#[test]
fn buffers_are_sized_for_the_worst_case() {
    let k = kernels(64, true);
    let mut b = k.buffers();
    let s = b.sizes();
    assert_eq!((b.topk_ids(), b.topk_weights(), b.partial()), (512, 512, 512 * 2048));
    assert_eq!((b.sorted_token_ids(), b.expert_ids()), (4352, 272));
    assert_eq!((b.num_tokens_post_pad(), b.valid_tokens()), (1, 1));
    assert_eq!((s.inter, s.iq, s.iq_scales), (4352 * 512, 4352 * 512, 4352 * 16));
    assert_eq!((s.xq, s.xq_scales), (64 * 2048, 64 * 64));
    let words = s.topk_ids + s.topk_weights + s.sorted_token_ids + s.expert_ids + s.expert_counts
        + s.num_tokens_post_pad + s.valid_tokens + s.inter + s.partial + s.shared_inter
        + s.xq_scales + s.iq_scales + s.shared_gate_out + s.shared_swiglu + s.siq_scales;
    assert_eq!(b.bytes(), 4 * words + s.xq + s.iq + s.siq);
    assert_eq!(k.set_valid_tokens(&b, 3).unwrap(), Some(3));
    b.publish(3);
    assert_eq!(k.set_valid_tokens(&b, 3).unwrap(), None);
    assert_eq!(k.set_valid_tokens(&b, 4).unwrap(), Some(4));
    assert!(matches!(
        k.set_valid_tokens(&b, 65),
        Err(MoeError::TooManyTokens { tokens: 65, max_tokens: 64 })
    ));
}

#[test]
fn only_q8_0_is_repacked_for_the_integer_path() {
    let mut cache = PtxCache::new();
    let (q6, q8) = (stack(ExpertQuant::Q6K, 1024), stack(ExpertQuant::Q8_0, 1024));
    for (gate, up, down, name) in
        [(q6, q8, q8, "shared gate"), (q8, q6, q8, "shared up"), (q8, q8, q6, "shared down")]
    {
        let e = SharedExpertInt8::repack(&mut cache, gate, up, down, 1024).err().unwrap();
        assert!(e.message().ends_with(&format!("{name} is not Q8_0")));
    }
    assert_eq!(nvrtc_invocations(&cache), 0);
    record(&mut cache, MMA_SRC, "mma_int8", Ok("mma ptx".to_string())).unwrap();
    let (packed, module) = SharedExpertInt8::repack(&mut cache, q8, q8, q8, 1024).ok().unwrap();
    assert_eq!(packed.bytes(), 3 * 1024 + 3 * 32 * 4);
    assert_eq!(module.ptx(), "mma ptx");
    let failed = Err(MmaError::Compile("nope".to_string()));
    assert!(matches!(
        SharedExpertInt8::with_module(failed, q8, q8, q8, 1024),
        Err(MoeError::Mma(MmaError::Compile(_)))
    ));
}

#[test]
fn the_device_layout_pads_q6_k_and_borrows_q8_0() {
    let bytes: Vec<u8> = (0..420u32).map(|i| (i % 251) as u8).collect();
    let out = to_device_layout(ExpertQuant::Q6K, &bytes);
    assert_eq!(out.len(), 448);
    for b in 0..2 {
        assert_eq!(out[b * 224..b * 224 + 210], bytes[b * 210..(b + 1) * 210]);
        assert!(out[b * 224 + 210..(b + 1) * 224].iter().all(|&x| x == 0));
        assert_eq!(b * 224 % 16, 0);
    }
    assert!(matches!(to_device_layout(ExpertQuant::Q8_0, &bytes), Cow::Borrowed(s) if s == bytes));
    assert_eq!(to_device_layout(ExpertQuant::Q6K, &bytes[..209]).len(), 0);
}

#[test]
fn the_dispatch_capacity_is_reached_by_a_full_step() {
    let g = MoeGeometry {
        num_experts: 4,
        experts_per_token: 2,
        hidden: 128,
        intermediate: 128,
        block_size: 4,
        max_tokens: 4,
    };
    let counts = [1usize, 1, 1, 5];
    assert_eq!(counts.iter().sum::<usize>(), g.max_flat_pairs());
    let padded: usize = counts.iter().map(|c| c.div_ceil(4) * 4).sum();
    assert_eq!(padded, 20);
    assert_eq!(g.sorted_capacity(), 20);
    assert_eq!(g.expert_block_capacity(), 5);
}

#[test]
fn expert_runs_do_not_overlap() {
    let g = MoeGeometry {
        num_experts: 4,
        experts_per_token: 1,
        hidden: 128,
        intermediate: 128,
        block_size: 4,
        max_tokens: 13,
    };
    let (counts, block) = ([3usize, 0, 9, 1], g.block_size);
    assert_eq!(counts.iter().sum::<usize>(), g.max_flat_pairs());
    let mut start = 0;
    let mut runs = Vec::new();
    for c in counts {
        runs.push(start..start + c);
        start += c.div_ceil(block) * block;
    }
    for (i, a) in runs.iter().enumerate() {
        for b in &runs[i + 1..] {
            assert!(a.end <= b.start);
        }
    }
    assert_eq!(start, 20);
    assert!(start <= g.sorted_capacity());
    assert!(start / block <= g.expert_block_capacity());
}

#[test]
fn a_shared_expert_without_tensor_cores_is_refused_at_any_size() {
    let g = MoeGeometry { intermediate: 1 << 60, ..MoeGeometry::qwen3_6(16, 64) };
    let mma = Some(MmaKernels::from_ptx("mma".to_string()));
    let mut k = MoeKernels::from_ptx("ptx".to_string(), mma, g).unwrap();
    assert!(k.tensor_cores_enabled());
    k.disable_tensor_cores();
    assert!(!k.tensor_cores_enabled());
    let Err(MoeError::UnsupportedGeometry { reason, .. }) = k.shared_expert_mma() else {
        panic!("a refusal");
    };
    assert_eq!(reason, "the integer tensor cores are unavailable on this device");
}

#[test]
fn the_shared_expert_touches_no_dispatch_buffer() {
    let q8 = stack(ExpertQuant::Q8_0, 512 * 2048);
    let k = kernels(64, true);
    let mut steps = k.shared_expert(q8, q8, q8).unwrap();
    steps.extend(k.shared_expert_mma().unwrap());
    assert_eq!(steps.len(), 8);
    for step in &steps {
        let args = match step {
            MoeStep::Launch(l) => l.args.clone(),
            MoeStep::QuantizeRows { source, quants, scales, .. } => vec![*source, *quants, *scales],
            MoeStep::Project { weight, weight_scales, input, input_scales, output, .. } => {
                vec![*weight, *weight_scales, *input, *input_scales, *output]
            }
            MoeStep::Zero(arg) => vec![*arg],
        };
        for arg in args {
            assert!(!matches!(
                arg,
                MoeArg::SortedTokenIds
                    | MoeArg::ExpertIds
                    | MoeArg::ExpertCounts
                    | MoeArg::NumTokensPostPad
                    | MoeArg::TopkIds
                    | MoeArg::TopkWeights,
            ));
        }
    }
}

#[test]
fn row_bands_and_token_tiles_cover_their_extents() {
    for max_tokens in [2usize, 16, 17, 64] {
        let k = kernels(max_tokens, false);
        let n = 512 * 2048;
        let q8 = stack(ExpertQuant::Q8_0, n);
        for (step, rows) in k.shared_expert(q8, q8, q8).unwrap().iter().zip([512u32, 2048]) {
            let MoeStep::Launch(l) = step else { panic!("a launch") };
            assert_eq!(l.config.grid_dim.0 * TILE_ROWS, rows);
            assert!(l.config.grid_dim.1 as usize * TILE_M >= max_tokens);
            assert!((l.config.grid_dim.1 as usize - 1) * TILE_M < max_tokens);
        }
    }
}
