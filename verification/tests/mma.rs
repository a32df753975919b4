//! The tensor-core GEMM.

use xabe_cuda::kernels::mma::{expect_len, MmaArg, MmaError, MmaKernels, MMA_K, MMA_M, MMA_N};
use xabe_cuda::kernels::ptx::{record, PtxCache};
use xabe_cuda::source::mma::MMA_SRC;

#[test]
fn the_kernel_uses_the_turing_shape_and_not_the_ampere_one() {
    assert!(
        MMA_SRC.contains("mma.sync.aligned.m8n8k16.row.col.s32.s8.s8.s32"),
        "the int8 Turing shape must be the one emitted",
    );
    assert!(
        !MMA_SRC.contains("m16n8k16"),
        "m16n8k16 requires sm_80; it must be decomposed, not emitted",
    );
}

#[test]
fn the_fragment_slots_match_the_rust_side_spelling() {
    assert!(
        MMA_SRC.contains("(lane >> 2)"),
        "row/col split is lane >> 2"
    );
    assert!(MMA_SRC.contains("(lane & 3) * 4"), "operand stride is 4");
    assert!(
        MMA_SRC.contains("(lane & 3) * 2"),
        "accumulator stride is 2, not 4 — this asymmetry is the trap",
    );
}

#[test]
fn the_instruction_geometry_is_not_tunable() {
    assert_eq!((MMA_M, MMA_N, MMA_K), (8, 8, 16));
}

#[test]
fn the_gemm_launches_one_warp_per_tile() {
    let mut cache = PtxCache::new();
    record(&mut cache, MMA_SRC, "mma_int8", Ok(".entry".to_string())).unwrap();
    let k = MmaKernels::new(&mut cache).unwrap();
    assert_eq!(k.ptx(), ".entry");
    assert_eq!(MmaKernels::entry_points(), ["mma_int8_gemm"]);
    let l = k.gemm(17 * 32, 9 * 32, 17 * 9, 17, 9, 32).unwrap();
    assert_eq!(l.kernel, "mma_int8_gemm");
    assert_eq!(l.config.grid_dim, (2, 3, 1));
    assert_eq!(l.config.block_dim, (32, 1, 1));
    assert_eq!(l.args[3..], [17, 9, 32].map(MmaArg::Int));
}

#[test]
fn a_ragged_contraction_is_refused_first() {
    let k = MmaKernels::from_ptx("ptx".to_string());
    let e = k.gemm(0, 0, 0, 8, 8, 17).unwrap_err();
    assert_eq!(
        e.message(),
        "contraction length 17 is not a multiple of 16, which is the instruction's K and not a \
         tunable",
    );
    assert!(matches!(
        k.gemm(0, 0, 0, usize::MAX, usize::MAX, 17),
        Err(MmaError::RaggedContraction { k: 17 }),
    ));
    assert!(matches!(k.gemm(127, 128, 64, 8, 8, 16), Err(MmaError::BufferShape { what: "a", .. })));
    assert!(matches!(k.gemm(128, 127, 64, 8, 8, 16), Err(MmaError::BufferShape { what: "b", .. })));
    let e = k.gemm(128, 128, 63, 8, 8, 16).unwrap_err();
    assert_eq!(e.message(), "d holds 63 elements, the shape implies 64");
    assert!(expect_len("a", 1, 1).is_ok());
    let e = MmaError::Compile("x".to_string());
    assert_eq!(e.message(), "integer MMA kernel compilation failed: x");
}

#[test]
fn fragments_tile_their_operands_once() {
    let mut acc = vec![0; MMA_M * MMA_N];
    let mut operand = vec![0; MMA_M * MMA_K];
    for lane in 0..32 {
        for i in 0..2 {
            acc[(lane >> 2) * MMA_N + (lane & 3) * 2 + i] += 1;
        }
        for i in 0..4 {
            operand[(lane >> 2) * MMA_K + (lane & 3) * 4 + i] += 1;
        }
    }
    assert!(acc.iter().chain(&operand).all(|&n| n == 1));
}
