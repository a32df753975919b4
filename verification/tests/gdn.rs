//! The recurrent gated delta rule.

use xabe_cuda::kernels::gdn::{GdnArg, STEP_MAX_BATCH};
use xabe_cuda::kernels::ptx::{nvrtc_invocations, record, PtxCache};
use xabe_cuda::source::gdn::GDN_SRC;
use xabe_cuda::{GdnError, GdnKernels, GdnScratch};

#[test]
fn the_source_updates_the_state_before_reading_the_output() {
    let update = GDN_SRC
        .find("sv.x += vcorr * kc[c].x;")
        .expect("update present");
    let output = GDN_SRC
        .find("float o = warp_reduce_sum(partial);")
        .expect("output read present");
    assert!(update < output, "output is read before the state update");
}

#[test]
fn the_correction_is_formed_against_the_decayed_state() {
    let decay = GDN_SRC.find("sv.x *= decay;").expect("decay present");
    let predicted = GDN_SRC
        .find("float predicted = warp_reduce_sum(partial);")
        .expect("correction present");
    assert!(decay < predicted, "correction uses the undecayed state");
}

#[test]
fn gdn_the_scale_is_folded_into_q_only() {
    assert!(
        GDN_SRC.contains("q_out[base + j] = qv * (1.0f / fmaxf(sqrtf(q_sq), eps)) * scale;")
    );
    assert!(GDN_SRC.contains("k_out[base + j] = kv * (1.0f / fmaxf(sqrtf(k_sq), eps));"));
}

#[test]
fn gdn_the_l2_epsilon_floors_the_norm_rather_than_being_added_to_the_sum() {
    assert!(
        !GDN_SRC.contains("q_sq + eps"),
        "the L2 epsilon reverted to being added to the sum of squares",
    );
    assert!(!GDN_SRC.contains("k_sq + eps"));
}

#[test]
fn gdn_the_query_key_head_is_selected_by_modulo_not_division() {
    assert!(GDN_SRC.contains("int qk_head = h % qk_heads;"));
    assert!(
        !GDN_SRC.contains("heads_per_kv"),
        "the kernel still takes the sharing ratio, which only a division \
         mapping needs",
    );
}

#[test]
fn gdn_head_geometry_is_validated_not_assumed() {
    let bad_dim = GdnError::UnsupportedHeadDim { head_dim: 100 };
    assert!(bad_dim.message().contains("100"));
    let bad_group = GdnError::UnevenHeadGrouping {
        value_heads: 32,
        qk_heads: 5,
    };
    assert!(bad_group.message().contains("32"));
    assert_eq!(128 % 32, 0);
    assert_eq!(32 % 16, 0);
}

fn kernels() -> GdnKernels {
    GdnKernels::from_ptx("ptx".to_string(), 128, 32, 16).unwrap()
}

#[test]
fn gdn_refuses_an_unsupported_geometry_before_compiling() {
    let mut cache = PtxCache::new();
    for head_dim in [0, 64, 192, 640] {
        assert!(matches!(
            GdnKernels::new(&mut cache, head_dim, 32, 16),
            Err(GdnError::UnsupportedHeadDim { head_dim: d }) if d == head_dim
        ));
    }
    assert!(matches!(
        GdnKernels::new(&mut cache, 128, 32, 0),
        Err(GdnError::UnevenHeadGrouping { value_heads: 32, qk_heads: 0 })
    ));
    let e = GdnKernels::new(&mut cache, 128, 32, 5).err().unwrap();
    assert_eq!(e.message(), "32 value heads do not divide evenly among 5 query/key heads");
    assert_eq!(nvrtc_invocations(&cache), 0);
    assert_eq!(
        GdnError::UnsupportedHeadDim { head_dim: 100 }.message(),
        "head_dim 100 must be a positive multiple of 128 and at most 512",
    );
    assert_eq!(GdnError::Compile("x".to_string()).message(), "kernel compilation failed: x");
}

#[test]
fn gdn_is_served_from_the_cache() {
    let mut cache = PtxCache::new();
    record(&mut cache, GDN_SRC, "gdn", Ok(".entry".to_string())).unwrap();
    let k = GdnKernels::new(&mut cache, 128, 32, 16).unwrap();
    assert_eq!(k.ptx(), ".entry");
    assert_eq!(nvrtc_invocations(&cache), 1);
    for name in GdnKernels::entry_points() {
        assert!(GDN_SRC.contains(&format!("void {name}(")));
    }
}

#[test]
fn gdn_sizes_are_exact_at_the_real_geometry() {
    let k = kernels();
    assert_eq!(k.heads_per_kv(), 2);
    assert_eq!(k.state_bytes(), 2 * 1024 * 1024);
    assert_eq!(k.scratch(), GdnScratch { q_norm: 8 * 16 * 128, k_norm: 8 * 16 * 128 });
}

#[test]
fn a_step_is_a_batch_of_one() {
    let k = kernels();
    let (one, batch) = (k.step(0xabc0), k.step_batch_raw(&[0xabc0]));
    for (a, b) in one.iter().zip(&batch) {
        assert_eq!(a.kernel, b.kernel);
        assert_eq!(a.config, b.config);
        assert_eq!(a.args, b.args);
    }
    assert_eq!(one[0].config.grid_dim, (16, 1, 1));
    assert_eq!(one[0].config.block_dim, (128, 1, 1));
    assert_eq!(one[0].config.shared_mem_bytes, 16);
    assert_eq!(one[1].config.grid_dim, (32, 32, 1));
    assert_eq!(one[1].config.block_dim, (128, 1, 1));
    assert!(one[1].args[..8].iter().all(|a| *a == GdnArg::State(0xabc0)));
}

#[test]
fn unused_slots_repeat_the_first_state() {
    let k = kernels();
    let launches = k.step_batch_raw(&[10, 20, 30]);
    let step = &launches[1];
    assert_eq!(step.config.grid_dim.2, 3);
    let slots: Vec<GdnArg> = [10, 20, 30, 10, 10, 10, 10, 10].map(GdnArg::State).to_vec();
    assert_eq!(step.args[..8], slots[..]);
    assert_eq!(
        step.args[8..],
        [
            GdnArg::QNorm,
            GdnArg::KNorm,
            GdnArg::Value,
            GdnArg::LogDecay,
            GdnArg::Beta,
            GdnArg::Output,
            GdnArg::Int(128),
            GdnArg::Int(16),
        ],
    );
    assert_eq!(launches[0].config.grid_dim, (48, 1, 1));
}

#[test]
fn a_sequence_gets_the_same_shape_alone_and_in_a_batch() {
    let k = kernels();
    let states: Vec<u64> = (1..=STEP_MAX_BATCH as u64).collect();
    let batch = k.step_batch_raw(&states);
    for (z, &state) in states.iter().enumerate() {
        let single = k.step(state);
        assert_eq!(batch[1].args[z], single[1].args[0]);
        assert_eq!(batch[1].args[8..], single[1].args[8..]);
        assert_eq!(batch[1].config.block_dim, single[1].config.block_dim);
    }
}

#[test]
fn warps_and_lanes_cover_the_state_once() {
    let k = kernels();
    let step = &k.step(1)[1];
    let warps = step.config.block_dim.0 / 32;
    let mut seen = vec![0; 128 * 128];
    for block in 0..step.config.grid_dim.0 {
        for warp in 0..warps {
            let vi = (block * warps + warp) as usize;
            for lane in 0..32usize {
                for e in 0..4 {
                    seen[vi * 128 + 4 * lane + e] += 1;
                }
            }
        }
    }
    assert!(seen.iter().all(|&n| n == 1));
}

#[test]
fn value_heads_share_query_heads_by_modulo() {
    let k = kernels();
    for hq in 0..16 {
        let sharing: Vec<usize> = (0..32).filter(|h| h % 16 == hq).collect();
        assert_eq!(sharing, [hq, hq + 16]);
        assert_eq!(sharing.len(), k.heads_per_kv());
    }
}
