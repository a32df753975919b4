//! The vision tower.

use xabe_cuda::kernels::ptx::{record, PtxCache};
use xabe_cuda::kernels::vision::{
    check_len, check_min, Factor, MatmulBuffer, MatmulPlan, VisionArg, VisionError, VisionKernels,
};
use xabe_cuda::source::vision::VISION_SRC;

fn kernels() -> VisionKernels {
    VisionKernels::from_ptx("ptx".to_string())
}

fn refused(name: &str, e: VisionError) -> bool {
    matches!(e, VisionError::WrongLength { name: n, .. } if n == name)
}

#[test]
fn vision_is_served_from_the_cache() {
    let mut cache = PtxCache::new();
    record(&mut cache, VISION_SRC, "vision", Ok(".entry".to_string())).unwrap();
    assert_eq!(VisionKernels::new(&mut cache).unwrap().ptx(), ".entry");
    for name in VisionKernels::entry_points() {
        assert!(VISION_SRC.contains(&format!("void {name}(")));
    }
}

#[test]
fn vision_messages_are_exact() {
    let e = VisionError::WrongLength { name: "gelu x", expected: 4, got: 3 };
    assert_eq!(e.message(), "gelu x: expected 4 elements, got 3");
    let e = VisionError::Build("vision: x".to_string());
    assert_eq!(e.message(), "vision kernel build failed: vision: x");
}

#[test]
fn activations_may_be_longer_and_weights_may_not() {
    assert!(check_min("x", 4, 4).is_ok() && check_min("x", 4, 5).is_ok());
    assert!(check_min("x", 4, 3).is_err());
    assert!(check_len("w", 4, 4).is_ok());
    assert!(check_len("w", 4, 3).is_err() && check_len("w", 4, 5).is_err());
}

#[test]
fn layer_norm_checks_its_four_buffers() {
    let k = kernels();
    let l = k.layer_norm(2 * 1152, 2 * 1152 + 9, 1152, 1152, 2, 1152).unwrap().unwrap();
    assert_eq!((l.kernel, l.config.grid_dim), ("vision_layer_norm", (2, 1, 1)));
    assert_eq!(l.config.block_dim, (256, 1, 1));
    assert_eq!(
        l.args,
        [
            VisionArg::X,
            VisionArg::Out,
            VisionArg::Gamma,
            VisionArg::Beta,
            VisionArg::Int(1152),
            VisionArg::Eps,
        ],
    );
    assert!(refused("layer_norm x", k.layer_norm(7, 8, 4, 4, 2, 4).unwrap_err()));
    assert!(refused("layer_norm out", k.layer_norm(8, 7, 4, 4, 2, 4).unwrap_err()));
    assert!(refused("layer_norm gamma", k.layer_norm(8, 8, 5, 4, 2, 4).unwrap_err()));
    assert!(refused("layer_norm beta", k.layer_norm(8, 8, 4, 5, 2, 4).unwrap_err()));
    assert!(k.layer_norm(0, 0, 4, 4, 0, 4).unwrap().is_none());
}

#[test]
fn elementwise_kernels_take_one_thread_per_element() {
    let k = kernels();
    let l = k.gelu(300, 257).unwrap().unwrap();
    assert_eq!((l.kernel, l.config.grid_dim), ("vision_gelu", (2, 1, 1)));
    assert_eq!(l.args, [VisionArg::X, VisionArg::Long(257)]);
    assert!(refused("gelu x", k.gelu(256, 257).unwrap_err()));
    assert!(k.gelu(0, 0).unwrap().is_none());
    let l = k.add_assign(8, 9, 8).unwrap().unwrap();
    assert_eq!(l.args, [VisionArg::A, VisionArg::B, VisionArg::Long(8)]);
    assert_eq!(l.kernel, "vision_add_f16");
    let e = k.add_assign(9, 3, 8).unwrap_err();
    assert_eq!(e.message(), "add_assign: expected 8 elements, got 3");
    assert!(k.add_assign(0, 0, 0).unwrap().is_none());
    let l = k.to_f32(8, 8, 8).unwrap().unwrap();
    assert_eq!(l.kernel, "vision_half_to_float");
    let e = k.to_f32(2, 5, 8).unwrap_err();
    assert_eq!(e.message(), "to_f32: expected 8 elements, got 2");
    assert!(k.to_f32(0, 0, 0).unwrap().is_none());
}

#[test]
fn rope_rotates_queries_and_keys_of_every_head_once() {
    let (tokens, hidden, head_dim) = (3, 32, 8);
    let k = kernels();
    let l = k.rope_qk(tokens * 3 * hidden, tokens * 2, tokens, hidden, head_dim).unwrap().unwrap();
    assert_eq!(l.config.grid_dim, (3, 2, 4));
    assert_eq!(l.config.block_dim, (4, 1, 1));
    let mut seen = vec![0; tokens * 3 * hidden];
    for token in 0..tokens {
        for slice in 0..2 {
            for head in 0..4 {
                for j in 0..4 {
                    let base = token * 3 * hidden + slice * hidden + head * head_dim;
                    seen[base + j] += 1;
                    seen[base + j + 4] += 1;
                }
            }
        }
    }
    for (i, n) in seen.iter().enumerate() {
        assert_eq!(*n, if i % (3 * hidden) < 2 * hidden { 1 } else { 0 });
    }
    let short = k.rope_qk(tokens * 3 * hidden - 1, 6, tokens, hidden, head_dim);
    assert!(refused("rope qkv", short.unwrap_err()));
    let short = k.rope_qk(tokens * 3 * hidden, 5, tokens, hidden, head_dim);
    assert!(refused("rope positions", short.unwrap_err()));
    assert!(k.rope_qk(0, 0, 0, hidden, head_dim).unwrap().is_none());
}

#[test]
fn every_dimension_and_frequency_has_one_thread() {
    let l = kernels().rope_qk(3 * 32, 2, 1, 32, 16).unwrap().unwrap();
    let threads = l.config.block_dim.0 as usize;
    let mut dimensions = vec![0; 16];
    let mut turns = vec![[0; 4]; 2];
    for j in 0..threads {
        dimensions[j] += 1;
        dimensions[j + threads] += 1;
        turns[j / 4][j % 4] += 1;
    }
    assert!(dimensions.iter().all(|n| *n == 1));
    assert!(turns.iter().flatten().all(|n| *n == 1));
}

#[test]
fn softmax_launches_one_block_per_row() {
    let k = kernels();
    let l = k.softmax_rows(6, 2, 3).unwrap().unwrap();
    assert_eq!((l.kernel, l.config.grid_dim), ("vision_softmax_rows", (2, 1, 1)));
    assert_eq!(l.args, [VisionArg::Scores, VisionArg::Int(3)]);
    assert!(refused("softmax scores", k.softmax_rows(5, 2, 3).unwrap_err()));
    assert!(k.softmax_rows(0, 0, 3).unwrap().is_none());
}

/// Runs a product on integers, as a column-major BLAS does.
fn multiply(p: &MatmulPlan, a: &[i64], b: &[i64], c: &mut [i64]) {
    for batch in 0..p.batch_size.unwrap_or(1) as i64 {
        for row in 0..p.m as i64 {
            for col in 0..p.n as i64 {
                let mut sum = 0;
                for x in 0..p.k as i64 {
                    let ai = if p.transa { row * p.lda + x } else { x * p.lda + row };
                    let bi = if p.transb { x * p.ldb + col } else { col * p.ldb + x };
                    let ai = p.a.offset as i64 + batch * p.stride_a.unwrap_or(0) + ai;
                    let bi = p.b.offset as i64 + batch * p.stride_b.unwrap_or(0) + bi;
                    sum += a[ai as usize] * b[bi as usize];
                }
                let ci = p.c.offset as i64 + batch * p.stride_c.unwrap_or(0) + col * p.ldc + row;
                c[ci as usize] = sum;
            }
        }
    }
}

#[test]
fn a_projection_multiplies_by_the_transposed_weight() {
    let (tokens, inp, out) = (2, 3, 4);
    let p = kernels().proj(6, 12, Some(4), 8, tokens, inp, out).unwrap().unwrap();
    assert!(p.bias);
    assert_eq!((p.alpha, p.beta), (Factor::One, Factor::Given));
    assert_eq!((p.a.buffer, p.b.buffer), (MatmulBuffer::Weight, MatmulBuffer::Input));
    let w: Vec<i64> = (0..12).collect();
    let x: Vec<i64> = (0..6).map(|i| i * 7 - 3).collect();
    let mut y = vec![0; 8];
    multiply(&p, &w, &x, &mut y);
    for t in 0..tokens {
        for o in 0..out {
            let expected: i64 = (0..inp).map(|i| x[t * inp + i] * w[o * inp + i]).sum();
            assert_eq!(y[t * out + o], expected);
        }
    }
}

#[test]
fn a_projection_refuses_in_order() {
    let k = kernels();
    let e = k.proj(6, 11, None, 8, 2, 3, 4).unwrap_err();
    assert_eq!(e.message(), "proj w: expected 12 elements, got 11");
    let e = k.proj(5, 12, None, 8, 2, 3, 4).unwrap_err();
    assert_eq!(e.message(), "proj x/y: expected 8 elements, got 5");
    let e = k.proj(6, 12, None, 7, 2, 3, 4).unwrap_err();
    assert_eq!(e.message(), "proj x/y: expected 8 elements, got 6");
    let e = k.proj(6, 12, Some(3), 8, 2, 3, 4).unwrap_err();
    assert_eq!(e.message(), "proj bias: expected 4 elements, got 3");
    assert_eq!(k.proj(0, 12, None, 0, 0, 3, 4).unwrap(), None);
    assert!(!k.proj(6, 12, None, 8, 2, 3, 4).unwrap().unwrap().bias);
}

#[test]
fn attention_products_follow_the_fused_layout() {
    let (tokens, heads, head_dim) = (3, 2, 2);
    let hidden = heads * head_dim;
    let row = 3 * hidden;
    let k = kernels();
    let buf: Vec<i64> = (0..(tokens * row) as i64).map(|i| i * 5 % 11 - 4).collect();
    let p = k
        .attn_scores(buf.len(), 0, hidden, heads * 9, tokens, row, head_dim, heads)
        .unwrap()
        .unwrap();
    assert_eq!((p.alpha, p.beta, p.batch_size), (Factor::Given, Factor::Zero, Some(2)));
    let mut scores = vec![0; heads * 9];
    multiply(&p, &buf, &buf, &mut scores);
    for h in 0..heads {
        for q in 0..tokens {
            for kk in 0..tokens {
                let expected: i64 = (0..head_dim)
                    .map(|d| {
                        buf[q * row + h * head_dim + d] * buf[kk * row + hidden + h * head_dim + d]
                    })
                    .sum();
                assert_eq!(scores[(h * tokens + q) * tokens + kk], expected);
            }
        }
    }
    let p = k
        .attn_output(
            scores.len(),
            buf.len(),
            2 * hidden,
            tokens * hidden,
            0,
            tokens,
            row,
            hidden,
            head_dim,
            heads,
        )
        .unwrap()
        .unwrap();
    assert_eq!((p.alpha, p.beta), (Factor::One, Factor::Zero));
    let mut out = vec![0; tokens * hidden];
    multiply(&p, &buf, &scores, &mut out);
    for h in 0..heads {
        for q in 0..tokens {
            for d in 0..head_dim {
                let expected: i64 = (0..tokens)
                    .map(|kk| {
                        scores[(h * tokens + q) * tokens + kk]
                            * buf[kk * row + 2 * hidden + h * head_dim + d]
                    })
                    .sum();
                assert_eq!(out[q * hidden + h * head_dim + d], expected);
            }
        }
    }
}

#[test]
fn attention_products_refuse_short_score_buffers() {
    let k = kernels();
    let e = k.attn_scores(36, 0, 4, 17, 3, 12, 2, 2).unwrap_err();
    assert_eq!(e.message(), "attn scores: expected 18 elements, got 17");
    let e = k.attn_output(17, 36, 8, 12, 0, 3, 12, 4, 2, 2).unwrap_err();
    assert_eq!(e.message(), "attn probs: expected 18 elements, got 17");
    assert_eq!(k.attn_scores(36, 0, 4, 18, 3, 12, 2, 0).unwrap(), None);
    assert_eq!(k.attn_output(0, 36, 8, 12, 0, 0, 12, 4, 2, 2).unwrap(), None);
}
