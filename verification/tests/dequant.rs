//! Q8_0 and Q6_K dequantization.

use xabe_cuda::kernels::dequant::{
    DequantArg, BLOCK_Q6_K_BYTES, BLOCK_Q8_0_BYTES, QK8_0, QK_K,
};
use xabe_cuda::kernels::ptx::{record, PtxCache};
use xabe_cuda::source::dequant::DEQUANT_SRC;
use xabe_cuda::{DequantError, Dequantizer};

#[test]
fn block_sizes_match_the_ggml_layout() {
    assert_eq!(BLOCK_Q8_0_BYTES, 2 + QK8_0);
    assert_eq!(BLOCK_Q6_K_BYTES, QK_K / 2 + QK_K / 4 + QK_K / 16 + 2);
}

#[test]
fn the_q6_k_source_offsets_partition_the_superblock() {
    assert_eq!(0 + QK_K / 2, 128);
    assert_eq!(128 + QK_K / 4, 192);
    assert_eq!(192 + QK_K / 16, 208);
    assert_eq!(208 + 2, BLOCK_Q6_K_BYTES);
}

#[test]
fn the_source_multiplies_in_the_reference_order() {
    assert!(
        DEQUANT_SRC.contains("d * (float)sc[is]     * (float)(raw1 - 32)"),
        "Q6_K reassociated away from (d * scale) * q",
    );
    assert!(
        DEQUANT_SRC.contains("(float)q * d"),
        "Q8_0 reassociated away from q * d",
    );
}

#[test]
fn quants_are_read_as_signed() {
    assert!(DEQUANT_SRC.contains("(signed char)base[2 + lane]"));
    assert!(DEQUANT_SRC.contains("(const signed char*)(base + 192"));
}

fn kernels() -> Dequantizer {
    Dequantizer::from_ptx("ptx".to_string())
}

#[test]
fn a_cached_source_builds_the_dequantizer() {
    let mut cache = PtxCache::new();
    record(&mut cache, DEQUANT_SRC, "dequant", Ok(".entry".to_string())).unwrap();
    let k = Dequantizer::new(&mut cache).unwrap();
    assert_eq!(k.ptx(), ".entry");
    for name in Dequantizer::entry_points() {
        assert!(DEQUANT_SRC.contains(&format!("void {name}(")));
    }
}

#[test]
fn q8_0_plans_one_thread_per_element() {
    let p = kernels().q8_0(10 * 34).unwrap();
    assert_eq!(p.elements, 320);
    assert_eq!(p.launch.kernel, "dequantize_q8_0");
    assert_eq!(p.launch.config.grid_dim, (2, 1, 1));
    assert_eq!(p.launch.config.block_dim, (256, 1, 1));
    assert_eq!(p.launch.args, [DequantArg::Source, DequantArg::Output, DequantArg::Long(320)]);
}

#[test]
fn q6_k_plans_sixty_four_threads_per_superblock() {
    let p = kernels().q6_k(5 * 210).unwrap();
    assert_eq!(p.elements, 1280);
    assert_eq!(p.launch.kernel, "dequantize_q6_k");
    assert_eq!(p.launch.config.grid_dim, (2, 1, 1));
    assert_eq!(p.launch.args[2], DequantArg::Long(5));
}

#[test]
fn a_ragged_tensor_is_rejected_not_truncated() {
    let k = kernels();
    let e = k.q8_0(35).unwrap_err();
    assert_eq!(e.message(), "35 bytes is not a whole number of q8_0 blocks of 34 B");
    let e = k.q6_k(34).unwrap_err();
    assert_eq!(e.message(), "34 bytes is not a whole number of q6_K blocks of 210 B");
    assert_eq!(k.q8_0(0).unwrap().elements, 0);
    let e = DequantError::Compile("dequant: x".to_string());
    assert_eq!(e.message(), "kernel compilation failed: dequant: x");
}

#[test]
fn q6_k_threads_write_every_element_once() {
    let superblocks = 3;
    let p = kernels().q6_k(superblocks * 210).unwrap();
    let threads = (p.launch.config.grid_dim.0 * p.launch.config.block_dim.0) as usize;
    let mut seen = vec![0; p.elements];
    for t in 0..threads {
        if t >= superblocks * 64 {
            continue;
        }
        let (sb, half, l) = (t / 64, t % 64 / 32, t % 32);
        assert!(sb * 210 + 192 + half * 8 + l / 16 + 6 < (sb + 1) * 210 - 2);
        for quarter in 0..4 {
            seen[sb * 256 + half * 128 + quarter * 32 + l] += 1;
        }
    }
    assert!(seen.iter().all(|&n| n == 1));
}

#[test]
fn q8_0_codes_are_read_once_and_behind_their_delta() {
    let bytes = 4 * 34;
    let n = kernels().q8_0(bytes).unwrap().elements;
    let mut reads = vec![0; bytes];
    for i in 0..n {
        reads[i / 32 * 34 + 2 + i % 32] += 1;
    }
    for (at, &count) in reads.iter().enumerate() {
        assert_eq!(count, if at % 34 < 2 { 0 } else { 1 });
    }
}

#[test]
fn q6_k_codes_use_every_bit_of_their_bytes() {
    let (low, low2, high) = (0xA5u8, 0x3Cu8, 0b1101_0010u8);
    let raw1 = (low & 0xF) | ((high & 3) << 4);
    let raw2 = (low2 & 0xF) | (((high >> 2) & 3) << 4);
    let raw3 = (low >> 4) | (((high >> 4) & 3) << 4);
    let raw4 = (low2 >> 4) | (((high >> 6) & 3) << 4);
    assert_eq!([raw1, raw2, raw3, raw4], [37, 12, 26, 51]);
    assert_eq!((raw3 & 0xF) << 4 | (raw1 & 0xF), low);
    assert_eq!((raw4 >> 4) << 6 | (raw3 >> 4) << 4 | (raw2 >> 4) << 2 | (raw1 >> 4), high);
}
