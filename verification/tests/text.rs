//! Decimal text and rounded-up division.

use xabe_cuda::launch::{div_ceil, div_ceil_u32, min_usize};
use xabe_cuda::search::white;
use xabe_cuda::text::push_decimal;

#[test]
fn numbers_are_written_in_decimal() {
    for n in [0, 7, 10, 4096, 508_559_360, usize::MAX] {
        let mut s = "n=".to_string();
        push_decimal(&mut s, n);
        assert_eq!(s, format!("n={n}"));
    }
}

#[test]
fn division_rounds_up() {
    for n in [0usize, 1, 31, 32, 33, usize::MAX] {
        for d in [1usize, 2, 32, usize::MAX] {
            assert_eq!(div_ceil(n, d), n.div_ceil(d));
        }
    }
    assert_eq!(div_ceil_u32(u32::MAX, 2), 1 << 31);
    assert_eq!(div_ceil_u32(0, 7), 0);
    assert_eq!((min_usize(1, 2), min_usize(2, 1), min_usize(3, 3)), (1, 1, 3));
}

#[test]
fn a_flat_grid_covers_every_index_once() {
    for n in [1usize, 255, 256, 257, 1000] {
        let blocks = div_ceil(n, 256);
        let covered = (0..blocks * 256).filter(|i| *i < n).count();
        assert_eq!(covered, n);
        assert!((blocks - 1) * 256 < n);
    }
}

#[test]
fn white_space_is_the_unicode_property() {
    for c in '\0'..=char::MAX {
        assert_eq!(white(c), c.is_whitespace(), "{c:?}");
    }
}
