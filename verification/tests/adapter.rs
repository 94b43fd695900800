use avifpixart::adapter::{adapt_read_with, adapt_write_with, blank_plane, view_stride};
use avifpixart::native::{host_stores_low_byte_first, view_samples, view_samples_mut};
use avifpixart::{
    adapt_read, adapt_write, stage_plane, unpack_plane, PlaneLayout, PlanePath, PlaneView,
};

/// `count` bytes that start at an even address, inside `store`.
fn even_bytes(store: &mut Vec<u16>, count: usize) -> &mut [u8] {
    store.resize(count / 2 + 1, 0);
    let bytes: &mut [u8] = bytemuck::cast_slice_mut(store.as_mut_slice());
    &mut bytes[..count]
}

/// `count` bytes that start at an odd address, inside `store`.
fn odd_bytes(store: &mut Vec<u16>, count: usize) -> &mut [u8] {
    store.resize(count / 2 + 2, 0);
    let bytes: &mut [u8] = bytemuck::cast_slice_mut(store.as_mut_slice());
    &mut bytes[1..1 + count]
}

fn fill(bytes: &mut [u8], seed: u8) {
    for (at, byte) in bytes.iter_mut().enumerate() {
        *byte = (at as u8).wrapping_mul(31).wrapping_add(seed);
    }
}

#[test]
fn unpack_skips_stride_padding() {
    // 2 rows of 2 samples, stride 7: three bytes of padding per row.
    let bytes = [0x01, 0x02, 0x03, 0x04, 0xaa, 0xbb, 0xcc, 0x05, 0x06, 0x07, 0x08, 0xdd, 0xee, 0xff];
    let layout = PlaneLayout::wide(7, 2, 2, 1);
    assert_eq!(unpack_plane(&bytes, &layout), vec![0x0201, 0x0403, 0x0605, 0x0807]);
}

#[test]
fn unpack_counts_every_channel() {
    let bytes = [1, 0, 2, 0, 3, 0, 4, 0, 5, 0, 6, 0, 9, 9];
    let layout = PlaneLayout::wide(14, 2, 1, 3);
    assert_eq!(unpack_plane(&bytes, &layout), vec![1, 2, 3, 4, 5, 6]);
}

#[test]
fn unpack_of_empty_plane_is_empty() {
    let layout = PlaneLayout::wide(0, 0, 0, 1);
    assert_eq!(unpack_plane(&[], &layout), Vec::<u16>::new());
    let flat = PlaneLayout::wide(6, 3, 0, 1);
    assert_eq!(unpack_plane(&[], &flat), Vec::<u16>::new());
}

#[test]
fn misaligned_region_takes_slow_path() {
    let mut store = Vec::new();
    let bytes = odd_bytes(&mut store, 16);
    fill(bytes, 7);
    let layout = PlaneLayout::wide(8, 3, 2, 1);
    let (view, stride) = adapt_read(bytes, &layout);
    assert_eq!(view.path(), PlanePath::Slow);
    assert_eq!(stride, 3);
    assert_eq!(view.as_slice().len(), 6);
}

#[test]
fn odd_stride_takes_slow_path_even_when_aligned() {
    let mut store = Vec::new();
    let bytes = even_bytes(&mut store, 14);
    fill(bytes, 3);
    let layout = PlaneLayout::wide(7, 3, 2, 1);
    let (view, stride) = adapt_read(bytes, &layout);
    assert_eq!(view.path(), PlanePath::Slow);
    assert_eq!(stride, 3);
}

#[test]
fn tight_stride_with_misaligned_region_takes_slow_path() {
    let mut store = Vec::new();
    let bytes = odd_bytes(&mut store, 12);
    fill(bytes, 5);
    let layout = PlaneLayout::wide(6, 3, 2, 1);
    let (view, _) = adapt_read(bytes, &layout);
    assert_eq!(view.path(), PlanePath::Slow);
}

#[test]
fn aligned_region_takes_fast_path() {
    let mut store = Vec::new();
    let bytes = even_bytes(&mut store, 16);
    fill(bytes, 11);
    let layout = PlaneLayout::wide(8, 3, 2, 1);
    let (view, stride) = adapt_read(bytes, &layout);
    if host_stores_low_byte_first() {
        assert_eq!(view.path(), PlanePath::Fast);
        assert_eq!(stride, 4);
        assert_eq!(view.as_slice().len(), 8);
        assert!(matches!(view, PlaneView::Borrowed(_)));
    } else {
        assert_eq!(view.path(), PlanePath::Slow);
    }
}

#[test]
fn fast_and_slow_views_hold_the_same_samples() {
    let layout = PlaneLayout::wide(12, 2, 3, 2);
    let mut content = vec![0u8; 36];
    fill(&mut content, 42);

    let mut even_store = Vec::new();
    let even = even_bytes(&mut even_store, 36);
    even.copy_from_slice(&content);
    let mut odd_store = Vec::new();
    let odd = odd_bytes(&mut odd_store, 36);
    odd.copy_from_slice(&content);

    let (fast, fast_stride) = adapt_read(even, &layout);
    let (slow, slow_stride) = adapt_read(odd, &layout);
    assert_eq!(slow.path(), PlanePath::Slow);
    for row in 0..3 {
        for col in 0..4 {
            let expected = u16::from_le_bytes([content[row * 12 + 2 * col], content[row * 12 + 2 * col + 1]]);
            assert_eq!(fast.as_slice()[row * fast_stride + col], expected);
            assert_eq!(slow.as_slice()[row * slow_stride + col], expected);
        }
    }
}

#[test]
fn in_place_view_pairs_bytes_low_first() {
    let mut store = Vec::new();
    let bytes = even_bytes(&mut store, 6);
    bytes.copy_from_slice(&[0x34, 0x12, 0xff, 0x00, 0x00, 0x80]);
    match view_samples(bytes) {
        Some(samples) => assert_eq!(samples, &[0x1234, 0x00ff, 0x8000]),
        None => assert!(!host_stores_low_byte_first()),
    }
}

#[test]
fn in_place_view_is_refused_for_odd_length() {
    let mut store = Vec::new();
    let bytes = even_bytes(&mut store, 5);
    assert!(view_samples(bytes).is_none());
}

#[test]
fn in_place_view_is_refused_for_odd_address() {
    let mut store = Vec::new();
    let bytes = odd_bytes(&mut store, 6);
    assert!(view_samples(bytes).is_none());
    assert!(view_samples_mut(bytes).is_none());
}

#[test]
fn writes_to_in_place_view_land_low_byte_first() {
    let mut store = Vec::new();
    let bytes = even_bytes(&mut store, 4);
    bytes.copy_from_slice(&[1, 2, 3, 4]);
    let written = match view_samples_mut(bytes) {
        Some(samples) => {
            assert_eq!(samples, &[0x0201, 0x0403]);
            samples[0] = 0xabcd;
            samples[1] = 0x0102;
            true
        },
        None => false,
    };
    if written {
        assert_eq!(bytes, &[0xcd, 0xab, 0x02, 0x01]);
    } else {
        assert!(!host_stores_low_byte_first());
        assert_eq!(bytes, &[1, 2, 3, 4]);
    }
}

#[test]
fn choice_of_view_follows_stride_and_cast() {
    let bytes = [1u8, 0, 2, 0, 9, 9, 3, 0, 4, 0, 9, 9];
    let samples = [1u16, 2, 0x0909, 3, 4, 0x0909];
    let layout = PlaneLayout::wide(6, 2, 2, 1);
    let (view, stride) = adapt_read_with(Some(&samples), &bytes, &layout);
    assert_eq!(view.path(), PlanePath::Fast);
    assert_eq!(stride, 3);
    let (view, stride) = adapt_read_with(None, &bytes, &layout);
    assert_eq!(view.path(), PlanePath::Slow);
    assert_eq!(stride, 2);
    assert_eq!(view.as_slice(), &[1, 2, 3, 4]);

    let odd = PlaneLayout::wide(5, 2, 2, 1);
    let odd_bytes = [1u8, 0, 2, 0, 9, 3, 0, 4, 0, 9];
    let paired = [1u16, 2, 0x0309, 0x0400, 0x0900];
    let (view, stride) = adapt_read_with(Some(&paired), &odd_bytes, &odd);
    assert_eq!(view.path(), PlanePath::Slow);
    assert_eq!(stride, 2);
    assert_eq!(view.as_slice(), &[1, 2, 3, 4]);
}

#[test]
fn adapt_write_opens_aligned_even_stride_only() {
    let layout = PlaneLayout::wide(8, 3, 2, 1);
    let mut even_store = Vec::new();
    let even = even_bytes(&mut even_store, 16);
    let opened = adapt_write(even, &layout).map(|view| view.len());
    if host_stores_low_byte_first() {
        assert_eq!(opened, Some(8));
    } else {
        assert_eq!(opened, None);
    }
    let mut odd_store = Vec::new();
    let odd = odd_bytes(&mut odd_store, 16);
    assert!(adapt_write(odd, &layout).is_none());

    let skewed = PlaneLayout::wide(7, 3, 2, 1);
    let mut store = Vec::new();
    let bytes = even_bytes(&mut store, 14);
    assert!(adapt_write(bytes, &skewed).is_none());
}

#[test]
fn view_stride_is_half_the_bytes_or_one_row() {
    let layout = PlaneLayout::wide(20, 3, 2, 3);
    assert_eq!(view_stride(&layout, PlanePath::Fast), 10);
    assert_eq!(view_stride(&layout, PlanePath::Slow), 9);
}

#[test]
fn staging_is_blank_or_a_copy() {
    let bytes = [1u8, 0, 2, 0, 9, 3, 0, 4, 0, 9];
    let layout = PlaneLayout::wide(5, 2, 2, 1);
    assert_eq!(stage_plane(&bytes, &layout, false), vec![0, 0, 0, 0]);
    assert_eq!(stage_plane(&bytes, &layout, true), vec![1, 2, 3, 4]);
    assert_eq!(blank_plane(&layout), vec![0, 0, 0, 0]);
}

#[test]
fn in_place_view_is_handed_on_for_even_stride_only() {
    let even = PlaneLayout::wide(6, 2, 2, 1);
    let odd = PlaneLayout::wide(5, 2, 2, 1);

    let mut samples = [1u16, 2, 3, 4, 5, 6];
    match adapt_write_with(Some(&mut samples), &even) {
        Some(view) => {
            assert_eq!(view, &[1, 2, 3, 4, 5, 6]);
            view[4] = 50;
        },
        None => panic!("an even stride hands the view on"),
    }
    assert_eq!(samples, [1, 2, 3, 4, 50, 6]);

    assert!(adapt_write_with(Some(&mut samples), &odd).is_none());
    assert_eq!(samples, [1, 2, 3, 4, 50, 6]);
    assert!(adapt_write_with(None, &even).is_none());
    assert!(adapt_write_with(None, &odd).is_none());
}
