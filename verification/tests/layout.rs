use avifpixart::{chroma_height, chroma_width, PixartError, PlaneLayout, YuvType};

#[test]
fn layout_admits_exact_region() {
    let layout = PlaneLayout::wide(20, 3, 4, 3);
    assert_eq!(layout.check(80), Ok(()));
}

#[test]
fn layout_reports_stride_below_row() {
    // 3 pixels of 3 two-byte samples need 18 bytes.
    let layout = PlaneLayout::wide(17, 3, 4, 3);
    assert_eq!(layout.check(68), Err(PixartError::StrideTooSmall));
}

#[test]
fn layout_reports_stride_before_region() {
    let layout = PlaneLayout::wide(17, 3, 4, 3);
    assert_eq!(layout.check(1), Err(PixartError::StrideTooSmall));
}

#[test]
fn layout_reports_region_of_wrong_size() {
    let layout = PlaneLayout::wide(20, 3, 4, 3);
    assert_eq!(layout.check(79), Err(PixartError::RegionMismatch));
    assert_eq!(layout.check(81), Err(PixartError::RegionMismatch));
}

#[test]
fn layout_accepts_stride_equal_to_row() {
    let layout = PlaneLayout::wide(18, 3, 4, 3);
    assert_eq!(layout.check(72), Ok(()));
}

#[test]
fn narrow_layout_counts_one_byte_per_sample() {
    let layout = PlaneLayout::narrow(9, 3, 2, 3);
    assert_eq!(layout.check(18), Ok(()));
    let tight = PlaneLayout::narrow(8, 3, 2, 3);
    assert_eq!(tight.check(16), Err(PixartError::StrideTooSmall));
}

#[test]
fn layout_with_sizes_beyond_the_address_space_is_refused() {
    let layout = PlaneLayout {
        byte_stride: usize::MAX,
        width: usize::MAX,
        height: 2,
        channels: 4,
        sample_width: avifpixart::SampleWidth::Two,
    };
    assert_eq!(layout.check(0), Err(PixartError::StrideTooSmall));
    let tall = PlaneLayout {
        byte_stride: usize::MAX,
        width: 1,
        height: 3,
        channels: 1,
        sample_width: avifpixart::SampleWidth::Two,
    };
    assert_eq!(tall.check(usize::MAX), Err(PixartError::RegionMismatch));
}

#[test]
fn empty_layout_admits_empty_region() {
    let layout = PlaneLayout::wide(0, 0, 0, 1);
    assert_eq!(layout.check(0), Ok(()));
}

#[test]
fn odd_width_rounds_chroma_up() {
    assert_eq!(chroma_width(5, YuvType::Yuv420), 3);
    assert_eq!(chroma_width(5, YuvType::Yuv422), 3);
    assert_eq!(chroma_width(5, YuvType::Yuv444), 5);
}

#[test]
fn odd_height_rounds_chroma_up() {
    assert_eq!(chroma_height(5, YuvType::Yuv420), 3);
    assert_eq!(chroma_height(5, YuvType::Yuv422), 5);
    assert_eq!(chroma_height(5, YuvType::Yuv444), 5);
}

#[test]
fn even_dimensions_halve_exactly() {
    assert_eq!(chroma_width(550, YuvType::Yuv422), 275);
    assert_eq!(chroma_height(334, YuvType::Yuv420), 167);
    assert_eq!(chroma_height(333, YuvType::Yuv420), 167);
}

#[test]
fn chroma_of_extreme_dimensions_does_not_overflow() {
    assert_eq!(chroma_width(u32::MAX, YuvType::Yuv420), 2147483648);
    assert_eq!(chroma_height(u32::MAX, YuvType::Yuv420), 2147483648);
    assert_eq!(chroma_width(0, YuvType::Yuv420), 0);
    assert_eq!(chroma_width(1, YuvType::Yuv420), 1);
}

#[test]
fn region_longer_than_any_slice_is_refused() {
    let layout = PlaneLayout {
        byte_stride: usize::MAX,
        width: 1,
        height: 1,
        channels: 1,
        sample_width: avifpixart::SampleWidth::One,
    };
    assert_eq!(layout.check(usize::MAX), Err(PixartError::RegionMismatch));
    let largest = PlaneLayout {
        byte_stride: isize::MAX as usize,
        width: 1,
        height: 1,
        channels: 1,
        sample_width: avifpixart::SampleWidth::One,
    };
    assert_eq!(largest.check(isize::MAX as usize), Ok(()));
    assert_eq!(largest.check(isize::MAX as usize + 1), Err(PixartError::RegionMismatch));
}
