use avifpixart::alpha::{alpha_byte, overlay_alpha};
use avifpixart::native::host_stores_low_byte_first;
use avifpixart::{
    pixart_icgc12_r_to_rgb10, pixart_icgc_r_alpha12_to_rgba10, pixart_icgc_r_type_to_rgb,
    pixart_icgc_r_type_with_alpha_to_rgba, pixart_rgb_u16_to_ra30, pixart_rgba8_to_icgco_r10,
    pixart_rgba8_to_y08, pixart_rgba8_to_yuv8, pixart_rgba_u16_to_ra30, pixart_yuv16_to_rgb16,
    pixart_yuv16_with_alpha_to_rgba16, pixart_yuv400_p16_to_rgb16,
    pixart_yuv400_p16_with_alpha_to_rgba16, pixart_yuv400_to_rgb8,
    pixart_yuv400_with_alpha_to_rgba8, pixart_yuv8_to_rgb8, pixart_yuv8_with_alpha_to_rgba8,
    AvifYCgCoRType, PixartError, PlaneLayout, PlanePath, YuvMatrix, YuvRange, YuvType,
};

/// A byte region of `count` bytes inside a store of 16-bit values, starting
/// at an even address or, with `skew`, at an odd one.
struct Region {
    store: Vec<u16>,
    skew: bool,
    count: usize,
}

impl Region {
    fn new(count: usize, skew: bool) -> Region {
        Region { store: vec![0u16; count / 2 + 2], skew, count }
    }

    fn filled(count: usize, skew: bool, fill: u8) -> Region {
        let mut region = Region::new(count, skew);
        region.bytes_mut().fill(fill);
        region
    }

    fn bytes(&self) -> &[u8] {
        let all: &[u8] = bytemuck::cast_slice(self.store.as_slice());
        let start = if self.skew { 1 } else { 0 };
        &all[start..start + self.count]
    }

    fn bytes_mut(&mut self) -> &mut [u8] {
        let all: &mut [u8] = bytemuck::cast_slice_mut(self.store.as_mut_slice());
        let start = if self.skew { 1 } else { 0 };
        &mut all[start..start + self.count]
    }

    /// Writes `samples`, `row` to a row, at `stride` bytes a row.
    fn put(&mut self, samples: &[u16], row: usize, stride: usize) {
        let bytes = self.bytes_mut();
        for (k, sample) in samples.iter().enumerate() {
            let at = (k / row) * stride + 2 * (k % row);
            bytes[at] = (*sample & 0xff) as u8;
            bytes[at + 1] = (*sample >> 8) as u8;
        }
    }

    /// Reads `rows` rows of `row` samples at `stride` bytes a row.
    fn get(&self, row: usize, rows: usize, stride: usize) -> Vec<u16> {
        let bytes = self.bytes();
        let mut samples = Vec::new();
        for r in 0..rows {
            for c in 0..row {
                let at = r * stride + 2 * c;
                samples.push(u16::from_le_bytes([bytes[at], bytes[at + 1]]));
            }
        }
        samples
    }
}

fn ramp(count: usize, step: u16, limit: u16) -> Vec<u16> {
    (0..count).map(|k| (k as u16).wrapping_mul(step) % limit).collect()
}

fn expected_path(skew: bool, stride: usize) -> PlanePath {
    if !skew && stride % 2 == 0 && host_stores_low_byte_first() {
        PlanePath::Fast
    } else {
        PlanePath::Slow
    }
}

#[test]
fn test_yuv_encoding422() {
    let width = 550;
    let height = 333;
    let mut y_0 = vec![0u8; width * height];
    let mut u = vec![0u8; 275 * height.div_ceil(2)];
    let mut v = vec![0u8; 275 * height.div_ceil(2)];
    let rgba = vec![0u8; width * height * 4];
    let outcome = pixart_rgba8_to_yuv8(
        &mut y_0,
        width as u32,
        &mut u,
        275,
        &mut v,
        275,
        &rgba,
        width as u32 * 4,
        width as u32,
        height as u32,
        YuvRange::Pc,
        YuvMatrix::Bt601,
        YuvType::Yuv422,
    );
    // The chroma regions hold half the rows that 4:2:2 has.
    assert_eq!(outcome, Err(PixartError::RegionMismatch));
    assert!(u.iter().all(|byte| *byte == 0));
}

#[test]
fn yuv_encoding422_with_full_height_chroma_converts() {
    let width = 550usize;
    let height = 333usize;
    let mut y_0 = vec![0u8; width * height];
    let mut u = vec![0u8; 275 * height];
    let mut v = vec![0u8; 275 * height];
    let rgba = vec![0u8; width * height * 4];
    let outcome = pixart_rgba8_to_yuv8(
        &mut y_0, width as u32, &mut u, 275, &mut v, 275, &rgba, width as u32 * 4,
        width as u32, height as u32, YuvRange::Pc, YuvMatrix::Bt601, YuvType::Yuv422,
    );
    assert_eq!(outcome, Ok(()));
    // Black in full range: luma 0, chroma at mid level.
    assert!(y_0.iter().all(|byte| *byte == 0));
    assert!(u.iter().all(|byte| *byte == 128));
    assert!(v.iter().all(|byte| *byte == 128));
}

#[test]
fn yuv8_matches_the_kernel_called_directly() {
    let (width, height) = (5usize, 3usize);
    let y: Vec<u8> = (0..15).map(|k| 16 + 13 * k as u8).collect();
    let u: Vec<u8> = (0..6).map(|k| 100 + 9 * k as u8).collect();
    let v: Vec<u8> = (0..6).map(|k| 140 - 7 * k as u8).collect();
    let mut rgb = vec![0u8; 16 * 3];
    let outcome = pixart_yuv8_to_rgb8(
        &y, 5, &u, 3, &v, 3, &mut rgb, 16, width as u32, height as u32,
        YuvRange::Tv, YuvMatrix::Bt709, YuvType::Yuv420,
    );
    assert_eq!(outcome, Ok(()));
    let image = yuv::YuvPlanarImage {
        y_plane: &y, y_stride: 5, u_plane: &u, u_stride: 3, v_plane: &v, v_stride: 3,
        width: 5, height: 3,
    };
    let mut expected = vec![0u8; 16 * 3];
    yuv::yuv420_to_rgb(&image, &mut expected, 16, yuv::YuvRange::Limited, yuv::YuvStandardMatrix::Bt709)
        .unwrap();
    assert_eq!(rgb, expected);
    assert_ne!(rgb, vec![0u8; 48]);
}

#[test]
fn yuv8_with_identity_writes_four_channels() {
    let y = vec![10u8; 4];
    let u = vec![20u8; 4];
    let v = vec![30u8; 4];
    let mut narrow = vec![0u8; 12];
    let outcome = pixart_yuv8_to_rgb8(
        &y, 2, &u, 2, &v, 2, &mut narrow, 6, 2, 2, YuvRange::Pc, YuvMatrix::Identity, YuvType::Yuv444,
    );
    assert_eq!(outcome, Err(PixartError::StrideTooSmall));
    let mut rgba = vec![0u8; 16];
    let outcome = pixart_yuv8_to_rgb8(
        &y, 2, &u, 2, &v, 2, &mut rgba, 8, 2, 2, YuvRange::Pc, YuvMatrix::Identity, YuvType::Yuv444,
    );
    assert_eq!(outcome, Ok(()));
    // The planes are G, B, R: the pixel is R, G, B, opaque.
    assert_eq!(&rgba[..4], &[30, 10, 20, 255]);
}

#[test]
fn empty_image_is_refused() {
    let mut rgba = vec![7u8; 16];
    let outcome = pixart_yuv400_to_rgb8(&[], 0, &mut rgba, 8, 0, 2, YuvRange::Pc, YuvMatrix::Bt601);
    assert_eq!(outcome, Err(PixartError::EmptyImage));
    let outcome = pixart_yuv400_to_rgb8(&[], 2, &mut rgba, 8, 2, 0, YuvRange::Pc, YuvMatrix::Bt601);
    assert_eq!(outcome, Err(PixartError::EmptyImage));
    assert_eq!(rgba, vec![7u8; 16]);
}

#[test]
fn gray8_converts_to_equal_channels() {
    let y = vec![0u8, 255, 128, 64];
    let mut rgb = vec![0u8; 14];
    let outcome = pixart_yuv400_to_rgb8(&y, 2, &mut rgb, 7, 2, 2, YuvRange::Pc, YuvMatrix::Bt601);
    assert_eq!(outcome, Ok(()));
    assert_eq!(&rgb[..6], &[0, 0, 0, 255, 255, 255]);
    assert_eq!(&rgb[7..13], &[128, 128, 128, 64, 64, 64]);
}

#[test]
fn gray8_with_alpha_carries_alpha() {
    let y = vec![0u8, 255];
    let a = vec![9u8, 200];
    let mut rgba = vec![0u8; 8];
    let outcome = pixart_yuv400_with_alpha_to_rgba8(
        &y, 2, &a, 2, &mut rgba, 8, 2, 1, YuvRange::Pc, YuvMatrix::Bt709,
    );
    assert_eq!(outcome, Ok(()));
    assert_eq!(rgba, vec![0, 0, 0, 9, 255, 255, 255, 200]);
}

#[test]
fn yuv8_with_alpha_matches_the_kernel_called_directly() {
    let y: Vec<u8> = (0..16).map(|k| 20 + 11 * k as u8).collect();
    let u: Vec<u8> = (0..8).map(|k| 90 + 5 * k as u8).collect();
    let v: Vec<u8> = (0..8).map(|k| 160 - 6 * k as u8).collect();
    let a: Vec<u8> = (0..16).map(|k| 255 - 15 * k as u8).collect();
    let mut rgba = vec![0u8; 64];
    let outcome = pixart_yuv8_with_alpha_to_rgba8(
        &y, 4, &u, 2, &v, 2, &a, 4, &mut rgba, 16, 4, 4, YuvRange::Tv, YuvMatrix::YCgCo, YuvType::Yuv422,
    );
    assert_eq!(outcome, Ok(()));
    let image = yuv::YuvPlanarImageWithAlpha {
        y_plane: &y, y_stride: 4, u_plane: &u, u_stride: 2, v_plane: &v, v_stride: 2,
        a_plane: &a, a_stride: 4, width: 4, height: 4,
    };
    let mut expected = vec![0u8; 64];
    yuv::ycgco422_alpha_to_rgba(&image, &mut expected, 16, yuv::YuvRange::Limited).unwrap();
    assert_eq!(rgba, expected);
}

fn yuv16_case(skew_sources: bool, skew_target: bool, target_stride: usize) -> (Result<PlanePath, PixartError>, Vec<u16>, Vec<u8>) {
    let (width, height) = (5usize, 3usize);
    let mut y = Region::new(12 * 3, skew_sources);
    y.put(&ramp(15, 61, 1024), 5, 12);
    let mut u = Region::new(6 * 2, skew_sources);
    u.put(&ramp(6, 97, 1024), 3, 6);
    let mut v = Region::new(8 * 2, skew_sources);
    v.put(&ramp(6, 131, 1024), 3, 8);
    let mut rgb = Region::filled(target_stride * 3, skew_target, 0xa5);
    let outcome = pixart_yuv16_to_rgb16(
        y.bytes(), 12, u.bytes(), 6, v.bytes(), 8, rgb.bytes_mut(), target_stride as u32, 10,
        width as u32, height as u32, YuvRange::Tv, YuvMatrix::Bt709, YuvType::Yuv420,
    );
    (outcome, rgb.get(15, 3, target_stride), rgb.bytes().to_vec())
}

fn yuv16_expected() -> Vec<u16> {
    let y = ramp(15, 61, 1024);
    let u = ramp(6, 97, 1024);
    let v = ramp(6, 131, 1024);
    let image = yuv::YuvPlanarImage {
        y_plane: &y, y_stride: 5, u_plane: &u, u_stride: 3, v_plane: &v, v_stride: 3,
        width: 5, height: 3,
    };
    let mut expected = vec![0u16; 45];
    yuv::i010_to_rgb10(&image, &mut expected, 15, yuv::YuvRange::Limited, yuv::YuvStandardMatrix::Bt709)
        .unwrap();
    expected
}

#[test]
fn yuv16_fast_and_slow_paths_give_the_same_pixels() {
    let expected = yuv16_expected();
    assert_ne!(expected, vec![0u16; 45]);
    for skew_sources in [false, true] {
        for (skew_target, stride) in [(false, 32), (true, 32), (false, 33), (true, 30), (false, 30)] {
            let (outcome, pixels, _) = yuv16_case(skew_sources, skew_target, stride);
            assert_eq!(outcome, Ok(expected_path(skew_target, stride)));
            assert_eq!(pixels, expected);
        }
    }
}

#[test]
fn yuv16_slow_path_keeps_destination_padding() {
    let (outcome, _, bytes) = yuv16_case(false, true, 35);
    assert_eq!(outcome, Ok(PlanePath::Slow));
    for row in 0..3 {
        for offset in 30..35 {
            assert_eq!(bytes[row * 35 + offset], 0xa5);
        }
    }
}

#[test]
fn unsupported_bit_depth_writes_nothing() {
    let y = Region::new(12 * 3, false);
    let u = Region::new(6 * 2, false);
    let v = Region::new(6 * 2, false);
    for depth in [0, 8, 9, 11, 13, 16] {
        let mut rgb = Region::filled(96, false, 0x5a);
        let outcome = pixart_yuv16_to_rgb16(
            y.bytes(), 12, u.bytes(), 6, v.bytes(), 6, rgb.bytes_mut(), 32, depth, 5, 3,
            YuvRange::Tv, YuvMatrix::Bt709, YuvType::Yuv420,
        );
        assert_eq!(outcome, Err(PixartError::UnsupportedBitDepth));
        assert!(rgb.bytes().iter().all(|byte| *byte == 0x5a));
    }
}

#[test]
fn faults_are_reported_in_plane_order() {
    let y = Region::new(12 * 3, false);
    let u = Region::new(6 * 2, false);
    let v = Region::new(6 * 2, false);
    let mut rgb = Region::filled(96, false, 0x5a);
    // Luma stride below 5 samples of 2 bytes.
    let outcome = pixart_yuv16_to_rgb16(
        &y.bytes()[..27], 9, u.bytes(), 6, v.bytes(), 6, rgb.bytes_mut(), 32, 10, 5, 3,
        YuvRange::Tv, YuvMatrix::Bt709, YuvType::Yuv420,
    );
    assert_eq!(outcome, Err(PixartError::StrideTooSmall));
    // Chroma U of the wrong size comes before a destination whose stride is too small.
    let outcome = pixart_yuv16_to_rgb16(
        y.bytes(), 12, &u.bytes()[..11], 6, v.bytes(), 6, &mut rgb.bytes_mut()[..87], 29, 10, 5, 3,
        YuvRange::Tv, YuvMatrix::Bt709, YuvType::Yuv420,
    );
    assert_eq!(outcome, Err(PixartError::RegionMismatch));
    let outcome = pixart_yuv16_to_rgb16(
        y.bytes(), 12, u.bytes(), 6, v.bytes(), 6, &mut rgb.bytes_mut()[..87], 29, 10, 5, 3,
        YuvRange::Tv, YuvMatrix::Bt709, YuvType::Yuv420,
    );
    assert_eq!(outcome, Err(PixartError::StrideTooSmall));
    assert!(rgb.bytes().iter().all(|byte| *byte == 0x5a));
}

#[test]
fn yuv16_chroma_of_422_is_half_as_wide_and_as_high_as_luma() {
    let y = Region::new(10 * 3, false);
    let u = Region::new(6 * 3, false);
    let v = Region::new(6 * 3, false);
    let mut rgb = Region::new(30 * 3, false);
    let outcome = pixart_yuv16_to_rgb16(
        y.bytes(), 10, u.bytes(), 6, v.bytes(), 6, rgb.bytes_mut(), 30, 12, 5, 3,
        YuvRange::Pc, YuvMatrix::Bt601, YuvType::Yuv422,
    );
    assert!(outcome.is_ok());
    // Two rows of chroma are what 4:2:0 has, not 4:2:2.
    let outcome = pixart_yuv16_to_rgb16(
        y.bytes(), 10, &u.bytes()[..12], 6, &v.bytes()[..12], 6, rgb.bytes_mut(), 30, 12, 5, 3,
        YuvRange::Pc, YuvMatrix::Bt601, YuvType::Yuv422,
    );
    assert_eq!(outcome, Err(PixartError::RegionMismatch));
}

#[test]
fn yuv16_dispatches_on_matrix_and_depth() {
    let y = ramp(4, 301, 4096);
    let u = ramp(4, 517, 4096);
    let v = ramp(4, 733, 4096);
    let image = yuv::YuvPlanarImage {
        y_plane: &y, y_stride: 2, u_plane: &u, u_stride: 2, v_plane: &v, v_stride: 2,
        width: 2, height: 2,
    };
    let mut yr = Region::new(8, false);
    yr.put(&y, 2, 4);
    let mut ur = Region::new(8, false);
    ur.put(&u, 2, 4);
    let mut vr = Region::new(8, false);
    vr.put(&v, 2, 4);

    let mut expected = vec![0u16; 12];
    yuv::gb12_to_rgb12(&image, &mut expected, 6, yuv::YuvRange::Full).unwrap();
    let mut rgb = Region::new(24, true);
    let outcome = pixart_yuv16_to_rgb16(
        yr.bytes(), 4, ur.bytes(), 4, vr.bytes(), 4, rgb.bytes_mut(), 12, 12, 2, 2,
        YuvRange::Pc, YuvMatrix::Identity, YuvType::Yuv444,
    );
    assert_eq!(outcome, Ok(PlanePath::Slow));
    assert_eq!(rgb.get(6, 2, 12), expected);

    let mut expected = vec![0u16; 12];
    yuv::icgc412_to_rgb12(&image, &mut expected, 6, yuv::YuvRange::Limited).unwrap();
    let outcome = pixart_yuv16_to_rgb16(
        yr.bytes(), 4, ur.bytes(), 4, vr.bytes(), 4, rgb.bytes_mut(), 12, 12, 2, 2,
        YuvRange::Tv, YuvMatrix::YCgCo, YuvType::Yuv444,
    );
    assert_eq!(outcome, Ok(PlanePath::Slow));
    assert_eq!(rgb.get(6, 2, 12), expected);

    let mut expected = vec![0u16; 12];
    yuv::i412_to_rgb12(&image, &mut expected, 6, yuv::YuvRange::Limited, yuv::YuvStandardMatrix::Bt2020)
        .unwrap();
    let outcome = pixart_yuv16_to_rgb16(
        yr.bytes(), 4, ur.bytes(), 4, vr.bytes(), 4, rgb.bytes_mut(), 12, 12, 2, 2,
        YuvRange::Tv, YuvMatrix::Bt2020, YuvType::Yuv444,
    );
    assert_eq!(outcome, Ok(PlanePath::Slow));
    assert_eq!(rgb.get(6, 2, 12), expected);
}

#[test]
fn yuv16_with_alpha_matches_the_kernel_called_directly() {
    let y = ramp(6, 151, 1024);
    let u = ramp(2, 333, 1024);
    let v = ramp(2, 707, 1024);
    let a = ramp(6, 199, 1024);
    let image = yuv::YuvPlanarImageWithAlpha {
        y_plane: &y, y_stride: 3, u_plane: &u, u_stride: 2, v_plane: &v, v_stride: 2,
        a_plane: &a, a_stride: 3, width: 3, height: 2,
    };
    let mut expected = vec![0u16; 24];
    yuv::i010_alpha_to_rgba10(&image, &mut expected, 12, yuv::YuvRange::Full, yuv::YuvStandardMatrix::Bt601)
        .unwrap();
    for skew in [false, true] {
        let mut yr = Region::new(14, skew);
        yr.put(&y, 3, 7);
        let mut ur = Region::new(4, !skew);
        ur.put(&u, 2, 4);
        let mut vr = Region::new(5, skew);
        vr.put(&v, 2, 5);
        let mut ar = Region::new(12, !skew);
        ar.put(&a, 3, 6);
        let mut rgba = Region::filled(52, skew, 0xc3);
        let outcome = pixart_yuv16_with_alpha_to_rgba16(
            yr.bytes(), 7, ur.bytes(), 4, vr.bytes(), 5, ar.bytes(), 6, rgba.bytes_mut(), 26, 10,
            3, 2, YuvRange::Pc, YuvMatrix::Bt601, YuvType::Yuv420,
        );
        assert_eq!(outcome, Ok(expected_path(skew, 26)));
        assert_eq!(rgba.get(12, 2, 26), expected);
    }
}

#[test]
fn gray16_matches_the_kernel_called_directly() {
    let y = ramp(6, 577, 4096);
    let a = ramp(6, 911, 4096);
    let gray = yuv::YuvGrayImage { y_plane: &y, y_stride: 3, width: 3, height: 2 };
    let mut expected = vec![0u16; 18];
    yuv::y012_to_rgb12(&gray, &mut expected, 9, yuv::YuvRange::Limited, yuv::YuvStandardMatrix::Bt709)
        .unwrap();
    let gray_alpha =
        yuv::YuvGrayAlphaImage { y_plane: &y, y_stride: 3, a_plane: &a, a_stride: 3, width: 3, height: 2 };
    let mut expected_alpha = vec![0u16; 24];
    yuv::y012_alpha_to_rgba12(
        &gray_alpha, &mut expected_alpha, 12, yuv::YuvRange::Limited, yuv::YuvStandardMatrix::Bt709,
    )
    .unwrap();
    for skew in [false, true] {
        let mut yr = Region::new(16, skew);
        yr.put(&y, 3, 8);
        let mut ar = Region::new(14, skew);
        ar.put(&a, 3, 7);
        let mut rgb = Region::filled(40, skew, 0x11);
        let outcome = pixart_yuv400_p16_to_rgb16(
            yr.bytes(), 8, rgb.bytes_mut(), 20, 12, 3, 2, YuvRange::Tv, YuvMatrix::Bt709,
        );
        assert_eq!(outcome, Ok(expected_path(skew, 20)));
        assert_eq!(rgb.get(9, 2, 20), expected);
        let mut rgba = Region::filled(50, skew, 0x11);
        let outcome = pixart_yuv400_p16_with_alpha_to_rgba16(
            yr.bytes(), 8, ar.bytes(), 7, rgba.bytes_mut(), 25, 12, 3, 2, YuvRange::Tv, YuvMatrix::Bt709,
        );
        assert_eq!(outcome, Ok(PlanePath::Slow));
        assert_eq!(rgba.get(12, 2, 25), expected_alpha);
        assert_eq!(rgba.bytes()[24], 0x11);
        assert_eq!(rgba.bytes()[49], 0x11);
    }
}

#[test]
fn single_pixel_with_wide_destination_stride() {
    let mut y = Region::new(2, true);
    y.put(&[940], 1, 2);
    let mut rgb = Region::filled(257, true, 0x99);
    let outcome =
        pixart_yuv400_p16_to_rgb16(y.bytes(), 2, rgb.bytes_mut(), 257, 10, 1, 1, YuvRange::Tv, YuvMatrix::Bt601);
    assert_eq!(outcome, Ok(PlanePath::Slow));
    // Nominal white in limited range is full scale in every channel.
    assert_eq!(rgb.get(3, 1, 257), vec![1023, 1023, 1023]);
    assert!(rgb.bytes()[6..].iter().all(|byte| *byte == 0x99));
}

#[test]
fn fast_path_writes_the_destination_in_place() {
    let mut y = Region::new(2, false);
    y.put(&[64], 1, 2);
    let mut rgb = Region::filled(64, false, 0x99);
    let outcome =
        pixart_yuv400_p16_to_rgb16(y.bytes(), 2, rgb.bytes_mut(), 64, 10, 1, 1, YuvRange::Tv, YuvMatrix::Bt601);
    assert_eq!(outcome, Ok(expected_path(false, 64)));
    assert_eq!(rgb.get(3, 1, 64), vec![0, 0, 0]);
    assert!(rgb.bytes()[6..].iter().all(|byte| *byte == 0x99));
}

#[test]
fn reversible_ycgco_matches_the_kernel_called_directly() {
    let y = ramp(4, 301, 4096);
    let u = ramp(4, 517, 4096);
    let v = ramp(4, 733, 4096);
    let a = ramp(4, 211, 1024);
    let image = yuv::YuvPlanarImage {
        y_plane: &y, y_stride: 2, u_plane: &u, u_stride: 2, v_plane: &v, v_stride: 2,
        width: 2, height: 2,
    };
    let with_alpha = yuv::YuvPlanarImageWithAlpha {
        y_plane: &y, y_stride: 2, u_plane: &u, u_stride: 2, v_plane: &v, v_stride: 2,
        a_plane: &a, a_stride: 2, width: 2, height: 2,
    };
    let mut yr = Region::new(10, true);
    yr.put(&y, 2, 5);
    let mut ur = Region::new(8, false);
    ur.put(&u, 2, 4);
    let mut vr = Region::new(8, true);
    vr.put(&v, 2, 4);
    let mut ar = Region::new(8, true);
    ar.put(&a, 2, 4);

    let mut expected = vec![0u16; 12];
    yuv::icgc_re412_to_rgb10(&image, &mut expected, 6, yuv::YuvRange::Full).unwrap();
    let mut rgb = Region::new(26, false);
    let outcome = pixart_icgc12_r_to_rgb10(
        yr.bytes(), 5, ur.bytes(), 4, vr.bytes(), 4, rgb.bytes_mut(), 13, 2, 2,
        YuvRange::Pc, AvifYCgCoRType::Re, YuvType::Yuv444,
    );
    assert_eq!(outcome, Ok(PlanePath::Slow));
    assert_eq!(rgb.get(6, 2, 13), expected);

    let mut expected = vec![0u16; 16];
    yuv::icgc_ro_alpha412_to_rgba10(&with_alpha, &mut expected, 8, yuv::YuvRange::Full).unwrap();
    let mut rgba = Region::new(32, false);
    let outcome = pixart_icgc_r_alpha12_to_rgba10(
        yr.bytes(), 5, ur.bytes(), 4, vr.bytes(), 4, ar.bytes(), 4, rgba.bytes_mut(), 16, 2, 2,
        YuvRange::Pc, AvifYCgCoRType::Ro, YuvType::Yuv444,
    );
    assert_eq!(outcome, Ok(expected_path(false, 16)));
    assert_eq!(rgba.get(8, 2, 16), expected);

    // The kernels to 8-bit pixels take planes of 10 bits.
    let y = ramp(4, 301, 1024);
    let u = ramp(4, 517, 1024);
    let v = ramp(4, 733, 1024);
    let image = yuv::YuvPlanarImage {
        y_plane: &y, y_stride: 2, u_plane: &u, u_stride: 2, v_plane: &v, v_stride: 2,
        width: 2, height: 2,
    };
    yr.put(&y, 2, 5);
    ur.put(&u, 2, 4);
    vr.put(&v, 2, 4);
    let mut expected = vec![0u8; 12];
    yuv::icgc_ro410_to_rgb(&image, &mut expected, 6, yuv::YuvRange::Full).unwrap();
    let mut rgb8 = vec![0u8; 12];
    let outcome = pixart_icgc_r_type_to_rgb(
        yr.bytes(), 5, ur.bytes(), 4, vr.bytes(), 4, &mut rgb8, 6, 2, 2,
        YuvRange::Pc, AvifYCgCoRType::Ro, YuvType::Yuv444,
    );
    assert_eq!(outcome, Ok(()));
    assert_eq!(rgb8, expected);
}

#[test]
fn sample_beyond_the_bit_depth_is_refused_before_any_kernel_runs() {
    let mut y = Region::new(8, true);
    y.put(&[100, 200, 1024, 300], 2, 4);
    let mut rgb = Region::filled(24, true, 0x5a);
    let outcome =
        pixart_yuv400_p16_to_rgb16(y.bytes(), 4, rgb.bytes_mut(), 12, 10, 2, 2, YuvRange::Tv, YuvMatrix::Bt601);
    assert_eq!(outcome, Err(PixartError::SampleOutOfRange));
    assert!(rgb.bytes().iter().all(|byte| *byte == 0x5a));
    // The same sample fits 12 bits.
    let outcome =
        pixart_yuv400_p16_to_rgb16(y.bytes(), 4, rgb.bytes_mut(), 12, 12, 2, 2, YuvRange::Tv, YuvMatrix::Bt601);
    assert_eq!(outcome, Ok(PlanePath::Slow));
    y.put(&[100, 200, 4096, 300], 2, 4);
    let outcome =
        pixart_yuv400_p16_to_rgb16(y.bytes(), 4, rgb.bytes_mut(), 12, 12, 2, 2, YuvRange::Tv, YuvMatrix::Bt601);
    assert_eq!(outcome, Err(PixartError::SampleOutOfRange));
    y.put(&[100, 200, 0x8000, 300], 2, 4);
    let outcome =
        pixart_yuv400_p16_to_rgb16(y.bytes(), 4, rgb.bytes_mut(), 12, 10, 2, 2, YuvRange::Tv, YuvMatrix::Bt601);
    assert_eq!(outcome, Err(PixartError::SampleOutOfRange));
}

#[test]
fn faults_of_size_come_before_faults_of_samples() {
    let mut y = Region::new(8, false);
    y.put(&[5000, 5000, 5000, 5000], 2, 4);
    let mut rgb = Region::new(24, false);
    let outcome = pixart_yuv400_p16_to_rgb16(
        y.bytes(), 4, &mut rgb.bytes_mut()[..23], 12, 10, 2, 2, YuvRange::Tv, YuvMatrix::Bt601,
    );
    assert_eq!(outcome, Err(PixartError::RegionMismatch));
}

#[test]
fn padding_beyond_the_bit_depth_does_not_refuse_a_plane() {
    // Rows of 2 samples, 8 bytes apart: the padding holds 0xffff.
    let samples = [940u16, 64, 500, 1023];
    let expected = {
        let gray = yuv::YuvGrayImage { y_plane: &samples, y_stride: 2, width: 2, height: 2 };
        let mut pixels = vec![0u16; 12];
        yuv::y010_to_rgb10(&gray, &mut pixels, 6, yuv::YuvRange::Limited, yuv::YuvStandardMatrix::Bt709).unwrap();
        pixels
    };
    for skew in [false, true] {
        let mut y = Region::filled(16, skew, 0xff);
        y.put(&samples, 2, 8);
        let mut rgb = Region::new(24, false);
        let outcome = pixart_yuv400_p16_to_rgb16(
            y.bytes(), 8, rgb.bytes_mut(), 12, 10, 2, 2, YuvRange::Tv, YuvMatrix::Bt709,
        );
        assert!(outcome.is_ok());
        assert_eq!(rgb.get(6, 2, 12), expected);
    }
}

#[test]
fn reversible_ycgco_with_alpha_sets_alpha_bytes_from_the_plane() {
    let y = ramp(4, 301, 1024);
    let u = ramp(2, 517, 1024);
    let v = ramp(2, 733, 1024);
    let a = vec![0u16, 2, 3, 1023];
    let with_alpha = yuv::YuvPlanarImageWithAlpha {
        y_plane: &y, y_stride: 2, u_plane: &u, u_stride: 1, v_plane: &v, v_stride: 1,
        a_plane: &a, a_stride: 2, width: 2, height: 2,
    };
    let mut expected = vec![0u8; 20];
    yuv::icgc_re_alpha210_to_rgba(&with_alpha, &mut expected, 10, yuv::YuvRange::Full).unwrap();
    for (at, alpha) in [(3, 0u8), (7, 0), (13, 1), (17, 255)] {
        expected[at] = alpha;
    }
    let mut yr = Region::new(8, false);
    yr.put(&y, 2, 4);
    let mut ur = Region::new(6, true);
    ur.put(&u, 1, 3);
    let mut vr = Region::new(4, false);
    vr.put(&v, 1, 2);
    let mut ar = Region::new(10, true);
    ar.put(&a, 2, 5);
    let mut rgba = vec![0u8; 20];
    let outcome = pixart_icgc_r_type_with_alpha_to_rgba(
        yr.bytes(), 4, ur.bytes(), 3, vr.bytes(), 2, ar.bytes(), 5, &mut rgba, 10, 2, 2,
        YuvRange::Pc, AvifYCgCoRType::Re, YuvType::Yuv422,
    );
    assert_eq!(outcome, Ok(()));
    assert_eq!(rgba, expected);
}

#[test]
fn alpha_byte_is_a_rounded_quarter_capped() {
    assert_eq!(alpha_byte(0), 0);
    assert_eq!(alpha_byte(2), 0);
    assert_eq!(alpha_byte(3), 1);
    assert_eq!(alpha_byte(4), 1);
    assert_eq!(alpha_byte(512), 128);
    assert_eq!(alpha_byte(1019), 255);
    assert_eq!(alpha_byte(1023), 255);
    assert_eq!(alpha_byte(65535), 255);
}

#[test]
fn alpha_overlay_keeps_colour_and_padding() {
    let layout = PlaneLayout::narrow(10, 2, 2, 4);
    let mut rgba: Vec<u8> = (0..20).collect();
    overlay_alpha(&mut rgba, &layout, &[4, 8, 999, 12, 16, 999], 3);
    let mut expected: Vec<u8> = (0..20).collect();
    expected[3] = 1;
    expected[7] = 2;
    expected[13] = 3;
    expected[17] = 4;
    assert_eq!(rgba, expected);
}

#[test]
fn rgba8_to_gray_matches_the_kernel_called_directly() {
    let rgba: Vec<u8> = (0..32).map(|k| (k * 37 % 256) as u8).collect();
    let mut y = vec![0u8; 10];
    let outcome = pixart_rgba8_to_y08(&mut y, 5, &rgba, 16, 4, 2, YuvRange::Tv, YuvMatrix::Bt601);
    assert_eq!(outcome, Ok(()));
    let mut expected = vec![0u8; 10];
    let mut gray = yuv::YuvGrayImageMut {
        y_plane: yuv::BufferStoreMut::Borrowed(&mut expected), y_stride: 5, width: 4, height: 2,
    };
    yuv::rgba_to_yuv400(&mut gray, &rgba, 16, yuv::YuvRange::Limited, yuv::YuvStandardMatrix::Bt601).unwrap();
    assert_eq!(y, expected);
    assert_ne!(y, vec![0u8; 10]);
}

#[test]
fn rgba8_to_reversible_ycgco_adapts_each_plane_on_its_own() {
    let rgba: Vec<u8> = (0..48).map(|k| (k * 53 % 256) as u8).collect();
    let mut ey = vec![0u16; 12];
    let mut eu = vec![0u16; 4];
    let mut ev = vec![0u16; 4];
    {
        let mut planes = yuv::YuvPlanarImageMut {
            y_plane: yuv::BufferStoreMut::Borrowed(&mut ey), y_stride: 4,
            u_plane: yuv::BufferStoreMut::Borrowed(&mut eu), u_stride: 2,
            v_plane: yuv::BufferStoreMut::Borrowed(&mut ev), v_stride: 2,
            width: 4, height: 3,
        };
        yuv::rgba_to_icgc_ro010(&mut planes, &rgba, 16, yuv::YuvRange::Full).unwrap();
    }
    let mut y = Region::filled(30, false, 0xee);
    let mut u = Region::filled(10, true, 0xee);
    let mut v = Region::filled(10, false, 0xee);
    let outcome = pixart_rgba8_to_icgco_r10(
        y.bytes_mut(), 10, u.bytes_mut(), 5, v.bytes_mut(), 5, &rgba, 16, 4, 3,
        YuvRange::Pc, AvifYCgCoRType::Ro, YuvType::Yuv420,
    );
    let paths = outcome.unwrap();
    assert_eq!(paths.y, expected_path(false, 10));
    assert_eq!(paths.u, PlanePath::Slow);
    assert_eq!(paths.v, PlanePath::Slow);
    assert_eq!(y.get(4, 3, 10), ey);
    assert_eq!(u.get(2, 2, 5), eu);
    assert_eq!(v.get(2, 2, 5), ev);
    assert_eq!(u.bytes()[4], 0xee);
    assert_eq!(v.bytes()[9], 0xee);
}

#[test]
fn rgba8_to_reversible_ycgco_reports_faults_without_writing() {
    let rgba = vec![0u8; 48];
    let mut y = vec![1u8; 24];
    let mut u = vec![2u8; 8];
    let mut v = vec![3u8; 7];
    let outcome = pixart_rgba8_to_icgco_r10(
        &mut y, 8, &mut u, 4, &mut v, 4, &rgba, 16, 4, 3, YuvRange::Pc, AvifYCgCoRType::Re, YuvType::Yuv420,
    );
    assert_eq!(outcome, Err(PixartError::RegionMismatch));
    assert_eq!(y, vec![1u8; 24]);
    assert_eq!(u, vec![2u8; 8]);
}

#[test]
fn ra30_matches_the_kernel_called_directly() {
    let rgba = ramp(16, 263, 1024);
    let rgb = ramp(12, 263, 4096);
    let mut expected = vec![0u8; 16];
    yuv::rgba10_to_ra30(&mut expected, 8, yuv::Rgb30ByteOrder::Network, &rgba, 8, 2, 2).unwrap();
    let mut expected12 = vec![0u8; 16];
    yuv::rgb12_to_ra30(&mut expected12, 8, yuv::Rgb30ByteOrder::Network, &rgb, 6, 2, 2).unwrap();
    assert_ne!(expected, vec![0u8; 16]);
    for skew in [false, true] {
        let mut source = Region::new(34, skew);
        source.put(&rgba, 8, 17);
        let mut dst = vec![0u8; 16];
        assert_eq!(pixart_rgba_u16_to_ra30(source.bytes(), 17, &mut dst, 8, 10, 2, 2), Ok(()));
        assert_eq!(dst, expected);
        let mut source = Region::new(24, skew);
        source.put(&rgb, 6, 12);
        let mut dst = vec![0u8; 16];
        assert_eq!(pixart_rgb_u16_to_ra30(source.bytes(), 12, &mut dst, 8, 12, 2, 2), Ok(()));
        assert_eq!(dst, expected12);
    }
}

#[test]
fn ra30_with_unknown_depth_writes_nothing() {
    let source = Region::new(32, false);
    let mut dst = vec![0x42u8; 16];
    assert_eq!(
        pixart_rgba_u16_to_ra30(source.bytes(), 16, &mut dst, 8, 8, 2, 2),
        Err(PixartError::UnsupportedBitDepth)
    );
    assert_eq!(dst, vec![0x42u8; 16]);
}

#[test]
fn odd_sized_images_encode_at_every_subsampling() {
    for (width, height) in [(1usize, 1usize), (3, 3), (5, 1), (1, 5), (2, 1)] {
        let rgba: Vec<u8> = (0..width * height * 4).map(|k| (k * 41 % 256) as u8).collect();
        for yuv_type in [YuvType::Yuv420, YuvType::Yuv422, YuvType::Yuv444] {
            let (cw, ch) = match yuv_type {
                YuvType::Yuv420 => (width.div_ceil(2), height.div_ceil(2)),
                YuvType::Yuv422 => (width.div_ceil(2), height),
                YuvType::Yuv444 => (width, height),
            };
            for matrix in [YuvMatrix::Bt601, YuvMatrix::YCgCo] {
                // Strides with padding: the kernels walk whole strides.
                let mut y = vec![0u8; (width + 1) * height];
                let mut u = vec![0u8; (cw + 3) * ch];
                let mut v = vec![0u8; (cw + 3) * ch];
                let outcome = pixart_rgba8_to_yuv8(
                    &mut y, (width + 1) as u32, &mut u, (cw + 3) as u32, &mut v, (cw + 3) as u32,
                    &rgba, (width * 4) as u32, width as u32, height as u32, YuvRange::Pc, matrix,
                    yuv_type,
                );
                assert_eq!(outcome, Ok(()));
            }
            let mut y = vec![0u8; (2 * width + 1) * height];
            let mut u = vec![0u8; (2 * cw + 2) * ch];
            let mut v = vec![0u8; (2 * cw + 5) * ch];
            let outcome = pixart_rgba8_to_icgco_r10(
                &mut y, (2 * width + 1) as u32, &mut u, (2 * cw + 2) as u32, &mut v,
                (2 * cw + 5) as u32, &rgba, (width * 4) as u32, width as u32, height as u32,
                YuvRange::Pc, AvifYCgCoRType::Re, yuv_type,
            );
            assert!(outcome.is_ok());
        }
    }
}

#[test]
fn odd_sized_images_decode_at_every_subsampling() {
    for (width, height) in [(1usize, 1usize), (3, 3), (5, 1), (1, 5), (2, 1)] {
        for yuv_type in [YuvType::Yuv420, YuvType::Yuv422, YuvType::Yuv444] {
            let (cw, ch) = match yuv_type {
                YuvType::Yuv420 => (width.div_ceil(2), height.div_ceil(2)),
                YuvType::Yuv422 => (width.div_ceil(2), height),
                YuvType::Yuv444 => (width, height),
            };
            let y = vec![100u8; (width + 2) * height];
            let u = vec![120u8; (cw + 1) * ch];
            let v = vec![130u8; (cw + 1) * ch];
            let a = vec![200u8; width * height];
            for matrix in [YuvMatrix::Bt709, YuvMatrix::YCgCo] {
                let mut rgb = vec![0u8; (3 * width + 2) * height];
                let outcome = pixart_yuv8_to_rgb8(
                    &y, (width + 2) as u32, &u, (cw + 1) as u32, &v, (cw + 1) as u32, &mut rgb,
                    (3 * width + 2) as u32, width as u32, height as u32, YuvRange::Tv, matrix,
                    yuv_type,
                );
                assert_eq!(outcome, Ok(()));
                let mut rgba = vec![0u8; (4 * width + 1) * height];
                let outcome = pixart_yuv8_with_alpha_to_rgba8(
                    &y, (width + 2) as u32, &u, (cw + 1) as u32, &v, (cw + 1) as u32, &a,
                    width as u32, &mut rgba, (4 * width + 1) as u32, width as u32, height as u32,
                    YuvRange::Tv, matrix, yuv_type,
                );
                assert_eq!(outcome, Ok(()));
            }
            // Every two bytes hold 0x0101 or 0x0202, whichever way they are paired.
            let wide = vec![1u8; (2 * width + 3) * height];
            let chroma = vec![2u8; (2 * cw + 1) * ch];
            for depth in [10, 12] {
                for matrix in [YuvMatrix::Bt2020, YuvMatrix::YCgCo] {
                    let mut rgb = vec![0u8; (6 * width + 3) * height];
                    let outcome = pixart_yuv16_to_rgb16(
                        &wide, (2 * width + 3) as u32, &chroma, (2 * cw + 1) as u32, &chroma,
                        (2 * cw + 1) as u32, &mut rgb, (6 * width + 3) as u32, depth, width as u32,
                        height as u32, YuvRange::Tv, matrix, yuv_type,
                    );
                    assert_eq!(outcome, Ok(PlanePath::Slow));
                }
            }
        }
    }
}
