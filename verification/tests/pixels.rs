use avifpixart::native::host_stores_low_byte_first;
use avifpixart::half_float::ycgco_to_packed_rgba16;
use avifpixart::image::Planar;
use avifpixart::{
    pixart_icgc12_r_to_rgb10, pixart_icgc_r_alpha12_to_rgba10, pixart_icgc_r_type_to_rgb,
    pixart_rgba8_to_icgco_r10, pixart_rgba8_to_y08,
    pixart_rgba8_to_yuv8, pixart_yuv16_to_rgb16, pixart_yuv16_with_alpha_to_rgba16,
    pixart_yuv400_p16_to_rgb16,
    pixart_yuv400_to_rgb8, pixart_yuv400_with_alpha_to_rgba8, pixart_yuv8_to_rgb8,
    AvifYCgCoRType, PlanePath, YuvMatrix, YuvRange, YuvType,
};

/// A byte region whose first byte lies on a sample's boundary, or one byte
/// beyond it.
struct Bytes {
    store: Vec<u16>,
    skew: bool,
    count: usize,
}

impl Bytes {
    fn filled(count: usize, skew: bool, fill: u8) -> Bytes {
        let mut region = Bytes { store: vec![0u16; count / 2 + 2], skew, count };
        region.all_mut().fill(fill);
        region
    }

    fn of(samples: &[u16], row: usize, stride: usize, skew: bool) -> Bytes {
        let rows = samples.len() / row;
        let mut region = Bytes::filled(stride * rows, skew, 0);
        let bytes = region.all_mut();
        for (k, sample) in samples.iter().enumerate() {
            let at = (k / row) * stride + 2 * (k % row);
            bytes[at] = (*sample & 0xff) as u8;
            bytes[at + 1] = (*sample >> 8) as u8;
        }
        region
    }

    fn all(&self) -> &[u8] {
        let all: &[u8] = bytemuck::cast_slice(self.store.as_slice());
        let start = if self.skew { 1 } else { 0 };
        &all[start..start + self.count]
    }

    fn all_mut(&mut self) -> &mut [u8] {
        let all: &mut [u8] = bytemuck::cast_slice_mut(self.store.as_mut_slice());
        let start = if self.skew { 1 } else { 0 };
        &mut all[start..start + self.count]
    }

    fn sample(&self, stride: usize, row: usize, col: usize) -> u16 {
        let at = row * stride + 2 * col;
        u16::from_le_bytes([self.all()[at], self.all()[at + 1]])
    }
}

fn path_for(skew: bool) -> PlanePath {
    if !skew && host_stores_low_byte_first() {
        PlanePath::Fast
    } else {
        PlanePath::Slow
    }
}

#[test]
fn gray16_at_full_range_copies_luma_and_keeps_padding_on_either_path() {
    let luma_samples: Vec<u16> = vec![0, 1, 511, 1023, 700, 3];
    for skew in [false, true] {
        let luma = Bytes::of(&luma_samples, 3, 6, skew);
        let mut rgb = Bytes::filled(44, skew, 0x5a);
        let outcome = pixart_yuv400_p16_to_rgb16(
            luma.all(), 6, rgb.all_mut(), 22, 10, 3, 2, YuvRange::Pc, YuvMatrix::Bt709,
        );
        assert_eq!(outcome, Ok(path_for(skew)));
        for row in 0..2 {
            for col in 0..3 {
                for k in 0..3 {
                    assert_eq!(rgb.sample(22, row, 3 * col + k), luma_samples[3 * row + col]);
                }
            }
            assert_eq!(&rgb.all()[22 * row + 18..22 * row + 22], &[0x5a; 4]);
        }
    }
}

#[test]
fn gray16_at_limited_range_gives_gray_pixels_that_fit_the_depth() {
    let luma_samples: Vec<u16> = (0..40).map(|k| (k * 105 % 4096) as u16).collect();
    for skew in [false, true] {
        let luma = Bytes::of(&luma_samples, 20, 40, skew);
        let mut rgb = Bytes::filled(248, skew, 0xff);
        let outcome = pixart_yuv400_p16_to_rgb16(
            luma.all(), 40, rgb.all_mut(), 124, 12, 20, 2, YuvRange::Tv, YuvMatrix::Bt601,
        );
        assert_eq!(outcome, Ok(path_for(skew)));
        for row in 0..2 {
            for col in 0..20 {
                let first = rgb.sample(124, row, 3 * col);
                assert!(first < 4096);
                assert_eq!(rgb.sample(124, row, 3 * col + 1), first);
                assert_eq!(rgb.sample(124, row, 3 * col + 2), first);
            }
            assert_eq!(&rgb.all()[124 * row + 120..124 * row + 124], &[0xff; 4]);
        }
        // Luma 64 << 2 is black and luma 940 << 2 is white at limited range.
        let ends = Bytes::of(&[256, 3760], 2, 4, skew);
        let mut rgb = Bytes::filled(12, skew, 0);
        let outcome = pixart_yuv400_p16_to_rgb16(
            ends.all(), 4, rgb.all_mut(), 12, 12, 2, 1, YuvRange::Tv, YuvMatrix::Bt601,
        );
        assert_eq!(outcome, Ok(path_for(skew)));
        assert_eq!(rgb.sample(12, 0, 0), 0);
        assert_eq!(rgb.sample(12, 0, 3), 4095);
    }
}

#[test]
fn identity_at_full_range_hands_the_planes_on_as_colours() {
    let g: Vec<u16> = vec![1, 2, 3, 4];
    let b: Vec<u16> = vec![100, 200, 300, 400];
    let r: Vec<u16> = vec![1023, 1000, 900, 800];
    for skew in [false, true] {
        let y = Bytes::of(&g, 2, 4, skew);
        let u = Bytes::of(&b, 2, 4, skew);
        let v = Bytes::of(&r, 2, 4, skew);
        let mut rgb = Bytes::filled(32, skew, 0x77);
        let outcome = pixart_yuv16_to_rgb16(
            y.all(), 4, u.all(), 4, v.all(), 4, rgb.all_mut(), 16, 10, 2, 2,
            YuvRange::Pc, YuvMatrix::Identity, YuvType::Yuv444,
        );
        assert_eq!(outcome, Ok(path_for(skew)));
        for row in 0..2 {
            for col in 0..2 {
                assert_eq!(rgb.sample(16, row, 3 * col), r[2 * row + col]);
                assert_eq!(rgb.sample(16, row, 3 * col + 1), g[2 * row + col]);
                assert_eq!(rgb.sample(16, row, 3 * col + 2), b[2 * row + col]);
            }
            assert_eq!(&rgb.all()[16 * row + 12..16 * row + 16], &[0x77; 4]);
        }
    }
}

#[test]
fn ycgco16_gives_samples_that_fit_the_depth_and_keeps_padding() {
    let y: Vec<u16> = (0..12).map(|k| (k * 97 % 1024) as u16).collect();
    let c: Vec<u16> = (0..4).map(|k| (1023 - k * 301 % 1024) as u16).collect();
    for skew in [false, true] {
        for range in [YuvRange::Tv, YuvRange::Pc] {
            let luma = Bytes::of(&y, 3, 6, skew);
            let cb = Bytes::of(&c, 2, 4, skew);
            let cr = Bytes::of(&c, 2, 4, skew);
            let mut rgb = Bytes::filled(88, skew, 0xee);
            let outcome = pixart_yuv16_to_rgb16(
                luma.all(), 6, cb.all(), 4, cr.all(), 4, rgb.all_mut(), 22, 10, 3, 4,
                range, YuvMatrix::YCgCo, YuvType::Yuv420,
            );
            assert_eq!(outcome, Ok(path_for(skew)));
            for row in 0..4 {
                for col in 0..9 {
                    assert!(rgb.sample(22, row, col) < 1024);
                }
                assert_eq!(&rgb.all()[22 * row + 18..22 * row + 22], &[0xee; 4]);
            }
        }
    }
}

#[test]
fn reversible_ycgco12_gives_samples_of_ten_bits_and_keeps_padding() {
    let y: Vec<u16> = (0..9).map(|k| (k * 511 % 4096) as u16).collect();
    let c: Vec<u16> = (0..9).map(|k| (4095 - k * 317 % 4096) as u16).collect();
    for skew in [false, true] {
        for r_type in [AvifYCgCoRType::Ro, AvifYCgCoRType::Re] {
            let luma = Bytes::of(&y, 3, 6, skew);
            let cb = Bytes::of(&c, 3, 6, skew);
            let cr = Bytes::of(&c, 3, 6, skew);
            let mut rgb = Bytes::filled(66, skew, 0xee);
            let outcome = pixart_icgc12_r_to_rgb10(
                luma.all(), 6, cb.all(), 6, cr.all(), 6, rgb.all_mut(), 22, 3, 3,
                YuvRange::Pc, r_type, YuvType::Yuv444,
            );
            assert_eq!(outcome, Ok(path_for(skew)));
            for row in 0..3 {
                for col in 0..9 {
                    assert!(rgb.sample(22, row, col) < 1024);
                }
                assert_eq!(&rgb.all()[22 * row + 18..22 * row + 22], &[0xee; 4]);
            }
        }
    }
}

#[test]
fn identity_encoder_at_full_range_splits_the_colours() {
    let rgba: Vec<u8> = (0..70).map(|k| (k * 7 + 3) as u8).collect();
    let mut y = vec![0xaau8; 80];
    let mut u = vec![0xbbu8; 70];
    let mut v = vec![0xccu8; 72];
    let outcome = pixart_rgba8_to_yuv8(
        &mut y, 40, &mut u, 35, &mut v, 36, &rgba, 35, 8, 2,
        YuvRange::Pc, YuvMatrix::Identity, YuvType::Yuv444,
    );
    assert_eq!(outcome, Ok(()));
    for row in 0..2 {
        for col in 0..8 {
            assert_eq!(y[40 * row + col], rgba[35 * row + 4 * col + 1]);
            assert_eq!(u[35 * row + col], rgba[35 * row + 4 * col + 2]);
            assert_eq!(v[36 * row + col], rgba[35 * row + 4 * col]);
        }
    }
}

#[test]
fn gray8_at_full_range_keeps_stride_padding() {
    let y: Vec<u8> = (0..80).map(|k| (k * 3) as u8).collect();
    let a: Vec<u8> = (0..80).map(|k| (255 - k) as u8).collect();
    let mut rgb = vec![0x11u8; 250];
    assert_eq!(
        pixart_yuv400_to_rgb8(&y, 40, &mut rgb, 125, 40, 2, YuvRange::Pc, YuvMatrix::Bt2020),
        Ok(())
    );
    let mut rgba = vec![0x22u8; 330];
    assert_eq!(
        pixart_yuv400_with_alpha_to_rgba8(
            &y, 40, &a, 40, &mut rgba, 165, 40, 2, YuvRange::Pc, YuvMatrix::Bt2020,
        ),
        Ok(())
    );
    for row in 0..2 {
        for col in 0..40 {
            assert_eq!(&rgb[125 * row + 3 * col..125 * row + 3 * col + 3], &[y[40 * row + col]; 3]);
            let pixel = &rgba[165 * row + 4 * col..165 * row + 4 * col + 4];
            assert_eq!(pixel, &[y[40 * row + col], y[40 * row + col], y[40 * row + col], a[40 * row + col]]);
        }
        assert_eq!(&rgb[125 * row + 120..125 * row + 125], &[0x11; 5]);
        assert_eq!(&rgba[165 * row + 160..165 * row + 165], &[0x22; 5]);
    }
}

#[test]
fn ycgco8_at_limited_range_matches_the_kernel_and_keeps_padding() {
    let y: Vec<u8> = (0..70).map(|k| (16 + k * 3) as u8).collect();
    let c: Vec<u8> = (0..36).map(|k| (240 - k * 5) as u8).collect();
    let mut rgb = vec![0x33u8; 220];
    let outcome = pixart_yuv8_to_rgb8(
        &y, 35, &c, 18, &c, 18, &mut rgb, 110, 35, 2,
        YuvRange::Tv, YuvMatrix::YCgCo, YuvType::Yuv422,
    );
    assert_eq!(outcome, Ok(()));
    let image = yuv::YuvPlanarImage {
        y_plane: &y, y_stride: 35, u_plane: &c, u_stride: 18, v_plane: &c, v_stride: 18,
        width: 35, height: 2,
    };
    let mut expected = vec![0x33u8; 220];
    yuv::ycgco422_to_rgb(&image, &mut expected, 110, yuv::YuvRange::Limited).unwrap();
    assert_eq!(rgb, expected);
    assert_ne!(&rgb[..105], &[0x33u8; 105][..]);
    assert_eq!(&rgb[105..110], &[0x33; 5]);
    assert_eq!(&rgb[215..220], &[0x33; 5]);
}

#[test]
fn matrix16_gives_samples_that_fit_the_depth_and_keeps_padding() {
    let width = 41usize;
    let height = 3usize;
    let y: Vec<u16> = (0..width * height).map(|k| (k * 389 % 1024) as u16).collect();
    let c: Vec<u16> = (0..21 * 2).map(|k| (1023 - k * 211 % 1024) as u16).collect();
    let d: Vec<u16> = (0..21 * 2).map(|k| (k * 997 % 1024) as u16).collect();
    for skew in [false, true] {
        for range in [YuvRange::Tv, YuvRange::Pc] {
            let luma = Bytes::of(&y, width, 2 * width, skew);
            let cb = Bytes::of(&c, 21, 42, skew);
            let cr = Bytes::of(&d, 21, 42, skew);
            let stride = 6 * width + 6;
            let mut rgb = Bytes::filled(stride * height, skew, 0xee);
            let outcome = pixart_yuv16_to_rgb16(
                luma.all(), 82, cb.all(), 42, cr.all(), 42, rgb.all_mut(), stride as u32, 10,
                width as u32, height as u32, range, YuvMatrix::Bt709, YuvType::Yuv420,
            );
            assert_eq!(outcome, Ok(path_for(skew)));
            let mut lit = false;
            for row in 0..height {
                for col in 0..3 * width {
                    let sample = rgb.sample(stride, row, col);
                    assert!(sample < 1024);
                    lit = lit || sample != 0;
                }
                assert_eq!(&rgb.all()[stride * row + 6 * width..stride * (row + 1)], &[0xee; 6]);
            }
            assert!(lit);
        }
    }
}

#[test]
fn narrowing_reversible_ycgco_keeps_stride_padding() {
    let width = 21usize;
    let y: Vec<u16> = (0..width * 2).map(|k| (k * 389 % 1024) as u16).collect();
    let c: Vec<u16> = (0..width * 2).map(|k| (1023 - k * 211 % 1024) as u16).collect();
    for skew in [false, true] {
        for range in [YuvRange::Tv, YuvRange::Pc] {
            for r_type in [AvifYCgCoRType::Ro, AvifYCgCoRType::Re] {
                let luma = Bytes::of(&y, width, 2 * width, skew);
                let cb = Bytes::of(&c, width, 2 * width, skew);
                let cr = Bytes::of(&c, width, 2 * width, skew);
                let mut rgb = vec![0x44u8; 2 * 70];
                let outcome = pixart_icgc_r_type_to_rgb(
                    luma.all(), 42, cb.all(), 42, cr.all(), 42, &mut rgb, 70, 21, 2,
                    range, r_type, YuvType::Yuv444,
                );
                assert_eq!(outcome, Ok(()));
                assert_ne!(&rgb[..63], &[0x44u8; 63][..]);
                assert_eq!(&rgb[63..70], &[0x44; 7]);
                assert_eq!(&rgb[133..140], &[0x44; 7]);
            }
        }
    }
}

#[test]
fn luma_encoder_keeps_stride_padding() {
    let width = 43usize;
    let rgba: Vec<u8> = (0..width * 4 * 2).map(|k| (k * 37 % 256) as u8).collect();
    for range in [YuvRange::Tv, YuvRange::Pc] {
        let mut y = vec![0x99u8; 100];
        let outcome = pixart_rgba8_to_y08(
            &mut y, 50, &rgba, (width * 4) as u32, width as u32, 2, range, YuvMatrix::Bt601,
        );
        assert_eq!(outcome, Ok(()));
        assert_ne!(&y[..43], &[0x99u8; 43][..]);
        assert_eq!(&y[43..50], &[0x99; 7]);
        assert_eq!(&y[93..100], &[0x99; 7]);
    }
}

#[test]
fn ycgco_integer_pixels_fit_the_depth() {
    let y: Vec<u16> = (0..10).map(|k| (k * 409 % 1024) as u16).collect();
    let u: Vec<u16> = (0..6).map(|k| (1023 - k * 200) as u16).collect();
    let v: Vec<u16> = (0..6).map(|k| (k * 204) as u16).collect();
    let image = Planar {
        y_plane: &y, y_stride: 5, u_plane: &u, u_stride: 3, v_plane: &v, v_stride: 3,
        width: 5, height: 2,
    };
    for range in [YuvRange::Tv, YuvRange::Pc] {
        let packed = ycgco_to_packed_rgba16(&image, 10, range, YuvType::Yuv422).unwrap();
        assert_eq!(packed.len(), 40);
        assert!(packed.iter().all(|sample| *sample < 1024));
        assert!(packed.iter().skip(3).step_by(4).all(|alpha| *alpha == 1023));
    }
}

fn chroma_size(width: usize, height: usize, yuv_type: YuvType) -> (usize, usize) {
    match yuv_type {
        YuvType::Yuv420 => (width.div_ceil(2), height.div_ceil(2)),
        YuvType::Yuv422 => (width.div_ceil(2), height),
        YuvType::Yuv444 => (width, height),
    }
}

fn noise(count: usize, seed: usize, limit: usize) -> Vec<u16> {
    (0..count).map(|k| ((k * 7919 + seed * 104729 + k * k * 31) % limit) as u16).collect()
}

#[test]
fn planar16_caps_every_sample_and_keeps_padding_at_every_width() {
    for width in 1usize..=49 {
        for (height, depth, limit) in [(3usize, 10u32, 1024usize), (2, 12, 4096)] {
            for yuv_type in [YuvType::Yuv420, YuvType::Yuv422, YuvType::Yuv444] {
                for matrix in [YuvMatrix::Bt601, YuvMatrix::Bt2020, YuvMatrix::YCgCo] {
                    let (cw, ch) = chroma_size(width, height, yuv_type);
                    let luma = Bytes::of(&noise(width * height, 1, limit), width, 2 * width + 2, false);
                    let cb = Bytes::of(&noise(cw * ch, 2, limit), cw, 2 * cw, false);
                    let cr = Bytes::of(&noise(cw * ch, 3, limit), cw, 2 * cw + 4, false);
                    let stride = 6 * width + 8;
                    let mut rgb = Bytes::filled(stride * height, false, 0xff);
                    let outcome = pixart_yuv16_to_rgb16(
                        luma.all(), (2 * width + 2) as u32, cb.all(), (2 * cw) as u32,
                        cr.all(), (2 * cw + 4) as u32, rgb.all_mut(), stride as u32, depth,
                        width as u32, height as u32, YuvRange::Tv, matrix, yuv_type,
                    );
                    assert_eq!(outcome, Ok(path_for(false)));
                    for row in 0..height {
                        for col in 0..3 * width {
                            assert!((rgb.sample(stride, row, col) as usize) < limit);
                        }
                        let padding = &rgb.all()[stride * row + 6 * width..stride * (row + 1)];
                        assert_eq!(padding, &[0xff; 8]);
                    }
                }
            }
        }
    }
}

#[test]
fn gray16_caps_every_sample_and_keeps_padding_at_every_width() {
    for width in 1usize..=40 {
        for (depth, limit) in [(10u32, 1024usize), (12, 4096)] {
            for range in [YuvRange::Tv, YuvRange::Pc] {
                let samples = noise(width * 2, 5, limit);
                let luma = Bytes::of(&samples, width, 2 * width, false);
                let stride = 6 * width + 6;
                let mut rgb = Bytes::filled(stride * 2, false, 0xff);
                let outcome = pixart_yuv400_p16_to_rgb16(
                    luma.all(), (2 * width) as u32, rgb.all_mut(), stride as u32, depth,
                    width as u32, 2, range, YuvMatrix::Bt709,
                );
                assert_eq!(outcome, Ok(path_for(false)));
                for row in 0..2 {
                    for col in 0..width {
                        let first = rgb.sample(stride, row, 3 * col);
                        assert!((first as usize) < limit);
                        assert_eq!(rgb.sample(stride, row, 3 * col + 1), first);
                        assert_eq!(rgb.sample(stride, row, 3 * col + 2), first);
                        if range == YuvRange::Pc {
                            assert_eq!(first, samples[row * width + col]);
                        }
                    }
                    assert_eq!(&rgb.all()[stride * row + 6 * width..stride * (row + 1)], &[0xff; 6]);
                }
            }
        }
    }
}

#[test]
fn byte_destinations_keep_padding_at_every_width() {
    for width in 1usize..=70 {
        let rgba: Vec<u8> = (0..width * 8).map(|k| (k * 37 % 251) as u8).collect();
        let mut y = vec![0x99u8; 2 * (width + 3)];
        let outcome = pixart_rgba8_to_y08(
            &mut y, (width + 3) as u32, &rgba, (width * 4) as u32, width as u32, 2,
            YuvRange::Tv, YuvMatrix::Bt709,
        );
        assert_eq!(outcome, Ok(()));
        assert_eq!(&y[width..width + 3], &[0x99; 3]);
        assert_eq!(&y[2 * width + 3..], &[0x99; 3]);
        for yuv_type in [YuvType::Yuv420, YuvType::Yuv422, YuvType::Yuv444] {
            for range in [YuvRange::Tv, YuvRange::Pc] {
                let (cw, ch) = chroma_size(width, 2, yuv_type);
                let luma = Bytes::of(&noise(width * 2, 1, 1024), width, 2 * width, false);
                let cb = Bytes::of(&noise(cw * ch, 2, 1024), cw, 2 * cw, false);
                let cr = Bytes::of(&noise(cw * ch, 3, 1024), cw, 2 * cw, false);
                let stride = 3 * width + 5;
                let mut rgb = vec![0x44u8; 2 * stride];
                let outcome = pixart_icgc_r_type_to_rgb(
                    luma.all(), (2 * width) as u32, cb.all(), (2 * cw) as u32, cr.all(),
                    (2 * cw) as u32, &mut rgb, stride as u32, width as u32, 2, range,
                    AvifYCgCoRType::Re, yuv_type,
                );
                assert_eq!(outcome, Ok(()));
                assert_eq!(&rgb[3 * width..stride], &[0x44; 5]);
                assert_eq!(&rgb[stride + 3 * width..], &[0x44; 5]);
            }
        }
    }
}

#[test]
fn planar16_with_alpha_caps_every_sample_and_keeps_padding_at_every_width() {
    for width in 1usize..=49 {
        for (height, depth, limit) in [(3usize, 10u32, 1024usize), (2, 12, 4096)] {
            for yuv_type in [YuvType::Yuv420, YuvType::Yuv422, YuvType::Yuv444] {
                for matrix in [YuvMatrix::Bt709, YuvMatrix::YCgCo, YuvMatrix::Identity] {
                    if matrix == YuvMatrix::Identity && yuv_type != YuvType::Yuv444 {
                        continue;
                    }
                    let (cw, ch) = chroma_size(width, height, yuv_type);
                    let y = noise(width * height, 1, limit);
                    let u = noise(cw * ch, 2, limit);
                    let v = noise(cw * ch, 3, limit);
                    let a = noise(width * height, 4, limit);
                    let luma = Bytes::of(&y, width, 2 * width + 2, false);
                    let cb = Bytes::of(&u, cw, 2 * cw, false);
                    let cr = Bytes::of(&v, cw, 2 * cw + 4, false);
                    let alpha = Bytes::of(&a, width, 2 * width, false);
                    let stride = 8 * width + 8;
                    let mut rgba = Bytes::filled(stride * height, false, 0xff);
                    let outcome = pixart_yuv16_with_alpha_to_rgba16(
                        luma.all(), (2 * width + 2) as u32, cb.all(), (2 * cw) as u32,
                        cr.all(), (2 * cw + 4) as u32, alpha.all(), (2 * width) as u32,
                        rgba.all_mut(), stride as u32, depth, width as u32, height as u32,
                        YuvRange::Pc, matrix, yuv_type,
                    );
                    assert_eq!(outcome, Ok(path_for(false)));
                    for row in 0..height {
                        for col in 0..width {
                            for k in 0..4 {
                                assert!((rgba.sample(stride, row, 4 * col + k) as usize) < limit);
                            }
                            if matrix != YuvMatrix::Bt709 {
                                assert_eq!(rgba.sample(stride, row, 4 * col + 3), a[row * width + col]);
                            }
                            if matrix == YuvMatrix::Identity {
                                assert_eq!(rgba.sample(stride, row, 4 * col), v[row * width + col]);
                                assert_eq!(rgba.sample(stride, row, 4 * col + 1), y[row * width + col]);
                                assert_eq!(rgba.sample(stride, row, 4 * col + 2), u[row * width + col]);
                            }
                        }
                        let padding = &rgba.all()[stride * row + 8 * width..stride * (row + 1)];
                        assert_eq!(padding, &[0xff; 8]);
                    }
                }
            }
        }
    }
}

#[test]
fn reversible_ycgco12_with_alpha_caps_every_sample_and_keeps_padding() {
    for width in [1usize, 2, 3, 8, 17] {
        for yuv_type in [YuvType::Yuv420, YuvType::Yuv422, YuvType::Yuv444] {
            for r_type in [AvifYCgCoRType::Ro, AvifYCgCoRType::Re] {
                let height = 3usize;
                let (cw, ch) = chroma_size(width, height, yuv_type);
                let luma = Bytes::of(&noise(width * height, 1, 4096), width, 2 * width, false);
                let cb = Bytes::of(&noise(cw * ch, 2, 4096), cw, 2 * cw, false);
                let cr = Bytes::of(&noise(cw * ch, 3, 4096), cw, 2 * cw, false);
                let alpha = Bytes::of(&noise(width * height, 4, 4096), width, 2 * width, false);
                let stride = 8 * width + 4;
                let mut rgba = Bytes::filled(stride * height, false, 0xff);
                let outcome = pixart_icgc_r_alpha12_to_rgba10(
                    luma.all(), (2 * width) as u32, cb.all(), (2 * cw) as u32, cr.all(),
                    (2 * cw) as u32, alpha.all(), (2 * width) as u32, rgba.all_mut(),
                    stride as u32, width as u32, height as u32, YuvRange::Pc, r_type, yuv_type,
                );
                assert_eq!(outcome, Ok(path_for(false)));
                for row in 0..height {
                    for col in 0..4 * width {
                        assert!(rgba.sample(stride, row, col) < 1024);
                    }
                    assert_eq!(&rgba.all()[stride * row + 8 * width..stride * (row + 1)], &[0xff; 4]);
                }
            }
        }
    }
}

#[test]
fn reversible_encoder_keeps_the_padding_of_every_plane() {
    for width in [1usize, 2, 5, 16] {
        for yuv_type in [YuvType::Yuv420, YuvType::Yuv422, YuvType::Yuv444] {
            let height = 3usize;
            let (cw, ch) = chroma_size(width, height, yuv_type);
            let rgba: Vec<u8> = (0..width * 4 * height).map(|k| (k * 53 % 256) as u8).collect();
            let mut y = Bytes::filled((2 * width + 2) * height, false, 0xee);
            let mut u = Bytes::filled((2 * cw + 4) * ch, false, 0xdd);
            let mut v = Bytes::filled((2 * cw + 6) * ch, false, 0xcc);
            let outcome = pixart_rgba8_to_icgco_r10(
                y.all_mut(), (2 * width + 2) as u32, u.all_mut(), (2 * cw + 4) as u32,
                v.all_mut(), (2 * cw + 6) as u32, &rgba, (4 * width) as u32, width as u32,
                height as u32, YuvRange::Pc, AvifYCgCoRType::Re, yuv_type,
            );
            let paths = outcome.unwrap();
            assert_eq!(paths.y, path_for(false));
            for row in 0..height {
                let at = (2 * width + 2) * row + 2 * width;
                assert_eq!(&y.all()[at..at + 2], &[0xee; 2]);
            }
            for row in 0..ch {
                let at = (2 * cw + 4) * row + 2 * cw;
                assert_eq!(&u.all()[at..at + 4], &[0xdd; 4]);
                let at = (2 * cw + 6) * row + 2 * cw;
                assert_eq!(&v.all()[at..at + 6], &[0xcc; 6]);
            }
        }
    }
}
