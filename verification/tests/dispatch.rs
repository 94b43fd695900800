use avifpixart::dispatch::{
    icgc12_r_to_rgb10_kernel, icgc_r_type_to_rgb_kernel, icgc_r_type_with_alpha_to_rgba_kernel,
    rgb_u16_to_ra30_kernel, rgba8_to_yuv8_kernel, rgba_u16_to_ra30_kernel,
    ycgco_to_packed_rgba16_kernel, yuv16_to_rgb16_kernel, yuv16_with_alpha_to_rgba16_kernel,
    yuv400_p16_to_rgb16_kernel, yuv8_to_rgb8_kernel, Gray16Kernel, Icgc10AlphaKernel,
    Icgc10Kernel, Icgc12Kernel, RgbRa30Kernel, Rgba8Kernel, RgbaRa30Kernel, YcgcoRgbaKernel,
    Yuv16AlphaKernel, Yuv16Kernel, Yuv8Kernel,
};
use avifpixart::{
    pixart_icgc12_r_to_rgb10, pixart_icgc_r_alpha12_to_rgba10, pixart_icgc_r_type_to_rgb,
    pixart_icgc_r_type_with_alpha_to_rgba, pixart_rgba8_to_icgco_r10, pixart_rgba8_to_yuv8,
    pixart_yuv16_to_rgb16, pixart_yuv16_with_alpha_to_rgba16, pixart_yuv8_to_rgb8,
    pixart_yuv8_with_alpha_to_rgba8, AvifYCgCoRType, YuvMatrix, YuvRange, YuvType,
};
use yuv::{YuvError, YuvPlanarImage, YuvPlanarImageMut, YuvPlanarImageWithAlpha, YuvStandardMatrix};

const WIDTH: usize = 4;
const HEIGHT: usize = 4;
const TYPES: [YuvType; 3] = [YuvType::Yuv420, YuvType::Yuv422, YuvType::Yuv444];
const MATRICES: [YuvMatrix; 5] =
    [YuvMatrix::Bt601, YuvMatrix::Bt709, YuvMatrix::Bt2020, YuvMatrix::Identity, YuvMatrix::YCgCo];
const R_TYPES: [AvifYCgCoRType; 2] = [AvifYCgCoRType::Ro, AvifYCgCoRType::Re];

fn chroma_size(yuv_type: YuvType) -> (usize, usize) {
    match yuv_type {
        YuvType::Yuv420 => (2, 2),
        YuvType::Yuv422 => (2, 4),
        YuvType::Yuv444 => (4, 4),
    }
}

fn samples(count: usize, step: usize, limit: usize) -> Vec<u16> {
    (0..count).map(|k| ((17 + k * step) % limit) as u16).collect()
}

fn narrow(wide: &[u16]) -> Vec<u8> {
    wide.iter().map(|sample| *sample as u8).collect()
}

fn bytes_of(wide: &[u16]) -> Vec<u8> {
    wide.iter().flat_map(|sample| sample.to_le_bytes()).collect()
}

fn samples_of(bytes: &[u8]) -> Vec<u16> {
    bytes.chunks_exact(2).map(|pair| u16::from_le_bytes([pair[0], pair[1]])).collect()
}

fn standard(matrix: YuvMatrix) -> YuvStandardMatrix {
    match matrix {
        YuvMatrix::Bt601 => YuvStandardMatrix::Bt601,
        YuvMatrix::Bt709 => YuvStandardMatrix::Bt709,
        _ => YuvStandardMatrix::Bt2020,
    }
}

type Wide = fn(&YuvPlanarImage<u16>, &mut [u16], u32, yuv::YuvRange) -> Result<(), YuvError>;
type WideMatrix =
    fn(&YuvPlanarImage<u16>, &mut [u16], u32, yuv::YuvRange, YuvStandardMatrix) -> Result<(), YuvError>;
type WideAlpha =
    fn(&YuvPlanarImageWithAlpha<u16>, &mut [u16], u32, yuv::YuvRange) -> Result<(), YuvError>;
type WideAlphaMatrix = fn(
    &YuvPlanarImageWithAlpha<u16>,
    &mut [u16],
    u32,
    yuv::YuvRange,
    YuvStandardMatrix,
) -> Result<(), YuvError>;

#[test]
fn yuv16_runs_the_kernel_of_its_selectors() {
    for depth in [10u32, 12] {
        for matrix in MATRICES {
            for yuv_type in TYPES {
                if matrix == YuvMatrix::Identity && yuv_type != YuvType::Yuv444 {
                    continue;
                }
                let limit = 1usize << depth;
                let (cw, ch) = chroma_size(yuv_type);
                let y = samples(WIDTH * HEIGHT, 97, limit);
                let u = samples(cw * ch, 211, limit);
                let v = samples(cw * ch, 389, limit);
                let image = YuvPlanarImage {
                    y_plane: &y, y_stride: WIDTH as u32, u_plane: &u, u_stride: cw as u32,
                    v_plane: &v, v_stride: cw as u32, width: WIDTH as u32, height: HEIGHT as u32,
                };
                let mut expected = vec![0u16; WIDTH * HEIGHT * 3];
                let stride = (WIDTH * 3) as u32;
                let tone = yuv::YuvRange::Limited;
                match matrix {
                    YuvMatrix::Identity => {
                        let kernel: Wide = if depth == 10 { yuv::gb10_to_rgb10 } else { yuv::gb12_to_rgb12 };
                        kernel(&image, &mut expected, stride, tone).unwrap();
                    }
                    YuvMatrix::YCgCo => {
                        let kernel: Wide = match (yuv_type, depth) {
                            (YuvType::Yuv420, 10) => yuv::icgc010_to_rgb10,
                            (YuvType::Yuv420, _) => yuv::icgc012_to_rgb12,
                            (YuvType::Yuv422, 10) => yuv::icgc210_to_rgb10,
                            (YuvType::Yuv422, _) => yuv::icgc212_to_rgb12,
                            (YuvType::Yuv444, 10) => yuv::icgc410_to_rgb10,
                            (YuvType::Yuv444, _) => yuv::icgc412_to_rgb12,
                        };
                        kernel(&image, &mut expected, stride, tone).unwrap();
                    }
                    _ => {
                        let kernel: WideMatrix = match (yuv_type, depth) {
                            (YuvType::Yuv420, 10) => yuv::i010_to_rgb10,
                            (YuvType::Yuv420, _) => yuv::i012_to_rgb12,
                            (YuvType::Yuv422, 10) => yuv::i210_to_rgb10,
                            (YuvType::Yuv422, _) => yuv::i212_to_rgb12,
                            (YuvType::Yuv444, 10) => yuv::i410_to_rgb10,
                            (YuvType::Yuv444, _) => yuv::i412_to_rgb12,
                        };
                        kernel(&image, &mut expected, stride, tone, standard(matrix)).unwrap();
                    }
                }
                let mut rgb = vec![0u8; WIDTH * HEIGHT * 6];
                let outcome = pixart_yuv16_to_rgb16(
                    &bytes_of(&y), 2 * WIDTH as u32, &bytes_of(&u), 2 * cw as u32, &bytes_of(&v),
                    2 * cw as u32, &mut rgb, 2 * stride, depth, WIDTH as u32, HEIGHT as u32,
                    YuvRange::Tv, matrix, yuv_type,
                );
                assert!(outcome.is_ok());
                assert_eq!(samples_of(&rgb), expected, "{:?} {:?} {}", matrix, yuv_type, depth);
            }
        }
    }
}

#[test]
fn yuv16_with_alpha_runs_the_kernel_of_its_selectors() {
    for depth in [10u32, 12] {
        for matrix in MATRICES {
            for yuv_type in TYPES {
                if matrix == YuvMatrix::Identity && yuv_type != YuvType::Yuv444 {
                    continue;
                }
                let limit = 1usize << depth;
                let (cw, ch) = chroma_size(yuv_type);
                let y = samples(WIDTH * HEIGHT, 97, limit);
                let u = samples(cw * ch, 211, limit);
                let v = samples(cw * ch, 389, limit);
                let a = samples(WIDTH * HEIGHT, 53, limit);
                let image = YuvPlanarImageWithAlpha {
                    y_plane: &y, y_stride: WIDTH as u32, u_plane: &u, u_stride: cw as u32,
                    v_plane: &v, v_stride: cw as u32, a_plane: &a, a_stride: WIDTH as u32,
                    width: WIDTH as u32, height: HEIGHT as u32,
                };
                let mut expected = vec![0u16; WIDTH * HEIGHT * 4];
                let stride = (WIDTH * 4) as u32;
                let tone = yuv::YuvRange::Full;
                match matrix {
                    YuvMatrix::Identity => {
                        let kernel: WideAlpha =
                            if depth == 10 { yuv::gb10_alpha_to_rgba10 } else { yuv::gb12_alpha_to_rgba12 };
                        kernel(&image, &mut expected, stride, tone).unwrap();
                    }
                    YuvMatrix::YCgCo => {
                        let kernel: WideAlpha = match (yuv_type, depth) {
                            (YuvType::Yuv420, 10) => yuv::icgc010_alpha_to_rgba10,
                            (YuvType::Yuv420, _) => yuv::icgc012_alpha_to_rgba12,
                            (YuvType::Yuv422, 10) => yuv::icgc210_alpha_to_rgba10,
                            (YuvType::Yuv422, _) => yuv::icgc212_alpha_to_rgba12,
                            (YuvType::Yuv444, 10) => yuv::icgc410_alpha_to_rgba10,
                            (YuvType::Yuv444, _) => yuv::icgc412_alpha_to_rgba12,
                        };
                        kernel(&image, &mut expected, stride, tone).unwrap();
                    }
                    _ => {
                        let kernel: WideAlphaMatrix = match (yuv_type, depth) {
                            (YuvType::Yuv420, 10) => yuv::i010_alpha_to_rgba10,
                            (YuvType::Yuv420, _) => yuv::i012_alpha_to_rgba12,
                            (YuvType::Yuv422, 10) => yuv::i210_alpha_to_rgba10,
                            (YuvType::Yuv422, _) => yuv::i212_alpha_to_rgba12,
                            (YuvType::Yuv444, 10) => yuv::i410_alpha_to_rgba10,
                            (YuvType::Yuv444, _) => yuv::i412_alpha_to_rgba12,
                        };
                        kernel(&image, &mut expected, stride, tone, standard(matrix)).unwrap();
                    }
                }
                let mut rgba = vec![0u8; WIDTH * HEIGHT * 8];
                let outcome = pixart_yuv16_with_alpha_to_rgba16(
                    &bytes_of(&y), 2 * WIDTH as u32, &bytes_of(&u), 2 * cw as u32, &bytes_of(&v),
                    2 * cw as u32, &bytes_of(&a), 2 * WIDTH as u32, &mut rgba, 2 * stride, depth,
                    WIDTH as u32, HEIGHT as u32, YuvRange::Pc, matrix, yuv_type,
                );
                assert!(outcome.is_ok());
                assert_eq!(samples_of(&rgba), expected, "{:?} {:?} {}", matrix, yuv_type, depth);
            }
        }
    }
}

#[test]
fn reversible_ycgco_runs_the_kernel_of_its_selectors() {
    for r_type in R_TYPES {
        for yuv_type in TYPES {
            let (cw, ch) = chroma_size(yuv_type);
            let y = samples(WIDTH * HEIGHT, 97, 1024);
            let u = samples(cw * ch, 211, 1024);
            let v = samples(cw * ch, 389, 1024);
            let a = samples(WIDTH * HEIGHT, 53, 1024);
            let image = YuvPlanarImage {
                y_plane: &y, y_stride: WIDTH as u32, u_plane: &u, u_stride: cw as u32,
                v_plane: &v, v_stride: cw as u32, width: WIDTH as u32, height: HEIGHT as u32,
            };
            let with_alpha = YuvPlanarImageWithAlpha {
                y_plane: &y, y_stride: WIDTH as u32, u_plane: &u, u_stride: cw as u32,
                v_plane: &v, v_stride: cw as u32, a_plane: &a, a_stride: WIDTH as u32,
                width: WIDTH as u32, height: HEIGHT as u32,
            };
            let tone = yuv::YuvRange::Full;
            let (yb, ub, vb, ab) = (bytes_of(&y), bytes_of(&u), bytes_of(&v), bytes_of(&a));
            let (ys, cs) = (2 * WIDTH as u32, 2 * cw as u32);
            let label = format!("{:?} {:?}", r_type, yuv_type);

            let kernel: Wide = match (yuv_type, r_type) {
                (YuvType::Yuv420, AvifYCgCoRType::Ro) => yuv::icgc_ro012_to_rgb10,
                (YuvType::Yuv420, AvifYCgCoRType::Re) => yuv::icgc_re012_to_rgb10,
                (YuvType::Yuv422, AvifYCgCoRType::Ro) => yuv::icgc_ro212_to_rgb10,
                (YuvType::Yuv422, AvifYCgCoRType::Re) => yuv::icgc_re212_to_rgb10,
                (YuvType::Yuv444, AvifYCgCoRType::Ro) => yuv::icgc_ro412_to_rgb10,
                (YuvType::Yuv444, AvifYCgCoRType::Re) => yuv::icgc_re412_to_rgb10,
            };
            let mut expected = vec![0u16; WIDTH * HEIGHT * 3];
            kernel(&image, &mut expected, 12, tone).unwrap();
            let mut rgb = vec![0u8; WIDTH * HEIGHT * 6];
            let outcome = pixart_icgc12_r_to_rgb10(
                &yb, ys, &ub, cs, &vb, cs, &mut rgb, 24, 4, 4, YuvRange::Pc, r_type, yuv_type,
            );
            assert!(outcome.is_ok());
            assert_eq!(samples_of(&rgb), expected, "{}", label);

            let kernel: WideAlpha = match (yuv_type, r_type) {
                (YuvType::Yuv420, AvifYCgCoRType::Ro) => yuv::icgc_ro_alpha012_to_rgba10,
                (YuvType::Yuv420, AvifYCgCoRType::Re) => yuv::icgc_re_alpha012_to_rgba10,
                (YuvType::Yuv422, AvifYCgCoRType::Ro) => yuv::icgc_ro_alpha212_to_rgba10,
                (YuvType::Yuv422, AvifYCgCoRType::Re) => yuv::icgc_re_alpha212_to_rgba10,
                (YuvType::Yuv444, AvifYCgCoRType::Ro) => yuv::icgc_ro_alpha412_to_rgba10,
                (YuvType::Yuv444, AvifYCgCoRType::Re) => yuv::icgc_re_alpha412_to_rgba10,
            };
            let mut expected = vec![0u16; WIDTH * HEIGHT * 4];
            kernel(&with_alpha, &mut expected, 16, tone).unwrap();
            let mut rgba = vec![0u8; WIDTH * HEIGHT * 8];
            let outcome = pixart_icgc_r_alpha12_to_rgba10(
                &yb, ys, &ub, cs, &vb, cs, &ab, ys, &mut rgba, 32, 4, 4, YuvRange::Pc, r_type, yuv_type,
            );
            assert!(outcome.is_ok());
            assert_eq!(samples_of(&rgba), expected, "{}", label);

            let kernel: fn(&YuvPlanarImage<u16>, &mut [u8], u32, yuv::YuvRange) -> Result<(), YuvError> =
                match (yuv_type, r_type) {
                    (YuvType::Yuv420, AvifYCgCoRType::Ro) => yuv::icgc_ro010_to_rgb,
                    (YuvType::Yuv420, AvifYCgCoRType::Re) => yuv::icgc_re010_to_rgb,
                    (YuvType::Yuv422, AvifYCgCoRType::Ro) => yuv::icgc_ro210_to_rgb,
                    (YuvType::Yuv422, AvifYCgCoRType::Re) => yuv::icgc_re210_to_rgb,
                    (YuvType::Yuv444, AvifYCgCoRType::Ro) => yuv::icgc_ro410_to_rgb,
                    (YuvType::Yuv444, AvifYCgCoRType::Re) => yuv::icgc_re410_to_rgb,
                };
            let mut expected = vec![0u8; WIDTH * HEIGHT * 3];
            kernel(&image, &mut expected, 12, tone).unwrap();
            let mut rgb8 = vec![0u8; WIDTH * HEIGHT * 3];
            let outcome = pixart_icgc_r_type_to_rgb(
                &yb, ys, &ub, cs, &vb, cs, &mut rgb8, 12, 4, 4, YuvRange::Pc, r_type, yuv_type,
            );
            assert_eq!(outcome, Ok(()));
            assert_eq!(rgb8, expected, "{}", label);

            let kernel: fn(
                &YuvPlanarImageWithAlpha<u16>,
                &mut [u8],
                u32,
                yuv::YuvRange,
            ) -> Result<(), YuvError> = match (yuv_type, r_type) {
                (YuvType::Yuv420, AvifYCgCoRType::Ro) => yuv::icgc_ro_alpha010_to_rgba,
                (YuvType::Yuv420, AvifYCgCoRType::Re) => yuv::icgc_re_alpha010_to_rgba,
                (YuvType::Yuv422, AvifYCgCoRType::Ro) => yuv::icgc_ro_alpha210_to_rgba,
                (YuvType::Yuv422, AvifYCgCoRType::Re) => yuv::icgc_re_alpha210_to_rgba,
                (YuvType::Yuv444, AvifYCgCoRType::Ro) => yuv::icgc_ro_alpha410_to_rgba,
                (YuvType::Yuv444, AvifYCgCoRType::Re) => yuv::icgc_re_alpha410_to_rgba,
            };
            let mut expected = vec![0u8; WIDTH * HEIGHT * 4];
            kernel(&with_alpha, &mut expected, 16, tone).unwrap();
            for (pixel, alpha) in a.iter().enumerate() {
                expected[4 * pixel + 3] = ((*alpha as u32 + 1) / 4).min(255) as u8;
            }
            let mut rgba8 = vec![0u8; WIDTH * HEIGHT * 4];
            let outcome = pixart_icgc_r_type_with_alpha_to_rgba(
                &yb, ys, &ub, cs, &vb, cs, &ab, ys, &mut rgba8, 16, 4, 4, YuvRange::Pc, r_type, yuv_type,
            );
            assert_eq!(outcome, Ok(()));
            assert_eq!(rgba8, expected, "{}", label);
        }
    }
}

#[test]
fn yuv8_runs_the_kernel_of_its_selectors() {
    for matrix in MATRICES {
        for yuv_type in TYPES {
            if matrix == YuvMatrix::Identity && yuv_type != YuvType::Yuv444 {
                continue;
            }
            let (cw, ch) = chroma_size(yuv_type);
            let y = narrow(&samples(WIDTH * HEIGHT, 13, 256));
            let u = narrow(&samples(cw * ch, 29, 256));
            let v = narrow(&samples(cw * ch, 43, 256));
            let a = narrow(&samples(WIDTH * HEIGHT, 7, 256));
            let image = YuvPlanarImage {
                y_plane: &y, y_stride: WIDTH as u32, u_plane: &u, u_stride: cw as u32,
                v_plane: &v, v_stride: cw as u32, width: WIDTH as u32, height: HEIGHT as u32,
            };
            let with_alpha = YuvPlanarImageWithAlpha {
                y_plane: &y, y_stride: WIDTH as u32, u_plane: &u, u_stride: cw as u32,
                v_plane: &v, v_stride: cw as u32, a_plane: &a, a_stride: WIDTH as u32,
                width: WIDTH as u32, height: HEIGHT as u32,
            };
            let tone = yuv::YuvRange::Limited;
            let label = format!("{:?} {:?}", matrix, yuv_type);

            let channels = if matrix == YuvMatrix::Identity { 4 } else { 3 };
            let stride = (WIDTH * channels) as u32;
            let mut expected = vec![0u8; WIDTH * HEIGHT * channels];
            match (matrix, yuv_type) {
                (YuvMatrix::Identity, _) => yuv::gbr_to_rgba(&image, &mut expected, stride, tone),
                (YuvMatrix::YCgCo, YuvType::Yuv420) => yuv::ycgco420_to_rgb(&image, &mut expected, stride, tone),
                (YuvMatrix::YCgCo, YuvType::Yuv422) => yuv::ycgco422_to_rgb(&image, &mut expected, stride, tone),
                (YuvMatrix::YCgCo, YuvType::Yuv444) => yuv::ycgco444_to_rgb(&image, &mut expected, stride, tone),
                (_, YuvType::Yuv420) => yuv::yuv420_to_rgb(&image, &mut expected, stride, tone, standard(matrix)),
                (_, YuvType::Yuv422) => yuv::yuv422_to_rgb(&image, &mut expected, stride, tone, standard(matrix)),
                (_, YuvType::Yuv444) => yuv::yuv444_to_rgb(&image, &mut expected, stride, tone, standard(matrix)),
            }
            .unwrap();
            let mut rgb = vec![0u8; WIDTH * HEIGHT * channels];
            let outcome = pixart_yuv8_to_rgb8(
                &y, 4, &u, cw as u32, &v, cw as u32, &mut rgb, stride, 4, 4, YuvRange::Tv, matrix, yuv_type,
            );
            assert_eq!(outcome, Ok(()));
            assert_eq!(rgb, expected, "{}", label);

            let mut expected = vec![0u8; WIDTH * HEIGHT * 4];
            match (matrix, yuv_type) {
                (YuvMatrix::Identity, _) => yuv::gbr_with_alpha_to_rgba(&with_alpha, &mut expected, 16, tone),
                (YuvMatrix::YCgCo, YuvType::Yuv420) => {
                    yuv::ycgco420_alpha_to_rgba(&with_alpha, &mut expected, 16, tone)
                }
                (YuvMatrix::YCgCo, YuvType::Yuv422) => {
                    yuv::ycgco422_alpha_to_rgba(&with_alpha, &mut expected, 16, tone)
                }
                (YuvMatrix::YCgCo, YuvType::Yuv444) => {
                    yuv::ycgco444_alpha_to_rgba(&with_alpha, &mut expected, 16, tone)
                }
                (_, YuvType::Yuv420) => {
                    yuv::yuv420_alpha_to_rgba(&with_alpha, &mut expected, 16, tone, standard(matrix), false)
                }
                (_, YuvType::Yuv422) => {
                    yuv::yuv422_alpha_to_rgba(&with_alpha, &mut expected, 16, tone, standard(matrix), false)
                }
                (_, YuvType::Yuv444) => {
                    yuv::yuv444_alpha_to_rgba(&with_alpha, &mut expected, 16, tone, standard(matrix), false)
                }
            }
            .unwrap();
            let mut rgba = vec![0u8; WIDTH * HEIGHT * 4];
            let outcome = pixart_yuv8_with_alpha_to_rgba8(
                &y, 4, &u, cw as u32, &v, cw as u32, &a, 4, &mut rgba, 16, 4, 4, YuvRange::Tv, matrix,
                yuv_type,
            );
            assert_eq!(outcome, Ok(()));
            assert_eq!(rgba, expected, "{}", label);
        }
    }
}

#[test]
fn rgba8_runs_the_kernel_of_its_selectors() {
    let rgba: Vec<u8> = (0..WIDTH * HEIGHT * 4).map(|k| (k * 59 % 256) as u8).collect();
    for yuv_type in TYPES {
        let (cw, ch) = chroma_size(yuv_type);
        for matrix in MATRICES {
            if matrix == YuvMatrix::Identity && yuv_type != YuvType::Yuv444 {
                continue;
            }
            let mut ey = vec![0u8; WIDTH * HEIGHT];
            let mut eu = vec![0u8; cw * ch];
            let mut ev = vec![0u8; cw * ch];
            {
                let mut planes = YuvPlanarImageMut {
                    y_plane: yuv::BufferStoreMut::Borrowed(&mut ey), y_stride: 4,
                    u_plane: yuv::BufferStoreMut::Borrowed(&mut eu), u_stride: cw as u32,
                    v_plane: yuv::BufferStoreMut::Borrowed(&mut ev), v_stride: cw as u32,
                    width: 4, height: 4,
                };
                let tone = yuv::YuvRange::Full;
                let mode = yuv::YuvConversionMode::Balanced;
                match (matrix, yuv_type) {
                    (YuvMatrix::Identity, _) => yuv::rgba_to_gbr(&mut planes, &rgba, 16, tone),
                    (YuvMatrix::YCgCo, YuvType::Yuv420) => yuv::rgba_to_ycgco420(&mut planes, &rgba, 16, tone),
                    (YuvMatrix::YCgCo, YuvType::Yuv422) => yuv::rgba_to_ycgco422(&mut planes, &rgba, 16, tone),
                    (YuvMatrix::YCgCo, YuvType::Yuv444) => yuv::rgba_to_ycgco444(&mut planes, &rgba, 16, tone),
                    (_, YuvType::Yuv420) => {
                        yuv::rgba_to_yuv420(&mut planes, &rgba, 16, tone, standard(matrix), mode)
                    }
                    (_, YuvType::Yuv422) => {
                        yuv::rgba_to_yuv422(&mut planes, &rgba, 16, tone, standard(matrix), mode)
                    }
                    (_, YuvType::Yuv444) => {
                        yuv::rgba_to_yuv444(&mut planes, &rgba, 16, tone, standard(matrix), mode)
                    }
                }
                .unwrap();
            }
            let mut y = vec![0u8; WIDTH * HEIGHT];
            let mut u = vec![0u8; cw * ch];
            let mut v = vec![0u8; cw * ch];
            let outcome = pixart_rgba8_to_yuv8(
                &mut y, 4, &mut u, cw as u32, &mut v, cw as u32, &rgba, 16, 4, 4, YuvRange::Pc, matrix,
                yuv_type,
            );
            assert_eq!(outcome, Ok(()));
            assert_eq!((y, u, v), (ey, eu, ev), "{:?} {:?}", matrix, yuv_type);
        }
        for r_type in R_TYPES {
            let mut ey = vec![0u16; WIDTH * HEIGHT];
            let mut eu = vec![0u16; cw * ch];
            let mut ev = vec![0u16; cw * ch];
            {
                let mut planes = YuvPlanarImageMut {
                    y_plane: yuv::BufferStoreMut::Borrowed(&mut ey), y_stride: 4,
                    u_plane: yuv::BufferStoreMut::Borrowed(&mut eu), u_stride: cw as u32,
                    v_plane: yuv::BufferStoreMut::Borrowed(&mut ev), v_stride: cw as u32,
                    width: 4, height: 4,
                };
                let tone = yuv::YuvRange::Limited;
                match (yuv_type, r_type) {
                    (YuvType::Yuv420, AvifYCgCoRType::Ro) => yuv::rgba_to_icgc_ro010(&mut planes, &rgba, 16, tone),
                    (YuvType::Yuv420, AvifYCgCoRType::Re) => yuv::rgba_to_icgc_re010(&mut planes, &rgba, 16, tone),
                    (YuvType::Yuv422, AvifYCgCoRType::Ro) => yuv::rgba_to_icgc_ro210(&mut planes, &rgba, 16, tone),
                    (YuvType::Yuv422, AvifYCgCoRType::Re) => yuv::rgba_to_icgc_re210(&mut planes, &rgba, 16, tone),
                    (YuvType::Yuv444, AvifYCgCoRType::Ro) => yuv::rgba_to_icgc_ro410(&mut planes, &rgba, 16, tone),
                    (YuvType::Yuv444, AvifYCgCoRType::Re) => yuv::rgba_to_icgc_re410(&mut planes, &rgba, 16, tone),
                }
                .unwrap();
            }
            let mut y = vec![0u8; WIDTH * HEIGHT * 2];
            let mut u = vec![0u8; cw * ch * 2];
            let mut v = vec![0u8; cw * ch * 2];
            let outcome = pixart_rgba8_to_icgco_r10(
                &mut y, 8, &mut u, 2 * cw as u32, &mut v, 2 * cw as u32, &rgba, 16, 4, 4, YuvRange::Tv,
                r_type, yuv_type,
            );
            assert!(outcome.is_ok());
            assert_eq!(
                (samples_of(&y), samples_of(&u), samples_of(&v)),
                (ey, eu, ev),
                "{:?} {:?}",
                r_type,
                yuv_type
            );
        }
    }
}

#[test]
fn kernels_are_selected_by_matrix_subsampling_and_depth() {
    assert_eq!(yuv16_to_rgb16_kernel(10, YuvMatrix::Bt709, YuvType::Yuv420), Yuv16Kernel::I010ToRgb10);
    assert_eq!(yuv16_to_rgb16_kernel(12, YuvMatrix::Bt601, YuvType::Yuv422), Yuv16Kernel::I212ToRgb12);
    assert_eq!(yuv16_to_rgb16_kernel(12, YuvMatrix::Bt2020, YuvType::Yuv444), Yuv16Kernel::I412ToRgb12);
    assert_eq!(yuv16_to_rgb16_kernel(10, YuvMatrix::Identity, YuvType::Yuv444), Yuv16Kernel::Gb10ToRgb10);
    assert_eq!(yuv16_to_rgb16_kernel(12, YuvMatrix::YCgCo, YuvType::Yuv422), Yuv16Kernel::Icgc212ToRgb12);
    assert_eq!(
        yuv16_with_alpha_to_rgba16_kernel(10, YuvMatrix::YCgCo, YuvType::Yuv444),
        Yuv16AlphaKernel::Icgc410AlphaToRgba10
    );
    assert_eq!(
        yuv16_with_alpha_to_rgba16_kernel(12, YuvMatrix::Identity, YuvType::Yuv444),
        Yuv16AlphaKernel::Gb12AlphaToRgba12
    );
    assert_eq!(yuv8_to_rgb8_kernel(YuvMatrix::Identity, YuvType::Yuv444), Yuv8Kernel::GbrToRgba);
    assert_eq!(yuv8_to_rgb8_kernel(YuvMatrix::Bt601, YuvType::Yuv422), Yuv8Kernel::Yuv422ToRgb);
    assert_eq!(rgba8_to_yuv8_kernel(YuvMatrix::YCgCo, YuvType::Yuv420), Rgba8Kernel::RgbaToYcgco420);
}

#[test]
fn every_reversible_pair_has_its_own_kernel() {
    let pairs = [
        (YuvType::Yuv420, AvifYCgCoRType::Ro, Icgc10AlphaKernel::IcgcRoAlpha010ToRgba),
        (YuvType::Yuv420, AvifYCgCoRType::Re, Icgc10AlphaKernel::IcgcReAlpha010ToRgba),
        (YuvType::Yuv422, AvifYCgCoRType::Ro, Icgc10AlphaKernel::IcgcRoAlpha210ToRgba),
        (YuvType::Yuv422, AvifYCgCoRType::Re, Icgc10AlphaKernel::IcgcReAlpha210ToRgba),
        (YuvType::Yuv444, AvifYCgCoRType::Ro, Icgc10AlphaKernel::IcgcRoAlpha410ToRgba),
        (YuvType::Yuv444, AvifYCgCoRType::Re, Icgc10AlphaKernel::IcgcReAlpha410ToRgba),
    ];
    for (yuv_type, r_type, kernel) in pairs {
        assert_eq!(icgc_r_type_with_alpha_to_rgba_kernel(r_type, yuv_type), kernel);
    }
    assert_eq!(
        icgc_r_type_to_rgb_kernel(AvifYCgCoRType::Re, YuvType::Yuv422),
        Icgc10Kernel::IcgcRe210ToRgb
    );
    assert_eq!(
        icgc12_r_to_rgb10_kernel(AvifYCgCoRType::Ro, YuvType::Yuv444),
        Icgc12Kernel::IcgcRo412ToRgb10
    );
}

#[test]
fn depth_selects_between_two_kernels() {
    assert_eq!(yuv400_p16_to_rgb16_kernel(10), Gray16Kernel::Y010ToRgb10);
    assert_eq!(yuv400_p16_to_rgb16_kernel(12), Gray16Kernel::Y012ToRgb12);
    assert_eq!(rgba_u16_to_ra30_kernel(10), RgbaRa30Kernel::Rgba10ToRa30);
    assert_eq!(rgb_u16_to_ra30_kernel(12), RgbRa30Kernel::Rgb12ToRa30);
    assert_eq!(
        ycgco_to_packed_rgba16_kernel(10, YuvType::Yuv422),
        YcgcoRgbaKernel::Icgc210ToRgba10
    );
}
