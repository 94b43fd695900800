use avifpixart::half_float::{
    half_float_route, plan_rgb16_to_f16, plan_yuv16_to_rgba_f16, ycgco_to_packed_rgba16,
    HalfFloatRoute,
};
use avifpixart::image::Planar;
use avifpixart::{PixartError, PlaneLayout, YuvMatrix, YuvRange, YuvType};

#[test]
fn route_follows_the_matrix() {
    assert_eq!(
        half_float_route(10, YuvMatrix::Identity, YuvType::Yuv444),
        Ok(HalfFloatRoute::Identity(10))
    );
    assert_eq!(
        half_float_route(12, YuvMatrix::YCgCo, YuvType::Yuv420),
        Ok(HalfFloatRoute::ViaInteger(YuvType::Yuv420, 12))
    );
    for matrix in [YuvMatrix::Bt601, YuvMatrix::Bt709, YuvMatrix::Bt2020] {
        assert_eq!(
            half_float_route(12, matrix, YuvType::Yuv422),
            Ok(HalfFloatRoute::Standard(YuvType::Yuv422, 12))
        );
    }
}

#[test]
fn route_is_refused_for_an_unsupported_depth() {
    for depth in [0, 8, 11, 16] {
        assert_eq!(
            half_float_route(depth, YuvMatrix::Identity, YuvType::Yuv444),
            Err(PixartError::UnsupportedBitDepth)
        );
        assert_eq!(
            half_float_route(depth, YuvMatrix::Bt601, YuvType::Yuv420),
            Err(PixartError::UnsupportedBitDepth)
        );
    }
}

#[test]
fn planar_plan_adapts_sources_and_checks_the_destination() {
    let y = [1u8, 0, 2, 0, 9, 3, 0, 4, 0, 9];
    let u = [5u8, 0, 9];
    let v = [6u8, 0];
    let plan = plan_yuv16_to_rgba_f16(
        &y, 5, &u, 3, &v, 2, 34, 17, 10, 2, 2, YuvMatrix::Bt709, YuvType::Yuv420,
    );
    let plan = match plan {
        Ok(plan) => plan,
        Err(error) => panic!("{:?}", error),
    };
    assert_eq!(plan.route, HalfFloatRoute::Standard(YuvType::Yuv420, 10));
    assert_eq!(plan.target, PlaneLayout::wide(17, 2, 2, 4));
    assert_eq!(plan.planes.luma.view.as_slice(), &[1, 2, 3, 4]);
    assert_eq!(plan.planes.luma.stride, 2);
    assert_eq!(plan.planes.cb.view.as_slice(), &[5]);
    assert_eq!(plan.planes.cr.view.as_slice(), &[6]);
    let image = plan.planes.image(2, 2);
    assert_eq!(image.y_plane, &[1, 2, 3, 4]);
    assert_eq!((image.width, image.height), (2, 2));
}

#[test]
fn planar_plan_reports_the_first_fault() {
    let y = [0u8; 10];
    let u = [0u8; 3];
    let v = [0u8; 2];
    let fault = |rgba_len: usize, rgba_stride: u32, depth: u32, width: u32, matrix: YuvMatrix| {
        plan_yuv16_to_rgba_f16(&y, 5, &u, 3, &v, 2, rgba_len, rgba_stride, depth, width, 2, matrix, YuvType::Yuv420)
            .err()
    };
    assert_eq!(fault(34, 17, 10, 0, YuvMatrix::Bt709), Some(PixartError::EmptyImage));
    assert_eq!(fault(34, 17, 9, 2, YuvMatrix::Bt709), Some(PixartError::UnsupportedBitDepth));
    assert_eq!(fault(30, 15, 10, 2, YuvMatrix::Bt709), Some(PixartError::StrideTooSmall));
    assert_eq!(fault(33, 17, 10, 2, YuvMatrix::Bt709), Some(PixartError::RegionMismatch));
    assert_eq!(fault(34, 17, 10, 3, YuvMatrix::Bt709), Some(PixartError::StrideTooSmall));
}

#[test]
fn interleaved_plan_adapts_the_source() {
    let source = [1u8, 0, 2, 0, 3, 0, 7, 4, 0, 5, 0, 6, 0, 7];
    let plan = plan_rgb16_to_f16(&source, 7, 12, 6, 3, 1, 2);
    let (adapted, target) = match plan {
        Ok(plan) => plan,
        Err(error) => panic!("{:?}", error),
    };
    assert_eq!(adapted.view.as_slice(), &[1, 2, 3, 4, 5, 6]);
    assert_eq!(adapted.stride, 3);
    assert_eq!(target, PlaneLayout::wide(6, 1, 2, 3));
    assert_eq!(plan_rgb16_to_f16(&source, 7, 12, 5, 3, 1, 2).err(), Some(PixartError::StrideTooSmall));
    assert_eq!(plan_rgb16_to_f16(&source, 7, 11, 6, 3, 1, 2).err(), Some(PixartError::RegionMismatch));
    assert_eq!(plan_rgb16_to_f16(&source, 7, 12, 6, 3, 1, 0).err(), Some(PixartError::EmptyImage));
}

#[test]
fn ycgco_integer_pixels_match_the_kernel_called_directly() {
    let y: Vec<u16> = (0..6).map(|k| 100 + 150 * k as u16).collect();
    let u: Vec<u16> = vec![400, 600, 512, 300];
    let v: Vec<u16> = vec![500, 412, 700, 600];
    let image = Planar {
        y_plane: &y, y_stride: 3, u_plane: &u, u_stride: 2, v_plane: &v, v_stride: 2,
        width: 3, height: 2,
    };
    let packed = ycgco_to_packed_rgba16(&image, 10, YuvRange::Pc, YuvType::Yuv422);
    let kernel_image = yuv::YuvPlanarImage {
        y_plane: &y, y_stride: 3, u_plane: &u, u_stride: 2, v_plane: &v, v_stride: 2,
        width: 3, height: 2,
    };
    let mut expected = vec![0u16; 24];
    yuv::icgc210_to_rgba10(&kernel_image, &mut expected, 12, yuv::YuvRange::Full).unwrap();
    assert_eq!(packed, Ok(expected));
    let mut expected12 = vec![0u16; 24];
    yuv::icgc212_to_rgba12(&kernel_image, &mut expected12, 12, yuv::YuvRange::Limited).unwrap();
    assert_eq!(ycgco_to_packed_rgba16(&image, 12, YuvRange::Tv, YuvType::Yuv422), Ok(expected12));
}

#[test]
fn planar_plan_refuses_samples_beyond_the_depth() {
    let y = [1u8, 0, 2, 0, 9, 3, 0, 0, 4, 9];
    let u = [5u8, 0, 9];
    let v = [6u8, 0];
    // The fourth luma sample is 0x0400: one beyond 10 bits, within 12.
    let plan = plan_yuv16_to_rgba_f16(&y, 5, &u, 3, &v, 2, 34, 17, 10, 2, 2, YuvMatrix::Bt709, YuvType::Yuv420);
    assert_eq!(plan.err(), Some(PixartError::SampleOutOfRange));
    let plan = plan_yuv16_to_rgba_f16(&y, 5, &u, 3, &v, 2, 34, 17, 12, 2, 2, YuvMatrix::Bt709, YuvType::Yuv420);
    assert!(plan.is_ok());
}
