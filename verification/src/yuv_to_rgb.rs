//! From planar YUV images to interleaved RGB pixels.
use crate::adapter::{
    adapt_write, lemma_packed_fits, lemma_view_rows_fit, source_view, target_view, view_stride,
    view_stride_of,
};
use crate::alpha::{alpha_byte_of, colour_kept, overlay_alpha};
use crate::checks::{
    check_depth, check_image, check_narrow_plane, converts_narrow, converts_wide, delivers,
    depth_fault, empty_fault, narrow_chroma_layout, narrow_layout, or_else, wide_chroma_layout,
    wide_layout,
};
use crate::content::{byte_at, logical_sample, padding_kept, view_sample};
use crate::destination::{settle, settle_direct, staging_for};
use crate::dispatch::{
    icgc12_r_to_rgb10_kernel, icgc12_r_to_rgb10_kernel_of, icgc12_r_to_rgb10_pixels,
    icgc_r_alpha12_to_rgba10_kernel,
    icgc_r_alpha12_to_rgba10_kernel_of, icgc_r_alpha12_to_rgba10_pixels,
    icgc_r_type_to_rgb_kernel, icgc_r_type_with_alpha_to_rgba_kernel_of,
    icgc_r_type_with_alpha_to_rgba_pixels,
    icgc_r_type_with_alpha_to_rgba_kernel, yuv16_to_rgb16_kernel, yuv16_to_rgb16_kernel_of,
    yuv16_to_rgb16_pixels,
    yuv16_with_alpha_to_rgba16_kernel, yuv16_with_alpha_to_rgba16_kernel_of,
    yuv16_with_alpha_to_rgba16_pixels, yuv400_p16_to_rgb16_kernel,
    yuv400_p16_with_alpha_to_rgba16_kernel, yuv400_p16_with_alpha_to_rgba16_kernel_of,
    yuv400_p16_with_alpha_to_rgba16_pixels, yuv8_to_rgb8_kernel, yuv8_to_rgb8_kernel_of,
    yuv8_to_rgb8_limited_pixels,
    yuv8_with_alpha_to_rgba8_kernel, yuv8_with_alpha_to_rgba8_kernel_of,
    yuv8_with_alpha_to_rgba8_pixels, Gray16AlphaKernel, Gray16Kernel, Icgc10AlphaKernel,
    Icgc10Kernel, Icgc12AlphaKernel, Icgc12Kernel, Yuv16AlphaKernel, Yuv16Kernel,
    Yuv8AlphaKernel, Yuv8Kernel,
};
use crate::error::{PixartError, PlanePath};
use crate::image::{Gray, GrayAlpha, Planar, PlanarAlpha};
use crate::kernels::narrow::{
    gbr_to_rgba, gbr_with_alpha_to_rgba, ycgco420_alpha_to_rgba, ycgco420_to_rgb,
    ycgco422_alpha_to_rgba, ycgco422_to_rgb, ycgco444_alpha_to_rgba, ycgco444_to_rgb,
    yuv400_alpha_to_rgba, yuv400_to_rgb, yuv420_alpha_to_rgba, yuv420_to_rgb,
    yuv422_alpha_to_rgba, yuv422_to_rgb, yuv444_alpha_to_rgba, yuv444_to_rgb,
};
use crate::kernels::narrowing::{
    icgc_re010_to_rgb, icgc_re210_to_rgb, icgc_re410_to_rgb, icgc_re_alpha010_to_rgba,
    icgc_re_alpha210_to_rgba, icgc_re_alpha410_to_rgba, icgc_ro010_to_rgb, icgc_ro210_to_rgb,
    icgc_ro410_to_rgb, icgc_ro_alpha010_to_rgba, icgc_ro_alpha210_to_rgba,
    icgc_ro_alpha410_to_rgba,
};
use crate::kernels::wide::{
    gb10_alpha_to_rgba10, gb10_to_rgb10, gb12_alpha_to_rgba12, gb12_to_rgb12,
    i010_alpha_to_rgba10, i010_to_rgb10, i012_alpha_to_rgba12, i012_to_rgb12,
    i210_alpha_to_rgba10, i210_to_rgb10, i212_alpha_to_rgba12, i212_to_rgb12,
    i410_alpha_to_rgba10, i410_to_rgb10, i412_alpha_to_rgba12, i412_to_rgb12,
    icgc010_alpha_to_rgba10, icgc010_to_rgb10, icgc012_alpha_to_rgba12, icgc012_to_rgb12,
    icgc210_alpha_to_rgba10, icgc210_to_rgb10, icgc212_alpha_to_rgba12, icgc212_to_rgb12,
    icgc410_alpha_to_rgba10, icgc410_to_rgb10, icgc412_alpha_to_rgba12, icgc412_to_rgb12,
    icgc_re012_to_rgb10, icgc_re212_to_rgb10, icgc_re412_to_rgb10, icgc_re_alpha012_to_rgba10,
    icgc_re_alpha212_to_rgba10, icgc_re_alpha412_to_rgba10, icgc_ro012_to_rgb10,
    icgc_ro212_to_rgb10, icgc_ro412_to_rgb10, icgc_ro_alpha012_to_rgba10,
    icgc_ro_alpha212_to_rgba10, icgc_ro_alpha412_to_rgba10, y010_alpha_to_rgba10, y010_to_rgb10,
    y012_alpha_to_rgba12, y012_to_rgb12,
};
use crate::layout::PlaneLayout;
use crate::modes::{
    chroma_height, chroma_width, combination_exists, has_coefficients,
    standard_coefficients, standard_matrix_of, AvifYCgCoRType, YuvMatrix, YuvRange, YuvType,
};
use crate::pixels::{
    bytes_take, lemma_presented_pixels, lemma_presented_takes,
    lemma_view_padding_is_region_padding,
    region_clamped, region_gray, region_takes,
};
use crate::planes::{
    depth_limit, depth_limit_of, keep_planar_within, keep_within, luma_fault, planar_fault,
    planar_sample_fault, read_luma, read_planar, sample_fault,
};
use vstd::prelude::*;

verus! {

/// The first fault among the three planes of a planar image of one-byte
/// samples, in the order luma, chroma U, chroma V.
pub open spec fn planar8_fault(
    y_len: int,
    y_stride: u32,
    u_len: int,
    u_stride: u32,
    v_len: int,
    v_stride: u32,
    width: u32,
    height: u32,
    yuv_type: YuvType,
) -> Option<PixartError> {
    or_else(
        narrow_layout(y_stride, width, height, 1).fault(y_len),
        or_else(
            narrow_chroma_layout(u_stride, width, height, yuv_type).fault(u_len),
            narrow_chroma_layout(v_stride, width, height, yuv_type).fault(v_len),
        ),
    )
}

/// Samples per pixel that `pixart_yuv8_to_rgb8` writes: four with the
/// identity matrix, whose kernel writes an alpha sample too, three otherwise.
pub open spec fn rgb8_channels_of(yuv_matrix: YuvMatrix) -> usize {
    if yuv_matrix == YuvMatrix::Identity {
        4
    } else {
        3
    }
}

/// The fault for which `pixart_yuv8_to_rgb8` refuses its arguments, if any:
/// an empty image, then the first plane, in the order luma, chroma U, chroma
/// V, destination, whose stride cannot hold a row or whose region is not its
/// stride times its height.
pub open spec fn yuv8_to_rgb8_fault(
    y_len: int,
    y_stride: u32,
    u_len: int,
    u_stride: u32,
    v_len: int,
    v_stride: u32,
    rgba_len: int,
    rgba_stride: u32,
    width: u32,
    height: u32,
    yuv_matrix: YuvMatrix,
    yuv_type: YuvType,
) -> Option<PixartError> {
    or_else(
        empty_fault(width as int, height as int),
        or_else(
                planar8_fault(
                    y_len,
                    y_stride,
                    u_len,
                    u_stride,
                    v_len,
                    v_stride,
                    width,
                    height,
                    yuv_type,
                ),
                narrow_layout(rgba_stride, width, height, rgb8_channels_of(yuv_matrix)).fault(
                    rgba_len,
                ),
            ),
    )
}

/// Converts a planar image of 8-bit samples into interleaved 8-bit RGB.
/// Planes of one-byte samples need no adaptation: the kernel works on the
/// caller's regions themselves. For YCgCo at limited range the destination
/// is what the selected kernel leaves in it; elsewhere the kernels choose
/// their arithmetic by the processor, and the pixels are not stated.
pub fn pixart_yuv8_to_rgb8(
    y_plane: &[u8],
    y_stride: u32,
    u_plane: &[u8],
    u_stride: u32,
    v_plane: &[u8],
    v_stride: u32,
    rgba: &mut [u8],
    rgba_stride: u32,
    width: u32,
    height: u32,
    range: YuvRange,
    yuv_matrix: YuvMatrix,
    yuv_type: YuvType,
) -> (outcome: Result<(), PixartError>)
    requires
        combination_exists(yuv_matrix, yuv_type),
    ensures
        converts_narrow(
            outcome,
            yuv8_to_rgb8_fault(
                y_plane@.len() as int,
                y_stride,
                u_plane@.len() as int,
                u_stride,
                v_plane@.len() as int,
                v_stride,
                old(rgba)@.len() as int,
                rgba_stride,
                width,
                height,
                yuv_matrix,
                yuv_type,
            ),
            old(rgba)@,
            final(rgba)@,
        ),
        outcome is Ok && range == YuvRange::Tv ==> match yuv8_to_rgb8_limited_pixels(
            yuv8_to_rgb8_kernel_of(yuv_matrix, yuv_type),
            y_plane@,
            y_stride as int,
            u_plane@,
            u_stride as int,
            v_plane@,
            v_stride as int,
            width as int,
            height as int,
            old(rgba)@,
            rgba_stride as int,
        ) {
            Some(pixels) => final(rgba)@ == pixels,
            None => true,
        },
{
    check_image(width, height)?;
    let chroma_w = chroma_width(width, yuv_type);
    let chroma_h = chroma_height(height, yuv_type);
    check_narrow_plane(y_plane.len(), &PlaneLayout::narrow(y_stride, width, height, 1))?;
    check_narrow_plane(u_plane.len(), &PlaneLayout::narrow(u_stride, chroma_w, chroma_h, 1))?;
    check_narrow_plane(v_plane.len(), &PlaneLayout::narrow(v_stride, chroma_w, chroma_h, 1))?;
    let channels: usize = if yuv_matrix == YuvMatrix::Identity {
        4
    } else {
        3
    };
    check_narrow_plane(rgba.len(), &PlaneLayout::narrow(rgba_stride, width, height, channels))?;
    let image = Planar { y_plane, y_stride, u_plane, u_stride, v_plane, v_stride, width, height };
    let verdict = match yuv8_to_rgb8_kernel(yuv_matrix, yuv_type) {
        Yuv8Kernel::Yuv420ToRgb => yuv420_to_rgb(
            &image,
            rgba,
            rgba_stride,
            range,
            standard_coefficients(yuv_matrix),
        ),
        Yuv8Kernel::Yuv422ToRgb => yuv422_to_rgb(
            &image,
            rgba,
            rgba_stride,
            range,
            standard_coefficients(yuv_matrix),
        ),
        Yuv8Kernel::Yuv444ToRgb => yuv444_to_rgb(
            &image,
            rgba,
            rgba_stride,
            range,
            standard_coefficients(yuv_matrix),
        ),
        Yuv8Kernel::GbrToRgba => gbr_to_rgba(&image, rgba, rgba_stride, range),
        Yuv8Kernel::Ycgco420ToRgb => ycgco420_to_rgb(&image, rgba, rgba_stride, range),
        Yuv8Kernel::Ycgco422ToRgb => ycgco422_to_rgb(&image, rgba, rgba_stride, range),
        Yuv8Kernel::Ycgco444ToRgb => ycgco444_to_rgb(&image, rgba, rgba_stride, range),
    };
    settle_direct(verdict)
}

/// The fault for which `pixart_yuv400_to_rgb8` refuses its arguments, if
/// any: an empty image, then the luma plane, then the destination.
pub open spec fn yuv400_to_rgb8_fault(
    y_len: int,
    y_stride: u32,
    rgba_len: int,
    rgba_stride: u32,
    width: u32,
    height: u32,
    yuv_matrix: YuvMatrix,
) -> Option<PixartError> {
    or_else(
        empty_fault(width as int, height as int),
        or_else(
                narrow_layout(y_stride, width, height, 1).fault(y_len),
                narrow_layout(rgba_stride, width, height, 3).fault(rgba_len),
            ),
    )
}

/// Converts a luma-only image of 8-bit samples into interleaved 8-bit RGB.
/// At full range every pixel has its luma sample in each colour, and stride
/// padding is left as it was; at limited range the pixels are not stated.
pub fn pixart_yuv400_to_rgb8(
    y_plane: &[u8],
    y_stride: u32,
    rgba: &mut [u8],
    rgba_stride: u32,
    width: u32,
    height: u32,
    range: YuvRange,
    yuv_matrix: YuvMatrix,
) -> (outcome: Result<(), PixartError>)
    requires
        has_coefficients(yuv_matrix),
    ensures
        converts_narrow(
            outcome,
            yuv400_to_rgb8_fault(
                y_plane@.len() as int,
                y_stride,
                old(rgba)@.len() as int,
                rgba_stride,
                width,
                height,
                yuv_matrix,
            ),
            old(rgba)@,
            final(rgba)@,
        ),
        outcome is Ok && range == YuvRange::Pc ==> {
            &&& bytes_take(
                final(rgba)@,
                rgba_stride as int,
                3,
                0,
                y_plane@,
                y_stride as int,
                width as int,
                height as int,
            )
            &&& bytes_take(
                final(rgba)@,
                rgba_stride as int,
                3,
                1,
                y_plane@,
                y_stride as int,
                width as int,
                height as int,
            )
            &&& bytes_take(
                final(rgba)@,
                rgba_stride as int,
                3,
                2,
                y_plane@,
                y_stride as int,
                width as int,
                height as int,
            )
            &&& padding_kept(
                old(rgba)@,
                final(rgba)@,
                narrow_layout(rgba_stride, width, height, 3),
            )
        },
{
    check_image(width, height)?;
    let matrix = standard_coefficients(yuv_matrix);
    check_narrow_plane(y_plane.len(), &PlaneLayout::narrow(y_stride, width, height, 1))?;
    check_narrow_plane(rgba.len(), &PlaneLayout::narrow(rgba_stride, width, height, 3))?;
    let image = Gray { y_plane, y_stride, width, height };
    let verdict = yuv400_to_rgb(
        &image,
        rgba,
        rgba_stride,
        range,
        matrix,
    );
    settle_direct(verdict)
}

/// The fault for which `pixart_yuv400_with_alpha_to_rgba8` refuses its
/// arguments, if any: an empty image, then the luma plane, the alpha plane,
/// the destination.
pub open spec fn yuv400_with_alpha_to_rgba8_fault(
    y_len: int,
    y_stride: u32,
    a_len: int,
    a_stride: u32,
    rgba_len: int,
    rgba_stride: u32,
    width: u32,
    height: u32,
    yuv_matrix: YuvMatrix,
) -> Option<PixartError> {
    or_else(
        empty_fault(width as int, height as int),
        or_else(
                narrow_layout(y_stride, width, height, 1).fault(y_len),
                or_else(
                    narrow_layout(a_stride, width, height, 1).fault(a_len),
                    narrow_layout(rgba_stride, width, height, 4).fault(rgba_len),
                ),
            ),
    )
}

/// Converts a luma-only image of 8-bit samples with an alpha plane into
/// interleaved 8-bit RGBA. At full range every pixel has its luma sample in
/// each colour and its alpha sample in the fourth byte, and stride padding is
/// left as it was; at limited range the pixels are not stated.
pub fn pixart_yuv400_with_alpha_to_rgba8(
    y_plane: &[u8],
    y_stride: u32,
    a_plane: &[u8],
    a_stride: u32,
    rgba: &mut [u8],
    rgba_stride: u32,
    width: u32,
    height: u32,
    range: YuvRange,
    yuv_matrix: YuvMatrix,
) -> (outcome: Result<(), PixartError>)
    requires
        has_coefficients(yuv_matrix),
    ensures
        converts_narrow(
            outcome,
            yuv400_with_alpha_to_rgba8_fault(
                y_plane@.len() as int,
                y_stride,
                a_plane@.len() as int,
                a_stride,
                old(rgba)@.len() as int,
                rgba_stride,
                width,
                height,
                yuv_matrix,
            ),
            old(rgba)@,
            final(rgba)@,
        ),
        outcome is Ok && range == YuvRange::Pc ==> {
            &&& bytes_take(
                final(rgba)@,
                rgba_stride as int,
                4,
                0,
                y_plane@,
                y_stride as int,
                width as int,
                height as int,
            )
            &&& bytes_take(
                final(rgba)@,
                rgba_stride as int,
                4,
                1,
                y_plane@,
                y_stride as int,
                width as int,
                height as int,
            )
            &&& bytes_take(
                final(rgba)@,
                rgba_stride as int,
                4,
                2,
                y_plane@,
                y_stride as int,
                width as int,
                height as int,
            )
            &&& bytes_take(
                final(rgba)@,
                rgba_stride as int,
                4,
                3,
                a_plane@,
                a_stride as int,
                width as int,
                height as int,
            )
            &&& padding_kept(
                old(rgba)@,
                final(rgba)@,
                narrow_layout(rgba_stride, width, height, 4),
            )
        },
{
    check_image(width, height)?;
    let matrix = standard_coefficients(yuv_matrix);
    check_narrow_plane(y_plane.len(), &PlaneLayout::narrow(y_stride, width, height, 1))?;
    check_narrow_plane(a_plane.len(), &PlaneLayout::narrow(a_stride, width, height, 1))?;
    check_narrow_plane(rgba.len(), &PlaneLayout::narrow(rgba_stride, width, height, 4))?;
    let image = GrayAlpha { y_plane, y_stride, a_plane, a_stride, width, height };
    let verdict = yuv400_alpha_to_rgba(
        &image,
        rgba,
        rgba_stride,
        range,
        matrix,
    );
    settle_direct(verdict)
}

/// The fault for which `pixart_yuv400_p16_to_rgb16` refuses its arguments,
/// if any: an empty image, then an unsupported bit depth, then the luma
/// plane, then the destination.
pub open spec fn yuv400_p16_to_rgb16_fault(
    y_len: int,
    y_stride: u32,
    rgba_len: int,
    rgba_stride: u32,
    bit_depth: u32,
    width: u32,
    height: u32,
    yuv_matrix: YuvMatrix,
) -> Option<PixartError> {
    or_else(
        empty_fault(width as int, height as int),
        or_else(
            depth_fault(bit_depth as int),
            or_else(
                    luma_fault(y_len, y_stride, width, height),
                    wide_layout(rgba_stride, width, height, 3).fault(rgba_len),
                ),
        ),
    )
}

/// Converts a luma-only image of 10-bit or 12-bit samples into interleaved
/// RGB of the same depth. The three colours of a pixel are one value that
/// fits the depth, at full range the luma sample itself, and stride padding
/// is left as it was on either path.
pub fn pixart_yuv400_p16_to_rgb16(
    y_plane: &[u8],
    y_stride: u32,
    rgba: &mut [u8],
    rgba_stride: u32,
    bit_depth: u32,
    width: u32,
    height: u32,
    range: YuvRange,
    yuv_matrix: YuvMatrix,
) -> (outcome: Result<PlanePath, PixartError>)
    requires
        has_coefficients(yuv_matrix),
    ensures
        converts_wide(
            outcome,
            or_else(
                yuv400_p16_to_rgb16_fault(
                    y_plane@.len() as int,
                    y_stride,
                    old(rgba)@.len() as int,
                    rgba_stride,
                    bit_depth,
                    width,
                    height,
                    yuv_matrix,
                ),
                sample_fault(y_plane@, wide_layout(y_stride, width, height, 1), depth_limit_of(bit_depth)),
            ),
            old(rgba)@,
            final(rgba)@,
            wide_layout(rgba_stride, width, height, 3),
        ),
        outcome is Ok ==> {
            &&& region_gray(final(rgba)@, wide_layout(rgba_stride, width, height, 3))
            &&& region_clamped(
                final(rgba)@,
                wide_layout(rgba_stride, width, height, 3),
                depth_limit_of(bit_depth),
            )
            &&& range == YuvRange::Pc ==> region_takes(
                final(rgba)@,
                wide_layout(rgba_stride, width, height, 3),
                0,
                y_plane@,
                wide_layout(y_stride, width, height, 1),
            )
            &&& padding_kept(
                old(rgba)@,
                final(rgba)@,
                wide_layout(rgba_stride, width, height, 3),
            )
        },
{
    check_image(width, height)?;
    check_depth(bit_depth)?;
    let matrix = standard_coefficients(yuv_matrix);
    let luma = read_luma(y_plane, y_stride, width, height)?;
    let target = PlaneLayout::wide(rgba_stride, width, height, 3);
    target.check(rgba.len())?;
    let luma = keep_within(luma, y_plane, &PlaneLayout::wide(y_stride, width, height, 1), depth_limit(bit_depth))?;
    let image = luma.gray(width, height);
    proof {
        lemma_packed_fits(target, rgba@.len() as int);
    }
    let in_place = adapt_write(rgba, &target);
    let path = if in_place.is_some() {
        PlanePath::Fast
    } else {
        PlanePath::Slow
    };
    let mut staged = staging_for(path, &target);
    let view: &mut [u16] = match in_place {
        Some(samples) => samples,
        None => staged.as_mut_slice(),
    };
    proof {
        lemma_view_rows_fit(target, path);
    }
    let stride = view_stride(&target, path) as u32;
    let verdict = match yuv400_p16_to_rgb16_kernel(bit_depth) {
        Gray16Kernel::Y010ToRgb10 => y010_to_rgb10(&image, view, stride, range, matrix),
        Gray16Kernel::Y012ToRgb12 => y012_to_rgb12(&image, view, stride, range, matrix),
    };
    let ghost produced = view@;
    let outcome = settle(verdict, path, staged.as_slice(), rgba, &target);
    proof {
        if path == PlanePath::Fast {
            lemma_view_padding_is_region_padding(old(rgba)@, rgba@, target);
        }
        lemma_presented_pixels(produced, stride as int, rgba@, target);
        if outcome is Ok && range == YuvRange::Pc {
            lemma_presented_takes(
                produced,
                stride as int,
                rgba@,
                target,
                0,
                luma.view.samples(),
                luma.stride as int,
                y_plane@,
                wide_layout(y_stride, width, height, 1),
            );
        }
    }
    outcome
}

/// The fault for which `pixart_yuv400_p16_with_alpha_to_rgba16` refuses its
/// arguments, if any: an empty image, then an unsupported bit depth, then
/// the luma plane, the alpha plane, the destination.
pub open spec fn yuv400_p16_with_alpha_to_rgba16_fault(
    y_len: int,
    y_stride: u32,
    a_len: int,
    a_stride: u32,
    rgba_len: int,
    rgba_stride: u32,
    bit_depth: u32,
    width: u32,
    height: u32,
    yuv_matrix: YuvMatrix,
) -> Option<PixartError> {
    or_else(
        empty_fault(width as int, height as int),
        or_else(
            depth_fault(bit_depth as int),
            or_else(
                    luma_fault(y_len, y_stride, width, height),
                    or_else(
                        luma_fault(a_len, a_stride, width, height),
                        wide_layout(rgba_stride, width, height, 4).fault(rgba_len),
                    ),
                ),
        ),
    )
}

/// Whether a destination holds the pixels of `pixart_yuv400_p16_with_alpha_to_rgba16`
/// for sources adapted on `y_path` and `a_path` and a destination adapted on
/// `path`: what the kernel of the bit depth leaves in the destination's view
/// when it is handed the sources' views.
pub open spec fn yuv400_p16_with_alpha_converted(
    y: Seq<u8>,
    y_stride: u32,
    y_path: PlanePath,
    a: Seq<u8>,
    a_stride: u32,
    a_path: PlanePath,
    before: Seq<u8>,
    after: Seq<u8>,
    rgba_stride: u32,
    path: PlanePath,
    bit_depth: u32,
    width: u32,
    height: u32,
    range: YuvRange,
    yuv_matrix: YuvMatrix,
) -> bool {
    let luma = wide_layout(y_stride, width, height, 1);
    let alpha = wide_layout(a_stride, width, height, 1);
    let target = wide_layout(rgba_stride, width, height, 4);
    match yuv400_p16_with_alpha_to_rgba16_pixels(
        yuv400_p16_with_alpha_to_rgba16_kernel_of(bit_depth),
        source_view(y, luma, y_path),
        view_stride_of(luma, y_path),
        source_view(a, alpha, a_path),
        view_stride_of(alpha, a_path),
        width as int,
        height as int,
        target_view(before, target, path),
        view_stride_of(target, path),
        range,
        standard_matrix_of(yuv_matrix)->Some_0,
    ) {
        Some(pixels) => delivers(before, after, target, path, pixels),
        None => true,
    }
}

/// Converts a luma-only image of 10-bit or 12-bit samples with an alpha
/// plane into interleaved RGBA of the same depth. The pixels are those of
/// the kernel of the bit depth, run on the adapted planes: the three colours
/// of a pixel are one value that fits the depth, at full range the luma
/// sample itself, and the alpha is the alpha plane's sample. Stride padding
/// is left as it was on either path.
pub fn pixart_yuv400_p16_with_alpha_to_rgba16(
    y_plane: &[u8],
    y_stride: u32,
    a_plane: &[u8],
    a_stride: u32,
    rgba: &mut [u8],
    rgba_stride: u32,
    bit_depth: u32,
    width: u32,
    height: u32,
    range: YuvRange,
    yuv_matrix: YuvMatrix,
) -> (outcome: Result<PlanePath, PixartError>)
    requires
        has_coefficients(yuv_matrix),
    ensures
        converts_wide(
            outcome,
            or_else(
                yuv400_p16_with_alpha_to_rgba16_fault(
                    y_plane@.len() as int,
                    y_stride,
                    a_plane@.len() as int,
                    a_stride,
                    old(rgba)@.len() as int,
                    rgba_stride,
                    bit_depth,
                    width,
                    height,
                    yuv_matrix,
                ),
                or_else(
                    sample_fault(y_plane@, wide_layout(y_stride, width, height, 1), depth_limit_of(bit_depth)),
                    sample_fault(a_plane@, wide_layout(a_stride, width, height, 1), depth_limit_of(bit_depth)),
                ),
            ),
            old(rgba)@,
            final(rgba)@,
            wide_layout(rgba_stride, width, height, 4),
        ),
        outcome matches Ok(path) ==> exists|y_path: PlanePath, a_path: PlanePath|
            #[trigger] yuv400_p16_with_alpha_converted(
                y_plane@,
                y_stride,
                y_path,
                a_plane@,
                a_stride,
                a_path,
                old(rgba)@,
                final(rgba)@,
                rgba_stride,
                path,
                bit_depth,
                width,
                height,
                range,
                yuv_matrix,
            ),
        outcome is Ok ==> {
            &&& region_gray(final(rgba)@, wide_layout(rgba_stride, width, height, 4))
            &&& region_clamped(final(rgba)@, wide_layout(rgba_stride, width, height, 4), depth_limit_of(bit_depth))
            &&& region_takes(
                final(rgba)@,
                wide_layout(rgba_stride, width, height, 4),
                3,
                a_plane@,
                wide_layout(a_stride, width, height, 1),
            )
            &&& range == YuvRange::Pc ==> region_takes(
                final(rgba)@,
                wide_layout(rgba_stride, width, height, 4),
                0,
                y_plane@,
                wide_layout(y_stride, width, height, 1),
            )
            &&& padding_kept(old(rgba)@, final(rgba)@, wide_layout(rgba_stride, width, height, 4))
        },
{
    check_image(width, height)?;
    check_depth(bit_depth)?;
    let matrix = standard_coefficients(yuv_matrix);
    let luma = read_luma(y_plane, y_stride, width, height)?;
    let alpha = read_luma(a_plane, a_stride, width, height)?;
    let target = PlaneLayout::wide(rgba_stride, width, height, 4);
    target.check(rgba.len())?;
    let luma = keep_within(luma, y_plane, &PlaneLayout::wide(y_stride, width, height, 1), depth_limit(bit_depth))?;
    let alpha = keep_within(alpha, a_plane, &PlaneLayout::wide(a_stride, width, height, 1), depth_limit(bit_depth))?;
    let image = luma.gray_with_alpha(&alpha, width, height);
    proof {
        lemma_packed_fits(target, rgba@.len() as int);
    }
    let in_place = adapt_write(rgba, &target);
    let path = if in_place.is_some() {
        PlanePath::Fast
    } else {
        PlanePath::Slow
    };
    let mut staged = staging_for(path, &target);
    let view: &mut [u16] = match in_place {
        Some(samples) => samples,
        None => staged.as_mut_slice(),
    };
    proof {
        lemma_view_rows_fit(target, path);
    }
    let stride = view_stride(&target, path) as u32;
    let ghost handed = view@;
    let verdict = match yuv400_p16_with_alpha_to_rgba16_kernel(bit_depth) {
        Gray16AlphaKernel::Y010AlphaToRgba10 => y010_alpha_to_rgba10(
            &image,
            view,
            stride,
            range,
            matrix,
        ),
        Gray16AlphaKernel::Y012AlphaToRgba12 => y012_alpha_to_rgba12(
            &image,
            view,
            stride,
            range,
            matrix,
        ),
    };
    let ghost produced = view@;
    let outcome = settle(verdict, path, staged.as_slice(), rgba, &target);
    proof {
        if outcome is Ok {
            if path == PlanePath::Fast {
                lemma_view_padding_is_region_padding(old(rgba)@, rgba@, target);
            }
            lemma_presented_pixels(produced, stride as int, rgba@, target);
            lemma_presented_takes(
                produced,
                stride as int,
                rgba@,
                target,
                3,
                alpha.view.samples(),
                alpha.stride as int,
                a_plane@,
                wide_layout(a_stride, width, height, 1),
            );
            if range == YuvRange::Pc {
                lemma_presented_takes(
                    produced,
                    stride as int,
                    rgba@,
                    target,
                    0,
                    luma.view.samples(),
                    luma.stride as int,
                    y_plane@,
                    wide_layout(y_stride, width, height, 1),
                );
            }
        }
        assert(handed =~= target_view(old(rgba)@, target, path));
        assert(yuv400_p16_with_alpha_converted(
            y_plane@,
            y_stride,
            luma.view.path_of(),
            a_plane@,
            a_stride,
            alpha.view.path_of(),
            old(rgba)@,
            rgba@,
            rgba_stride,
            path,
            bit_depth,
            width,
            height,
            range,
            yuv_matrix,
        ));
    }
    outcome
}

/// The fault for which `pixart_yuv8_with_alpha_to_rgba8` refuses its
/// arguments, if any: an empty image, then the first plane, in the order
/// luma, chroma U, chroma V, alpha, destination, whose stride cannot hold a
/// row or whose region is not its stride times its height.
pub open spec fn yuv8_with_alpha_to_rgba8_fault(
    y_len: int,
    y_stride: u32,
    u_len: int,
    u_stride: u32,
    v_len: int,
    v_stride: u32,
    a_len: int,
    a_stride: u32,
    rgba_len: int,
    rgba_stride: u32,
    width: u32,
    height: u32,
    yuv_matrix: YuvMatrix,
    yuv_type: YuvType,
) -> Option<PixartError> {
    or_else(
        empty_fault(width as int, height as int),
        or_else(
                planar8_fault(
                    y_len,
                    y_stride,
                    u_len,
                    u_stride,
                    v_len,
                    v_stride,
                    width,
                    height,
                    yuv_type,
                ),
                or_else(
                    narrow_layout(a_stride, width, height, 1).fault(a_len),
                    narrow_layout(rgba_stride, width, height, 4).fault(rgba_len),
                ),
            ),
    )
}

/// Converts a planar image of 8-bit samples with an alpha plane into
/// interleaved 8-bit RGBA, alpha not premultiplied. For the identity matrix
/// and for YCgCo the destination is what the selected kernel leaves in it;
/// for a matrix given by coefficients, whose kernels choose their arithmetic
/// by the processor, the pixels are not stated.
pub fn pixart_yuv8_with_alpha_to_rgba8(
    y_plane: &[u8],
    y_stride: u32,
    u_plane: &[u8],
    u_stride: u32,
    v_plane: &[u8],
    v_stride: u32,
    a_plane: &[u8],
    a_stride: u32,
    rgba: &mut [u8],
    rgba_stride: u32,
    width: u32,
    height: u32,
    range: YuvRange,
    yuv_matrix: YuvMatrix,
    yuv_type: YuvType,
) -> (outcome: Result<(), PixartError>)
    requires
        combination_exists(yuv_matrix, yuv_type),
    ensures
        converts_narrow(
            outcome,
            yuv8_with_alpha_to_rgba8_fault(
                y_plane@.len() as int,
                y_stride,
                u_plane@.len() as int,
                u_stride,
                v_plane@.len() as int,
                v_stride,
                a_plane@.len() as int,
                a_stride,
                old(rgba)@.len() as int,
                rgba_stride,
                width,
                height,
                yuv_matrix,
                yuv_type,
            ),
            old(rgba)@,
            final(rgba)@,
        ),
        outcome is Ok ==> match yuv8_with_alpha_to_rgba8_pixels(
            yuv8_with_alpha_to_rgba8_kernel_of(yuv_matrix, yuv_type),
            y_plane@,
            y_stride as int,
            u_plane@,
            u_stride as int,
            v_plane@,
            v_stride as int,
            a_plane@,
            a_stride as int,
            width as int,
            height as int,
            old(rgba)@,
            rgba_stride as int,
            range,
        ) {
            Some(pixels) => final(rgba)@ == pixels,
            None => true,
        },
{
    check_image(width, height)?;
    let chroma_w = chroma_width(width, yuv_type);
    let chroma_h = chroma_height(height, yuv_type);
    check_narrow_plane(y_plane.len(), &PlaneLayout::narrow(y_stride, width, height, 1))?;
    check_narrow_plane(u_plane.len(), &PlaneLayout::narrow(u_stride, chroma_w, chroma_h, 1))?;
    check_narrow_plane(v_plane.len(), &PlaneLayout::narrow(v_stride, chroma_w, chroma_h, 1))?;
    check_narrow_plane(a_plane.len(), &PlaneLayout::narrow(a_stride, width, height, 1))?;
    check_narrow_plane(rgba.len(), &PlaneLayout::narrow(rgba_stride, width, height, 4))?;
    let image = PlanarAlpha {
        y_plane,
        y_stride,
        u_plane,
        u_stride,
        v_plane,
        v_stride,
        a_plane,
        a_stride,
        width,
        height,
    };
    let verdict = match yuv8_with_alpha_to_rgba8_kernel(yuv_matrix, yuv_type) {
        Yuv8AlphaKernel::Yuv420AlphaToRgba => yuv420_alpha_to_rgba(
            &image,
            rgba,
            rgba_stride,
            range,
            standard_coefficients(yuv_matrix),
            false,
        ),
        Yuv8AlphaKernel::Yuv422AlphaToRgba => yuv422_alpha_to_rgba(
            &image,
            rgba,
            rgba_stride,
            range,
            standard_coefficients(yuv_matrix),
            false,
        ),
        Yuv8AlphaKernel::Yuv444AlphaToRgba => yuv444_alpha_to_rgba(
            &image,
            rgba,
            rgba_stride,
            range,
            standard_coefficients(yuv_matrix),
            false,
        ),
        Yuv8AlphaKernel::GbrWithAlphaToRgba => gbr_with_alpha_to_rgba(
            &image,
            rgba,
            rgba_stride,
            range,
        ),
        Yuv8AlphaKernel::Ycgco420AlphaToRgba => ycgco420_alpha_to_rgba(
            &image,
            rgba,
            rgba_stride,
            range,
        ),
        Yuv8AlphaKernel::Ycgco422AlphaToRgba => ycgco422_alpha_to_rgba(
            &image,
            rgba,
            rgba_stride,
            range,
        ),
        Yuv8AlphaKernel::Ycgco444AlphaToRgba => ycgco444_alpha_to_rgba(
            &image,
            rgba,
            rgba_stride,
            range,
        ),
    };
    settle_direct(verdict)
}

/// The fault for which `pixart_yuv16_to_rgb16` refuses its arguments, if
/// any: an empty image, then an unsupported bit depth, then the first plane,
/// in the order luma, chroma U, chroma V, destination, whose stride cannot
/// hold a row or whose region is not its stride times its height.
pub open spec fn yuv16_to_rgb16_fault(
    y_len: int,
    y_stride: u32,
    u_len: int,
    u_stride: u32,
    v_len: int,
    v_stride: u32,
    rgba_len: int,
    rgba_stride: u32,
    bit_depth: u32,
    width: u32,
    height: u32,
    yuv_matrix: YuvMatrix,
    yuv_type: YuvType,
) -> Option<PixartError> {
    or_else(
        empty_fault(width as int, height as int),
        or_else(
            depth_fault(bit_depth as int),
            or_else(
                    planar_fault(
                        y_len,
                        y_stride,
                        u_len,
                        u_stride,
                        v_len,
                        v_stride,
                        width,
                        height,
                        yuv_type,
                    ),
                    wide_layout(rgba_stride, width, height, 3).fault(rgba_len),
                ),
        ),
    )
}

/// Whether a destination holds the pixels of `pixart_yuv16_to_rgb16` for
/// sources adapted on `y_path`, `u_path` and `v_path` and a destination
/// adapted on `path`: what the selected kernel leaves in the destination's
/// view when it is handed the sources' views. Nothing is said for a matrix
/// given by coefficients, whose kernels choose their arithmetic by the
/// processor.
pub open spec fn yuv16_to_rgb16_converted(
    y: Seq<u8>,
    y_stride: u32,
    y_path: PlanePath,
    u: Seq<u8>,
    u_stride: u32,
    u_path: PlanePath,
    v: Seq<u8>,
    v_stride: u32,
    v_path: PlanePath,
    before: Seq<u8>,
    after: Seq<u8>,
    rgba_stride: u32,
    path: PlanePath,
    width: u32,
    height: u32,
    range: YuvRange,
    bit_depth: u32,
    yuv_matrix: YuvMatrix,
    yuv_type: YuvType,
) -> bool {
    let luma = wide_layout(y_stride, width, height, 1);
    let cb = wide_chroma_layout(u_stride, width, height, yuv_type);
    let cr = wide_chroma_layout(v_stride, width, height, yuv_type);
    let target = wide_layout(rgba_stride, width, height, 3);
    match yuv16_to_rgb16_pixels(
        yuv16_to_rgb16_kernel_of(bit_depth, yuv_matrix, yuv_type),
        source_view(y, luma, y_path),
        view_stride_of(luma, y_path),
        source_view(u, cb, u_path),
        view_stride_of(cb, u_path),
        source_view(v, cr, v_path),
        view_stride_of(cr, v_path),
        width as int,
        height as int,
        target_view(before, target, path),
        view_stride_of(target, path),
        range,
    ) {
        Some(pixels) => delivers(before, after, target, path, pixels),
        None => true,
    }
}

/// Converts a planar image of 10-bit or 12-bit samples into interleaved RGB
/// of the same depth. Every plane is a byte region with its own stride and
/// is adapted on its own; the destination is written in place where it can
/// be viewed as samples, and through a packed buffer that is flushed at the
/// end where it cannot. Every sample of the result fits the depth, and
/// stride padding is left as it was on either path. For the identity matrix
/// and for YCgCo the destination is what the selected kernel leaves in its
/// view; for the identity matrix at full range the pixels are the planes'
/// samples themselves. For a matrix given by coefficients, whose kernels
/// choose their arithmetic by the processor, no more is stated.
#[verifier::rlimit(60)]
pub fn pixart_yuv16_to_rgb16(
    y_plane: &[u8],
    y_stride: u32,
    u_plane: &[u8],
    u_stride: u32,
    v_plane: &[u8],
    v_stride: u32,
    rgba: &mut [u8],
    rgba_stride: u32,
    bit_depth: u32,
    width: u32,
    height: u32,
    range: YuvRange,
    yuv_matrix: YuvMatrix,
    yuv_type: YuvType,
) -> (outcome: Result<PlanePath, PixartError>)
    requires
        combination_exists(yuv_matrix, yuv_type),
    ensures
        converts_wide(
            outcome,
            or_else(
                yuv16_to_rgb16_fault(
                    y_plane@.len() as int,
                    y_stride,
                    u_plane@.len() as int,
                    u_stride,
                    v_plane@.len() as int,
                    v_stride,
                    old(rgba)@.len() as int,
                    rgba_stride,
                    bit_depth,
                    width,
                    height,
                    yuv_matrix,
                    yuv_type,
                ),
                planar_sample_fault(
                    y_plane@,
                    y_stride,
                    u_plane@,
                    u_stride,
                    v_plane@,
                    v_stride,
                    width,
                    height,
                    yuv_type,
                    depth_limit_of(bit_depth),
                ),
            ),
            old(rgba)@,
            final(rgba)@,
            wide_layout(rgba_stride, width, height, 3),
        ),
        outcome matches Ok(path) ==> exists|y_path: PlanePath, u_path: PlanePath, v_path: PlanePath|
            #[trigger] yuv16_to_rgb16_converted(
                y_plane@,
                y_stride,
                y_path,
                u_plane@,
                u_stride,
                u_path,
                v_plane@,
                v_stride,
                v_path,
                old(rgba)@,
                final(rgba)@,
                rgba_stride,
                path,
                width,
                height,
                range,
                bit_depth,
                yuv_matrix,
                yuv_type,
            ),
        outcome is Ok ==> {
            &&& region_clamped(
                final(rgba)@,
                wide_layout(rgba_stride, width, height, 3),
                depth_limit_of(bit_depth),
            )
            &&& padding_kept(
                old(rgba)@,
                final(rgba)@,
                wide_layout(rgba_stride, width, height, 3),
            )
        },
        outcome is Ok && yuv_matrix == YuvMatrix::Identity && range == YuvRange::Pc ==> {
            &&& region_takes(
                final(rgba)@,
                wide_layout(rgba_stride, width, height, 3),
                0,
                v_plane@,
                wide_chroma_layout(v_stride, width, height, yuv_type),
            )
            &&& region_takes(
                final(rgba)@,
                wide_layout(rgba_stride, width, height, 3),
                1,
                y_plane@,
                wide_layout(y_stride, width, height, 1),
            )
            &&& region_takes(
                final(rgba)@,
                wide_layout(rgba_stride, width, height, 3),
                2,
                u_plane@,
                wide_chroma_layout(u_stride, width, height, yuv_type),
            )
        },
{
    check_image(width, height)?;
    check_depth(bit_depth)?;
    let planes = read_planar(
        y_plane,
        y_stride,
        u_plane,
        u_stride,
        v_plane,
        v_stride,
        width,
        height,
        yuv_type,
    )?;
    let target = PlaneLayout::wide(rgba_stride, width, height, 3);
    target.check(rgba.len())?;
    let planes = keep_planar_within(
        planes,
        y_plane,
        y_stride,
        u_plane,
        u_stride,
        v_plane,
        v_stride,
        width,
        height,
        yuv_type,
        depth_limit(bit_depth),
    )?;
    let image = planes.image(width, height);
    proof {
        lemma_packed_fits(target, rgba@.len() as int);
    }
    let in_place = adapt_write(rgba, &target);
    let path = if in_place.is_some() {
        PlanePath::Fast
    } else {
        PlanePath::Slow
    };
    let mut staged = staging_for(path, &target);
    let view: &mut [u16] = match in_place {
        Some(samples) => samples,
        None => staged.as_mut_slice(),
    };
    proof {
        lemma_view_rows_fit(target, path);
    }
    let stride = view_stride(&target, path) as u32;
    let ghost handed = view@;
    let verdict = match yuv16_to_rgb16_kernel(bit_depth, yuv_matrix, yuv_type) {
        Yuv16Kernel::I010ToRgb10 => i010_to_rgb10(
            &image,
            view,
            stride,
            range,
            standard_coefficients(yuv_matrix),
        ),
        Yuv16Kernel::I012ToRgb12 => i012_to_rgb12(
            &image,
            view,
            stride,
            range,
            standard_coefficients(yuv_matrix),
        ),
        Yuv16Kernel::I210ToRgb10 => i210_to_rgb10(
            &image,
            view,
            stride,
            range,
            standard_coefficients(yuv_matrix),
        ),
        Yuv16Kernel::I212ToRgb12 => i212_to_rgb12(
            &image,
            view,
            stride,
            range,
            standard_coefficients(yuv_matrix),
        ),
        Yuv16Kernel::I410ToRgb10 => i410_to_rgb10(
            &image,
            view,
            stride,
            range,
            standard_coefficients(yuv_matrix),
        ),
        Yuv16Kernel::I412ToRgb12 => i412_to_rgb12(
            &image,
            view,
            stride,
            range,
            standard_coefficients(yuv_matrix),
        ),
        Yuv16Kernel::Gb10ToRgb10 => gb10_to_rgb10(&image, view, stride, range),
        Yuv16Kernel::Gb12ToRgb12 => gb12_to_rgb12(&image, view, stride, range),
        Yuv16Kernel::Icgc010ToRgb10 => icgc010_to_rgb10(&image, view, stride, range),
        Yuv16Kernel::Icgc012ToRgb12 => icgc012_to_rgb12(&image, view, stride, range),
        Yuv16Kernel::Icgc210ToRgb10 => icgc210_to_rgb10(&image, view, stride, range),
        Yuv16Kernel::Icgc212ToRgb12 => icgc212_to_rgb12(&image, view, stride, range),
        Yuv16Kernel::Icgc410ToRgb10 => icgc410_to_rgb10(&image, view, stride, range),
        Yuv16Kernel::Icgc412ToRgb12 => icgc412_to_rgb12(&image, view, stride, range),
    };
    let ghost produced = view@;
    let outcome = settle(verdict, path, staged.as_slice(), rgba, &target);
    proof {
        assert(handed =~= target_view(old(rgba)@, target, path));
        assert(yuv16_to_rgb16_converted(
            y_plane@,
            y_stride,
            planes.luma.view.path_of(),
            u_plane@,
            u_stride,
            planes.cb.view.path_of(),
            v_plane@,
            v_stride,
            planes.cr.view.path_of(),
            old(rgba)@,
            rgba@,
            rgba_stride,
            path,
            width,
            height,
            range,
            bit_depth,
            yuv_matrix,
            yuv_type,
        ));
        if outcome is Ok {
            if path == PlanePath::Fast {
                lemma_view_padding_is_region_padding(old(rgba)@, rgba@, target);
            }
            lemma_presented_pixels(produced, stride as int, rgba@, target);
            if yuv_matrix == YuvMatrix::Identity && range == YuvRange::Pc {
                lemma_presented_takes(
                    produced,
                    stride as int,
                    rgba@,
                    target,
                    0,
                    planes.cr.view.samples(),
                    planes.cr.stride as int,
                    v_plane@,
                    wide_chroma_layout(v_stride, width, height, yuv_type),
                );
                lemma_presented_takes(
                    produced,
                    stride as int,
                    rgba@,
                    target,
                    1,
                    planes.luma.view.samples(),
                    planes.luma.stride as int,
                    y_plane@,
                    wide_layout(y_stride, width, height, 1),
                );
                lemma_presented_takes(
                    produced,
                    stride as int,
                    rgba@,
                    target,
                    2,
                    planes.cb.view.samples(),
                    planes.cb.stride as int,
                    u_plane@,
                    wide_chroma_layout(u_stride, width, height, yuv_type),
                );
            }
        }
    }
    outcome
}

/// The fault for which `pixart_yuv16_with_alpha_to_rgba16` refuses its
/// arguments, if any: an empty image, then an unsupported bit depth, then
/// the first plane, in the order luma, chroma U, chroma V, alpha,
/// destination, whose stride cannot hold a row or whose region is not its
/// stride times its height.
pub open spec fn yuv16_with_alpha_to_rgba16_fault(
    y_len: int,
    y_stride: u32,
    u_len: int,
    u_stride: u32,
    v_len: int,
    v_stride: u32,
    a_len: int,
    a_stride: u32,
    rgba_len: int,
    rgba_stride: u32,
    bit_depth: u32,
    width: u32,
    height: u32,
    yuv_matrix: YuvMatrix,
    yuv_type: YuvType,
) -> Option<PixartError> {
    or_else(
        empty_fault(width as int, height as int),
        or_else(
            depth_fault(bit_depth as int),
            or_else(
                    planar_fault(
                        y_len,
                        y_stride,
                        u_len,
                        u_stride,
                        v_len,
                        v_stride,
                        width,
                        height,
                        yuv_type,
                    ),
                    or_else(
                        luma_fault(a_len, a_stride, width, height),
                        wide_layout(rgba_stride, width, height, 4).fault(rgba_len),
                    ),
                ),
        ),
    )
}

/// Whether a destination holds the pixels of `pixart_yuv16_with_alpha_to_rgba16` for
/// sources adapted on `y_path`, `u_path`, `v_path` and `a_path` and a
/// destination adapted on `path`: what the selected kernel leaves in the
/// destination's view when it is handed the sources' views. Nothing is
/// said for a matrix given by coefficients, whose kernels choose their
/// arithmetic by the processor.
pub open spec fn yuv16_with_alpha_to_rgba16_converted(
    y: Seq<u8>,
    y_stride: u32,
    y_path: PlanePath,
    u: Seq<u8>,
    u_stride: u32,
    u_path: PlanePath,
    v: Seq<u8>,
    v_stride: u32,
    v_path: PlanePath,
    a: Seq<u8>,
    a_stride: u32,
    a_path: PlanePath,
    before: Seq<u8>,
    after: Seq<u8>,
    rgba_stride: u32,
    path: PlanePath,
    width: u32,
    height: u32,
    range: YuvRange,
    bit_depth: u32,
    yuv_matrix: YuvMatrix,
    yuv_type: YuvType,
) -> bool {
    let luma = wide_layout(y_stride, width, height, 1);
    let cb = wide_chroma_layout(u_stride, width, height, yuv_type);
    let cr = wide_chroma_layout(v_stride, width, height, yuv_type);
    let alpha = wide_layout(a_stride, width, height, 1);
    let target = wide_layout(rgba_stride, width, height, 4);
    match yuv16_with_alpha_to_rgba16_pixels(
        yuv16_with_alpha_to_rgba16_kernel_of(bit_depth, yuv_matrix, yuv_type),
        source_view(y, luma, y_path),
        view_stride_of(luma, y_path),
        source_view(u, cb, u_path),
        view_stride_of(cb, u_path),
        source_view(v, cr, v_path),
        view_stride_of(cr, v_path),
        source_view(a, alpha, a_path),
        view_stride_of(alpha, a_path),
        width as int,
        height as int,
        target_view(before, target, path),
        view_stride_of(target, path),
        range,
    ) {
        Some(pixels) => delivers(before, after, target, path, pixels),
        None => true,
    }
}

/// Converts a planar image of 10-bit or 12-bit samples with an alpha plane
/// into interleaved RGBA of the same depth. Every plane is a byte region with
/// its own stride and is adapted on its own; the destination is written in
/// place where it can be viewed as samples, and through a packed buffer that
/// is flushed at the end where it cannot. Every sample of the result fits the
/// depth, and stride padding is left as it was on either path. For the
/// identity matrix and for YCgCo the destination is what the selected kernel
/// leaves in its view, with the alpha plane's sample in every pixel; for the
/// identity matrix at full range the colours are the planes' samples
/// themselves. For a matrix given by coefficients, whose kernels choose their
/// arithmetic by the processor, no more is stated.
#[verifier::rlimit(80)]
pub fn pixart_yuv16_with_alpha_to_rgba16(
    y_plane: &[u8],
    y_stride: u32,
    u_plane: &[u8],
    u_stride: u32,
    v_plane: &[u8],
    v_stride: u32,
    a_plane: &[u8],
    a_stride: u32,
    rgba: &mut [u8],
    rgba_stride: u32,
    bit_depth: u32,
    width: u32,
    height: u32,
    range: YuvRange,
    yuv_matrix: YuvMatrix,
    yuv_type: YuvType,
) -> (outcome: Result<PlanePath, PixartError>)
    requires
        combination_exists(yuv_matrix, yuv_type),
    ensures
        converts_wide(
            outcome,
            or_else(
                yuv16_with_alpha_to_rgba16_fault(
                    y_plane@.len() as int,
                    y_stride,
                    u_plane@.len() as int,
                    u_stride,
                    v_plane@.len() as int,
                    v_stride,
                    a_plane@.len() as int,
                    a_stride,
                    old(rgba)@.len() as int,
                    rgba_stride,
                    bit_depth,
                    width,
                    height,
                    yuv_matrix,
                    yuv_type,
                ),
                or_else(
                    planar_sample_fault(
                        y_plane@,
                        y_stride,
                        u_plane@,
                        u_stride,
                        v_plane@,
                        v_stride,
                        width,
                        height,
                        yuv_type,
                        depth_limit_of(bit_depth),
                    ),
                    sample_fault(a_plane@, wide_layout(a_stride, width, height, 1), depth_limit_of(bit_depth)),
                ),
            ),
            old(rgba)@,
            final(rgba)@,
            wide_layout(rgba_stride, width, height, 4),
        ),
        outcome matches Ok(path) ==> exists|
            y_path: PlanePath,
            u_path: PlanePath,
            v_path: PlanePath,
            a_path: PlanePath,
        |
            #[trigger] yuv16_with_alpha_to_rgba16_converted(
                y_plane@,
                y_stride,
                y_path,
                u_plane@,
                u_stride,
                u_path,
                v_plane@,
                v_stride,
                v_path,
                a_plane@,
                a_stride,
                a_path,
                old(rgba)@,
                final(rgba)@,
                rgba_stride,
                path,
                width,
                height,
                range,
                bit_depth,
                yuv_matrix,
                yuv_type,
            ),
        outcome is Ok ==> {
            &&& region_clamped(final(rgba)@, wide_layout(rgba_stride, width, height, 4), depth_limit_of(bit_depth))
            &&& padding_kept(old(rgba)@, final(rgba)@, wide_layout(rgba_stride, width, height, 4))
        },
        outcome is Ok && !has_coefficients(yuv_matrix) ==> region_takes(
            final(rgba)@,
            wide_layout(rgba_stride, width, height, 4),
            3,
            a_plane@,
            wide_layout(a_stride, width, height, 1),
        ),
        outcome is Ok && yuv_matrix == YuvMatrix::Identity && range == YuvRange::Pc ==> {
            &&& region_takes(
                final(rgba)@,
                wide_layout(rgba_stride, width, height, 4),
                0,
                v_plane@,
                wide_chroma_layout(v_stride, width, height, yuv_type),
            )
            &&& region_takes(
                final(rgba)@,
                wide_layout(rgba_stride, width, height, 4),
                1,
                y_plane@,
                wide_layout(y_stride, width, height, 1),
            )
            &&& region_takes(
                final(rgba)@,
                wide_layout(rgba_stride, width, height, 4),
                2,
                u_plane@,
                wide_chroma_layout(u_stride, width, height, yuv_type),
            )
        },
{
    check_image(width, height)?;
    check_depth(bit_depth)?;
    let planes = read_planar(
        y_plane,
        y_stride,
        u_plane,
        u_stride,
        v_plane,
        v_stride,
        width,
        height,
        yuv_type,
    )?;
    let alpha = read_luma(a_plane, a_stride, width, height)?;
    let target = PlaneLayout::wide(rgba_stride, width, height, 4);
    target.check(rgba.len())?;
    let planes = keep_planar_within(
        planes,
        y_plane,
        y_stride,
        u_plane,
        u_stride,
        v_plane,
        v_stride,
        width,
        height,
        yuv_type,
        depth_limit(bit_depth),
    )?;
    let alpha = keep_within(alpha, a_plane, &PlaneLayout::wide(a_stride, width, height, 1), depth_limit(bit_depth))?;
    let image = planes.image_with_alpha(&alpha, width, height);
    proof {
        lemma_packed_fits(target, rgba@.len() as int);
    }
    let in_place = adapt_write(rgba, &target);
    let path = if in_place.is_some() {
        PlanePath::Fast
    } else {
        PlanePath::Slow
    };
    let mut staged = staging_for(path, &target);
    let view: &mut [u16] = match in_place {
        Some(samples) => samples,
        None => staged.as_mut_slice(),
    };
    proof {
        lemma_view_rows_fit(target, path);
    }
    let stride = view_stride(&target, path) as u32;
    let ghost handed = view@;
    let verdict = match yuv16_with_alpha_to_rgba16_kernel(bit_depth, yuv_matrix, yuv_type) {
        Yuv16AlphaKernel::I010AlphaToRgba10 => i010_alpha_to_rgba10(
            &image,
            view,
            stride,
            range,
            standard_coefficients(yuv_matrix),
        ),
        Yuv16AlphaKernel::I012AlphaToRgba12 => i012_alpha_to_rgba12(
            &image,
            view,
            stride,
            range,
            standard_coefficients(yuv_matrix),
        ),
        Yuv16AlphaKernel::I210AlphaToRgba10 => i210_alpha_to_rgba10(
            &image,
            view,
            stride,
            range,
            standard_coefficients(yuv_matrix),
        ),
        Yuv16AlphaKernel::I212AlphaToRgba12 => i212_alpha_to_rgba12(
            &image,
            view,
            stride,
            range,
            standard_coefficients(yuv_matrix),
        ),
        Yuv16AlphaKernel::I410AlphaToRgba10 => i410_alpha_to_rgba10(
            &image,
            view,
            stride,
            range,
            standard_coefficients(yuv_matrix),
        ),
        Yuv16AlphaKernel::I412AlphaToRgba12 => i412_alpha_to_rgba12(
            &image,
            view,
            stride,
            range,
            standard_coefficients(yuv_matrix),
        ),
        Yuv16AlphaKernel::Gb10AlphaToRgba10 => gb10_alpha_to_rgba10(&image, view, stride, range),
        Yuv16AlphaKernel::Gb12AlphaToRgba12 => gb12_alpha_to_rgba12(&image, view, stride, range),
        Yuv16AlphaKernel::Icgc010AlphaToRgba10 => icgc010_alpha_to_rgba10(
            &image,
            view,
            stride,
            range,
        ),
        Yuv16AlphaKernel::Icgc012AlphaToRgba12 => icgc012_alpha_to_rgba12(
            &image,
            view,
            stride,
            range,
        ),
        Yuv16AlphaKernel::Icgc210AlphaToRgba10 => icgc210_alpha_to_rgba10(
            &image,
            view,
            stride,
            range,
        ),
        Yuv16AlphaKernel::Icgc212AlphaToRgba12 => icgc212_alpha_to_rgba12(
            &image,
            view,
            stride,
            range,
        ),
        Yuv16AlphaKernel::Icgc410AlphaToRgba10 => icgc410_alpha_to_rgba10(
            &image,
            view,
            stride,
            range,
        ),
        Yuv16AlphaKernel::Icgc412AlphaToRgba12 => icgc412_alpha_to_rgba12(
            &image,
            view,
            stride,
            range,
        ),
    };
    let ghost produced = view@;
    let outcome = settle(verdict, path, staged.as_slice(), rgba, &target);
    proof {
        if outcome is Ok {
            if path == PlanePath::Fast {
                lemma_view_padding_is_region_padding(old(rgba)@, rgba@, target);
            }
            lemma_presented_pixels(produced, stride as int, rgba@, target);
            if !has_coefficients(yuv_matrix) {
                lemma_presented_takes(
                    produced,
                    stride as int,
                    rgba@,
                    target,
                    3,
                    alpha.view.samples(),
                    alpha.stride as int,
                    a_plane@,
                    wide_layout(a_stride, width, height, 1),
                );
            }
            if yuv_matrix == YuvMatrix::Identity && range == YuvRange::Pc {
                lemma_presented_takes(
                    produced,
                    stride as int,
                    rgba@,
                    target,
                    0,
                    planes.cr.view.samples(),
                    planes.cr.stride as int,
                    v_plane@,
                    wide_chroma_layout(v_stride, width, height, yuv_type),
                );
                lemma_presented_takes(
                    produced,
                    stride as int,
                    rgba@,
                    target,
                    1,
                    planes.luma.view.samples(),
                    planes.luma.stride as int,
                    y_plane@,
                    wide_layout(y_stride, width, height, 1),
                );
                lemma_presented_takes(
                    produced,
                    stride as int,
                    rgba@,
                    target,
                    2,
                    planes.cb.view.samples(),
                    planes.cb.stride as int,
                    u_plane@,
                    wide_chroma_layout(u_stride, width, height, yuv_type),
                );
            }
        }
        assert(handed =~= target_view(old(rgba)@, target, path));
        assert(yuv16_with_alpha_to_rgba16_converted(
            y_plane@,
            y_stride,
            planes.luma.view.path_of(),
            u_plane@,
            u_stride,
            planes.cb.view.path_of(),
            v_plane@,
            v_stride,
            planes.cr.view.path_of(),
            a_plane@,
            a_stride,
            alpha.view.path_of(),
            old(rgba)@,
            rgba@,
            rgba_stride,
            path,
            width,
            height,
            range,
            bit_depth,
            yuv_matrix,
            yuv_type,
        ));
    }
    outcome
}

/// The fault for which an operation on a planar image of two-byte samples
/// refuses its arguments, if any, where neither bit depth nor matrix is
/// chosen: an empty image, then the first plane, in the order luma, chroma
/// U, chroma V, whose stride cannot hold a row or whose region is not its
/// stride times its height.
pub open spec fn icgc_planes_fault(
    y_len: int,
    y_stride: u32,
    u_len: int,
    u_stride: u32,
    v_len: int,
    v_stride: u32,
    width: u32,
    height: u32,
    yuv_type: YuvType,
) -> Option<PixartError> {
    or_else(
        empty_fault(width as int, height as int),
        planar_fault(y_len, y_stride, u_len, u_stride, v_len, v_stride, width, height, yuv_type),
    )
}

/// Whether a destination holds the pixels of `pixart_icgc12_r_to_rgb10` for
/// sources adapted on `y_path`, `u_path` and `v_path` and a destination
/// adapted on `path`: what the selected kernel leaves in the destination's
/// view when it is handed the sources' views.
pub open spec fn icgc12_r_to_rgb10_converted(
    y: Seq<u8>,
    y_stride: u32,
    y_path: PlanePath,
    u: Seq<u8>,
    u_stride: u32,
    u_path: PlanePath,
    v: Seq<u8>,
    v_stride: u32,
    v_path: PlanePath,
    before: Seq<u8>,
    after: Seq<u8>,
    rgba_stride: u32,
    path: PlanePath,
    width: u32,
    height: u32,
    range: YuvRange,
    r_type: AvifYCgCoRType,
    yuv_type: YuvType,
) -> bool {
    let luma = wide_layout(y_stride, width, height, 1);
    let cb = wide_chroma_layout(u_stride, width, height, yuv_type);
    let cr = wide_chroma_layout(v_stride, width, height, yuv_type);
    let target = wide_layout(rgba_stride, width, height, 3);
    match icgc12_r_to_rgb10_pixels(
        icgc12_r_to_rgb10_kernel_of(r_type, yuv_type),
        source_view(y, luma, y_path),
        view_stride_of(luma, y_path),
        source_view(u, cb, u_path),
        view_stride_of(cb, u_path),
        source_view(v, cr, v_path),
        view_stride_of(cr, v_path),
        width as int,
        height as int,
        target_view(before, target, path),
        view_stride_of(target, path),
        range,
    ) {
        Some(pixels) => delivers(before, after, target, path, pixels),
        None => true,
    }
}

/// Converts a planar image of reversible YCgCo samples, 12 bits wide, into
/// interleaved 10-bit RGB. The destination is what the selected kernel leaves
/// in its view; every sample fits 10 bits, and stride padding is left as it
/// was on either path.
pub fn pixart_icgc12_r_to_rgb10(
    y_plane: &[u8],
    y_stride: u32,
    u_plane: &[u8],
    u_stride: u32,
    v_plane: &[u8],
    v_stride: u32,
    rgba: &mut [u8],
    rgba_stride: u32,
    width: u32,
    height: u32,
    range: YuvRange,
    r_type: AvifYCgCoRType,
    yuv_type: YuvType,
) -> (outcome: Result<PlanePath, PixartError>)
    ensures
        converts_wide(
            outcome,
            or_else(
                or_else(
                    icgc_planes_fault(
                        y_plane@.len() as int,
                        y_stride,
                        u_plane@.len() as int,
                        u_stride,
                        v_plane@.len() as int,
                        v_stride,
                        width,
                        height,
                        yuv_type,
                    ),
                    wide_layout(rgba_stride, width, height, 3).fault(old(rgba)@.len() as int),
                ),
                planar_sample_fault(
                    y_plane@,
                    y_stride,
                    u_plane@,
                    u_stride,
                    v_plane@,
                    v_stride,
                    width,
                    height,
                    yuv_type,
                    4096,
                ),
            ),
            old(rgba)@,
            final(rgba)@,
            wide_layout(rgba_stride, width, height, 3),
        ),
        outcome matches Ok(path) ==> exists|y_path: PlanePath, u_path: PlanePath, v_path: PlanePath|
            #[trigger] icgc12_r_to_rgb10_converted(
                y_plane@,
                y_stride,
                y_path,
                u_plane@,
                u_stride,
                u_path,
                v_plane@,
                v_stride,
                v_path,
                old(rgba)@,
                final(rgba)@,
                rgba_stride,
                path,
                width,
                height,
                range,
                r_type,
                yuv_type,
            ),
        outcome is Ok ==> {
            &&& region_clamped(final(rgba)@, wide_layout(rgba_stride, width, height, 3), 1024)
            &&& padding_kept(
                old(rgba)@,
                final(rgba)@,
                wide_layout(rgba_stride, width, height, 3),
            )
        },
{
    check_image(width, height)?;
    let planes = read_planar(
        y_plane,
        y_stride,
        u_plane,
        u_stride,
        v_plane,
        v_stride,
        width,
        height,
        yuv_type,
    )?;
    let target = PlaneLayout::wide(rgba_stride, width, height, 3);
    target.check(rgba.len())?;
    let planes = keep_planar_within(
        planes,
        y_plane,
        y_stride,
        u_plane,
        u_stride,
        v_plane,
        v_stride,
        width,
        height,
        yuv_type,
        4096,
    )?;
    let image = planes.image(width, height);
    proof {
        lemma_packed_fits(target, rgba@.len() as int);
    }
    let in_place = adapt_write(rgba, &target);
    let path = if in_place.is_some() {
        PlanePath::Fast
    } else {
        PlanePath::Slow
    };
    let mut staged = staging_for(path, &target);
    let view: &mut [u16] = match in_place {
        Some(samples) => samples,
        None => staged.as_mut_slice(),
    };
    proof {
        lemma_view_rows_fit(target, path);
    }
    let stride = view_stride(&target, path) as u32;
    let ghost handed = view@;
    let verdict = match icgc12_r_to_rgb10_kernel(r_type, yuv_type) {
        Icgc12Kernel::IcgcRo012ToRgb10 => icgc_ro012_to_rgb10(&image, view, stride, range),
        Icgc12Kernel::IcgcRe012ToRgb10 => icgc_re012_to_rgb10(&image, view, stride, range),
        Icgc12Kernel::IcgcRo212ToRgb10 => icgc_ro212_to_rgb10(&image, view, stride, range),
        Icgc12Kernel::IcgcRe212ToRgb10 => icgc_re212_to_rgb10(&image, view, stride, range),
        Icgc12Kernel::IcgcRo412ToRgb10 => icgc_ro412_to_rgb10(&image, view, stride, range),
        Icgc12Kernel::IcgcRe412ToRgb10 => icgc_re412_to_rgb10(&image, view, stride, range),
    };
    let ghost produced = view@;
    let outcome = settle(verdict, path, staged.as_slice(), rgba, &target);
    proof {
        assert(handed =~= target_view(old(rgba)@, target, path));
        assert(icgc12_r_to_rgb10_converted(
            y_plane@,
            y_stride,
            planes.luma.view.path_of(),
            u_plane@,
            u_stride,
            planes.cb.view.path_of(),
            v_plane@,
            v_stride,
            planes.cr.view.path_of(),
            old(rgba)@,
            rgba@,
            rgba_stride,
            path,
            width,
            height,
            range,
            r_type,
            yuv_type,
        ));
        if outcome is Ok {
            if path == PlanePath::Fast {
                lemma_view_padding_is_region_padding(old(rgba)@, rgba@, target);
            }
            lemma_presented_pixels(produced, stride as int, rgba@, target);
        }
    }
    outcome
}

/// The fault for which an operation on a planar image of two-byte samples
/// with an alpha plane refuses its sources, if any, where neither bit depth
/// nor matrix is chosen: an empty image, then the first plane, in the order
/// luma, chroma U, chroma V, alpha, whose stride cannot hold a row or whose
/// region is not its stride times its height.
pub open spec fn icgc_alpha_planes_fault(
    y_len: int,
    y_stride: u32,
    u_len: int,
    u_stride: u32,
    v_len: int,
    v_stride: u32,
    a_len: int,
    a_stride: u32,
    width: u32,
    height: u32,
    yuv_type: YuvType,
) -> Option<PixartError> {
    or_else(
        icgc_planes_fault(
            y_len,
            y_stride,
            u_len,
            u_stride,
            v_len,
            v_stride,
            width,
            height,
            yuv_type,
        ),
        luma_fault(a_len, a_stride, width, height),
    )
}

/// Whether a destination holds the pixels of `pixart_icgc_r_alpha12_to_rgba10` for
/// sources adapted on `y_path`, `u_path`, `v_path` and `a_path` and a
/// destination adapted on `path`: what the selected kernel leaves in the
/// destination's view when it is handed the sources' views. 
pub open spec fn icgc_r_alpha12_to_rgba10_converted(
    y: Seq<u8>,
    y_stride: u32,
    y_path: PlanePath,
    u: Seq<u8>,
    u_stride: u32,
    u_path: PlanePath,
    v: Seq<u8>,
    v_stride: u32,
    v_path: PlanePath,
    a: Seq<u8>,
    a_stride: u32,
    a_path: PlanePath,
    before: Seq<u8>,
    after: Seq<u8>,
    rgba_stride: u32,
    path: PlanePath,
    width: u32,
    height: u32,
    range: YuvRange,
    r_type: AvifYCgCoRType,
    yuv_type: YuvType,
) -> bool {
    let luma = wide_layout(y_stride, width, height, 1);
    let cb = wide_chroma_layout(u_stride, width, height, yuv_type);
    let cr = wide_chroma_layout(v_stride, width, height, yuv_type);
    let alpha = wide_layout(a_stride, width, height, 1);
    let target = wide_layout(rgba_stride, width, height, 4);
    match icgc_r_alpha12_to_rgba10_pixels(
        icgc_r_alpha12_to_rgba10_kernel_of(r_type, yuv_type),
        source_view(y, luma, y_path),
        view_stride_of(luma, y_path),
        source_view(u, cb, u_path),
        view_stride_of(cb, u_path),
        source_view(v, cr, v_path),
        view_stride_of(cr, v_path),
        source_view(a, alpha, a_path),
        view_stride_of(alpha, a_path),
        width as int,
        height as int,
        target_view(before, target, path),
        view_stride_of(target, path),
        range,
    ) {
        Some(pixels) => delivers(before, after, target, path, pixels),
        None => true,
    }
}

/// Converts a planar image of reversible YCgCo samples, 12 bits wide, with
/// an alpha plane into interleaved 10-bit RGBA. The destination is what the
/// selected kernel leaves in its view when it is handed the adapted planes.
/// Every sample fits 10 bits, and stride padding is left as it was on either
/// path.
pub fn pixart_icgc_r_alpha12_to_rgba10(
    y_plane: &[u8],
    y_stride: u32,
    u_plane: &[u8],
    u_stride: u32,
    v_plane: &[u8],
    v_stride: u32,
    a_plane: &[u8],
    a_stride: u32,
    rgba: &mut [u8],
    rgba_stride: u32,
    width: u32,
    height: u32,
    range: YuvRange,
    r_type: AvifYCgCoRType,
    yuv_type: YuvType,
) -> (outcome: Result<PlanePath, PixartError>)
    ensures
        converts_wide(
            outcome,
            or_else(
                or_else(
                    icgc_alpha_planes_fault(
                        y_plane@.len() as int,
                        y_stride,
                        u_plane@.len() as int,
                        u_stride,
                        v_plane@.len() as int,
                        v_stride,
                        a_plane@.len() as int,
                        a_stride,
                        width,
                        height,
                        yuv_type,
                    ),
                    wide_layout(rgba_stride, width, height, 4).fault(old(rgba)@.len() as int),
                ),
                or_else(
                    planar_sample_fault(
                        y_plane@,
                        y_stride,
                        u_plane@,
                        u_stride,
                        v_plane@,
                        v_stride,
                        width,
                        height,
                        yuv_type,
                        4096,
                    ),
                    sample_fault(a_plane@, wide_layout(a_stride, width, height, 1), 4096),
                ),
            ),
            old(rgba)@,
            final(rgba)@,
            wide_layout(rgba_stride, width, height, 4),
        ),
        outcome matches Ok(path) ==> exists|
            y_path: PlanePath,
            u_path: PlanePath,
            v_path: PlanePath,
            a_path: PlanePath,
        |
            #[trigger] icgc_r_alpha12_to_rgba10_converted(
                y_plane@,
                y_stride,
                y_path,
                u_plane@,
                u_stride,
                u_path,
                v_plane@,
                v_stride,
                v_path,
                a_plane@,
                a_stride,
                a_path,
                old(rgba)@,
                final(rgba)@,
                rgba_stride,
                path,
                width,
                height,
                range,
                r_type,
                yuv_type,
            ),
        outcome is Ok ==> {
            &&& region_clamped(final(rgba)@, wide_layout(rgba_stride, width, height, 4), 1024)
            &&& padding_kept(old(rgba)@, final(rgba)@, wide_layout(rgba_stride, width, height, 4))
        },
{
    check_image(width, height)?;
    let planes = read_planar(
        y_plane,
        y_stride,
        u_plane,
        u_stride,
        v_plane,
        v_stride,
        width,
        height,
        yuv_type,
    )?;
    let alpha = read_luma(a_plane, a_stride, width, height)?;
    let target = PlaneLayout::wide(rgba_stride, width, height, 4);
    target.check(rgba.len())?;
    let planes = keep_planar_within(
        planes,
        y_plane,
        y_stride,
        u_plane,
        u_stride,
        v_plane,
        v_stride,
        width,
        height,
        yuv_type,
        4096,
    )?;
    let alpha = keep_within(alpha, a_plane, &PlaneLayout::wide(a_stride, width, height, 1), 4096)?;
    let image = planes.image_with_alpha(&alpha, width, height);
    proof {
        lemma_packed_fits(target, rgba@.len() as int);
    }
    let in_place = adapt_write(rgba, &target);
    let path = if in_place.is_some() {
        PlanePath::Fast
    } else {
        PlanePath::Slow
    };
    let mut staged = staging_for(path, &target);
    let view: &mut [u16] = match in_place {
        Some(samples) => samples,
        None => staged.as_mut_slice(),
    };
    proof {
        lemma_view_rows_fit(target, path);
    }
    let stride = view_stride(&target, path) as u32;
    let ghost handed = view@;
    let verdict = match icgc_r_alpha12_to_rgba10_kernel(r_type, yuv_type) {
        Icgc12AlphaKernel::IcgcRoAlpha012ToRgba10 => icgc_ro_alpha012_to_rgba10(
            &image,
            view,
            stride,
            range,
        ),
        Icgc12AlphaKernel::IcgcReAlpha012ToRgba10 => icgc_re_alpha012_to_rgba10(
            &image,
            view,
            stride,
            range,
        ),
        Icgc12AlphaKernel::IcgcRoAlpha212ToRgba10 => icgc_ro_alpha212_to_rgba10(
            &image,
            view,
            stride,
            range,
        ),
        Icgc12AlphaKernel::IcgcReAlpha212ToRgba10 => icgc_re_alpha212_to_rgba10(
            &image,
            view,
            stride,
            range,
        ),
        Icgc12AlphaKernel::IcgcRoAlpha412ToRgba10 => icgc_ro_alpha412_to_rgba10(
            &image,
            view,
            stride,
            range,
        ),
        Icgc12AlphaKernel::IcgcReAlpha412ToRgba10 => icgc_re_alpha412_to_rgba10(
            &image,
            view,
            stride,
            range,
        ),
    };
    let ghost produced = view@;
    let outcome = settle(verdict, path, staged.as_slice(), rgba, &target);
    proof {
        if outcome is Ok {
            if path == PlanePath::Fast {
                lemma_view_padding_is_region_padding(old(rgba)@, rgba@, target);
            }
            lemma_presented_pixels(produced, stride as int, rgba@, target);
        }
        assert(handed =~= target_view(old(rgba)@, target, path));
        assert(icgc_r_alpha12_to_rgba10_converted(
            y_plane@,
            y_stride,
            planes.luma.view.path_of(),
            u_plane@,
            u_stride,
            planes.cb.view.path_of(),
            v_plane@,
            v_stride,
            planes.cr.view.path_of(),
            a_plane@,
            a_stride,
            alpha.view.path_of(),
            old(rgba)@,
            rgba@,
            rgba_stride,
            path,
            width,
            height,
            range,
            r_type,
            yuv_type,
        ));
    }
    outcome
}

/// Converts a planar image of reversible YCgCo samples, 10 bits wide, into
/// interleaved 8-bit RGB. The sources are adapted; the destination, of
/// one-byte samples, needs no adaptation.
/// Stride padding of the destination is left as it was. The kernels choose
/// their arithmetic by the processor, and the pixels are not stated.
pub fn pixart_icgc_r_type_to_rgb(
    y_plane: &[u8],
    y_stride: u32,
    u_plane: &[u8],
    u_stride: u32,
    v_plane: &[u8],
    v_stride: u32,
    rgba: &mut [u8],
    rgba_stride: u32,
    width: u32,
    height: u32,
    range: YuvRange,
    ro_type: AvifYCgCoRType,
    yuv_type: YuvType,
) -> (outcome: Result<(), PixartError>)
    ensures
        converts_narrow(
            outcome,
            or_else(
                or_else(
                    icgc_planes_fault(
                        y_plane@.len() as int,
                        y_stride,
                        u_plane@.len() as int,
                        u_stride,
                        v_plane@.len() as int,
                        v_stride,
                        width,
                        height,
                        yuv_type,
                    ),
                    narrow_layout(rgba_stride, width, height, 3).fault(old(rgba)@.len() as int),
                ),
                planar_sample_fault(
                    y_plane@,
                    y_stride,
                    u_plane@,
                    u_stride,
                    v_plane@,
                    v_stride,
                    width,
                    height,
                    yuv_type,
                    1024,
                ),
            ),
            old(rgba)@,
            final(rgba)@,
        ),
        outcome is Ok ==> padding_kept(
            old(rgba)@,
            final(rgba)@,
            narrow_layout(rgba_stride, width, height, 3),
        ),
{
    check_image(width, height)?;
    let planes = read_planar(
        y_plane,
        y_stride,
        u_plane,
        u_stride,
        v_plane,
        v_stride,
        width,
        height,
        yuv_type,
    )?;
    check_narrow_plane(rgba.len(), &PlaneLayout::narrow(rgba_stride, width, height, 3))?;
    let planes = keep_planar_within(
        planes,
        y_plane,
        y_stride,
        u_plane,
        u_stride,
        v_plane,
        v_stride,
        width,
        height,
        yuv_type,
        1024,
    )?;
    let image = planes.image(width, height);
    let verdict = match icgc_r_type_to_rgb_kernel(ro_type, yuv_type) {
        Icgc10Kernel::IcgcRo010ToRgb => icgc_ro010_to_rgb(&image, rgba, rgba_stride, range),
        Icgc10Kernel::IcgcRe010ToRgb => icgc_re010_to_rgb(&image, rgba, rgba_stride, range),
        Icgc10Kernel::IcgcRo210ToRgb => icgc_ro210_to_rgb(&image, rgba, rgba_stride, range),
        Icgc10Kernel::IcgcRe210ToRgb => icgc_re210_to_rgb(&image, rgba, rgba_stride, range),
        Icgc10Kernel::IcgcRo410ToRgb => icgc_ro410_to_rgb(&image, rgba, rgba_stride, range),
        Icgc10Kernel::IcgcRe410ToRgb => icgc_re410_to_rgb(&image, rgba, rgba_stride, range),
    };
    settle_direct(verdict)
}

/// Whether the alpha byte of every pixel of a region of RGBA pixels is the
/// byte of the alpha plane's sample at the same row and column.
pub open spec fn alpha_delivered(
    rgba: Seq<u8>,
    rgba_layout: PlaneLayout,
    alpha: Seq<u8>,
    alpha_layout: PlaneLayout,
) -> bool {
    forall|row: int, col: int|
        0 <= row < rgba_layout.height && 0 <= col < rgba_layout.width ==> byte_at(
            rgba,
            rgba_layout,
            row,
            4 * col + 3,
        ) == alpha_byte_of(#[trigger] logical_sample(alpha, alpha_layout, row, col))
}

/// Whether a destination holds the colours of
/// `pixart_icgc_r_type_with_alpha_to_rgba` for sources adapted on `y_path`,
/// `u_path`, `v_path` and `a_path`: apart from the alpha bytes of its pixels
/// it is what the selected kernel leaves in the destination when it is
/// handed the sources' views.
pub open spec fn icgc_r_type_with_alpha_converted(
    y: Seq<u8>,
    y_stride: u32,
    y_path: PlanePath,
    u: Seq<u8>,
    u_stride: u32,
    u_path: PlanePath,
    v: Seq<u8>,
    v_stride: u32,
    v_path: PlanePath,
    a: Seq<u8>,
    a_stride: u32,
    a_path: PlanePath,
    before: Seq<u8>,
    after: Seq<u8>,
    rgba_stride: u32,
    width: u32,
    height: u32,
    range: YuvRange,
    ro_type: AvifYCgCoRType,
    yuv_type: YuvType,
) -> bool {
    let luma = wide_layout(y_stride, width, height, 1);
    let cb = wide_chroma_layout(u_stride, width, height, yuv_type);
    let cr = wide_chroma_layout(v_stride, width, height, yuv_type);
    let alpha = wide_layout(a_stride, width, height, 1);
    match icgc_r_type_with_alpha_to_rgba_pixels(
        icgc_r_type_with_alpha_to_rgba_kernel_of(ro_type, yuv_type),
        source_view(y, luma, y_path),
        view_stride_of(luma, y_path),
        source_view(u, cb, u_path),
        view_stride_of(cb, u_path),
        source_view(v, cr, v_path),
        view_stride_of(cr, v_path),
        source_view(a, alpha, a_path),
        view_stride_of(alpha, a_path),
        width as int,
        height as int,
        before,
        rgba_stride as int,
        range,
    ) {
        Some(pixels) => colour_kept(pixels, after, narrow_layout(rgba_stride, width, height, 4)),
        None => true,
    }
}

/// Converts a planar image of reversible YCgCo samples, 10 bits wide, with
/// an alpha plane into interleaved 8-bit RGBA. After the kernel has
/// converted, the alpha byte of every pixel is set from the alpha plane: a
/// quarter of the sample, rounded, capped at 255.
///
/// Every pair of subsampling and variant runs the kernel of that pair. Mind
/// the pair of 4:2:2 and `Re`: it runs the 4:2:2 kernel of `Re`, and not the
/// 4:2:0 kernel, which would read every other row of chroma.
pub fn pixart_icgc_r_type_with_alpha_to_rgba(
    y_plane: &[u8],
    y_stride: u32,
    u_plane: &[u8],
    u_stride: u32,
    v_plane: &[u8],
    v_stride: u32,
    a_plane: &[u8],
    a_stride: u32,
    rgba: &mut [u8],
    rgba_stride: u32,
    width: u32,
    height: u32,
    range: YuvRange,
    ro_type: AvifYCgCoRType,
    yuv_type: YuvType,
) -> (outcome: Result<(), PixartError>)
    ensures
        converts_narrow(
            outcome,
            or_else(
                or_else(
                    icgc_alpha_planes_fault(
                        y_plane@.len() as int,
                        y_stride,
                        u_plane@.len() as int,
                        u_stride,
                        v_plane@.len() as int,
                        v_stride,
                        a_plane@.len() as int,
                        a_stride,
                        width,
                        height,
                        yuv_type,
                    ),
                    narrow_layout(rgba_stride, width, height, 4).fault(old(rgba)@.len() as int),
                ),
                or_else(
                    planar_sample_fault(
                        y_plane@,
                        y_stride,
                        u_plane@,
                        u_stride,
                        v_plane@,
                        v_stride,
                        width,
                        height,
                        yuv_type,
                        1024,
                    ),
                    sample_fault(a_plane@, wide_layout(a_stride, width, height, 1), 1024),
                ),
            ),
            old(rgba)@,
            final(rgba)@,
        ),
        outcome is Ok ==> alpha_delivered(
            final(rgba)@,
            narrow_layout(rgba_stride, width, height, 4),
            a_plane@,
            wide_layout(a_stride, width, height, 1),
        ),
        outcome is Ok ==> exists|
            y_path: PlanePath,
            u_path: PlanePath,
            v_path: PlanePath,
            a_path: PlanePath,
        |
            #[trigger] icgc_r_type_with_alpha_converted(
                y_plane@,
                y_stride,
                y_path,
                u_plane@,
                u_stride,
                u_path,
                v_plane@,
                v_stride,
                v_path,
                a_plane@,
                a_stride,
                a_path,
                old(rgba)@,
                final(rgba)@,
                rgba_stride,
                width,
                height,
                range,
                ro_type,
                yuv_type,
            ),
{
    check_image(width, height)?;
    let planes = read_planar(
        y_plane,
        y_stride,
        u_plane,
        u_stride,
        v_plane,
        v_stride,
        width,
        height,
        yuv_type,
    )?;
    let alpha = read_luma(a_plane, a_stride, width, height)?;
    let target = PlaneLayout::narrow(rgba_stride, width, height, 4);
    check_narrow_plane(rgba.len(), &target)?;
    let planes = keep_planar_within(
        planes,
        y_plane,
        y_stride,
        u_plane,
        u_stride,
        v_plane,
        v_stride,
        width,
        height,
        yuv_type,
        1024,
    )?;
    let alpha = keep_within(alpha, a_plane, &PlaneLayout::wide(a_stride, width, height, 1), 1024)?;
    let image = planes.image_with_alpha(&alpha, width, height);
    let verdict = match icgc_r_type_with_alpha_to_rgba_kernel(ro_type, yuv_type) {
        Icgc10AlphaKernel::IcgcRoAlpha010ToRgba => icgc_ro_alpha010_to_rgba(
            &image,
            rgba,
            rgba_stride,
            range,
        ),
        Icgc10AlphaKernel::IcgcReAlpha010ToRgba => icgc_re_alpha010_to_rgba(
            &image,
            rgba,
            rgba_stride,
            range,
        ),
        Icgc10AlphaKernel::IcgcRoAlpha210ToRgba => icgc_ro_alpha210_to_rgba(
            &image,
            rgba,
            rgba_stride,
            range,
        ),
        Icgc10AlphaKernel::IcgcReAlpha210ToRgba => icgc_re_alpha210_to_rgba(
            &image,
            rgba,
            rgba_stride,
            range,
        ),
        Icgc10AlphaKernel::IcgcRoAlpha410ToRgba => icgc_ro_alpha410_to_rgba(
            &image,
            rgba,
            rgba_stride,
            range,
        ),
        Icgc10AlphaKernel::IcgcReAlpha410ToRgba => icgc_re_alpha410_to_rgba(
            &image,
            rgba,
            rgba_stride,
            range,
        ),
    };
    settle_direct(verdict)?;
    overlay_alpha(rgba, &target, alpha.view.as_slice(), alpha.stride);
    proof {
        let source = wide_layout(a_stride, width, height, 1);
        assert forall|row: int, col: int|
            0 <= row < target.height && 0 <= col < target.width implies byte_at(
            rgba@,
            target,
            row,
            4 * col + 3,
        ) == alpha_byte_of(#[trigger] logical_sample(a_plane@, source, row, col)) by {
            assert(view_sample(alpha.view.samples(), alpha.stride as int, row, col)
                == logical_sample(a_plane@, source, row, col));
        }
        assert(icgc_r_type_with_alpha_converted(
            y_plane@,
            y_stride,
            planes.luma.view.path_of(),
            u_plane@,
            u_stride,
            planes.cb.view.path_of(),
            v_plane@,
            v_stride,
            planes.cr.view.path_of(),
            a_plane@,
            a_stride,
            alpha.view.path_of(),
            old(rgba)@,
            rgba@,
            rgba_stride,
            width,
            height,
            range,
            ro_type,
            yuv_type,
        ));
    }
    Ok(())
}

} // verus!
