//! Conversions to half-float pixels.
//!
//! The half-float kernels themselves are run by the caller of this module:
//! here stand the decisions around them. Which kernel is to run, which
//! arguments are refused before any is, and, for the one colour model that
//! has no half-float kernel, the integer pixels from which the half floats
//! are made.
use crate::adapter::blank_plane;
use crate::checks::{
    check_depth, check_image, depth_fault, empty_fault, or_else, read_plane, wide_chroma_layout,
    wide_layout,
};
use crate::dispatch::{
    ycgco_to_packed_rgba16_kernel, ycgco_to_packed_rgba16_kernel_of,
    ycgco_to_packed_rgba16_pixels, YcgcoRgbaKernel,
};
use crate::error::{PixartError, PlanePath};
use crate::image::{packed_ready, samples_below, Planar};
use crate::kernels::wide::{
    icgc010_to_rgba10, icgc012_to_rgba12, icgc210_to_rgba10, icgc212_to_rgba12,
    icgc410_to_rgba10, icgc412_to_rgba12,
};
use crate::layout::PlaneLayout;
use crate::modes::{combination_exists, YuvMatrix, YuvRange, YuvType};
use crate::pixels::view_clamped;
use crate::planes::{
    depth_limit, depth_limit_of, keep_planar_within, planar_fault, planar_sample_fault,
    read_planar, AdaptedPlanar, AdaptedPlane,
};
use vstd::prelude::*;

verus! {

/// How half-float RGBA is produced from a planar image of 16-bit samples.
#[derive(Copy, Clone, Debug, PartialEq, Eq, Structural)]
pub enum HalfFloatRoute {
    /// The half-float kernel of the identity matrix, for the given bit depth.
    Identity(u32),
    /// The half-float kernel of a matrix given by coefficients, for the given
    /// subsampling and bit depth.
    Standard(YuvType, u32),
    /// YCgCo has no half-float kernel: integer RGBA of the given depth is
    /// produced first, by the kernel for the given subsampling, and the
    /// half floats are made from it.
    ViaInteger(YuvType, u32),
}

/// The route for a choice of matrix, subsampling and bit depth.
pub open spec fn half_float_route_of(
    bit_depth: u32,
    yuv_matrix: YuvMatrix,
    yuv_type: YuvType,
) -> HalfFloatRoute {
    match yuv_matrix {
        YuvMatrix::Identity => HalfFloatRoute::Identity(bit_depth),
        YuvMatrix::YCgCo => HalfFloatRoute::ViaInteger(yuv_type, bit_depth),
        _ => HalfFloatRoute::Standard(yuv_type, bit_depth),
    }
}

/// The fault for which no route exists: an unsupported bit depth.
pub open spec fn half_float_route_fault(
    bit_depth: u32,
    yuv_matrix: YuvMatrix,
    yuv_type: YuvType,
) -> Option<PixartError> {
    depth_fault(bit_depth as int)
}

/// Chooses the route to half-float RGBA for a matrix, a subsampling and a bit
/// depth, or reports why there is none. The identity matrix exists for 4:4:4
/// only.
pub fn half_float_route(bit_depth: u32, yuv_matrix: YuvMatrix, yuv_type: YuvType) -> (route: Result<
    HalfFloatRoute,
    PixartError,
>)
    requires
        combination_exists(yuv_matrix, yuv_type),
    ensures
        route == match half_float_route_fault(bit_depth, yuv_matrix, yuv_type) {
            Some(fault) => Err::<HalfFloatRoute, PixartError>(fault),
            None => Ok::<HalfFloatRoute, PixartError>(
                half_float_route_of(bit_depth, yuv_matrix, yuv_type),
            ),
        },
{
    check_depth(bit_depth)?;
    match yuv_matrix {
        YuvMatrix::Identity => Ok(HalfFloatRoute::Identity(bit_depth)),
        YuvMatrix::YCgCo => Ok(HalfFloatRoute::ViaInteger(yuv_type, bit_depth)),
        _ => Ok(HalfFloatRoute::Standard(yuv_type, bit_depth)),
    }
}

/// The fault for which a conversion of a planar image to half-float RGBA
/// refuses its arguments, if any: an empty image, then an unsupported bit
/// depth, then the first plane, in the order luma, chroma U, chroma V,
/// destination, whose stride cannot hold a row or whose region is not its
/// stride times its height.
pub open spec fn yuv16_to_rgba_f16_fault(
    y_len: int,
    y_stride: u32,
    u_len: int,
    u_stride: u32,
    v_len: int,
    v_stride: u32,
    rgba_len: int,
    rgba_stride: u32,
    bit_depth: u32,
    width: u32,
    height: u32,
    yuv_matrix: YuvMatrix,
    yuv_type: YuvType,
) -> Option<PixartError> {
    or_else(
        empty_fault(width as int, height as int),
        or_else(
            half_float_route_fault(bit_depth, yuv_matrix, yuv_type),
            or_else(
                planar_fault(
                    y_len,
                    y_stride,
                    u_len,
                    u_stride,
                    v_len,
                    v_stride,
                    width,
                    height,
                    yuv_type,
                ),
                wide_layout(rgba_stride, width, height, 4).fault(rgba_len),
            ),
        ),
    )
}

/// What is settled before a half-float kernel runs on a planar image: the
/// sources, each adapted for reading, the route, and the layout of the
/// destination, whose region has passed its check.
pub struct HalfFloatPlan<'a> {
    pub planes: AdaptedPlanar<'a>,
    pub route: HalfFloatRoute,
    pub target: PlaneLayout,
}

/// Checks the arguments of a conversion of a planar image of 10-bit or
/// 12-bit samples to half-float RGBA, adapts the sources, holds them to their
/// bit depth, and chooses the route. Nothing is written: the destination is
/// given by its length only.
pub fn plan_yuv16_to_rgba_f16<'a>(
    y_plane: &'a [u8],
    y_stride: u32,
    u_plane: &'a [u8],
    u_stride: u32,
    v_plane: &'a [u8],
    v_stride: u32,
    rgba_len: usize,
    rgba_stride: u32,
    bit_depth: u32,
    width: u32,
    height: u32,
    yuv_matrix: YuvMatrix,
    yuv_type: YuvType,
) -> (plan: Result<HalfFloatPlan<'a>, PixartError>)
    requires
        combination_exists(yuv_matrix, yuv_type),
    ensures
        match or_else(
            yuv16_to_rgba_f16_fault(
                y_plane@.len() as int,
                y_stride,
                u_plane@.len() as int,
                u_stride,
                v_plane@.len() as int,
                v_stride,
                rgba_len as int,
                rgba_stride,
                bit_depth,
                width,
                height,
                yuv_matrix,
                yuv_type,
            ),
            planar_sample_fault(
                y_plane@,
                y_stride,
                u_plane@,
                u_stride,
                v_plane@,
                v_stride,
                width,
                height,
                yuv_type,
                depth_limit_of(bit_depth),
            ),
        ) {
            Some(fault) => plan matches Err(reason) && reason == fault,
            None => plan matches Ok(settled) && {
                &&& settled.route == half_float_route_of(bit_depth, yuv_matrix, yuv_type)
                &&& settled.target == wide_layout(rgba_stride, width, height, 4)
                &&& settled.target.admits(rgba_len as int)
                &&& settled.planes.ready(width, height, yuv_type)
                &&& samples_below(settled.planes.luma.view.samples(), depth_limit_of(bit_depth))
                &&& samples_below(settled.planes.cb.view.samples(), depth_limit_of(bit_depth))
                &&& samples_below(settled.planes.cr.view.samples(), depth_limit_of(bit_depth))
                &&& settled.planes.luma.shows(y_plane@, wide_layout(y_stride, width, height, 1))
                &&& settled.planes.cb.shows(
                    u_plane@,
                    wide_chroma_layout(u_stride, width, height, yuv_type),
                )
                &&& settled.planes.cr.shows(
                    v_plane@,
                    wide_chroma_layout(v_stride, width, height, yuv_type),
                )
            },
        },
{
    check_image(width, height)?;
    let route = half_float_route(bit_depth, yuv_matrix, yuv_type)?;
    let planes = read_planar(
        y_plane,
        y_stride,
        u_plane,
        u_stride,
        v_plane,
        v_stride,
        width,
        height,
        yuv_type,
    )?;
    let target = PlaneLayout::wide(rgba_stride, width, height, 4);
    target.check(rgba_len)?;
    let planes = keep_planar_within(
        planes,
        y_plane,
        y_stride,
        u_plane,
        u_stride,
        v_plane,
        v_stride,
        width,
        height,
        yuv_type,
        depth_limit(bit_depth),
    )?;
    Ok(HalfFloatPlan { planes, route, target })
}

/// The fault for which a conversion of interleaved 16-bit pixels to half
/// floats refuses its arguments, if any: an empty image, then the source,
/// then the destination, each of `channels` samples per pixel.
pub open spec fn rgb16_to_f16_fault(
    source_len: int,
    source_stride: u32,
    target_len: int,
    target_stride: u32,
    channels: usize,
    width: u32,
    height: u32,
) -> Option<PixartError> {
    or_else(
        empty_fault(width as int, height as int),
        or_else(
            wide_layout(source_stride, width, height, channels).fault(source_len),
            wide_layout(target_stride, width, height, channels).fault(target_len),
        ),
    )
}

/// Checks the arguments of a conversion of interleaved 16-bit pixels of
/// `channels` samples to half floats, and adapts the source. The result is
/// the adapted source and the layout of the destination, whose region has
/// passed its check. Nothing is written: the destination is given by its
/// length only.
pub fn plan_rgb16_to_f16<'a>(
    source: &'a [u8],
    source_stride: u32,
    target_len: usize,
    target_stride: u32,
    channels: usize,
    width: u32,
    height: u32,
) -> (plan: Result<(AdaptedPlane<'a>, PlaneLayout), PixartError>)
    ensures
        match rgb16_to_f16_fault(
            source@.len() as int,
            source_stride,
            target_len as int,
            target_stride,
            channels,
            width,
            height,
        ) {
            Some(fault) => plan matches Err(reason) && reason == fault,
            None => plan matches Ok((adapted, target)) && {
                &&& target == wide_layout(target_stride, width, height, channels)
                &&& target.admits(target_len as int)
                &&& adapted.shows(source@, wide_layout(source_stride, width, height, channels))
                &&& packed_ready(
                    adapted.view.samples().len() as int,
                    adapted.stride as int,
                    width as int,
                    height as int,
                    channels as int,
                )
            },
        },
{
    check_image(width, height)?;
    let layout = PlaneLayout::wide(source_stride, width, height, channels);
    let (view, stride) = read_plane(source, &layout)?;
    let target = PlaneLayout::wide(target_stride, width, height, channels);
    target.check(target_len)?;
    Ok((AdaptedPlane { view, stride }, target))
}

/// Runs the YCgCo kernel for `yuv_type` and `bit_depth` into a tightly packed
/// buffer of integer RGBA, four samples per pixel, from which half floats
/// are then made. The buffer is what the selected kernel leaves in a blank
/// one, and each of its samples fits the depth. A bit depth of 10 selects the 10-bit kernel, any other the
/// 12-bit kernel. The samples have to fit that depth, a row of the buffer has
/// to fit the kernel's stride, and the buffer has to be no longer than a
/// slice can be.
pub fn ycgco_to_packed_rgba16(
    image: &Planar<u16>,
    bit_depth: u32,
    range: YuvRange,
    yuv_type: YuvType,
) -> (pixels: Result<Vec<u16>, PixartError>)
    requires
        image.ready(yuv_type),
        image.below(depth_limit_of(bit_depth)),
        image.width * 4 <= u32::MAX,
        image.width * 4 * image.height <= isize::MAX,
    ensures
        pixels matches Ok(packed) && {
            &&& packed@.len() == image.width * 4 * image.height
            &&& Some(packed@) == ycgco_to_packed_rgba16_pixels(
                ycgco_to_packed_rgba16_kernel_of(bit_depth, yuv_type),
                image.y_plane@,
                image.y_stride as int,
                image.u_plane@,
                image.u_stride as int,
                image.v_plane@,
                image.v_stride as int,
                image.width as int,
                image.height as int,
                Seq::new((image.width * 4 * image.height) as nat, |k: int| 0u16),
                image.width * 4,
                range,
            )
            &&& view_clamped(
                packed@,
                image.width * 4,
                4,
                image.width as int,
                image.height as int,
                depth_limit_of(bit_depth),
            )
        },
{
    let shape = PlaneLayout::wide(0, image.width, image.height, 4);
    let mut packed = blank_plane(&shape);
    let stride: u32 = image.width * 4;
    let view = packed.as_mut_slice();
    proof {
        assert(view@ =~= Seq::new((image.width * 4 * image.height) as nat, |k: int| 0u16));
    }
    let verdict = match ycgco_to_packed_rgba16_kernel(bit_depth, yuv_type) {
        YcgcoRgbaKernel::Icgc010ToRgba10 => icgc010_to_rgba10(image, view, stride, range),
        YcgcoRgbaKernel::Icgc012ToRgba12 => icgc012_to_rgba12(image, view, stride, range),
        YcgcoRgbaKernel::Icgc210ToRgba10 => icgc210_to_rgba10(image, view, stride, range),
        YcgcoRgbaKernel::Icgc212ToRgba12 => icgc212_to_rgba12(image, view, stride, range),
        YcgcoRgbaKernel::Icgc410ToRgba10 => icgc410_to_rgba10(image, view, stride, range),
        YcgcoRgbaKernel::Icgc412ToRgba12 => icgc412_to_rgba12(image, view, stride, range),
    };
    match verdict {
        Ok(()) => Ok(packed),
        Err(_) => Err(PixartError::KernelRejected(PlanePath::Slow)),
    }
}

} // verus!
