//! From interleaved 8-bit RGBA pixels to planar images.
use crate::adapter::{
    adapt_write, lemma_packed_fits, lemma_view_rows_fit, target_view, view_stride,
    view_stride_of,
};
use crate::checks::{
    check_image, check_narrow_plane, converts_narrow, delivers, empty_fault, narrow_layout,
    or_else, wide_chroma_layout, wide_layout,
};
use crate::content::padding_kept;
use crate::destination::{settle_direct, staging_for};
use crate::dispatch::{
    rgba8_to_icgco_r10_kernel, rgba8_to_icgco_r10_kernel_of, rgba8_to_icgco_r10_planes,
    rgba8_to_yuv8_kernel, rgba8_to_yuv8_kernel_of,
    rgba8_to_yuv8_planes, Rgba8IcgcKernel, Rgba8Kernel,
};
use crate::error::{PixartError, PlanePath};
use crate::image::colours_split;
use crate::kernels::encode::{
    rgba_to_gbr, rgba_to_icgc_re010, rgba_to_icgc_re210, rgba_to_icgc_re410, rgba_to_icgc_ro010,
    rgba_to_icgc_ro210, rgba_to_icgc_ro410, rgba_to_ycgco420, rgba_to_ycgco422,
    rgba_to_ycgco444, rgba_to_yuv400, rgba_to_yuv420, rgba_to_yuv422, rgba_to_yuv444,
};
use crate::kernels::selectors::balanced_mode;
use crate::layout::PlaneLayout;
use crate::modes::{
    chroma_height, chroma_width, combination_exists, has_coefficients, standard_coefficients,
    AvifYCgCoRType, YuvMatrix, YuvRange, YuvType,
};
use crate::pixels::lemma_view_padding_is_region_padding;
use crate::planes::planar_fault;
use crate::publisher::publish;
use crate::yuv_to_rgb::planar8_fault;
use vstd::prelude::*;

verus! {

/// The fault for which `pixart_rgba8_to_yuv8` refuses its arguments, if any:
/// an empty image, then the first plane, in the order luma, chroma U, chroma
/// V, source, whose stride cannot hold a row or whose region is not its
/// stride times its height.
pub open spec fn rgba8_to_yuv8_fault(
    y_len: int,
    y_stride: u32,
    u_len: int,
    u_stride: u32,
    v_len: int,
    v_stride: u32,
    rgba_len: int,
    rgba_stride: u32,
    width: u32,
    height: u32,
    yuv_matrix: YuvMatrix,
    yuv_type: YuvType,
) -> Option<PixartError> {
    or_else(
        empty_fault(width as int, height as int),
        or_else(
                planar8_fault(
                    y_len,
                    y_stride,
                    u_len,
                    u_stride,
                    v_len,
                    v_stride,
                    width,
                    height,
                    yuv_type,
                ),
                narrow_layout(rgba_stride, width, height, 4).fault(rgba_len),
            ),
    )
}

/// Converts interleaved 8-bit RGBA into a planar image of 8-bit samples.
/// Planes of one-byte samples need no adaptation: the kernel works on the
/// caller's regions themselves. Where the arguments are refused, no plane is
/// written. For the identity matrix and for YCgCo the planes are what the
/// selected kernel leaves in them, and for the identity matrix at full range
/// they are the pixels' colours themselves; for a matrix given by
/// coefficients, whose kernels choose their arithmetic by the processor, the
/// samples are not stated.
pub fn pixart_rgba8_to_yuv8(
    y_plane: &mut [u8],
    y_stride: u32,
    u_plane: &mut [u8],
    u_stride: u32,
    v_plane: &mut [u8],
    v_stride: u32,
    rgba: &[u8],
    rgba_stride: u32,
    width: u32,
    height: u32,
    range: YuvRange,
    yuv_matrix: YuvMatrix,
    yuv_type: YuvType,
) -> (outcome: Result<(), PixartError>)
    requires
        combination_exists(yuv_matrix, yuv_type),
    ensures
        final(y_plane)@.len() == old(y_plane)@.len(),
        final(u_plane)@.len() == old(u_plane)@.len(),
        final(v_plane)@.len() == old(v_plane)@.len(),
        match rgba8_to_yuv8_fault(
            old(y_plane)@.len() as int,
            y_stride,
            old(u_plane)@.len() as int,
            u_stride,
            old(v_plane)@.len() as int,
            v_stride,
            rgba@.len() as int,
            rgba_stride,
            width,
            height,
            yuv_matrix,
            yuv_type,
        ) {
            Some(reason) => {
                &&& outcome == Err::<(), PixartError>(reason)
                &&& final(y_plane)@ == old(y_plane)@
                &&& final(u_plane)@ == old(u_plane)@
                &&& final(v_plane)@ == old(v_plane)@
            },
            None => outcome is Ok,
        },
        outcome is Ok ==> match rgba8_to_yuv8_planes(
            rgba8_to_yuv8_kernel_of(yuv_matrix, yuv_type),
            rgba@,
            rgba_stride as int,
            width as int,
            height as int,
            old(y_plane)@,
            y_stride as int,
            old(u_plane)@,
            u_stride as int,
            old(v_plane)@,
            v_stride as int,
            range,
        ) {
            Some(planes) => (final(y_plane)@, final(u_plane)@, final(v_plane)@) == planes,
            None => true,
        },
        outcome is Ok && yuv_matrix == YuvMatrix::Identity && range == YuvRange::Pc
            ==> colours_split(
            rgba@,
            rgba_stride as int,
            width as int,
            height as int,
            final(y_plane)@,
            y_stride as int,
            final(u_plane)@,
            u_stride as int,
            final(v_plane)@,
            v_stride as int,
        ),
{
    check_image(width, height)?;
    let chroma_w = chroma_width(width, yuv_type);
    let chroma_h = chroma_height(height, yuv_type);
    check_narrow_plane(y_plane.len(), &PlaneLayout::narrow(y_stride, width, height, 1))?;
    check_narrow_plane(u_plane.len(), &PlaneLayout::narrow(u_stride, chroma_w, chroma_h, 1))?;
    check_narrow_plane(v_plane.len(), &PlaneLayout::narrow(v_stride, chroma_w, chroma_h, 1))?;
    check_narrow_plane(rgba.len(), &PlaneLayout::narrow(rgba_stride, width, height, 4))?;
    let verdict = match rgba8_to_yuv8_kernel(yuv_matrix, yuv_type) {
        Rgba8Kernel::RgbaToYuv420 => rgba_to_yuv420(
            y_plane,
            y_stride,
            u_plane,
            u_stride,
            v_plane,
            v_stride,
            width,
            height,
            rgba,
            rgba_stride,
            range,
            standard_coefficients(yuv_matrix),
            balanced_mode(),
        ),
        Rgba8Kernel::RgbaToYuv422 => rgba_to_yuv422(
            y_plane,
            y_stride,
            u_plane,
            u_stride,
            v_plane,
            v_stride,
            width,
            height,
            rgba,
            rgba_stride,
            range,
            standard_coefficients(yuv_matrix),
            balanced_mode(),
        ),
        Rgba8Kernel::RgbaToYuv444 => rgba_to_yuv444(
            y_plane,
            y_stride,
            u_plane,
            u_stride,
            v_plane,
            v_stride,
            width,
            height,
            rgba,
            rgba_stride,
            range,
            standard_coefficients(yuv_matrix),
            balanced_mode(),
        ),
        Rgba8Kernel::RgbaToGbr => rgba_to_gbr(
            y_plane,
            y_stride,
            u_plane,
            u_stride,
            v_plane,
            v_stride,
            width,
            height,
            rgba,
            rgba_stride,
            range,
        ),
        Rgba8Kernel::RgbaToYcgco420 => rgba_to_ycgco420(
            y_plane,
            y_stride,
            u_plane,
            u_stride,
            v_plane,
            v_stride,
            width,
            height,
            rgba,
            rgba_stride,
            range,
        ),
        Rgba8Kernel::RgbaToYcgco422 => rgba_to_ycgco422(
            y_plane,
            y_stride,
            u_plane,
            u_stride,
            v_plane,
            v_stride,
            width,
            height,
            rgba,
            rgba_stride,
            range,
        ),
        Rgba8Kernel::RgbaToYcgco444 => rgba_to_ycgco444(
            y_plane,
            y_stride,
            u_plane,
            u_stride,
            v_plane,
            v_stride,
            width,
            height,
            rgba,
            rgba_stride,
            range,
        ),
    };
    settle_direct(verdict)
}

/// The fault for which `pixart_rgba8_to_y08` refuses its arguments, if any:
/// an empty image, then the luma plane, then the source.
pub open spec fn rgba8_to_y08_fault(
    y_len: int,
    y_stride: u32,
    rgba_len: int,
    rgba_stride: u32,
    width: u32,
    height: u32,
    yuv_matrix: YuvMatrix,
) -> Option<PixartError> {
    or_else(
        empty_fault(width as int, height as int),
        or_else(
                narrow_layout(y_stride, width, height, 1).fault(y_len),
                narrow_layout(rgba_stride, width, height, 4).fault(rgba_len),
            ),
    )
}

/// Converts interleaved 8-bit RGBA into a luma plane of 8-bit samples.
/// Stride padding of the plane is left as it was. The kernel chooses its
/// arithmetic by the processor, and the samples are not stated.
pub fn pixart_rgba8_to_y08(
    y_plane: &mut [u8],
    y_stride: u32,
    rgba: &[u8],
    rgba_stride: u32,
    width: u32,
    height: u32,
    range: YuvRange,
    yuv_matrix: YuvMatrix,
) -> (outcome: Result<(), PixartError>)
    requires
        has_coefficients(yuv_matrix),
    ensures
        converts_narrow(
            outcome,
            rgba8_to_y08_fault(
                old(y_plane)@.len() as int,
                y_stride,
                rgba@.len() as int,
                rgba_stride,
                width,
                height,
                yuv_matrix,
            ),
            old(y_plane)@,
            final(y_plane)@,
        ),
        outcome is Ok ==> padding_kept(
            old(y_plane)@,
            final(y_plane)@,
            narrow_layout(y_stride, width, height, 1),
        ),
{
    check_image(width, height)?;
    let matrix = standard_coefficients(yuv_matrix);
    check_narrow_plane(y_plane.len(), &PlaneLayout::narrow(y_stride, width, height, 1))?;
    check_narrow_plane(rgba.len(), &PlaneLayout::narrow(rgba_stride, width, height, 4))?;
    let verdict = rgba_to_yuv400(
        y_plane,
        y_stride,
        width,
        height,
        rgba,
        rgba_stride,
        range,
        matrix,
    );
    settle_direct(verdict)
}

/// The paths that the three planes of a planar destination took.
#[derive(Copy, Clone, Debug, PartialEq, Eq, Structural)]
pub struct PlanePaths {
    pub y: PlanePath,
    pub u: PlanePath,
    pub v: PlanePath,
}

/// The fault for which `pixart_rgba8_to_icgco_r10` refuses its arguments, if
/// any: an empty image, then the first plane, in the order luma, chroma U,
/// chroma V, source, whose stride cannot hold a row or whose region is not
/// its stride times its height.
pub open spec fn rgba8_to_icgco_r10_fault(
    y_len: int,
    y_stride: u32,
    u_len: int,
    u_stride: u32,
    v_len: int,
    v_stride: u32,
    rgba_len: int,
    rgba_stride: u32,
    width: u32,
    height: u32,
    yuv_type: YuvType,
) -> Option<PixartError> {
    or_else(
        empty_fault(width as int, height as int),
        or_else(
            planar_fault(
                y_len,
                y_stride,
                u_len,
                u_stride,
                v_len,
                v_stride,
                width,
                height,
                yuv_type,
            ),
            narrow_layout(rgba_stride, width, height, 4).fault(rgba_len),
        ),
    )
}

/// What `pixart_rgba8_to_icgco_r10` owes its caller of one destination
/// plane, once the arguments have passed: a plane with an odd stride takes
/// the slow path, and a plane on the slow path keeps its stride padding.
pub open spec fn plane_settled(
    path: PlanePath,
    before: Seq<u8>,
    after: Seq<u8>,
    layout: PlaneLayout,
) -> bool {
    &&& layout.byte_stride % 2 != 0 ==> path == PlanePath::Slow
    &&& path == PlanePath::Slow ==> padding_kept(before, after, layout)
}

/// Whether the three planes hold the samples of `pixart_rgba8_to_icgco_r10`
/// for destinations adapted on `paths`: what the selected kernel leaves in
/// the planes' views when it is handed the pixels, each view delivered to its
/// plane on the plane's own path.
pub open spec fn icgco_r10_encoded(
    rgba: Seq<u8>,
    rgba_stride: u32,
    width: u32,
    height: u32,
    y_before: Seq<u8>,
    y_after: Seq<u8>,
    y_stride: u32,
    u_before: Seq<u8>,
    u_after: Seq<u8>,
    u_stride: u32,
    v_before: Seq<u8>,
    v_after: Seq<u8>,
    v_stride: u32,
    paths: PlanePaths,
    range: YuvRange,
    r_type: AvifYCgCoRType,
    yuv_type: YuvType,
) -> bool {
    let luma = wide_layout(y_stride, width, height, 1);
    let cb = wide_chroma_layout(u_stride, width, height, yuv_type);
    let cr = wide_chroma_layout(v_stride, width, height, yuv_type);
    match rgba8_to_icgco_r10_planes(
        rgba8_to_icgco_r10_kernel_of(r_type, yuv_type),
        rgba,
        rgba_stride as int,
        width as int,
        height as int,
        target_view(y_before, luma, paths.y),
        view_stride_of(luma, paths.y),
        target_view(u_before, cb, paths.u),
        view_stride_of(cb, paths.u),
        target_view(v_before, cr, paths.v),
        view_stride_of(cr, paths.v),
        range,
    ) {
        Some(planes) => {
            &&& delivers(y_before, y_after, luma, paths.y, planes.0)
            &&& delivers(u_before, u_after, cb, paths.u, planes.1)
            &&& delivers(v_before, v_after, cr, paths.v, planes.2)
        },
        None => true,
    }
}

/// Converts interleaved 8-bit RGBA into a planar image of reversible YCgCo
/// samples, 10 bits wide. Each of the three planes is adapted on its own:
/// one may be written in place while another goes through a packed buffer.
/// Every plane that took the slow path is flushed after the kernel has
/// converted; the planes are independent, and the order is of no account.
/// Each plane is what the selected kernel leaves in its view, and keeps its
/// stride padding on either path.
pub fn pixart_rgba8_to_icgco_r10(
    y_plane: &mut [u8],
    y_stride: u32,
    u_plane: &mut [u8],
    u_stride: u32,
    v_plane: &mut [u8],
    v_stride: u32,
    rgba: &[u8],
    rgba_stride: u32,
    width: u32,
    height: u32,
    range: YuvRange,
    r_type: AvifYCgCoRType,
    yuv_type: YuvType,
) -> (outcome: Result<PlanePaths, PixartError>)
    ensures
        final(y_plane)@.len() == old(y_plane)@.len(),
        final(u_plane)@.len() == old(u_plane)@.len(),
        final(v_plane)@.len() == old(v_plane)@.len(),
        match rgba8_to_icgco_r10_fault(
            old(y_plane)@.len() as int,
            y_stride,
            old(u_plane)@.len() as int,
            u_stride,
            old(v_plane)@.len() as int,
            v_stride,
            rgba@.len() as int,
            rgba_stride,
            width,
            height,
            yuv_type,
        ) {
            Some(reason) => {
                &&& outcome == Err::<PlanePaths, PixartError>(reason)
                &&& final(y_plane)@ == old(y_plane)@
                &&& final(u_plane)@ == old(u_plane)@
                &&& final(v_plane)@ == old(v_plane)@
            },
            None => outcome matches Ok(paths) && {
                &&& plane_settled(
                    paths.y,
                    old(y_plane)@,
                    final(y_plane)@,
                    wide_layout(y_stride, width, height, 1),
                )
                &&& plane_settled(
                    paths.u,
                    old(u_plane)@,
                    final(u_plane)@,
                    wide_chroma_layout(u_stride, width, height, yuv_type),
                )
                &&& plane_settled(
                    paths.v,
                    old(v_plane)@,
                    final(v_plane)@,
                    wide_chroma_layout(v_stride, width, height, yuv_type),
                )
                &&& padding_kept(
                    old(y_plane)@,
                    final(y_plane)@,
                    wide_layout(y_stride, width, height, 1),
                )
                &&& padding_kept(
                    old(u_plane)@,
                    final(u_plane)@,
                    wide_chroma_layout(u_stride, width, height, yuv_type),
                )
                &&& padding_kept(
                    old(v_plane)@,
                    final(v_plane)@,
                    wide_chroma_layout(v_stride, width, height, yuv_type),
                )
                &&& icgco_r10_encoded(
                    rgba@,
                    rgba_stride,
                    width,
                    height,
                    old(y_plane)@,
                    final(y_plane)@,
                    y_stride,
                    old(u_plane)@,
                    final(u_plane)@,
                    u_stride,
                    old(v_plane)@,
                    final(v_plane)@,
                    v_stride,
                    paths,
                    range,
                    r_type,
                    yuv_type,
                )
            },
        },
{
    match check_image(width, height) {
        Err(fault) => {
            return Err(fault);
        },
        Ok(()) => {},
    }
    let luma_layout = PlaneLayout::wide(y_stride, width, height, 1);
    let chroma_w = chroma_width(width, yuv_type);
    let chroma_h = chroma_height(height, yuv_type);
    let cb_layout = PlaneLayout::wide(u_stride, chroma_w, chroma_h, 1);
    let cr_layout = PlaneLayout::wide(v_stride, chroma_w, chroma_h, 1);
    match luma_layout.check(y_plane.len()) {
        Err(fault) => {
            return Err(fault);
        },
        Ok(()) => {},
    }
    match cb_layout.check(u_plane.len()) {
        Err(fault) => {
            return Err(fault);
        },
        Ok(()) => {},
    }
    match cr_layout.check(v_plane.len()) {
        Err(fault) => {
            return Err(fault);
        },
        Ok(()) => {},
    }
    match check_narrow_plane(rgba.len(), &PlaneLayout::narrow(rgba_stride, width, height, 4)) {
        Err(fault) => {
            return Err(fault);
        },
        Ok(()) => {},
    }
    proof {
        lemma_packed_fits(luma_layout, y_plane@.len() as int);
        lemma_packed_fits(cb_layout, u_plane@.len() as int);
        lemma_packed_fits(cr_layout, v_plane@.len() as int);
    }
    let luma_in_place = adapt_write(y_plane, &luma_layout);
    let cb_in_place = adapt_write(u_plane, &cb_layout);
    let cr_in_place = adapt_write(v_plane, &cr_layout);
    let paths = PlanePaths {
        y: if luma_in_place.is_some() {
            PlanePath::Fast
        } else {
            PlanePath::Slow
        },
        u: if cb_in_place.is_some() {
            PlanePath::Fast
        } else {
            PlanePath::Slow
        },
        v: if cr_in_place.is_some() {
            PlanePath::Fast
        } else {
            PlanePath::Slow
        },
    };
    let mut luma_staged = staging_for(paths.y, &luma_layout);
    let mut cb_staged = staging_for(paths.u, &cb_layout);
    let mut cr_staged = staging_for(paths.v, &cr_layout);
    let luma: &mut [u16] = match luma_in_place {
        Some(samples) => samples,
        None => luma_staged.as_mut_slice(),
    };
    let cb: &mut [u16] = match cb_in_place {
        Some(samples) => samples,
        None => cb_staged.as_mut_slice(),
    };
    let cr: &mut [u16] = match cr_in_place {
        Some(samples) => samples,
        None => cr_staged.as_mut_slice(),
    };
    proof {
        lemma_view_rows_fit(luma_layout, paths.y);
        lemma_view_rows_fit(cb_layout, paths.u);
        lemma_view_rows_fit(cr_layout, paths.v);
    }
    let luma_stride = view_stride(&luma_layout, paths.y) as u32;
    let cb_stride = view_stride(&cb_layout, paths.u) as u32;
    let cr_stride = view_stride(&cr_layout, paths.v) as u32;
    proof {
        assert(luma@ =~= target_view(old(y_plane)@, luma_layout, paths.y));
        assert(cb@ =~= target_view(old(u_plane)@, cb_layout, paths.u));
        assert(cr@ =~= target_view(old(v_plane)@, cr_layout, paths.v));
    }
    let verdict = match rgba8_to_icgco_r10_kernel(r_type, yuv_type) {
        Rgba8IcgcKernel::RgbaToIcgcRo010 => rgba_to_icgc_ro010(
            luma,
            luma_stride,
            cb,
            cb_stride,
            cr,
            cr_stride,
            width,
            height,
            rgba,
            rgba_stride,
            range,
        ),
        Rgba8IcgcKernel::RgbaToIcgcRe010 => rgba_to_icgc_re010(
            luma,
            luma_stride,
            cb,
            cb_stride,
            cr,
            cr_stride,
            width,
            height,
            rgba,
            rgba_stride,
            range,
        ),
        Rgba8IcgcKernel::RgbaToIcgcRo210 => rgba_to_icgc_ro210(
            luma,
            luma_stride,
            cb,
            cb_stride,
            cr,
            cr_stride,
            width,
            height,
            rgba,
            rgba_stride,
            range,
        ),
        Rgba8IcgcKernel::RgbaToIcgcRe210 => rgba_to_icgc_re210(
            luma,
            luma_stride,
            cb,
            cb_stride,
            cr,
            cr_stride,
            width,
            height,
            rgba,
            rgba_stride,
            range,
        ),
        Rgba8IcgcKernel::RgbaToIcgcRo410 => rgba_to_icgc_ro410(
            luma,
            luma_stride,
            cb,
            cb_stride,
            cr,
            cr_stride,
            width,
            height,
            rgba,
            rgba_stride,
            range,
        ),
        Rgba8IcgcKernel::RgbaToIcgcRe410 => rgba_to_icgc_re410(
            luma,
            luma_stride,
            cb,
            cb_stride,
            cr,
            cr_stride,
            width,
            height,
            rgba,
            rgba_stride,
            range,
        ),
    };
    match verdict {
        Ok(()) => {
            publish(paths.y, luma_staged.as_slice(), y_plane, &luma_layout);
            publish(paths.u, cb_staged.as_slice(), u_plane, &cb_layout);
            publish(paths.v, cr_staged.as_slice(), v_plane, &cr_layout);
            proof {
                if paths.y == PlanePath::Fast {
                    lemma_view_padding_is_region_padding(old(y_plane)@, y_plane@, luma_layout);
                }
                if paths.u == PlanePath::Fast {
                    lemma_view_padding_is_region_padding(old(u_plane)@, u_plane@, cb_layout);
                }
                if paths.v == PlanePath::Fast {
                    lemma_view_padding_is_region_padding(old(v_plane)@, v_plane@, cr_layout);
                }
            }
            Ok(paths)
        },
        Err(_) => Err(PixartError::KernelRejected(PlanePath::Fast)),
    }
}

} // verus!
