//! Adapting the planes of one logical image, each on its own path.
use crate::adapter::{
    lemma_packed_fits, lemma_view_rows_fit, source_view, unpack_plane, view_stride_of, PlaneView,
};
use crate::checks::{or_else, read_plane, wide_chroma_layout, wide_layout};
use crate::content::{
    lemma_paired_below, lemma_paired_presents, lemma_plane_below_is_unpacked_below,
    lemma_unpacked_presents, plane_below, presents,
};
use crate::error::{PixartError, PlanePath};
use crate::image::{
    chroma_ready, luma_ready, rows_fit, samples_below, Gray, GrayAlpha, Planar, PlanarAlpha,
};
use crate::layout::{PlaneLayout, SampleWidth};
use crate::modes::{chroma_height, chroma_width, YuvType};
use vstd::prelude::*;

verus! {

/// One plane of 16-bit samples, adapted for reading, with the distance in
/// samples between its rows.
pub struct AdaptedPlane<'a> {
    pub view: PlaneView<'a>,
    pub stride: u32,
}

impl<'a> AdaptedPlane<'a> {
    /// Whether the view holds, at every row and column, the sample of the
    /// plane that `bytes` holds under `layout`.
    pub open spec fn shows(&self, bytes: Seq<u8>, layout: PlaneLayout) -> bool {
        presents(self.view.samples(), self.stride as int, bytes, layout)
    }

    /// Whether the view is the one that the adapter makes of the plane that
    /// `bytes` holds under `layout`, on the path that the view took.
    pub open spec fn is_view_of(&self, bytes: Seq<u8>, layout: PlaneLayout) -> bool {
        &&& self.view.samples() == source_view(bytes, layout, self.view.path_of())
        &&& self.stride == view_stride_of(layout, self.view.path_of())
        &&& self.view.path_of() == PlanePath::Fast ==> layout.byte_stride % 2 == 0
    }
}

/// The three planes of a planar image of 16-bit samples, each adapted for
/// reading on its own path.
pub struct AdaptedPlanar<'a> {
    pub luma: AdaptedPlane<'a>,
    pub cb: AdaptedPlane<'a>,
    pub cr: AdaptedPlane<'a>,
}

/// The fault of a full-resolution plane of two-byte samples of `len` bytes.
pub open spec fn luma_fault(len: int, stride: u32, width: u32, height: u32) -> Option<PixartError> {
    wide_layout(stride, width, height, 1).fault(len)
}

/// The first fault among the three planes of a planar image of two-byte
/// samples, in the order luma, chroma U, chroma V.
pub open spec fn planar_fault(
    y_len: int,
    y_stride: u32,
    u_len: int,
    u_stride: u32,
    v_len: int,
    v_stride: u32,
    width: u32,
    height: u32,
    yuv_type: YuvType,
) -> Option<PixartError> {
    or_else(
        luma_fault(y_len, y_stride, width, height),
        or_else(
            wide_chroma_layout(u_stride, width, height, yuv_type).fault(u_len),
            wide_chroma_layout(v_stride, width, height, yuv_type).fault(v_len),
        ),
    )
}

impl<'a> AdaptedPlanar<'a> {
    /// Whether each view is large enough for a kernel that reads a `width` by
    /// `height` image under `sampling`.
    pub open spec fn ready(&self, width: u32, height: u32, sampling: YuvType) -> bool {
        &&& luma_ready(
            self.luma.view.samples().len() as int,
            self.luma.stride as int,
            width as int,
            height as int,
        )
        &&& chroma_ready(
            self.cb.view.samples().len() as int,
            self.cb.stride as int,
            width as int,
            height as int,
            sampling,
        )
        &&& chroma_ready(
            self.cr.view.samples().len() as int,
            self.cr.stride as int,
            width as int,
            height as int,
            sampling,
        )
    }

    /// The three views as one image for a kernel.
    pub fn image(&self, width: u32, height: u32) -> (image: Planar<'_, u16>)
        ensures
            image.y_plane@ == self.luma.view.samples(),
            image.y_stride == self.luma.stride,
            image.u_plane@ == self.cb.view.samples(),
            image.u_stride == self.cb.stride,
            image.v_plane@ == self.cr.view.samples(),
            image.v_stride == self.cr.stride,
            image.width == width,
            image.height == height,
    {
        Planar {
            y_plane: self.luma.view.as_slice(),
            y_stride: self.luma.stride,
            u_plane: self.cb.view.as_slice(),
            u_stride: self.cb.stride,
            v_plane: self.cr.view.as_slice(),
            v_stride: self.cr.stride,
            width,
            height,
        }
    }

    /// The three views and an alpha view as one image for a kernel.
    pub fn image_with_alpha<'b>(
        &'b self,
        alpha: &'b AdaptedPlane<'a>,
        width: u32,
        height: u32,
    ) -> (image: PlanarAlpha<'b, u16>)
        ensures
            image.y_plane@ == self.luma.view.samples(),
            image.y_stride == self.luma.stride,
            image.u_plane@ == self.cb.view.samples(),
            image.u_stride == self.cb.stride,
            image.v_plane@ == self.cr.view.samples(),
            image.v_stride == self.cr.stride,
            image.a_plane@ == alpha.view.samples(),
            image.a_stride == alpha.stride,
            image.width == width,
            image.height == height,
    {
        PlanarAlpha {
            y_plane: self.luma.view.as_slice(),
            y_stride: self.luma.stride,
            u_plane: self.cb.view.as_slice(),
            u_stride: self.cb.stride,
            v_plane: self.cr.view.as_slice(),
            v_stride: self.cr.stride,
            a_plane: alpha.view.as_slice(),
            a_stride: alpha.stride,
            width,
            height,
        }
    }
}

impl<'a> AdaptedPlane<'a> {
    /// The view as a luma-only image for a kernel.
    pub fn gray(&self, width: u32, height: u32) -> (image: Gray<'_, u16>)
        ensures
            image.y_plane@ == self.view.samples(),
            image.y_stride == self.stride,
            image.width == width,
            image.height == height,
    {
        Gray { y_plane: self.view.as_slice(), y_stride: self.stride, width, height }
    }

    /// The view and an alpha view as one image for a kernel.
    pub fn gray_with_alpha<'b>(
        &'b self,
        alpha: &'b AdaptedPlane<'a>,
        width: u32,
        height: u32,
    ) -> (image: GrayAlpha<'b, u16>)
        ensures
            image.y_plane@ == self.view.samples(),
            image.y_stride == self.stride,
            image.a_plane@ == alpha.view.samples(),
            image.a_stride == alpha.stride,
            image.width == width,
            image.height == height,
    {
        GrayAlpha {
            y_plane: self.view.as_slice(),
            y_stride: self.stride,
            a_plane: alpha.view.as_slice(),
            a_stride: alpha.stride,
            width,
            height,
        }
    }
}

/// Checks and adapts a full-resolution plane of 16-bit samples of a `width`
/// by `height` image: a luma plane, or an alpha plane.
pub fn read_luma<'a>(src: &'a [u8], stride: u32, width: u32, height: u32) -> (adapted: Result<
    AdaptedPlane<'a>,
    PixartError,
>)
    ensures
        match luma_fault(src@.len() as int, stride, width, height) {
            Some(fault) => adapted matches Err(reason) && reason == fault,
            None => adapted matches Ok(plane) && {
                &&& plane.shows(src@, wide_layout(stride, width, height, 1))
                &&& plane.is_view_of(src@, wide_layout(stride, width, height, 1))
                &&& width > 0 && height > 0 ==> luma_ready(
                    plane.view.samples().len() as int,
                    plane.stride as int,
                    width as int,
                    height as int,
                )
            },
        },
{
    let layout = PlaneLayout::wide(stride, width, height, 1);
    let (view, view_stride) = read_plane(src, &layout)?;
    Ok(AdaptedPlane { view, stride: view_stride })
}

/// Checks and adapts a chroma plane of 16-bit samples of a `width` by
/// `height` image. The plane's own width and height follow from the
/// subsampling, rounded up where the image's are odd.
pub fn read_chroma<'a>(
    src: &'a [u8],
    stride: u32,
    width: u32,
    height: u32,
    yuv_type: YuvType,
) -> (adapted: Result<AdaptedPlane<'a>, PixartError>)
    ensures
        match wide_chroma_layout(stride, width, height, yuv_type).fault(src@.len() as int) {
            Some(fault) => adapted matches Err(reason) && reason == fault,
            None => adapted matches Ok(plane) && {
                &&& plane.shows(src@, wide_chroma_layout(stride, width, height, yuv_type))
                &&& plane.is_view_of(src@, wide_chroma_layout(stride, width, height, yuv_type))
                &&& width > 0 && height > 0 ==> chroma_ready(
                    plane.view.samples().len() as int,
                    plane.stride as int,
                    width as int,
                    height as int,
                    yuv_type,
                )
            },
        },
{
    let layout = PlaneLayout::wide(
        stride,
        chroma_width(width, yuv_type),
        chroma_height(height, yuv_type),
        1,
    );
    let (view, view_stride) = read_plane(src, &layout)?;
    Ok(AdaptedPlane { view, stride: view_stride })
}

/// Checks and adapts the three planes of a planar image of 16-bit samples,
/// each on its own path: there is no requirement that the planes share one.
pub fn read_planar<'a>(
    y_plane: &'a [u8],
    y_stride: u32,
    u_plane: &'a [u8],
    u_stride: u32,
    v_plane: &'a [u8],
    v_stride: u32,
    width: u32,
    height: u32,
    yuv_type: YuvType,
) -> (adapted: Result<AdaptedPlanar<'a>, PixartError>)
    ensures
        match planar_fault(
            y_plane@.len() as int,
            y_stride,
            u_plane@.len() as int,
            u_stride,
            v_plane@.len() as int,
            v_stride,
            width,
            height,
            yuv_type,
        ) {
            Some(fault) => adapted matches Err(reason) && reason == fault,
            None => adapted matches Ok(planes) && {
                &&& width > 0 && height > 0 ==> planes.ready(width, height, yuv_type)
                &&& planes.luma.shows(y_plane@, wide_layout(y_stride, width, height, 1))
                &&& planes.cb.shows(u_plane@, wide_chroma_layout(u_stride, width, height, yuv_type))
                &&& planes.cr.shows(v_plane@, wide_chroma_layout(v_stride, width, height, yuv_type))
                &&& planes.luma.is_view_of(y_plane@, wide_layout(y_stride, width, height, 1))
                &&& planes.cb.is_view_of(
                    u_plane@,
                    wide_chroma_layout(u_stride, width, height, yuv_type),
                )
                &&& planes.cr.is_view_of(
                    v_plane@,
                    wide_chroma_layout(v_stride, width, height, yuv_type),
                )
            },
        },
{
    let luma = read_luma(y_plane, y_stride, width, height)?;
    let cb = read_chroma(u_plane, u_stride, width, height, yuv_type)?;
    let cr = read_chroma(v_plane, v_stride, width, height, yuv_type)?;
    Ok(AdaptedPlanar { luma, cb, cr })
}

/// The fault of a plane one of whose samples does not fit its bit depth.
pub open spec fn sample_fault(bytes: Seq<u8>, layout: PlaneLayout, limit: int) -> Option<
    PixartError,
> {
    if plane_below(bytes, layout, limit) {
        None
    } else {
        Some(PixartError::SampleOutOfRange)
    }
}

/// The first sample fault among the three planes of a planar image of
/// two-byte samples, in the order luma, chroma U, chroma V.
pub open spec fn planar_sample_fault(
    y: Seq<u8>,
    y_stride: u32,
    u: Seq<u8>,
    u_stride: u32,
    v: Seq<u8>,
    v_stride: u32,
    width: u32,
    height: u32,
    yuv_type: YuvType,
    limit: int,
) -> Option<PixartError> {
    or_else(
        sample_fault(y, wide_layout(y_stride, width, height, 1), limit),
        or_else(
            sample_fault(u, wide_chroma_layout(u_stride, width, height, yuv_type), limit),
            sample_fault(v, wide_chroma_layout(v_stride, width, height, yuv_type), limit),
        ),
    )
}

/// The least value that a sample of `bit_depth` bits cannot take: 1024 for
/// 10 bits, 4096 for 12 bits and for every other depth.
pub open spec fn depth_limit_of(bit_depth: u32) -> int {
    if bit_depth == 10 {
        1024
    } else {
        4096
    }
}

/// The least value that a sample of `bit_depth` bits cannot take.
pub fn depth_limit(bit_depth: u32) -> (limit: u16)
    ensures
        limit == depth_limit_of(bit_depth),
{
    if bit_depth == 10 {
        1024
    } else {
        4096
    }
}

/// Whether every sample of a view is below `limit`.
pub fn all_below(samples: &[u16], limit: u16) -> (below: bool)
    ensures
        below == samples_below(samples@, limit as int),
{
    let mut at: usize = 0;
    while at < samples.len()
        invariant
            at <= samples@.len(),
            forall|k: int| 0 <= k < at ==> #[trigger] samples@[k] < limit,
        decreases samples@.len() - at,
    {
        if samples[at] >= limit {
            return false;
        }
        at = at + 1;
    }
    true
}

/// Holds an adapted source plane to its bit depth before a kernel reads it:
/// the kernels compute in 16 bits, and a sample beyond the depth would not
/// fit their arithmetic. A plane with such a sample is refused. A view in
/// place whose samples fit, but whose stride padding holds a value that does
/// not, gives way to a packed copy, which has no padding.
pub fn keep_within<'a>(
    plane: AdaptedPlane<'a>,
    src: &'a [u8],
    layout: &PlaneLayout,
    limit: u16,
) -> (kept: Result<AdaptedPlane<'a>, PixartError>)
    requires
        layout.sample_width == SampleWidth::Two,
        layout.admits(src@.len() as int),
        layout.byte_stride <= u32::MAX,
        plane.is_view_of(src@, *layout),
    ensures
        match sample_fault(src@, *layout, limit as int) {
            Some(fault) => kept matches Err(reason) && reason == fault,
            None => kept matches Ok(held) && {
                &&& held.is_view_of(src@, *layout)
                &&& held.shows(src@, *layout)
                &&& samples_below(held.view.samples(), limit as int)
                &&& rows_fit(
                    held.view.samples().len() as int,
                    held.stride as int,
                    layout.row_samples(),
                    layout.height as int,
                )
            },
        },
{
    proof {
        lemma_plane_below_is_unpacked_below(src@, *layout, limit as int);
        lemma_unpacked_presents(src@, *layout);
        lemma_packed_fits(*layout, src@.len() as int);
        lemma_view_rows_fit(*layout, PlanePath::Slow);
        lemma_view_rows_fit(*layout, PlanePath::Fast);
    }
    match plane.view.path() {
        PlanePath::Slow => {
            if all_below(plane.view.as_slice(), limit) {
                Ok(plane)
            } else {
                Err(PixartError::SampleOutOfRange)
            }
        },
        PlanePath::Fast => {
            proof {
                lemma_paired_presents(src@, *layout);
            }
            if all_below(plane.view.as_slice(), limit) {
                proof {
                    lemma_paired_below(src@, *layout, limit as int);
                }
                return Ok(plane);
            }
            let packed = unpack_plane(src, layout);
            if all_below(packed.as_slice(), limit) {
                Ok(AdaptedPlane {
                    view: PlaneView::Owned(packed),
                    stride: (layout.width * layout.channels) as u32,
                })
            } else {
                Err(PixartError::SampleOutOfRange)
            }
        },
    }
}

/// Holds the three planes of an adapted planar image to their bit depth,
/// plane by plane.
pub fn keep_planar_within<'a>(
    planes: AdaptedPlanar<'a>,
    y_plane: &'a [u8],
    y_stride: u32,
    u_plane: &'a [u8],
    u_stride: u32,
    v_plane: &'a [u8],
    v_stride: u32,
    width: u32,
    height: u32,
    yuv_type: YuvType,
    limit: u16,
) -> (kept: Result<AdaptedPlanar<'a>, PixartError>)
    requires
        width > 0,
        height > 0,
        wide_layout(y_stride, width, height, 1).admits(y_plane@.len() as int),
        wide_chroma_layout(u_stride, width, height, yuv_type).admits(u_plane@.len() as int),
        wide_chroma_layout(v_stride, width, height, yuv_type).admits(v_plane@.len() as int),
        planes.luma.is_view_of(y_plane@, wide_layout(y_stride, width, height, 1)),
        planes.cb.is_view_of(u_plane@, wide_chroma_layout(u_stride, width, height, yuv_type)),
        planes.cr.is_view_of(v_plane@, wide_chroma_layout(v_stride, width, height, yuv_type)),
    ensures
        match planar_sample_fault(
            y_plane@,
            y_stride,
            u_plane@,
            u_stride,
            v_plane@,
            v_stride,
            width,
            height,
            yuv_type,
            limit as int,
        ) {
            Some(fault) => kept matches Err(reason) && reason == fault,
            None => kept matches Ok(held) && {
                &&& held.ready(width, height, yuv_type)
                &&& held.luma.is_view_of(y_plane@, wide_layout(y_stride, width, height, 1))
                &&& held.cb.is_view_of(
                    u_plane@,
                    wide_chroma_layout(u_stride, width, height, yuv_type),
                )
                &&& held.cr.is_view_of(
                    v_plane@,
                    wide_chroma_layout(v_stride, width, height, yuv_type),
                )
                &&& held.luma.shows(y_plane@, wide_layout(y_stride, width, height, 1))
                &&& held.cb.shows(u_plane@, wide_chroma_layout(u_stride, width, height, yuv_type))
                &&& held.cr.shows(v_plane@, wide_chroma_layout(v_stride, width, height, yuv_type))
                &&& samples_below(held.luma.view.samples(), limit as int)
                &&& samples_below(held.cb.view.samples(), limit as int)
                &&& samples_below(held.cr.view.samples(), limit as int)
            },
        },
{
    let chroma_w = chroma_width(width, yuv_type);
    let chroma_h = chroma_height(height, yuv_type);
    let luma = keep_within(planes.luma, y_plane, &PlaneLayout::wide(y_stride, width, height, 1), limit)?;
    let cb = keep_within(
        planes.cb,
        u_plane,
        &PlaneLayout::wide(u_stride, chroma_w, chroma_h, 1),
        limit,
    )?;
    let cr = keep_within(
        planes.cr,
        v_plane,
        &PlaneLayout::wide(v_stride, chroma_w, chroma_h, 1),
        limit,
    )?;
    Ok(AdaptedPlanar { luma, cb, cr })
}

} // verus!
