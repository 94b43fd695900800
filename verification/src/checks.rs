//! What every operation checks before it touches a plane, and what it
//! promises of the caller's destination afterwards.
use crate::adapter::{
    adapt_read, lemma_view_rows_fit, source_view, view_len_of, view_stride_of, PlaneView,
};
use crate::content::{flushed, padding_kept, presents};
use crate::native::paired;
use crate::error::{PixartError, PlanePath};
use crate::image::rows_fit;
use crate::layout::{PlaneLayout, SampleWidth};
use crate::modes::{chroma_height_of, chroma_width_of, YuvType};
use vstd::prelude::*;

verus! {

/// The first fault of two: `first` where there is one, else `second`.
pub open spec fn or_else(first: Option<PixartError>, second: Option<PixartError>) -> Option<
    PixartError,
> {
    if first is Some {
        first
    } else {
        second
    }
}

/// An image without columns or rows is refused.
pub open spec fn empty_fault(width: int, height: int) -> Option<PixartError> {
    if width == 0 || height == 0 {
        Some(PixartError::EmptyImage)
    } else {
        None
    }
}

/// A bit depth other than 10 and 12 is refused.
pub open spec fn depth_fault(bit_depth: int) -> Option<PixartError> {
    if bit_depth == 10 || bit_depth == 12 {
        None
    } else {
        Some(PixartError::UnsupportedBitDepth)
    }
}

/// The layout of a plane of two-byte samples, from an operation's arguments.
pub open spec fn wide_layout(stride: u32, width: u32, height: u32, channels: usize) -> PlaneLayout {
    PlaneLayout {
        byte_stride: stride as usize,
        width: width as usize,
        height: height as usize,
        channels,
        sample_width: SampleWidth::Two,
    }
}

/// The layout of a plane of one-byte samples, from an operation's arguments.
pub open spec fn narrow_layout(
    stride: u32,
    width: u32,
    height: u32,
    channels: usize,
) -> PlaneLayout {
    PlaneLayout {
        byte_stride: stride as usize,
        width: width as usize,
        height: height as usize,
        channels,
        sample_width: SampleWidth::One,
    }
}

/// The layout of a chroma plane of two-byte samples of a `width` by `height`
/// image.
pub open spec fn wide_chroma_layout(
    stride: u32,
    width: u32,
    height: u32,
    yuv_type: YuvType,
) -> PlaneLayout {
    PlaneLayout {
        byte_stride: stride as usize,
        width: chroma_width_of(width as int, yuv_type) as usize,
        height: chroma_height_of(height as int, yuv_type) as usize,
        channels: 1,
        sample_width: SampleWidth::Two,
    }
}

/// The layout of a chroma plane of one-byte samples of a `width` by `height`
/// image.
pub open spec fn narrow_chroma_layout(
    stride: u32,
    width: u32,
    height: u32,
    yuv_type: YuvType,
) -> PlaneLayout {
    PlaneLayout {
        byte_stride: stride as usize,
        width: chroma_width_of(width as int, yuv_type) as usize,
        height: chroma_height_of(height as int, yuv_type) as usize,
        channels: 1,
        sample_width: SampleWidth::One,
    }
}

/// Whether a destination of two-byte samples holds what a kernel left in the
/// view that the destination handed it on `path`: on the fast path the
/// region's samples in place are the kernel's; on the slow path the region
/// is what it was with the kernel's samples flushed into it.
pub open spec fn delivers(
    before: Seq<u8>,
    after: Seq<u8>,
    layout: PlaneLayout,
    path: PlanePath,
    produced: Seq<u16>,
) -> bool {
    match path {
        PlanePath::Fast => paired(after) == produced,
        PlanePath::Slow => after == flushed(before, produced, layout),
    }
}

/// What a conversion with a destination of two-byte samples owes its caller.
/// The destination keeps its length. Where `fault` names a fault, the
/// conversion reports it and writes nothing. Otherwise it converts, and
/// reports the path that the destination took: a destination with an odd
/// stride always takes the slow path, and on the slow path stride padding is
/// left as it was.
pub open spec fn converts_wide(
    outcome: Result<PlanePath, PixartError>,
    fault: Option<PixartError>,
    before: Seq<u8>,
    after: Seq<u8>,
    layout: PlaneLayout,
) -> bool {
    &&& after.len() == before.len()
    &&& match fault {
        Some(reason) => outcome == Err::<PlanePath, PixartError>(reason) && after == before,
        None => outcome matches Ok(path) && {
            &&& layout.byte_stride % 2 != 0 ==> path == PlanePath::Slow
            &&& path == PlanePath::Slow ==> padding_kept(before, after, layout)
        },
    }
}

/// What a conversion with a destination of one-byte samples owes its caller.
/// The destination keeps its length. Where `fault` names a fault, the
/// conversion reports it and writes nothing. Otherwise it converts, the
/// kernel working on the destination itself.
pub open spec fn converts_narrow(
    outcome: Result<(), PixartError>,
    fault: Option<PixartError>,
    before: Seq<u8>,
    after: Seq<u8>,
) -> bool {
    &&& after.len() == before.len()
    &&& match fault {
        Some(reason) => outcome == Err::<(), PixartError>(reason) && after == before,
        None => outcome is Ok,
    }
}

/// What an operation with a destination of two-byte samples owes its caller
/// where the outside call may still refuse, for want of memory. The
/// destination keeps its length. Where `fault` names a fault, the
/// operation reports it and writes nothing. Otherwise it reports the path
/// that the destination took, and whether the kernel converted. On the slow path a
/// conversion leaves stride padding as it was and a refusal leaves the whole
/// destination as it was. A destination with an odd stride always takes the
/// slow path.
pub open spec fn settles_wide(
    outcome: Result<PlanePath, PixartError>,
    fault: Option<PixartError>,
    before: Seq<u8>,
    after: Seq<u8>,
    layout: PlaneLayout,
) -> bool {
    &&& after.len() == before.len()
    &&& match fault {
        Some(reason) => outcome == Err::<PlanePath, PixartError>(reason) && after == before,
        None => match outcome {
            Ok(path) => {
                &&& layout.byte_stride % 2 != 0 ==> path == PlanePath::Slow
                &&& path == PlanePath::Slow ==> padding_kept(before, after, layout)
            },
            Err(PixartError::KernelRejected(path)) => {
                &&& layout.byte_stride % 2 != 0 ==> path == PlanePath::Slow
                &&& path == PlanePath::Slow ==> after == before
            },
            Err(_) => false,
        },
    }
}

/// What an operation with a destination of one-byte samples owes its caller
/// where the outside call may still refuse, for want of memory. The
/// destination keeps its length. Where `fault` names a fault, the
/// operation reports it and writes nothing. Otherwise the kernel worked on
/// the destination itself, and the operation reports the kernel's verdict.
pub open spec fn settles_narrow(
    outcome: Result<(), PixartError>,
    fault: Option<PixartError>,
    before: Seq<u8>,
    after: Seq<u8>,
) -> bool {
    &&& after.len() == before.len()
    &&& match fault {
        Some(reason) => outcome == Err::<(), PixartError>(reason) && after == before,
        None => outcome is Ok || outcome == Err::<(), PixartError>(
            PixartError::KernelRejected(PlanePath::Fast),
        ),
    }
}

/// Refuses an image without columns or rows.
pub fn check_image(width: u32, height: u32) -> (verdict: Result<(), PixartError>)
    ensures
        verdict == match empty_fault(width as int, height as int) {
            Some(fault) => Err::<(), PixartError>(fault),
            None => Ok::<(), PixartError>(()),
        },
{
    if width == 0 || height == 0 {
        Err(PixartError::EmptyImage)
    } else {
        Ok(())
    }
}

/// Refuses a bit depth other than 10 and 12.
pub fn check_depth(bit_depth: u32) -> (verdict: Result<(), PixartError>)
    ensures
        verdict == match depth_fault(bit_depth as int) {
            Some(fault) => Err::<(), PixartError>(fault),
            None => Ok::<(), PixartError>(()),
        },
{
    if bit_depth == 10 || bit_depth == 12 {
        Ok(())
    } else {
        Err(PixartError::UnsupportedBitDepth)
    }
}

/// Checks a source plane of two-byte samples against its layout and adapts it
/// for reading. The result is the view and the distance in samples between
/// its rows.
pub fn read_plane<'a>(src: &'a [u8], layout: &PlaneLayout) -> (adapted: Result<
    (PlaneView<'a>, u32),
    PixartError,
>)
    requires
        layout.sample_width == SampleWidth::Two,
        layout.byte_stride <= u32::MAX,
    ensures
        match layout.fault(src@.len() as int) {
            Some(fault) => adapted matches Err(reason) && reason == fault,
            None => adapted matches Ok((view, stride)) && {
                &&& stride == view_stride_of(*layout, view.path_of())
                &&& view.samples() == source_view(src@, *layout, view.path_of())
                &&& view.samples().len() == view_len_of(*layout, view.path_of())
                &&& presents(view.samples(), stride as int, src@, *layout)
                &&& layout.byte_stride % 2 != 0 ==> view.path_of() == PlanePath::Slow
                &&& rows_fit(
                    view.samples().len() as int,
                    stride as int,
                    layout.row_samples(),
                    layout.height as int,
                )
            },
        },
{
    match layout.check(src.len()) {
        Err(fault) => Err(fault),
        Ok(()) => {
            let (view, stride) = adapt_read(src, layout);
            proof {
                lemma_view_rows_fit(*layout, view.path_of());
            }
            Ok((view, stride as u32))
        },
    }
}

/// Checks a plane of one-byte samples against its layout. Such a plane needs
/// no adaptation: a kernel works on the region itself, one sample per byte.
pub fn check_narrow_plane(len: usize, layout: &PlaneLayout) -> (verdict: Result<(), PixartError>)
    requires
        layout.sample_width == SampleWidth::One,
    ensures
        match layout.fault(len as int) {
            Some(fault) => verdict == Err::<(), PixartError>(fault),
            None => verdict is Ok && rows_fit(
                len as int,
                layout.byte_stride as int,
                layout.row_samples(),
                layout.height as int,
            ),
        },
{
    layout.check(len)
}

} // verus!
