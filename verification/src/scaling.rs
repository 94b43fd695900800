//! Rescaling of single planes.
use crate::adapter::{adapt_read, adapt_write, lemma_packed_fits, lemma_view_rows_fit};
use crate::checks::{check_narrow_plane, narrow_layout, or_else, settles_narrow, settles_wide};
use crate::content::{logical_sample, view_sample};
use crate::destination::{settle, settle_direct, staging_for};
use crate::error::{PixartError, PlanePath};
use crate::kernels::scale::{
    cell, copied_rows, lanczos3, new_scaler, quality_first, resize_plane, resize_plane_u16, set_threading_policy,
    set_workload_strategy, single_thread,
};
use crate::laws::same_content;
use crate::layout::{PlaneLayout, SampleWidth};
use vstd::prelude::*;

verus! {

/// A source or a destination without columns or rows is refused.
pub open spec fn scale_empty_fault(
    width: u32,
    height: u32,
    new_width: u32,
    new_height: u32,
) -> Option<PixartError> {
    if width == 0 || height == 0 || new_width == 0 || new_height == 0 {
        Some(PixartError::EmptyImage)
    } else {
        None
    }
}

/// A bit depth below 1 or above 16 is refused.
pub open spec fn scale_depth_fault(bit_depth: usize) -> Option<PixartError> {
    if 1 <= bit_depth <= 16 {
        None
    } else {
        Some(PixartError::UnsupportedBitDepth)
    }
}

/// The layout of the source plane of `pixart_scale_plane_u16`.
pub open spec fn scale_source_layout(src_stride: usize, width: u32, height: u32) -> PlaneLayout {
    PlaneLayout {
        byte_stride: src_stride,
        width: width as usize,
        height: height as usize,
        channels: 1,
        sample_width: SampleWidth::Two,
    }
}

/// The layout of the destination plane of `pixart_scale_plane_u16`: rows of
/// `new_width` two-byte samples with no padding between them.
pub open spec fn scale_target_layout(new_width: u32, new_height: u32) -> PlaneLayout {
    PlaneLayout {
        byte_stride: (2 * new_width) as usize,
        width: new_width as usize,
        height: new_height as usize,
        channels: 1,
        sample_width: SampleWidth::Two,
    }
}

/// The fault for which `pixart_scale_plane_u16` refuses its arguments, if
/// any: an empty source or destination, then an unsupported bit depth, then
/// the source plane, then the destination plane, which is a region of
/// exactly `new_width * new_height` two-byte samples, no longer than
/// `isize::MAX` bytes.
pub open spec fn scale_plane_u16_fault(
    src_len: int,
    src_stride: usize,
    width: u32,
    height: u32,
    dst_len: int,
    new_width: u32,
    new_height: u32,
    bit_depth: usize,
) -> Option<PixartError> {
    or_else(
        scale_empty_fault(width, height, new_width, new_height),
        or_else(
            scale_depth_fault(bit_depth),
            or_else(
                scale_source_layout(src_stride, width, height).fault(src_len),
                if dst_len != 2 * new_width * new_height || dst_len > isize::MAX {
                    Some(PixartError::RegionMismatch)
                } else {
                    None
                },
            ),
        ),
    )
}

/// Rescales a plane of 16-bit samples to `new_width` by `new_height` with a
/// Lanczos filter of three lobes. The source is adapted for reading; the
/// destination, tightly packed, is written in place where it can be viewed
/// as samples, and through a packed buffer that is flushed at the end where
/// it cannot. A plane that already has the size asked for is copied, sample
/// for sample; a resampling may be refused for want of memory.
pub fn pixart_scale_plane_u16(
    src: &[u8],
    src_stride: usize,
    width: u32,
    height: u32,
    dst: &mut [u8],
    new_width: u32,
    new_height: u32,
    bit_depth: usize,
) -> (outcome: Result<PlanePath, PixartError>)
    ensures
        settles_wide(
            outcome,
            scale_plane_u16_fault(
                src@.len() as int,
                src_stride,
                width,
                height,
                old(dst)@.len() as int,
                new_width,
                new_height,
                bit_depth,
            ),
            old(dst)@,
            final(dst)@,
            scale_target_layout(new_width, new_height),
        ),
        scale_plane_u16_fault(
            src@.len() as int,
            src_stride,
            width,
            height,
            old(dst)@.len() as int,
            new_width,
            new_height,
            bit_depth,
        ) is None && width == new_width && height == new_height ==> outcome is Ok && same_content(
            src@,
            scale_source_layout(src_stride, width, height),
            final(dst)@,
            scale_target_layout(new_width, new_height),
        ),
{
    if width == 0 || height == 0 || new_width == 0 || new_height == 0 {
        return Err(PixartError::EmptyImage);
    }
    if bit_depth < 1 || bit_depth > 16 {
        return Err(PixartError::UnsupportedBitDepth);
    }
    let source = PlaneLayout {
        byte_stride: src_stride,
        width: width as usize,
        height: height as usize,
        channels: 1,
        sample_width: SampleWidth::Two,
    };
    source.check(src.len())?;
    let row_bytes = match (new_width as usize).checked_mul(2) {
        Some(bytes) => bytes,
        None => {
            proof {
                vstd::slice::axiom_spec_len(dst);
                assert(2 * new_width * new_height > usize::MAX) by (nonlinear_arith)
                    requires
                        2 * new_width > usize::MAX,
                        new_height >= 1,
                ;
            }
            return Err(PixartError::RegionMismatch);
        },
    };
    let target = PlaneLayout {
        byte_stride: row_bytes,
        width: new_width as usize,
        height: new_height as usize,
        channels: 1,
        sample_width: SampleWidth::Two,
    };
    proof {
        assert(target.region_bytes() == 2 * new_width * new_height) by (nonlinear_arith)
            requires
                target.region_bytes() == (2 * new_width) * new_height,
        ;
    }
    target.check(dst.len())?;
    let (view, stride) = adapt_read(src, &source);
    proof {
        lemma_view_rows_fit(source, view.path_of());
        lemma_packed_fits(target, dst@.len() as int);
    }
    let in_place = adapt_write(dst, &target);
    let path = if in_place.is_some() {
        PlanePath::Fast
    } else {
        PlanePath::Slow
    };
    let mut staged = staging_for(path, &target);
    let into: &mut [u16] = match in_place {
        Some(samples) => samples,
        None => staged.as_mut_slice(),
    };
    let mut scaler = new_scaler(lanczos3());
    set_threading_policy(&mut scaler, single_thread());
    set_workload_strategy(&mut scaler, quality_first());
    let verdict = resize_plane_u16(
        &scaler,
        view.as_slice(),
        stride,
        width as usize,
        height as usize,
        into,
        new_width as usize,
        new_width as usize,
        new_height as usize,
        bit_depth,
    );
    let ghost produced = into@;
    let outcome = settle(verdict, path, staged.as_slice(), dst, &target);
    proof {
        if width == new_width && height == new_height {
            assert forall|row: int, col: int|
                0 <= row < source.height && 0 <= col < source.row_samples()
                    implies #[trigger] logical_sample(src@, source, row, col) == logical_sample(
                dst@,
                target,
                row,
                col,
            ) by {
                assert(cell(produced, new_width as int, row, col) == cell(
                    view.samples(),
                    stride as int,
                    row,
                    col,
                ));
                assert(view_sample(view.samples(), stride as int, row, col) == logical_sample(
                    src@,
                    source,
                    row,
                    col,
                ));
                assert(view_sample(produced, new_width as int, row, col) == logical_sample(
                    dst@,
                    target,
                    row,
                    col,
                ));
            }
        }
    }
    outcome
}

/// The fault for which `pixart_scale_plane_u8` refuses its arguments, if
/// any: an empty source or destination, then the source plane, then the
/// destination plane.
pub open spec fn scale_plane_u8_fault(
    src_len: int,
    src_stride: u32,
    width: u32,
    height: u32,
    dst_len: int,
    dst_stride: u32,
    new_width: u32,
    new_height: u32,
) -> Option<PixartError> {
    or_else(
        scale_empty_fault(width, height, new_width, new_height),
        or_else(
            narrow_layout(src_stride, width, height, 1).fault(src_len),
            narrow_layout(dst_stride, new_width, new_height, 1).fault(dst_len),
        ),
    )
}

/// Rescales a plane of 8-bit samples to `new_width` by `new_height` with a
/// Lanczos filter of three lobes. Planes of one-byte samples need no
/// adaptation: the scaler works on the caller's regions themselves. A plane
/// that already has the size asked for is copied row by row; a resampling
/// may be refused for want of memory.
pub fn pixart_scale_plane_u8(
    src: &[u8],
    src_stride: u32,
    width: u32,
    height: u32,
    dst: &mut [u8],
    dst_stride: u32,
    new_width: u32,
    new_height: u32,
) -> (outcome: Result<(), PixartError>)
    ensures
        settles_narrow(
            outcome,
            scale_plane_u8_fault(
                src@.len() as int,
                src_stride,
                width,
                height,
                old(dst)@.len() as int,
                dst_stride,
                new_width,
                new_height,
            ),
            old(dst)@,
            final(dst)@,
        ),
        scale_plane_u8_fault(
            src@.len() as int,
            src_stride,
            width,
            height,
            old(dst)@.len() as int,
            dst_stride,
            new_width,
            new_height,
        ) is None && width == new_width && height == new_height ==> outcome is Ok && copied_rows(
            src@,
            src_stride as int,
            old(dst)@,
            final(dst)@,
            dst_stride as int,
            height as int,
        ),
{
    if width == 0 || height == 0 || new_width == 0 || new_height == 0 {
        return Err(PixartError::EmptyImage);
    }
    check_narrow_plane(src.len(), &PlaneLayout::narrow(src_stride, width, height, 1))?;
    check_narrow_plane(dst.len(), &PlaneLayout::narrow(dst_stride, new_width, new_height, 1))?;
    let mut scaler = new_scaler(lanczos3());
    set_threading_policy(&mut scaler, single_thread());
    set_workload_strategy(&mut scaler, quality_first());
    let verdict = resize_plane(
        &scaler,
        src,
        src_stride as usize,
        width as usize,
        height as usize,
        dst,
        dst_stride as usize,
        new_width as usize,
        new_height as usize,
        8,
    );
    settle_direct(verdict)
}

} // verus!
