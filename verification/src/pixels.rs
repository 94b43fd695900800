//! What can be said of the pixels that a kernel leaves behind, whichever way
//! it went about its arithmetic: over a view of samples, as the kernel sees
//! it, and over a region of bytes, as the caller does.
use crate::content::{
    byte_at, lemma_row_in_region, logical_sample, padding_kept, presents, view_sample,
};
use crate::image::plane_byte;
use crate::layout::{PlaneLayout, SampleWidth};
use crate::native::paired;
use crate::sample::lemma_sample_of_injective;
use vstd::prelude::*;

verus! {

/// Sample `k` of the pixel at `row` and `col` of a view of interleaved
/// samples, `channels` to the pixel.
pub open spec fn view_pixel(
    samples: Seq<u16>,
    stride: int,
    channels: int,
    row: int,
    col: int,
    k: int,
) -> u16 {
    view_sample(samples, stride, row, channels * col + k)
}

/// Sample `k` of the pixel at `row` and `col` of a region of interleaved
/// two-byte samples.
pub open spec fn region_pixel(bytes: Seq<u8>, layout: PlaneLayout, row: int, col: int, k: int) -> u16 {
    logical_sample(bytes, layout, row, layout.channels * col + k)
}

/// Whether every sample of every pixel of a view is below `limit`.
pub open spec fn view_clamped(
    samples: Seq<u16>,
    stride: int,
    channels: int,
    width: int,
    height: int,
    limit: int,
) -> bool {
    forall|row: int, col: int, k: int|
        0 <= row < height && 0 <= col < width && 0 <= k < channels ==> #[trigger] view_pixel(
            samples,
            stride,
            channels,
            row,
            col,
            k,
        ) < limit
}

/// Whether every sample of every pixel of a region is below `limit`.
pub open spec fn region_clamped(bytes: Seq<u8>, layout: PlaneLayout, limit: int) -> bool {
    forall|row: int, col: int, k: int|
        0 <= row < layout.height && 0 <= col < layout.width && 0 <= k < layout.channels
            ==> #[trigger] region_pixel(bytes, layout, row, col, k) < limit
}

/// Whether the three colours of every pixel of a view are one value.
pub open spec fn view_gray(
    samples: Seq<u16>,
    stride: int,
    channels: int,
    width: int,
    height: int,
) -> bool {
    forall|row: int, col: int, k: int|
        0 <= row < height && 0 <= col < width && 0 <= k < 3 ==> #[trigger] view_pixel(
            samples,
            stride,
            channels,
            row,
            col,
            k,
        ) == view_pixel(samples, stride, channels, row, col, 0)
}

/// Whether the three colours of every pixel of a region are one value.
pub open spec fn region_gray(bytes: Seq<u8>, layout: PlaneLayout) -> bool {
    forall|row: int, col: int, k: int|
        0 <= row < layout.height && 0 <= col < layout.width && 0 <= k < 3
            ==> #[trigger] region_pixel(bytes, layout, row, col, k) == region_pixel(
            bytes,
            layout,
            row,
            col,
            0,
        )
}

/// Whether sample `k` of every pixel of a view is the sample of a plane's view
/// at the same row and column.
pub open spec fn view_takes(
    samples: Seq<u16>,
    stride: int,
    channels: int,
    k: int,
    plane: Seq<u16>,
    plane_stride: int,
    width: int,
    height: int,
) -> bool {
    forall|row: int, col: int|
        0 <= row < height && 0 <= col < width ==> view_pixel(
            samples,
            stride,
            channels,
            row,
            col,
            k,
        ) == #[trigger] view_sample(plane, plane_stride, row, col)
}

/// Whether sample `k` of every pixel of a region is the sample of a plane at
/// the same row and column.
pub open spec fn region_takes(
    bytes: Seq<u8>,
    layout: PlaneLayout,
    k: int,
    plane: Seq<u8>,
    plane_layout: PlaneLayout,
) -> bool {
    forall|row: int, col: int|
        0 <= row < layout.height && 0 <= col < layout.width ==> region_pixel(
            bytes,
            layout,
            row,
            col,
            k,
        ) == #[trigger] logical_sample(plane, plane_layout, row, col)
}

/// Byte `k` of the pixel at `row` and `col` of a region of interleaved
/// one-byte samples, `channels` to the pixel, rows `stride` bytes apart.
pub open spec fn pixel_byte(
    bytes: Seq<u8>,
    stride: int,
    channels: int,
    row: int,
    col: int,
    k: int,
) -> u8 {
    bytes[row * stride + channels * col + k]
}

/// Whether byte `k` of every pixel of a region is the byte of a plane at the
/// same row and column.
pub open spec fn bytes_take(
    bytes: Seq<u8>,
    stride: int,
    channels: int,
    k: int,
    plane: Seq<u8>,
    plane_stride: int,
    width: int,
    height: int,
) -> bool {
    forall|row: int, col: int|
        0 <= row < height && 0 <= col < width ==> #[trigger] pixel_byte(
            bytes,
            stride,
            channels,
            row,
            col,
            k,
        ) == plane_byte(plane, plane_stride, row, col)
}

/// Whether a view has, beyond the samples of each row, what it had before.
pub open spec fn view_padding_kept(
    before: Seq<u16>,
    after: Seq<u16>,
    stride: int,
    row_samples: int,
    height: int,
) -> bool {
    &&& after.len() == before.len()
    &&& forall|row: int, col: int|
        0 <= row < height && row_samples <= col < stride ==> #[trigger] view_sample(
            after,
            stride,
            row,
            col,
        ) == view_sample(before, stride, row, col)
}

/// A view that presents a region has, at every pixel, the region's samples.
pub proof fn lemma_presented_pixels(
    samples: Seq<u16>,
    stride: int,
    bytes: Seq<u8>,
    layout: PlaneLayout,
)
    requires
        presents(samples, stride, bytes, layout),
    ensures
        forall|row: int, col: int, k: int|
            0 <= row < layout.height && 0 <= col < layout.width && 0 <= k < layout.channels
                ==> #[trigger] region_pixel(bytes, layout, row, col, k) == view_pixel(
                samples,
                stride,
                layout.channels as int,
                row,
                col,
                k,
            ),
{
    let channels = layout.channels as int;
    let width = layout.width as int;
    assert forall|row: int, col: int, k: int|
        0 <= row < layout.height && 0 <= col < width && 0 <= k < channels implies #[trigger] region_pixel(
        bytes,
        layout,
        row,
        col,
        k,
    ) == view_pixel(samples, stride, channels, row, col, k) by {
        assert(0 <= channels * col && channels * col + channels <= width * channels)
            by (nonlinear_arith)
            requires
                0 <= col < width,
                0 <= channels,
        ;
        assert(view_sample(samples, stride, row, channels * col + k) == logical_sample(
            bytes,
            layout,
            row,
            channels * col + k,
        ));
    }
}

/// Where a view takes a sample of its pixels from a plane's view, the region
/// that the first presents takes it from the plane that the second presents.
pub proof fn lemma_presented_takes(
    samples: Seq<u16>,
    stride: int,
    bytes: Seq<u8>,
    layout: PlaneLayout,
    k: int,
    plane_view: Seq<u16>,
    plane_stride: int,
    plane: Seq<u8>,
    plane_layout: PlaneLayout,
)
    requires
        presents(samples, stride, bytes, layout),
        presents(plane_view, plane_stride, plane, plane_layout),
        plane_layout.channels == 1,
        plane_layout.width == layout.width,
        plane_layout.height == layout.height,
        0 <= k < layout.channels,
        view_takes(
            samples,
            stride,
            layout.channels as int,
            k,
            plane_view,
            plane_stride,
            layout.width as int,
            layout.height as int,
        ),
    ensures
        region_takes(bytes, layout, k, plane, plane_layout),
{
    lemma_presented_pixels(samples, stride, bytes, layout);
    assert forall|row: int, col: int|
        0 <= row < layout.height && 0 <= col < layout.width implies region_pixel(
        bytes,
        layout,
        row,
        col,
        k,
    ) == #[trigger] logical_sample(plane, plane_layout, row, col) by {
        assert(view_sample(plane_view, plane_stride, row, col) == logical_sample(
            plane,
            plane_layout,
            row,
            col,
        ));
        assert(region_pixel(bytes, layout, row, col, k) == view_pixel(
            samples,
            stride,
            layout.channels as int,
            row,
            col,
            k,
        ));
    }
}

/// A region whose samples in place are, beyond the samples of each row, what
/// they were before has kept its stride padding.
pub proof fn lemma_view_padding_is_region_padding(
    before: Seq<u8>,
    after: Seq<u8>,
    layout: PlaneLayout,
)
    requires
        layout.sample_width == SampleWidth::Two,
        layout.byte_stride % 2 == 0,
        layout.admits(before.len() as int),
        after.len() == before.len(),
        view_padding_kept(
            paired(before),
            paired(after),
            layout.byte_stride as int / 2,
            layout.row_samples(),
            layout.height as int,
        ),
    ensures
        padding_kept(before, after, layout),
{
    let stride = layout.byte_stride as int;
    let half = stride / 2;
    let height = layout.height as int;
    assert(half * 2 == stride);
    assert forall|row: int, offset: int|
        0 <= row < layout.height && layout.row_bytes() <= offset < layout.byte_stride implies #[trigger] byte_at(
        after,
        layout,
        row,
        offset,
    ) == byte_at(before, layout, row, offset) by {
        let col = offset / 2;
        let slot = row * half + col;
        lemma_row_in_region(row, height, half);
        lemma_row_in_region(row, height, stride);
        assert(2 * slot == row * stride + 2 * col) by (nonlinear_arith)
            requires
                half * 2 == stride,
                slot == row * half + col,
        ;
        assert(0 <= slot && 2 * slot + 1 < stride * height) by (nonlinear_arith)
            requires
                0 <= row < height,
                0 <= col < half,
                half * 2 == stride,
                slot == row * half + col,
        ;
        assert(view_sample(paired(after), half, row, col) == view_sample(
            paired(before),
            half,
            row,
            col,
        ));
        lemma_sample_of_injective(
            after[2 * slot],
            after[2 * slot + 1],
            before[2 * slot],
            before[2 * slot + 1],
        );
    }
}

} // verus!
