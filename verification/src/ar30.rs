//! From interleaved 16-bit RGB pixels to packed 30-bit pixels.
use crate::checks::{
    check_depth, check_image, check_narrow_plane, converts_narrow, depth_fault, empty_fault,
    narrow_layout, or_else, read_plane, wide_layout,
};
use crate::destination::settle_direct;
use crate::dispatch::{
    rgb_u16_to_ra30_kernel, rgba_u16_to_ra30_kernel, RgbRa30Kernel, RgbaRa30Kernel,
};
use crate::error::PixartError;
use crate::kernels::ar30::{rgb10_to_ra30, rgb12_to_ra30, rgba10_to_ra30, rgba12_to_ra30};
use crate::layout::PlaneLayout;
use crate::packed::{lemma_view_packed_is_region_packed, region_packed, ByteOrder};
use vstd::prelude::*;

verus! {

/// The fault for which a conversion to packed 30-bit pixels refuses its
/// arguments, if any: an empty image, then an unsupported bit depth, then
/// the source of `channels` samples per pixel, then the destination of four
/// bytes per pixel.
pub open spec fn ra30_fault(
    source_len: int,
    source_stride: u32,
    channels: usize,
    ar30_len: int,
    ar30_stride: u32,
    bit_depth: u32,
    width: u32,
    height: u32,
) -> Option<PixartError> {
    or_else(
        empty_fault(width as int, height as int),
        or_else(
            depth_fault(bit_depth as int),
            or_else(
                wide_layout(source_stride, width, height, channels).fault(source_len),
                narrow_layout(ar30_stride, width, height, 4).fault(ar30_len),
            ),
        ),
    )
}

/// Packs interleaved RGBA of 10-bit or 12-bit samples into 30-bit pixels in
/// network byte order. The source is adapted; the destination, a region of
/// bytes, needs no adaptation. Each pixel takes the highest ten bits of its
/// three colours and the highest two of its alpha; stride padding is left as
/// it was.
pub fn pixart_rgba_u16_to_ra30(
    source_u16: &[u8],
    u16_stride: u32,
    ar30_dst: &mut [u8],
    ar30_stride: u32,
    bit_depth: u32,
    width: u32,
    height: u32,
) -> (outcome: Result<(), PixartError>)
    ensures
        converts_narrow(
            outcome,
            ra30_fault(
                source_u16@.len() as int,
                u16_stride,
                4,
                old(ar30_dst)@.len() as int,
                ar30_stride,
                bit_depth,
                width,
                height,
            ),
            old(ar30_dst)@,
            final(ar30_dst)@,
        ),
        outcome is Ok ==> region_packed(
            source_u16@,
            wide_layout(u16_stride, width, height, 4),
            old(ar30_dst)@,
            final(ar30_dst)@,
            narrow_layout(ar30_stride, width, height, 4),
            bit_depth as int,
        ),
{
    check_image(width, height)?;
    check_depth(bit_depth)?;
    let layout = PlaneLayout::wide(u16_stride, width, height, 4);
    let (source, stride) = read_plane(source_u16, &layout)?;
    check_narrow_plane(ar30_dst.len(), &PlaneLayout::narrow(ar30_stride, width, height, 4))?;
    let order = ByteOrder::Network;
    let ghost before = ar30_dst@;
    let verdict = match rgba_u16_to_ra30_kernel(bit_depth) {
        RgbaRa30Kernel::Rgba10ToRa30 => rgba10_to_ra30(
            ar30_dst,
            ar30_stride,
            order,
            source.as_slice(),
            stride,
            width,
            height,
        ),
        RgbaRa30Kernel::Rgba12ToRa30 => rgba12_to_ra30(
            ar30_dst,
            ar30_stride,
            order,
            source.as_slice(),
            stride,
            width,
            height,
        ),
    };
    proof {
        lemma_view_packed_is_region_packed(
            source.samples(),
            stride as int,
            source_u16@,
            layout,
            before,
            ar30_dst@,
            narrow_layout(ar30_stride, width, height, 4),
            bit_depth as int,
        );
    }
    settle_direct(verdict)
}

/// Packs interleaved RGB of 10-bit or 12-bit samples into 30-bit pixels in
/// network byte order. The source is adapted; the destination, a region of
/// bytes, needs no adaptation. Each pixel takes the highest ten bits of its
/// three colours and is opaque; stride padding is left as it was.
pub fn pixart_rgb_u16_to_ra30(
    source_u16: &[u8],
    u16_stride: u32,
    ar30_dst: &mut [u8],
    ar30_stride: u32,
    bit_depth: u32,
    width: u32,
    height: u32,
) -> (outcome: Result<(), PixartError>)
    ensures
        converts_narrow(
            outcome,
            ra30_fault(
                source_u16@.len() as int,
                u16_stride,
                3,
                old(ar30_dst)@.len() as int,
                ar30_stride,
                bit_depth,
                width,
                height,
            ),
            old(ar30_dst)@,
            final(ar30_dst)@,
        ),
        outcome is Ok ==> region_packed(
            source_u16@,
            wide_layout(u16_stride, width, height, 3),
            old(ar30_dst)@,
            final(ar30_dst)@,
            narrow_layout(ar30_stride, width, height, 4),
            bit_depth as int,
        ),
{
    check_image(width, height)?;
    check_depth(bit_depth)?;
    let layout = PlaneLayout::wide(u16_stride, width, height, 3);
    let (source, stride) = read_plane(source_u16, &layout)?;
    check_narrow_plane(ar30_dst.len(), &PlaneLayout::narrow(ar30_stride, width, height, 4))?;
    let order = ByteOrder::Network;
    let ghost before = ar30_dst@;
    let verdict = match rgb_u16_to_ra30_kernel(bit_depth) {
        RgbRa30Kernel::Rgb10ToRa30 => rgb10_to_ra30(
            ar30_dst,
            ar30_stride,
            order,
            source.as_slice(),
            stride,
            width,
            height,
        ),
        RgbRa30Kernel::Rgb12ToRa30 => rgb12_to_ra30(
            ar30_dst,
            ar30_stride,
            order,
            source.as_slice(),
            stride,
            width,
            height,
        ),
    };
    proof {
        lemma_view_packed_is_region_packed(
            source.samples(),
            stride as int,
            source_u16@,
            layout,
            before,
            ar30_dst@,
            narrow_layout(ar30_stride, width, height, 4),
            bit_depth as int,
        );
    }
    settle_direct(verdict)
}

} // verus!
