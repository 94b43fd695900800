//! Kernels from interleaved 16-bit pixels to packed 30-bit pixels.
use crate::checks::narrow_layout;
use crate::image::packed_ready;
use crate::packed::{view_packed, ByteOrder};
use vstd::prelude::*;

verus! {

/// Calls `yuv::rgba10_to_ra30`.
/// Asks for a source and a destination of exactly the image's size, rows
/// whole; claims that the kernel, whose only refusals are its size checks,
/// accepts them, and that the destination keeps its length. The kernel is
/// the same shifts and ors on every processor: claims that it leaves in the
/// four bytes of every pixel the word of the source's pixel, its samples
/// shifted down to ten bits and its alpha to two, stored in `order`, and
/// that it writes no byte beyond the pixels of a row.
#[verifier::external_body]
pub(crate) fn rgba10_to_ra30(
    ar30: &mut [u8],
    ar30_stride: u32,
    order: ByteOrder,
    src: &[u16],
    src_stride: u32,
    width: u32,
    height: u32,
) -> (outcome: Result<(), yuv::YuvError>)
    requires
        packed_ready(old(ar30)@.len() as int, ar30_stride as int, width as int, height as int, 4),
        packed_ready(src@.len() as int, src_stride as int, width as int, height as int, 4),
    ensures
        outcome is Ok,
        final(ar30)@.len() == old(ar30)@.len(),
        view_packed(
            src@,
            src_stride as int,
            4,
            old(ar30)@,
            final(ar30)@,
            narrow_layout(ar30_stride, width, height, 4),
            10,
            order,
        ),
{
    let order = match order {
        ByteOrder::Host => yuv::Rgb30ByteOrder::Host,
        ByteOrder::Network => yuv::Rgb30ByteOrder::Network,
    };
    yuv::rgba10_to_ra30(ar30, ar30_stride, order, src, src_stride, width, height)
}

/// Calls `yuv::rgba12_to_ra30`.
/// Asks for a source and a destination of exactly the image's size, rows
/// whole; claims that the kernel, whose only refusals are its size checks,
/// accepts them, and that the destination keeps its length. The kernel is
/// the same shifts and ors on every processor: claims that it leaves in the
/// four bytes of every pixel the word of the source's pixel, its samples
/// shifted down to ten bits and its alpha to two, stored in `order`, and
/// that it writes no byte beyond the pixels of a row.
#[verifier::external_body]
pub(crate) fn rgba12_to_ra30(
    ar30: &mut [u8],
    ar30_stride: u32,
    order: ByteOrder,
    src: &[u16],
    src_stride: u32,
    width: u32,
    height: u32,
) -> (outcome: Result<(), yuv::YuvError>)
    requires
        packed_ready(old(ar30)@.len() as int, ar30_stride as int, width as int, height as int, 4),
        packed_ready(src@.len() as int, src_stride as int, width as int, height as int, 4),
    ensures
        outcome is Ok,
        final(ar30)@.len() == old(ar30)@.len(),
        view_packed(
            src@,
            src_stride as int,
            4,
            old(ar30)@,
            final(ar30)@,
            narrow_layout(ar30_stride, width, height, 4),
            12,
            order,
        ),
{
    let order = match order {
        ByteOrder::Host => yuv::Rgb30ByteOrder::Host,
        ByteOrder::Network => yuv::Rgb30ByteOrder::Network,
    };
    yuv::rgba12_to_ra30(ar30, ar30_stride, order, src, src_stride, width, height)
}

/// Calls `yuv::rgb10_to_ra30`.
/// Asks for a source and a destination of exactly the image's size, rows
/// whole; claims that the kernel, whose only refusals are its size checks,
/// accepts them, and that the destination keeps its length. The kernel is
/// the same shifts and ors on every processor: claims that it leaves in the
/// four bytes of every pixel the word of the source's pixel, its samples
/// shifted down to ten bits and its alpha to two, stored in `order`, and
/// that it writes no byte beyond the pixels of a row.
#[verifier::external_body]
pub(crate) fn rgb10_to_ra30(
    ar30: &mut [u8],
    ar30_stride: u32,
    order: ByteOrder,
    src: &[u16],
    src_stride: u32,
    width: u32,
    height: u32,
) -> (outcome: Result<(), yuv::YuvError>)
    requires
        packed_ready(old(ar30)@.len() as int, ar30_stride as int, width as int, height as int, 4),
        packed_ready(src@.len() as int, src_stride as int, width as int, height as int, 3),
    ensures
        outcome is Ok,
        final(ar30)@.len() == old(ar30)@.len(),
        view_packed(
            src@,
            src_stride as int,
            3,
            old(ar30)@,
            final(ar30)@,
            narrow_layout(ar30_stride, width, height, 4),
            10,
            order,
        ),
{
    let order = match order {
        ByteOrder::Host => yuv::Rgb30ByteOrder::Host,
        ByteOrder::Network => yuv::Rgb30ByteOrder::Network,
    };
    yuv::rgb10_to_ra30(ar30, ar30_stride, order, src, src_stride, width, height)
}

/// Calls `yuv::rgb12_to_ra30`.
/// Asks for a source and a destination of exactly the image's size, rows
/// whole; claims that the kernel, whose only refusals are its size checks,
/// accepts them, and that the destination keeps its length. The kernel is
/// the same shifts and ors on every processor: claims that it leaves in the
/// four bytes of every pixel the word of the source's pixel, its samples
/// shifted down to ten bits and its alpha to two, stored in `order`, and
/// that it writes no byte beyond the pixels of a row.
#[verifier::external_body]
pub(crate) fn rgb12_to_ra30(
    ar30: &mut [u8],
    ar30_stride: u32,
    order: ByteOrder,
    src: &[u16],
    src_stride: u32,
    width: u32,
    height: u32,
) -> (outcome: Result<(), yuv::YuvError>)
    requires
        packed_ready(old(ar30)@.len() as int, ar30_stride as int, width as int, height as int, 4),
        packed_ready(src@.len() as int, src_stride as int, width as int, height as int, 3),
    ensures
        outcome is Ok,
        final(ar30)@.len() == old(ar30)@.len(),
        view_packed(
            src@,
            src_stride as int,
            3,
            old(ar30)@,
            final(ar30)@,
            narrow_layout(ar30_stride, width, height, 4),
            12,
            order,
        ),
{
    let order = match order {
        ByteOrder::Host => yuv::Rgb30ByteOrder::Host,
        ByteOrder::Network => yuv::Rgb30ByteOrder::Network,
    };
    yuv::rgb12_to_ra30(ar30, ar30_stride, order, src, src_stride, width, height)
}

} // verus!
