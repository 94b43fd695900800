//! Kernels from planes of 16-bit samples to interleaved 8-bit pixels.
use crate::checks::narrow_layout;
use crate::content::padding_kept;
use crate::image::{packed_ready, Planar, PlanarAlpha};
use crate::modes::{YuvRange, YuvType};
use vstd::prelude::*;

verus! {

/// Calls `yuv::icgc_ro010_to_rgb`.
/// Asks for planes and a destination of exactly the image's size, rows whole,
/// and for samples below 1024, which the kernel's 16-bit arithmetic can hold;
/// claims that the kernel, whose only refusals are its size checks, accepts
/// them, and that the destination keeps its length. The kernel picks its
/// row handler by the processor, so the samples are not named. Claims what
/// every handler shows: nothing is written beyond the pixels of a row.
#[verifier::external_body]
pub(crate) fn icgc_ro010_to_rgb(
    image: &Planar<u16>,
    dst: &mut [u8],
    dst_stride: u32,
    range: YuvRange,
) -> (outcome: Result<(), yuv::YuvError>)
    requires
        image.ready(YuvType::Yuv420),
        image.below(1024),
        packed_ready(
            old(dst)@.len() as int,
            dst_stride as int,
            image.width as int,
            image.height as int,
            3,
        ),
    ensures
        outcome is Ok,
        final(dst)@.len() == old(dst)@.len(),
        padding_kept(
            old(dst)@,
            final(dst)@,
            narrow_layout(dst_stride, image.width, image.height, 3),
        ),
{
    let planes = yuv::YuvPlanarImage {
        y_plane: image.y_plane, y_stride: image.y_stride,
        u_plane: image.u_plane, u_stride: image.u_stride,
        v_plane: image.v_plane, v_stride: image.v_stride,
        width: image.width, height: image.height,
    };
    let range =
        match range { YuvRange::Tv => yuv::YuvRange::Limited, YuvRange::Pc => yuv::YuvRange::Full };
    yuv::icgc_ro010_to_rgb(&planes, dst, dst_stride, range)
}

/// Calls `yuv::icgc_re010_to_rgb`.
/// Asks for planes and a destination of exactly the image's size, rows whole,
/// and for samples below 1024, which the kernel's 16-bit arithmetic can hold;
/// claims that the kernel, whose only refusals are its size checks, accepts
/// them, and that the destination keeps its length. The kernel picks its
/// row handler by the processor, so the samples are not named. Claims what
/// every handler shows: nothing is written beyond the pixels of a row.
#[verifier::external_body]
pub(crate) fn icgc_re010_to_rgb(
    image: &Planar<u16>,
    dst: &mut [u8],
    dst_stride: u32,
    range: YuvRange,
) -> (outcome: Result<(), yuv::YuvError>)
    requires
        image.ready(YuvType::Yuv420),
        image.below(1024),
        packed_ready(
            old(dst)@.len() as int,
            dst_stride as int,
            image.width as int,
            image.height as int,
            3,
        ),
    ensures
        outcome is Ok,
        final(dst)@.len() == old(dst)@.len(),
        padding_kept(
            old(dst)@,
            final(dst)@,
            narrow_layout(dst_stride, image.width, image.height, 3),
        ),
{
    let planes = yuv::YuvPlanarImage {
        y_plane: image.y_plane, y_stride: image.y_stride,
        u_plane: image.u_plane, u_stride: image.u_stride,
        v_plane: image.v_plane, v_stride: image.v_stride,
        width: image.width, height: image.height,
    };
    let range =
        match range { YuvRange::Tv => yuv::YuvRange::Limited, YuvRange::Pc => yuv::YuvRange::Full };
    yuv::icgc_re010_to_rgb(&planes, dst, dst_stride, range)
}

/// Calls `yuv::icgc_ro210_to_rgb`.
/// Asks for planes and a destination of exactly the image's size, rows whole,
/// and for samples below 1024, which the kernel's 16-bit arithmetic can hold;
/// claims that the kernel, whose only refusals are its size checks, accepts
/// them, and that the destination keeps its length. The kernel picks its
/// row handler by the processor, so the samples are not named. Claims what
/// every handler shows: nothing is written beyond the pixels of a row.
#[verifier::external_body]
pub(crate) fn icgc_ro210_to_rgb(
    image: &Planar<u16>,
    dst: &mut [u8],
    dst_stride: u32,
    range: YuvRange,
) -> (outcome: Result<(), yuv::YuvError>)
    requires
        image.ready(YuvType::Yuv422),
        image.below(1024),
        packed_ready(
            old(dst)@.len() as int,
            dst_stride as int,
            image.width as int,
            image.height as int,
            3,
        ),
    ensures
        outcome is Ok,
        final(dst)@.len() == old(dst)@.len(),
        padding_kept(
            old(dst)@,
            final(dst)@,
            narrow_layout(dst_stride, image.width, image.height, 3),
        ),
{
    let planes = yuv::YuvPlanarImage {
        y_plane: image.y_plane, y_stride: image.y_stride,
        u_plane: image.u_plane, u_stride: image.u_stride,
        v_plane: image.v_plane, v_stride: image.v_stride,
        width: image.width, height: image.height,
    };
    let range =
        match range { YuvRange::Tv => yuv::YuvRange::Limited, YuvRange::Pc => yuv::YuvRange::Full };
    yuv::icgc_ro210_to_rgb(&planes, dst, dst_stride, range)
}

/// Calls `yuv::icgc_re210_to_rgb`.
/// Asks for planes and a destination of exactly the image's size, rows whole,
/// and for samples below 1024, which the kernel's 16-bit arithmetic can hold;
/// claims that the kernel, whose only refusals are its size checks, accepts
/// them, and that the destination keeps its length. The kernel picks its
/// row handler by the processor, so the samples are not named. Claims what
/// every handler shows: nothing is written beyond the pixels of a row.
#[verifier::external_body]
pub(crate) fn icgc_re210_to_rgb(
    image: &Planar<u16>,
    dst: &mut [u8],
    dst_stride: u32,
    range: YuvRange,
) -> (outcome: Result<(), yuv::YuvError>)
    requires
        image.ready(YuvType::Yuv422),
        image.below(1024),
        packed_ready(
            old(dst)@.len() as int,
            dst_stride as int,
            image.width as int,
            image.height as int,
            3,
        ),
    ensures
        outcome is Ok,
        final(dst)@.len() == old(dst)@.len(),
        padding_kept(
            old(dst)@,
            final(dst)@,
            narrow_layout(dst_stride, image.width, image.height, 3),
        ),
{
    let planes = yuv::YuvPlanarImage {
        y_plane: image.y_plane, y_stride: image.y_stride,
        u_plane: image.u_plane, u_stride: image.u_stride,
        v_plane: image.v_plane, v_stride: image.v_stride,
        width: image.width, height: image.height,
    };
    let range =
        match range { YuvRange::Tv => yuv::YuvRange::Limited, YuvRange::Pc => yuv::YuvRange::Full };
    yuv::icgc_re210_to_rgb(&planes, dst, dst_stride, range)
}

/// Calls `yuv::icgc_ro410_to_rgb`.
/// Asks for planes and a destination of exactly the image's size, rows whole,
/// and for samples below 1024, which the kernel's 16-bit arithmetic can hold;
/// claims that the kernel, whose only refusals are its size checks, accepts
/// them, and that the destination keeps its length. The kernel picks its
/// row handler by the processor, so the samples are not named. Claims what
/// every handler shows: nothing is written beyond the pixels of a row.
#[verifier::external_body]
pub(crate) fn icgc_ro410_to_rgb(
    image: &Planar<u16>,
    dst: &mut [u8],
    dst_stride: u32,
    range: YuvRange,
) -> (outcome: Result<(), yuv::YuvError>)
    requires
        image.ready(YuvType::Yuv444),
        image.below(1024),
        packed_ready(
            old(dst)@.len() as int,
            dst_stride as int,
            image.width as int,
            image.height as int,
            3,
        ),
    ensures
        outcome is Ok,
        final(dst)@.len() == old(dst)@.len(),
        padding_kept(
            old(dst)@,
            final(dst)@,
            narrow_layout(dst_stride, image.width, image.height, 3),
        ),
{
    let planes = yuv::YuvPlanarImage {
        y_plane: image.y_plane, y_stride: image.y_stride,
        u_plane: image.u_plane, u_stride: image.u_stride,
        v_plane: image.v_plane, v_stride: image.v_stride,
        width: image.width, height: image.height,
    };
    let range =
        match range { YuvRange::Tv => yuv::YuvRange::Limited, YuvRange::Pc => yuv::YuvRange::Full };
    yuv::icgc_ro410_to_rgb(&planes, dst, dst_stride, range)
}

/// Calls `yuv::icgc_re410_to_rgb`.
/// Asks for planes and a destination of exactly the image's size, rows whole,
/// and for samples below 1024, which the kernel's 16-bit arithmetic can hold;
/// claims that the kernel, whose only refusals are its size checks, accepts
/// them, and that the destination keeps its length. The kernel picks its
/// row handler by the processor, so the samples are not named. Claims what
/// every handler shows: nothing is written beyond the pixels of a row.
#[verifier::external_body]
pub(crate) fn icgc_re410_to_rgb(
    image: &Planar<u16>,
    dst: &mut [u8],
    dst_stride: u32,
    range: YuvRange,
) -> (outcome: Result<(), yuv::YuvError>)
    requires
        image.ready(YuvType::Yuv444),
        image.below(1024),
        packed_ready(
            old(dst)@.len() as int,
            dst_stride as int,
            image.width as int,
            image.height as int,
            3,
        ),
    ensures
        outcome is Ok,
        final(dst)@.len() == old(dst)@.len(),
        padding_kept(
            old(dst)@,
            final(dst)@,
            narrow_layout(dst_stride, image.width, image.height, 3),
        ),
{
    let planes = yuv::YuvPlanarImage {
        y_plane: image.y_plane, y_stride: image.y_stride,
        u_plane: image.u_plane, u_stride: image.u_stride,
        v_plane: image.v_plane, v_stride: image.v_stride,
        width: image.width, height: image.height,
    };
    let range =
        match range { YuvRange::Tv => yuv::YuvRange::Limited, YuvRange::Pc => yuv::YuvRange::Full };
    yuv::icgc_re410_to_rgb(&planes, dst, dst_stride, range)
}

// What `yuv::icgc_ro_alpha010_to_rgba` leaves in its destination: a function of the planes it is
// handed, their strides, the image's size, what the destination held, its
// stride, and the selectors, and of nothing else.
pub uninterp spec fn icgc_ro_alpha010_to_rgba_result(
    y: Seq<u16>,
    y_stride: int,
    u: Seq<u16>,
    u_stride: int,
    v: Seq<u16>,
    v_stride: int,
    a: Seq<u16>,
    a_stride: int,
    width: int,
    height: int,
    dst: Seq<u8>,
    dst_stride: int,
    range: YuvRange,
) -> Seq<u8>;

/// Calls `yuv::icgc_ro_alpha010_to_rgba`.
/// Asks for planes and a destination of exactly the image's size, rows whole,
/// and for samples below 1024, which the kernel's 16-bit arithmetic can hold;
/// claims that the kernel, whose only refusals are its size checks, accepts
/// them, and that the destination keeps its length. The kernel is one
/// piece of integer code, the same on every processor: what it leaves in the
/// destination is given a name.
#[verifier::external_body]
pub(crate) fn icgc_ro_alpha010_to_rgba(
    image: &PlanarAlpha<u16>,
    dst: &mut [u8],
    dst_stride: u32,
    range: YuvRange,
) -> (outcome: Result<(), yuv::YuvError>)
    requires
        image.ready(YuvType::Yuv420),
        image.below(1024),
        packed_ready(
            old(dst)@.len() as int,
            dst_stride as int,
            image.width as int,
            image.height as int,
            4,
        ),
    ensures
        outcome is Ok,
        final(dst)@.len() == old(dst)@.len(),
        final(dst)@ == icgc_ro_alpha010_to_rgba_result(
            image.y_plane@,
            image.y_stride as int,
            image.u_plane@,
            image.u_stride as int,
            image.v_plane@,
            image.v_stride as int,
            image.a_plane@,
            image.a_stride as int,
            image.width as int,
            image.height as int,
            old(dst)@,
            dst_stride as int,
            range,
        ),
{
    let planes = yuv::YuvPlanarImageWithAlpha {
        y_plane: image.y_plane, y_stride: image.y_stride,
        u_plane: image.u_plane, u_stride: image.u_stride,
        v_plane: image.v_plane, v_stride: image.v_stride,
        a_plane: image.a_plane, a_stride: image.a_stride,
        width: image.width, height: image.height,
    };
    let range =
        match range { YuvRange::Tv => yuv::YuvRange::Limited, YuvRange::Pc => yuv::YuvRange::Full };
    yuv::icgc_ro_alpha010_to_rgba(&planes, dst, dst_stride, range)
}

// What `yuv::icgc_re_alpha010_to_rgba` leaves in its destination: a function of the planes it is
// handed, their strides, the image's size, what the destination held, its
// stride, and the selectors, and of nothing else.
pub uninterp spec fn icgc_re_alpha010_to_rgba_result(
    y: Seq<u16>,
    y_stride: int,
    u: Seq<u16>,
    u_stride: int,
    v: Seq<u16>,
    v_stride: int,
    a: Seq<u16>,
    a_stride: int,
    width: int,
    height: int,
    dst: Seq<u8>,
    dst_stride: int,
    range: YuvRange,
) -> Seq<u8>;

/// Calls `yuv::icgc_re_alpha010_to_rgba`.
/// Asks for planes and a destination of exactly the image's size, rows whole,
/// and for samples below 1024, which the kernel's 16-bit arithmetic can hold;
/// claims that the kernel, whose only refusals are its size checks, accepts
/// them, and that the destination keeps its length. The kernel is one
/// piece of integer code, the same on every processor: what it leaves in the
/// destination is given a name.
#[verifier::external_body]
pub(crate) fn icgc_re_alpha010_to_rgba(
    image: &PlanarAlpha<u16>,
    dst: &mut [u8],
    dst_stride: u32,
    range: YuvRange,
) -> (outcome: Result<(), yuv::YuvError>)
    requires
        image.ready(YuvType::Yuv420),
        image.below(1024),
        packed_ready(
            old(dst)@.len() as int,
            dst_stride as int,
            image.width as int,
            image.height as int,
            4,
        ),
    ensures
        outcome is Ok,
        final(dst)@.len() == old(dst)@.len(),
        final(dst)@ == icgc_re_alpha010_to_rgba_result(
            image.y_plane@,
            image.y_stride as int,
            image.u_plane@,
            image.u_stride as int,
            image.v_plane@,
            image.v_stride as int,
            image.a_plane@,
            image.a_stride as int,
            image.width as int,
            image.height as int,
            old(dst)@,
            dst_stride as int,
            range,
        ),
{
    let planes = yuv::YuvPlanarImageWithAlpha {
        y_plane: image.y_plane, y_stride: image.y_stride,
        u_plane: image.u_plane, u_stride: image.u_stride,
        v_plane: image.v_plane, v_stride: image.v_stride,
        a_plane: image.a_plane, a_stride: image.a_stride,
        width: image.width, height: image.height,
    };
    let range =
        match range { YuvRange::Tv => yuv::YuvRange::Limited, YuvRange::Pc => yuv::YuvRange::Full };
    yuv::icgc_re_alpha010_to_rgba(&planes, dst, dst_stride, range)
}

// What `yuv::icgc_ro_alpha210_to_rgba` leaves in its destination: a function of the planes it is
// handed, their strides, the image's size, what the destination held, its
// stride, and the selectors, and of nothing else.
pub uninterp spec fn icgc_ro_alpha210_to_rgba_result(
    y: Seq<u16>,
    y_stride: int,
    u: Seq<u16>,
    u_stride: int,
    v: Seq<u16>,
    v_stride: int,
    a: Seq<u16>,
    a_stride: int,
    width: int,
    height: int,
    dst: Seq<u8>,
    dst_stride: int,
    range: YuvRange,
) -> Seq<u8>;

/// Calls `yuv::icgc_ro_alpha210_to_rgba`.
/// Asks for planes and a destination of exactly the image's size, rows whole,
/// and for samples below 1024, which the kernel's 16-bit arithmetic can hold;
/// claims that the kernel, whose only refusals are its size checks, accepts
/// them, and that the destination keeps its length. The kernel is one
/// piece of integer code, the same on every processor: what it leaves in the
/// destination is given a name.
#[verifier::external_body]
pub(crate) fn icgc_ro_alpha210_to_rgba(
    image: &PlanarAlpha<u16>,
    dst: &mut [u8],
    dst_stride: u32,
    range: YuvRange,
) -> (outcome: Result<(), yuv::YuvError>)
    requires
        image.ready(YuvType::Yuv422),
        image.below(1024),
        packed_ready(
            old(dst)@.len() as int,
            dst_stride as int,
            image.width as int,
            image.height as int,
            4,
        ),
    ensures
        outcome is Ok,
        final(dst)@.len() == old(dst)@.len(),
        final(dst)@ == icgc_ro_alpha210_to_rgba_result(
            image.y_plane@,
            image.y_stride as int,
            image.u_plane@,
            image.u_stride as int,
            image.v_plane@,
            image.v_stride as int,
            image.a_plane@,
            image.a_stride as int,
            image.width as int,
            image.height as int,
            old(dst)@,
            dst_stride as int,
            range,
        ),
{
    let planes = yuv::YuvPlanarImageWithAlpha {
        y_plane: image.y_plane, y_stride: image.y_stride,
        u_plane: image.u_plane, u_stride: image.u_stride,
        v_plane: image.v_plane, v_stride: image.v_stride,
        a_plane: image.a_plane, a_stride: image.a_stride,
        width: image.width, height: image.height,
    };
    let range =
        match range { YuvRange::Tv => yuv::YuvRange::Limited, YuvRange::Pc => yuv::YuvRange::Full };
    yuv::icgc_ro_alpha210_to_rgba(&planes, dst, dst_stride, range)
}

// What `yuv::icgc_re_alpha210_to_rgba` leaves in its destination: a function of the planes it is
// handed, their strides, the image's size, what the destination held, its
// stride, and the selectors, and of nothing else.
pub uninterp spec fn icgc_re_alpha210_to_rgba_result(
    y: Seq<u16>,
    y_stride: int,
    u: Seq<u16>,
    u_stride: int,
    v: Seq<u16>,
    v_stride: int,
    a: Seq<u16>,
    a_stride: int,
    width: int,
    height: int,
    dst: Seq<u8>,
    dst_stride: int,
    range: YuvRange,
) -> Seq<u8>;

/// Calls `yuv::icgc_re_alpha210_to_rgba`.
/// Asks for planes and a destination of exactly the image's size, rows whole,
/// and for samples below 1024, which the kernel's 16-bit arithmetic can hold;
/// claims that the kernel, whose only refusals are its size checks, accepts
/// them, and that the destination keeps its length. The kernel is one
/// piece of integer code, the same on every processor: what it leaves in the
/// destination is given a name.
#[verifier::external_body]
pub(crate) fn icgc_re_alpha210_to_rgba(
    image: &PlanarAlpha<u16>,
    dst: &mut [u8],
    dst_stride: u32,
    range: YuvRange,
) -> (outcome: Result<(), yuv::YuvError>)
    requires
        image.ready(YuvType::Yuv422),
        image.below(1024),
        packed_ready(
            old(dst)@.len() as int,
            dst_stride as int,
            image.width as int,
            image.height as int,
            4,
        ),
    ensures
        outcome is Ok,
        final(dst)@.len() == old(dst)@.len(),
        final(dst)@ == icgc_re_alpha210_to_rgba_result(
            image.y_plane@,
            image.y_stride as int,
            image.u_plane@,
            image.u_stride as int,
            image.v_plane@,
            image.v_stride as int,
            image.a_plane@,
            image.a_stride as int,
            image.width as int,
            image.height as int,
            old(dst)@,
            dst_stride as int,
            range,
        ),
{
    let planes = yuv::YuvPlanarImageWithAlpha {
        y_plane: image.y_plane, y_stride: image.y_stride,
        u_plane: image.u_plane, u_stride: image.u_stride,
        v_plane: image.v_plane, v_stride: image.v_stride,
        a_plane: image.a_plane, a_stride: image.a_stride,
        width: image.width, height: image.height,
    };
    let range =
        match range { YuvRange::Tv => yuv::YuvRange::Limited, YuvRange::Pc => yuv::YuvRange::Full };
    yuv::icgc_re_alpha210_to_rgba(&planes, dst, dst_stride, range)
}

// What `yuv::icgc_ro_alpha410_to_rgba` leaves in its destination: a function of the planes it is
// handed, their strides, the image's size, what the destination held, its
// stride, and the selectors, and of nothing else.
pub uninterp spec fn icgc_ro_alpha410_to_rgba_result(
    y: Seq<u16>,
    y_stride: int,
    u: Seq<u16>,
    u_stride: int,
    v: Seq<u16>,
    v_stride: int,
    a: Seq<u16>,
    a_stride: int,
    width: int,
    height: int,
    dst: Seq<u8>,
    dst_stride: int,
    range: YuvRange,
) -> Seq<u8>;

/// Calls `yuv::icgc_ro_alpha410_to_rgba`.
/// Asks for planes and a destination of exactly the image's size, rows whole,
/// and for samples below 1024, which the kernel's 16-bit arithmetic can hold;
/// claims that the kernel, whose only refusals are its size checks, accepts
/// them, and that the destination keeps its length. The kernel is one
/// piece of integer code, the same on every processor: what it leaves in the
/// destination is given a name.
#[verifier::external_body]
pub(crate) fn icgc_ro_alpha410_to_rgba(
    image: &PlanarAlpha<u16>,
    dst: &mut [u8],
    dst_stride: u32,
    range: YuvRange,
) -> (outcome: Result<(), yuv::YuvError>)
    requires
        image.ready(YuvType::Yuv444),
        image.below(1024),
        packed_ready(
            old(dst)@.len() as int,
            dst_stride as int,
            image.width as int,
            image.height as int,
            4,
        ),
    ensures
        outcome is Ok,
        final(dst)@.len() == old(dst)@.len(),
        final(dst)@ == icgc_ro_alpha410_to_rgba_result(
            image.y_plane@,
            image.y_stride as int,
            image.u_plane@,
            image.u_stride as int,
            image.v_plane@,
            image.v_stride as int,
            image.a_plane@,
            image.a_stride as int,
            image.width as int,
            image.height as int,
            old(dst)@,
            dst_stride as int,
            range,
        ),
{
    let planes = yuv::YuvPlanarImageWithAlpha {
        y_plane: image.y_plane, y_stride: image.y_stride,
        u_plane: image.u_plane, u_stride: image.u_stride,
        v_plane: image.v_plane, v_stride: image.v_stride,
        a_plane: image.a_plane, a_stride: image.a_stride,
        width: image.width, height: image.height,
    };
    let range =
        match range { YuvRange::Tv => yuv::YuvRange::Limited, YuvRange::Pc => yuv::YuvRange::Full };
    yuv::icgc_ro_alpha410_to_rgba(&planes, dst, dst_stride, range)
}

// What `yuv::icgc_re_alpha410_to_rgba` leaves in its destination: a function of the planes it is
// handed, their strides, the image's size, what the destination held, its
// stride, and the selectors, and of nothing else.
pub uninterp spec fn icgc_re_alpha410_to_rgba_result(
    y: Seq<u16>,
    y_stride: int,
    u: Seq<u16>,
    u_stride: int,
    v: Seq<u16>,
    v_stride: int,
    a: Seq<u16>,
    a_stride: int,
    width: int,
    height: int,
    dst: Seq<u8>,
    dst_stride: int,
    range: YuvRange,
) -> Seq<u8>;

/// Calls `yuv::icgc_re_alpha410_to_rgba`.
/// Asks for planes and a destination of exactly the image's size, rows whole,
/// and for samples below 1024, which the kernel's 16-bit arithmetic can hold;
/// claims that the kernel, whose only refusals are its size checks, accepts
/// them, and that the destination keeps its length. The kernel is one
/// piece of integer code, the same on every processor: what it leaves in the
/// destination is given a name.
#[verifier::external_body]
pub(crate) fn icgc_re_alpha410_to_rgba(
    image: &PlanarAlpha<u16>,
    dst: &mut [u8],
    dst_stride: u32,
    range: YuvRange,
) -> (outcome: Result<(), yuv::YuvError>)
    requires
        image.ready(YuvType::Yuv444),
        image.below(1024),
        packed_ready(
            old(dst)@.len() as int,
            dst_stride as int,
            image.width as int,
            image.height as int,
            4,
        ),
    ensures
        outcome is Ok,
        final(dst)@.len() == old(dst)@.len(),
        final(dst)@ == icgc_re_alpha410_to_rgba_result(
            image.y_plane@,
            image.y_stride as int,
            image.u_plane@,
            image.u_stride as int,
            image.v_plane@,
            image.v_stride as int,
            image.a_plane@,
            image.a_stride as int,
            image.width as int,
            image.height as int,
            old(dst)@,
            dst_stride as int,
            range,
        ),
{
    let planes = yuv::YuvPlanarImageWithAlpha {
        y_plane: image.y_plane, y_stride: image.y_stride,
        u_plane: image.u_plane, u_stride: image.u_stride,
        v_plane: image.v_plane, v_stride: image.v_stride,
        a_plane: image.a_plane, a_stride: image.a_stride,
        width: image.width, height: image.height,
    };
    let range =
        match range { YuvRange::Tv => yuv::YuvRange::Limited, YuvRange::Pc => yuv::YuvRange::Full };
    yuv::icgc_re_alpha410_to_rgba(&planes, dst, dst_stride, range)
}

} // verus!
