//! Kernels from planes of 8-bit samples to interleaved 8-bit pixels.
use crate::checks::narrow_layout;
use crate::content::padding_kept;
use crate::image::{packed_ready, Gray, GrayAlpha, Planar, PlanarAlpha};
use crate::modes::{StandardMatrix, YuvRange, YuvType};
use crate::pixels::bytes_take;
use vstd::prelude::*;

verus! {

/// Calls `yuv::yuv420_to_rgb`.
/// Asks for planes and a destination of exactly the image's size, rows whole;
/// claims that the kernel, whose only refusals are its size checks, accepts
/// them, and that the destination keeps its length.
#[verifier::external_body]
pub(crate) fn yuv420_to_rgb(
    image: &Planar<u8>,
    dst: &mut [u8],
    dst_stride: u32,
    range: YuvRange,
    matrix: StandardMatrix,
) -> (outcome: Result<(), yuv::YuvError>)
    requires
        image.ready(YuvType::Yuv420),
        packed_ready(
            old(dst)@.len() as int,
            dst_stride as int,
            image.width as int,
            image.height as int,
            3,
        ),
    ensures
        outcome is Ok,
        final(dst)@.len() == old(dst)@.len(),
{
    let planes = yuv::YuvPlanarImage {
        y_plane: image.y_plane, y_stride: image.y_stride,
        u_plane: image.u_plane, u_stride: image.u_stride,
        v_plane: image.v_plane, v_stride: image.v_stride,
        width: image.width, height: image.height,
    };
    let range =
        match range { YuvRange::Tv => yuv::YuvRange::Limited, YuvRange::Pc => yuv::YuvRange::Full };
    let matrix = match matrix {
        StandardMatrix::Bt601 => yuv::YuvStandardMatrix::Bt601,
        StandardMatrix::Bt709 => yuv::YuvStandardMatrix::Bt709,
        StandardMatrix::Bt2020 => yuv::YuvStandardMatrix::Bt2020,
    };
    yuv::yuv420_to_rgb(&planes, dst, dst_stride, range, matrix)
}

/// Calls `yuv::yuv422_to_rgb`.
/// Asks for planes and a destination of exactly the image's size, rows whole;
/// claims that the kernel, whose only refusals are its size checks, accepts
/// them, and that the destination keeps its length.
#[verifier::external_body]
pub(crate) fn yuv422_to_rgb(
    image: &Planar<u8>,
    dst: &mut [u8],
    dst_stride: u32,
    range: YuvRange,
    matrix: StandardMatrix,
) -> (outcome: Result<(), yuv::YuvError>)
    requires
        image.ready(YuvType::Yuv422),
        packed_ready(
            old(dst)@.len() as int,
            dst_stride as int,
            image.width as int,
            image.height as int,
            3,
        ),
    ensures
        outcome is Ok,
        final(dst)@.len() == old(dst)@.len(),
{
    let planes = yuv::YuvPlanarImage {
        y_plane: image.y_plane, y_stride: image.y_stride,
        u_plane: image.u_plane, u_stride: image.u_stride,
        v_plane: image.v_plane, v_stride: image.v_stride,
        width: image.width, height: image.height,
    };
    let range =
        match range { YuvRange::Tv => yuv::YuvRange::Limited, YuvRange::Pc => yuv::YuvRange::Full };
    let matrix = match matrix {
        StandardMatrix::Bt601 => yuv::YuvStandardMatrix::Bt601,
        StandardMatrix::Bt709 => yuv::YuvStandardMatrix::Bt709,
        StandardMatrix::Bt2020 => yuv::YuvStandardMatrix::Bt2020,
    };
    yuv::yuv422_to_rgb(&planes, dst, dst_stride, range, matrix)
}

/// Calls `yuv::yuv444_to_rgb`.
/// Asks for planes and a destination of exactly the image's size, rows whole;
/// claims that the kernel, whose only refusals are its size checks, accepts
/// them, and that the destination keeps its length.
#[verifier::external_body]
pub(crate) fn yuv444_to_rgb(
    image: &Planar<u8>,
    dst: &mut [u8],
    dst_stride: u32,
    range: YuvRange,
    matrix: StandardMatrix,
) -> (outcome: Result<(), yuv::YuvError>)
    requires
        image.ready(YuvType::Yuv444),
        packed_ready(
            old(dst)@.len() as int,
            dst_stride as int,
            image.width as int,
            image.height as int,
            3,
        ),
    ensures
        outcome is Ok,
        final(dst)@.len() == old(dst)@.len(),
{
    let planes = yuv::YuvPlanarImage {
        y_plane: image.y_plane, y_stride: image.y_stride,
        u_plane: image.u_plane, u_stride: image.u_stride,
        v_plane: image.v_plane, v_stride: image.v_stride,
        width: image.width, height: image.height,
    };
    let range =
        match range { YuvRange::Tv => yuv::YuvRange::Limited, YuvRange::Pc => yuv::YuvRange::Full };
    let matrix = match matrix {
        StandardMatrix::Bt601 => yuv::YuvStandardMatrix::Bt601,
        StandardMatrix::Bt709 => yuv::YuvStandardMatrix::Bt709,
        StandardMatrix::Bt2020 => yuv::YuvStandardMatrix::Bt2020,
    };
    yuv::yuv444_to_rgb(&planes, dst, dst_stride, range, matrix)
}

/// Calls `yuv::gbr_to_rgba`.
/// Asks for planes and a destination of exactly the image's size, rows whole;
/// claims that the kernel, whose only refusals are its size checks, accepts
/// them, and that the destination keeps its length.
#[verifier::external_body]
pub(crate) fn gbr_to_rgba(
    image: &Planar<u8>,
    dst: &mut [u8],
    dst_stride: u32,
    range: YuvRange,
) -> (outcome: Result<(), yuv::YuvError>)
    requires
        image.ready(YuvType::Yuv444),
        packed_ready(
            old(dst)@.len() as int,
            dst_stride as int,
            image.width as int,
            image.height as int,
            4,
        ),
    ensures
        outcome is Ok,
        final(dst)@.len() == old(dst)@.len(),
{
    let planes = yuv::YuvPlanarImage {
        y_plane: image.y_plane, y_stride: image.y_stride,
        u_plane: image.u_plane, u_stride: image.u_stride,
        v_plane: image.v_plane, v_stride: image.v_stride,
        width: image.width, height: image.height,
    };
    let range =
        match range { YuvRange::Tv => yuv::YuvRange::Limited, YuvRange::Pc => yuv::YuvRange::Full };
    yuv::gbr_to_rgba(&planes, dst, dst_stride, range)
}

// What `yuv::ycgco420_to_rgb` leaves in its destination at limited range: a function of
// the planes it is handed, their strides, the image's size, what the
// destination held and its stride, and of nothing else.
pub uninterp spec fn ycgco420_to_rgb_result(
    y: Seq<u8>,
    y_stride: int,
    u: Seq<u8>,
    u_stride: int,
    v: Seq<u8>,
    v_stride: int,
    width: int,
    height: int,
    dst: Seq<u8>,
    dst_stride: int,
) -> Seq<u8>;

/// Calls `yuv::ycgco420_to_rgb`.
/// Asks for planes and a destination of exactly the image's size, rows whole;
/// claims that the kernel, whose only refusals are its size checks, accepts
/// them, and that the destination keeps its length. At limited range the
/// kernel has no row handler picked by the processor: one piece of integer
/// code does every pixel, so what it leaves in the destination is given a
/// name, and it writes nothing beyond the pixels of a row. Of full range,
/// where the processor picks the row handler, nothing more is claimed.
#[verifier::external_body]
pub(crate) fn ycgco420_to_rgb(
    image: &Planar<u8>,
    dst: &mut [u8],
    dst_stride: u32,
    range: YuvRange,
) -> (outcome: Result<(), yuv::YuvError>)
    requires
        image.ready(YuvType::Yuv420),
        packed_ready(
            old(dst)@.len() as int,
            dst_stride as int,
            image.width as int,
            image.height as int,
            3,
        ),
    ensures
        outcome is Ok,
        final(dst)@.len() == old(dst)@.len(),
        range == YuvRange::Tv ==> final(dst)@ == ycgco420_to_rgb_result(
            image.y_plane@,
            image.y_stride as int,
            image.u_plane@,
            image.u_stride as int,
            image.v_plane@,
            image.v_stride as int,
            image.width as int,
            image.height as int,
            old(dst)@,
            dst_stride as int,
        ),
        range == YuvRange::Tv ==> padding_kept(
            old(dst)@,
            final(dst)@,
            narrow_layout(dst_stride, image.width, image.height, 3),
        ),
{
    let planes = yuv::YuvPlanarImage {
        y_plane: image.y_plane, y_stride: image.y_stride,
        u_plane: image.u_plane, u_stride: image.u_stride,
        v_plane: image.v_plane, v_stride: image.v_stride,
        width: image.width, height: image.height,
    };
    let range =
        match range { YuvRange::Tv => yuv::YuvRange::Limited, YuvRange::Pc => yuv::YuvRange::Full };
    yuv::ycgco420_to_rgb(&planes, dst, dst_stride, range)
}

// What `yuv::ycgco422_to_rgb` leaves in its destination at limited range: a function of
// the planes it is handed, their strides, the image's size, what the
// destination held and its stride, and of nothing else.
pub uninterp spec fn ycgco422_to_rgb_result(
    y: Seq<u8>,
    y_stride: int,
    u: Seq<u8>,
    u_stride: int,
    v: Seq<u8>,
    v_stride: int,
    width: int,
    height: int,
    dst: Seq<u8>,
    dst_stride: int,
) -> Seq<u8>;

/// Calls `yuv::ycgco422_to_rgb`.
/// Asks for planes and a destination of exactly the image's size, rows whole;
/// claims that the kernel, whose only refusals are its size checks, accepts
/// them, and that the destination keeps its length. At limited range the
/// kernel has no row handler picked by the processor: one piece of integer
/// code does every pixel, so what it leaves in the destination is given a
/// name, and it writes nothing beyond the pixels of a row. Of full range,
/// where the processor picks the row handler, nothing more is claimed.
#[verifier::external_body]
pub(crate) fn ycgco422_to_rgb(
    image: &Planar<u8>,
    dst: &mut [u8],
    dst_stride: u32,
    range: YuvRange,
) -> (outcome: Result<(), yuv::YuvError>)
    requires
        image.ready(YuvType::Yuv422),
        packed_ready(
            old(dst)@.len() as int,
            dst_stride as int,
            image.width as int,
            image.height as int,
            3,
        ),
    ensures
        outcome is Ok,
        final(dst)@.len() == old(dst)@.len(),
        range == YuvRange::Tv ==> final(dst)@ == ycgco422_to_rgb_result(
            image.y_plane@,
            image.y_stride as int,
            image.u_plane@,
            image.u_stride as int,
            image.v_plane@,
            image.v_stride as int,
            image.width as int,
            image.height as int,
            old(dst)@,
            dst_stride as int,
        ),
        range == YuvRange::Tv ==> padding_kept(
            old(dst)@,
            final(dst)@,
            narrow_layout(dst_stride, image.width, image.height, 3),
        ),
{
    let planes = yuv::YuvPlanarImage {
        y_plane: image.y_plane, y_stride: image.y_stride,
        u_plane: image.u_plane, u_stride: image.u_stride,
        v_plane: image.v_plane, v_stride: image.v_stride,
        width: image.width, height: image.height,
    };
    let range =
        match range { YuvRange::Tv => yuv::YuvRange::Limited, YuvRange::Pc => yuv::YuvRange::Full };
    yuv::ycgco422_to_rgb(&planes, dst, dst_stride, range)
}

// What `yuv::ycgco444_to_rgb` leaves in its destination at limited range: a function of
// the planes it is handed, their strides, the image's size, what the
// destination held and its stride, and of nothing else.
pub uninterp spec fn ycgco444_to_rgb_result(
    y: Seq<u8>,
    y_stride: int,
    u: Seq<u8>,
    u_stride: int,
    v: Seq<u8>,
    v_stride: int,
    width: int,
    height: int,
    dst: Seq<u8>,
    dst_stride: int,
) -> Seq<u8>;

/// Calls `yuv::ycgco444_to_rgb`.
/// Asks for planes and a destination of exactly the image's size, rows whole;
/// claims that the kernel, whose only refusals are its size checks, accepts
/// them, and that the destination keeps its length. At limited range the
/// kernel has no row handler picked by the processor: one piece of integer
/// code does every pixel, so what it leaves in the destination is given a
/// name, and it writes nothing beyond the pixels of a row. Of full range,
/// where the processor picks the row handler, nothing more is claimed.
#[verifier::external_body]
pub(crate) fn ycgco444_to_rgb(
    image: &Planar<u8>,
    dst: &mut [u8],
    dst_stride: u32,
    range: YuvRange,
) -> (outcome: Result<(), yuv::YuvError>)
    requires
        image.ready(YuvType::Yuv444),
        packed_ready(
            old(dst)@.len() as int,
            dst_stride as int,
            image.width as int,
            image.height as int,
            3,
        ),
    ensures
        outcome is Ok,
        final(dst)@.len() == old(dst)@.len(),
        range == YuvRange::Tv ==> final(dst)@ == ycgco444_to_rgb_result(
            image.y_plane@,
            image.y_stride as int,
            image.u_plane@,
            image.u_stride as int,
            image.v_plane@,
            image.v_stride as int,
            image.width as int,
            image.height as int,
            old(dst)@,
            dst_stride as int,
        ),
        range == YuvRange::Tv ==> padding_kept(
            old(dst)@,
            final(dst)@,
            narrow_layout(dst_stride, image.width, image.height, 3),
        ),
{
    let planes = yuv::YuvPlanarImage {
        y_plane: image.y_plane, y_stride: image.y_stride,
        u_plane: image.u_plane, u_stride: image.u_stride,
        v_plane: image.v_plane, v_stride: image.v_stride,
        width: image.width, height: image.height,
    };
    let range =
        match range { YuvRange::Tv => yuv::YuvRange::Limited, YuvRange::Pc => yuv::YuvRange::Full };
    yuv::ycgco444_to_rgb(&planes, dst, dst_stride, range)
}

/// Calls `yuv::yuv420_alpha_to_rgba`.
/// Asks for planes and a destination of exactly the image's size, rows whole;
/// claims that the kernel, whose only refusals are its size checks, accepts
/// them, and that the destination keeps its length.
#[verifier::external_body]
pub(crate) fn yuv420_alpha_to_rgba(
    image: &PlanarAlpha<u8>,
    dst: &mut [u8],
    dst_stride: u32,
    range: YuvRange,
    matrix: StandardMatrix,
    premultiply_alpha: bool,
) -> (outcome: Result<(), yuv::YuvError>)
    requires
        image.ready(YuvType::Yuv420),
        packed_ready(
            old(dst)@.len() as int,
            dst_stride as int,
            image.width as int,
            image.height as int,
            4,
        ),
    ensures
        outcome is Ok,
        final(dst)@.len() == old(dst)@.len(),
{
    let planes = yuv::YuvPlanarImageWithAlpha {
        y_plane: image.y_plane, y_stride: image.y_stride,
        u_plane: image.u_plane, u_stride: image.u_stride,
        v_plane: image.v_plane, v_stride: image.v_stride,
        a_plane: image.a_plane, a_stride: image.a_stride,
        width: image.width, height: image.height,
    };
    let range =
        match range { YuvRange::Tv => yuv::YuvRange::Limited, YuvRange::Pc => yuv::YuvRange::Full };
    let matrix = match matrix {
        StandardMatrix::Bt601 => yuv::YuvStandardMatrix::Bt601,
        StandardMatrix::Bt709 => yuv::YuvStandardMatrix::Bt709,
        StandardMatrix::Bt2020 => yuv::YuvStandardMatrix::Bt2020,
    };
    yuv::yuv420_alpha_to_rgba(&planes, dst, dst_stride, range, matrix, premultiply_alpha)
}

/// Calls `yuv::yuv422_alpha_to_rgba`.
/// Asks for planes and a destination of exactly the image's size, rows whole;
/// claims that the kernel, whose only refusals are its size checks, accepts
/// them, and that the destination keeps its length.
#[verifier::external_body]
pub(crate) fn yuv422_alpha_to_rgba(
    image: &PlanarAlpha<u8>,
    dst: &mut [u8],
    dst_stride: u32,
    range: YuvRange,
    matrix: StandardMatrix,
    premultiply_alpha: bool,
) -> (outcome: Result<(), yuv::YuvError>)
    requires
        image.ready(YuvType::Yuv422),
        packed_ready(
            old(dst)@.len() as int,
            dst_stride as int,
            image.width as int,
            image.height as int,
            4,
        ),
    ensures
        outcome is Ok,
        final(dst)@.len() == old(dst)@.len(),
{
    let planes = yuv::YuvPlanarImageWithAlpha {
        y_plane: image.y_plane, y_stride: image.y_stride,
        u_plane: image.u_plane, u_stride: image.u_stride,
        v_plane: image.v_plane, v_stride: image.v_stride,
        a_plane: image.a_plane, a_stride: image.a_stride,
        width: image.width, height: image.height,
    };
    let range =
        match range { YuvRange::Tv => yuv::YuvRange::Limited, YuvRange::Pc => yuv::YuvRange::Full };
    let matrix = match matrix {
        StandardMatrix::Bt601 => yuv::YuvStandardMatrix::Bt601,
        StandardMatrix::Bt709 => yuv::YuvStandardMatrix::Bt709,
        StandardMatrix::Bt2020 => yuv::YuvStandardMatrix::Bt2020,
    };
    yuv::yuv422_alpha_to_rgba(&planes, dst, dst_stride, range, matrix, premultiply_alpha)
}

/// Calls `yuv::yuv444_alpha_to_rgba`.
/// Asks for planes and a destination of exactly the image's size, rows whole;
/// claims that the kernel, whose only refusals are its size checks, accepts
/// them, and that the destination keeps its length.
#[verifier::external_body]
pub(crate) fn yuv444_alpha_to_rgba(
    image: &PlanarAlpha<u8>,
    dst: &mut [u8],
    dst_stride: u32,
    range: YuvRange,
    matrix: StandardMatrix,
    premultiply_alpha: bool,
) -> (outcome: Result<(), yuv::YuvError>)
    requires
        image.ready(YuvType::Yuv444),
        packed_ready(
            old(dst)@.len() as int,
            dst_stride as int,
            image.width as int,
            image.height as int,
            4,
        ),
    ensures
        outcome is Ok,
        final(dst)@.len() == old(dst)@.len(),
{
    let planes = yuv::YuvPlanarImageWithAlpha {
        y_plane: image.y_plane, y_stride: image.y_stride,
        u_plane: image.u_plane, u_stride: image.u_stride,
        v_plane: image.v_plane, v_stride: image.v_stride,
        a_plane: image.a_plane, a_stride: image.a_stride,
        width: image.width, height: image.height,
    };
    let range =
        match range { YuvRange::Tv => yuv::YuvRange::Limited, YuvRange::Pc => yuv::YuvRange::Full };
    let matrix = match matrix {
        StandardMatrix::Bt601 => yuv::YuvStandardMatrix::Bt601,
        StandardMatrix::Bt709 => yuv::YuvStandardMatrix::Bt709,
        StandardMatrix::Bt2020 => yuv::YuvStandardMatrix::Bt2020,
    };
    yuv::yuv444_alpha_to_rgba(&planes, dst, dst_stride, range, matrix, premultiply_alpha)
}

// What `yuv::gbr_with_alpha_to_rgba` leaves in its destination: a function of the planes it is
// handed, their strides, the image's size, what the destination held, its
// stride, and the selectors, and of nothing else.
pub uninterp spec fn gbr_with_alpha_to_rgba_result(
    y: Seq<u8>,
    y_stride: int,
    u: Seq<u8>,
    u_stride: int,
    v: Seq<u8>,
    v_stride: int,
    a: Seq<u8>,
    a_stride: int,
    width: int,
    height: int,
    dst: Seq<u8>,
    dst_stride: int,
    range: YuvRange,
) -> Seq<u8>;

/// Calls `yuv::gbr_with_alpha_to_rgba`.
/// Asks for planes and a destination of exactly the image's size, rows whole;
/// claims that the kernel, whose only refusals are its size checks, accepts
/// them, and that the destination keeps its length. The kernel is one
/// piece of integer code, the same on every processor: what it leaves in the
/// destination is given a name.
#[verifier::external_body]
pub(crate) fn gbr_with_alpha_to_rgba(
    image: &PlanarAlpha<u8>,
    dst: &mut [u8],
    dst_stride: u32,
    range: YuvRange,
) -> (outcome: Result<(), yuv::YuvError>)
    requires
        image.ready(YuvType::Yuv444),
        packed_ready(
            old(dst)@.len() as int,
            dst_stride as int,
            image.width as int,
            image.height as int,
            4,
        ),
    ensures
        outcome is Ok,
        final(dst)@.len() == old(dst)@.len(),
        final(dst)@ == gbr_with_alpha_to_rgba_result(
            image.y_plane@,
            image.y_stride as int,
            image.u_plane@,
            image.u_stride as int,
            image.v_plane@,
            image.v_stride as int,
            image.a_plane@,
            image.a_stride as int,
            image.width as int,
            image.height as int,
            old(dst)@,
            dst_stride as int,
            range,
        ),
{
    let planes = yuv::YuvPlanarImageWithAlpha {
        y_plane: image.y_plane, y_stride: image.y_stride,
        u_plane: image.u_plane, u_stride: image.u_stride,
        v_plane: image.v_plane, v_stride: image.v_stride,
        a_plane: image.a_plane, a_stride: image.a_stride,
        width: image.width, height: image.height,
    };
    let range =
        match range { YuvRange::Tv => yuv::YuvRange::Limited, YuvRange::Pc => yuv::YuvRange::Full };
    yuv::gbr_with_alpha_to_rgba(&planes, dst, dst_stride, range)
}

// What `yuv::ycgco420_alpha_to_rgba` leaves in its destination: a function of the planes it is
// handed, their strides, the image's size, what the destination held, its
// stride, and the selectors, and of nothing else.
pub uninterp spec fn ycgco420_alpha_to_rgba_result(
    y: Seq<u8>,
    y_stride: int,
    u: Seq<u8>,
    u_stride: int,
    v: Seq<u8>,
    v_stride: int,
    a: Seq<u8>,
    a_stride: int,
    width: int,
    height: int,
    dst: Seq<u8>,
    dst_stride: int,
    range: YuvRange,
) -> Seq<u8>;

/// Calls `yuv::ycgco420_alpha_to_rgba`.
/// Asks for planes and a destination of exactly the image's size, rows whole;
/// claims that the kernel, whose only refusals are its size checks, accepts
/// them, and that the destination keeps its length. The kernel is one
/// piece of integer code, the same on every processor: what it leaves in the
/// destination is given a name.
#[verifier::external_body]
pub(crate) fn ycgco420_alpha_to_rgba(
    image: &PlanarAlpha<u8>,
    dst: &mut [u8],
    dst_stride: u32,
    range: YuvRange,
) -> (outcome: Result<(), yuv::YuvError>)
    requires
        image.ready(YuvType::Yuv420),
        packed_ready(
            old(dst)@.len() as int,
            dst_stride as int,
            image.width as int,
            image.height as int,
            4,
        ),
    ensures
        outcome is Ok,
        final(dst)@.len() == old(dst)@.len(),
        final(dst)@ == ycgco420_alpha_to_rgba_result(
            image.y_plane@,
            image.y_stride as int,
            image.u_plane@,
            image.u_stride as int,
            image.v_plane@,
            image.v_stride as int,
            image.a_plane@,
            image.a_stride as int,
            image.width as int,
            image.height as int,
            old(dst)@,
            dst_stride as int,
            range,
        ),
{
    let planes = yuv::YuvPlanarImageWithAlpha {
        y_plane: image.y_plane, y_stride: image.y_stride,
        u_plane: image.u_plane, u_stride: image.u_stride,
        v_plane: image.v_plane, v_stride: image.v_stride,
        a_plane: image.a_plane, a_stride: image.a_stride,
        width: image.width, height: image.height,
    };
    let range =
        match range { YuvRange::Tv => yuv::YuvRange::Limited, YuvRange::Pc => yuv::YuvRange::Full };
    yuv::ycgco420_alpha_to_rgba(&planes, dst, dst_stride, range)
}

// What `yuv::ycgco422_alpha_to_rgba` leaves in its destination: a function of the planes it is
// handed, their strides, the image's size, what the destination held, its
// stride, and the selectors, and of nothing else.
pub uninterp spec fn ycgco422_alpha_to_rgba_result(
    y: Seq<u8>,
    y_stride: int,
    u: Seq<u8>,
    u_stride: int,
    v: Seq<u8>,
    v_stride: int,
    a: Seq<u8>,
    a_stride: int,
    width: int,
    height: int,
    dst: Seq<u8>,
    dst_stride: int,
    range: YuvRange,
) -> Seq<u8>;

/// Calls `yuv::ycgco422_alpha_to_rgba`.
/// Asks for planes and a destination of exactly the image's size, rows whole;
/// claims that the kernel, whose only refusals are its size checks, accepts
/// them, and that the destination keeps its length. The kernel is one
/// piece of integer code, the same on every processor: what it leaves in the
/// destination is given a name.
#[verifier::external_body]
pub(crate) fn ycgco422_alpha_to_rgba(
    image: &PlanarAlpha<u8>,
    dst: &mut [u8],
    dst_stride: u32,
    range: YuvRange,
) -> (outcome: Result<(), yuv::YuvError>)
    requires
        image.ready(YuvType::Yuv422),
        packed_ready(
            old(dst)@.len() as int,
            dst_stride as int,
            image.width as int,
            image.height as int,
            4,
        ),
    ensures
        outcome is Ok,
        final(dst)@.len() == old(dst)@.len(),
        final(dst)@ == ycgco422_alpha_to_rgba_result(
            image.y_plane@,
            image.y_stride as int,
            image.u_plane@,
            image.u_stride as int,
            image.v_plane@,
            image.v_stride as int,
            image.a_plane@,
            image.a_stride as int,
            image.width as int,
            image.height as int,
            old(dst)@,
            dst_stride as int,
            range,
        ),
{
    let planes = yuv::YuvPlanarImageWithAlpha {
        y_plane: image.y_plane, y_stride: image.y_stride,
        u_plane: image.u_plane, u_stride: image.u_stride,
        v_plane: image.v_plane, v_stride: image.v_stride,
        a_plane: image.a_plane, a_stride: image.a_stride,
        width: image.width, height: image.height,
    };
    let range =
        match range { YuvRange::Tv => yuv::YuvRange::Limited, YuvRange::Pc => yuv::YuvRange::Full };
    yuv::ycgco422_alpha_to_rgba(&planes, dst, dst_stride, range)
}

// What `yuv::ycgco444_alpha_to_rgba` leaves in its destination: a function of the planes it is
// handed, their strides, the image's size, what the destination held, its
// stride, and the selectors, and of nothing else.
pub uninterp spec fn ycgco444_alpha_to_rgba_result(
    y: Seq<u8>,
    y_stride: int,
    u: Seq<u8>,
    u_stride: int,
    v: Seq<u8>,
    v_stride: int,
    a: Seq<u8>,
    a_stride: int,
    width: int,
    height: int,
    dst: Seq<u8>,
    dst_stride: int,
    range: YuvRange,
) -> Seq<u8>;

/// Calls `yuv::ycgco444_alpha_to_rgba`.
/// Asks for planes and a destination of exactly the image's size, rows whole;
/// claims that the kernel, whose only refusals are its size checks, accepts
/// them, and that the destination keeps its length. The kernel is one
/// piece of integer code, the same on every processor: what it leaves in the
/// destination is given a name.
#[verifier::external_body]
pub(crate) fn ycgco444_alpha_to_rgba(
    image: &PlanarAlpha<u8>,
    dst: &mut [u8],
    dst_stride: u32,
    range: YuvRange,
) -> (outcome: Result<(), yuv::YuvError>)
    requires
        image.ready(YuvType::Yuv444),
        packed_ready(
            old(dst)@.len() as int,
            dst_stride as int,
            image.width as int,
            image.height as int,
            4,
        ),
    ensures
        outcome is Ok,
        final(dst)@.len() == old(dst)@.len(),
        final(dst)@ == ycgco444_alpha_to_rgba_result(
            image.y_plane@,
            image.y_stride as int,
            image.u_plane@,
            image.u_stride as int,
            image.v_plane@,
            image.v_stride as int,
            image.a_plane@,
            image.a_stride as int,
            image.width as int,
            image.height as int,
            old(dst)@,
            dst_stride as int,
            range,
        ),
{
    let planes = yuv::YuvPlanarImageWithAlpha {
        y_plane: image.y_plane, y_stride: image.y_stride,
        u_plane: image.u_plane, u_stride: image.u_stride,
        v_plane: image.v_plane, v_stride: image.v_stride,
        a_plane: image.a_plane, a_stride: image.a_stride,
        width: image.width, height: image.height,
    };
    let range =
        match range { YuvRange::Tv => yuv::YuvRange::Limited, YuvRange::Pc => yuv::YuvRange::Full };
    yuv::ycgco444_alpha_to_rgba(&planes, dst, dst_stride, range)
}

/// Calls `yuv::yuv400_to_rgb`.
/// Asks for a plane and a destination of exactly the image's size, rows whole;
/// claims that the kernel, whose only refusals are its size checks, accepts
/// them, and that the destination keeps its length. At full range the
/// kernel runs one loop on every processor: claims that it copies the luma
/// sample into the three colours of its pixel, and
/// writes nothing beyond the pixels of a row. Of limited range, where the
/// processor picks the row handler, nothing more is claimed.
#[verifier::external_body]
pub(crate) fn yuv400_to_rgb(
    image: &Gray<u8>,
    dst: &mut [u8],
    dst_stride: u32,
    range: YuvRange,
    matrix: StandardMatrix,
) -> (outcome: Result<(), yuv::YuvError>)
    requires
        image.ready(),
        packed_ready(
            old(dst)@.len() as int,
            dst_stride as int,
            image.width as int,
            image.height as int,
            3,
        ),
    ensures
        outcome is Ok,
        final(dst)@.len() == old(dst)@.len(),
        range == YuvRange::Pc ==> bytes_take(
            final(dst)@,
            dst_stride as int,
            3,
            0,
            image.y_plane@,
            image.y_stride as int,
            image.width as int,
            image.height as int,
        ),
        range == YuvRange::Pc ==> bytes_take(
            final(dst)@,
            dst_stride as int,
            3,
            1,
            image.y_plane@,
            image.y_stride as int,
            image.width as int,
            image.height as int,
        ),
        range == YuvRange::Pc ==> bytes_take(
            final(dst)@,
            dst_stride as int,
            3,
            2,
            image.y_plane@,
            image.y_stride as int,
            image.width as int,
            image.height as int,
        ),
        range == YuvRange::Pc ==> padding_kept(
            old(dst)@,
            final(dst)@,
            narrow_layout(dst_stride, image.width, image.height, 3),
        ),
{
    let planes = yuv::YuvGrayImage {
        y_plane: image.y_plane, y_stride: image.y_stride,
        width: image.width, height: image.height,
    };
    let range =
        match range { YuvRange::Tv => yuv::YuvRange::Limited, YuvRange::Pc => yuv::YuvRange::Full };
    let matrix = match matrix {
        StandardMatrix::Bt601 => yuv::YuvStandardMatrix::Bt601,
        StandardMatrix::Bt709 => yuv::YuvStandardMatrix::Bt709,
        StandardMatrix::Bt2020 => yuv::YuvStandardMatrix::Bt2020,
    };
    yuv::yuv400_to_rgb(&planes, dst, dst_stride, range, matrix)
}

/// Calls `yuv::yuv400_alpha_to_rgba`.
/// Asks for planes and a destination of exactly the image's size, rows whole;
/// claims that the kernel, whose only refusals are its size checks, accepts
/// them, and that the destination keeps its length. At full range the
/// kernel runs one loop on every processor: claims that it copies the luma
/// sample into the three colours of its pixel, the alpha sample into
/// the fourth, and
/// writes nothing beyond the pixels of a row. Of limited range, where the
/// processor picks the row handler, nothing more is claimed.
#[verifier::external_body]
pub(crate) fn yuv400_alpha_to_rgba(
    image: &GrayAlpha<u8>,
    dst: &mut [u8],
    dst_stride: u32,
    range: YuvRange,
    matrix: StandardMatrix,
) -> (outcome: Result<(), yuv::YuvError>)
    requires
        image.ready(),
        packed_ready(
            old(dst)@.len() as int,
            dst_stride as int,
            image.width as int,
            image.height as int,
            4,
        ),
    ensures
        outcome is Ok,
        final(dst)@.len() == old(dst)@.len(),
        range == YuvRange::Pc ==> bytes_take(
            final(dst)@,
            dst_stride as int,
            4,
            0,
            image.y_plane@,
            image.y_stride as int,
            image.width as int,
            image.height as int,
        ),
        range == YuvRange::Pc ==> bytes_take(
            final(dst)@,
            dst_stride as int,
            4,
            1,
            image.y_plane@,
            image.y_stride as int,
            image.width as int,
            image.height as int,
        ),
        range == YuvRange::Pc ==> bytes_take(
            final(dst)@,
            dst_stride as int,
            4,
            2,
            image.y_plane@,
            image.y_stride as int,
            image.width as int,
            image.height as int,
        ),
        range == YuvRange::Pc ==> bytes_take(
            final(dst)@,
            dst_stride as int,
            4,
            3,
            image.a_plane@,
            image.a_stride as int,
            image.width as int,
            image.height as int,
        ),
        range == YuvRange::Pc ==> padding_kept(
            old(dst)@,
            final(dst)@,
            narrow_layout(dst_stride, image.width, image.height, 4),
        ),
{
    let planes = yuv::YuvGrayAlphaImage {
        y_plane: image.y_plane, y_stride: image.y_stride,
        a_plane: image.a_plane, a_stride: image.a_stride,
        width: image.width, height: image.height,
    };
    let range =
        match range { YuvRange::Tv => yuv::YuvRange::Limited, YuvRange::Pc => yuv::YuvRange::Full };
    let matrix = match matrix {
        StandardMatrix::Bt601 => yuv::YuvStandardMatrix::Bt601,
        StandardMatrix::Bt709 => yuv::YuvStandardMatrix::Bt709,
        StandardMatrix::Bt2020 => yuv::YuvStandardMatrix::Bt2020,
    };
    yuv::yuv400_alpha_to_rgba(&planes, dst, dst_stride, range, matrix)
}

} // verus!
