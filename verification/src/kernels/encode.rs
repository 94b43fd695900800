//! Kernels from interleaved 8-bit RGBA pixels to planes.
use crate::checks::narrow_layout;
use crate::content::padding_kept;
use crate::image::{chroma_ready, colours_split, luma_ready, packed_ready};
use crate::modes::{chroma_height_of, chroma_width_of, StandardMatrix, YuvRange, YuvType};
use crate::pixels::view_padding_kept;
use vstd::prelude::*;

verus! {

/// Calls `yuv::rgba_to_yuv420`.
/// Asks for a source and planes of exactly the image's size, rows whole;
/// claims that the kernel, whose only refusals are its size checks, accepts
/// them, and that each plane keeps its length.
#[verifier::external_body]
pub(crate) fn rgba_to_yuv420(
    y_plane: &mut [u8],
    y_stride: u32,
    u_plane: &mut [u8],
    u_stride: u32,
    v_plane: &mut [u8],
    v_stride: u32,
    width: u32,
    height: u32,
    rgba: &[u8],
    rgba_stride: u32,
    range: YuvRange,
    matrix: StandardMatrix,
    mode: yuv::YuvConversionMode,
) -> (outcome: Result<(), yuv::YuvError>)
    requires
        luma_ready(old(y_plane)@.len() as int, y_stride as int, width as int, height as int),
        chroma_ready(
            old(u_plane)@.len() as int,
            u_stride as int,
            width as int,
            height as int,
            YuvType::Yuv420,
        ),
        chroma_ready(
            old(v_plane)@.len() as int,
            v_stride as int,
            width as int,
            height as int,
            YuvType::Yuv420,
        ),
        packed_ready(rgba@.len() as int, rgba_stride as int, width as int, height as int, 4),
    ensures
        outcome is Ok,
        final(y_plane)@.len() == old(y_plane)@.len(),
        final(u_plane)@.len() == old(u_plane)@.len(),
        final(v_plane)@.len() == old(v_plane)@.len(),
{
    let (y_plane, u_plane, v_plane) = (
        yuv::BufferStoreMut::Borrowed(y_plane),
        yuv::BufferStoreMut::Borrowed(u_plane),
        yuv::BufferStoreMut::Borrowed(v_plane),
    );
    let mut planes =
        yuv::YuvPlanarImageMut { y_plane, y_stride, u_plane, u_stride, v_plane, v_stride, width, height };
    let range =
        match range { YuvRange::Tv => yuv::YuvRange::Limited, YuvRange::Pc => yuv::YuvRange::Full };
    let matrix = match matrix {
        StandardMatrix::Bt601 => yuv::YuvStandardMatrix::Bt601,
        StandardMatrix::Bt709 => yuv::YuvStandardMatrix::Bt709,
        StandardMatrix::Bt2020 => yuv::YuvStandardMatrix::Bt2020,
    };
    yuv::rgba_to_yuv420(&mut planes, rgba, rgba_stride, range, matrix, mode)
}

/// Calls `yuv::rgba_to_yuv422`.
/// Asks for a source and planes of exactly the image's size, rows whole;
/// claims that the kernel, whose only refusals are its size checks, accepts
/// them, and that each plane keeps its length.
#[verifier::external_body]
pub(crate) fn rgba_to_yuv422(
    y_plane: &mut [u8],
    y_stride: u32,
    u_plane: &mut [u8],
    u_stride: u32,
    v_plane: &mut [u8],
    v_stride: u32,
    width: u32,
    height: u32,
    rgba: &[u8],
    rgba_stride: u32,
    range: YuvRange,
    matrix: StandardMatrix,
    mode: yuv::YuvConversionMode,
) -> (outcome: Result<(), yuv::YuvError>)
    requires
        luma_ready(old(y_plane)@.len() as int, y_stride as int, width as int, height as int),
        chroma_ready(
            old(u_plane)@.len() as int,
            u_stride as int,
            width as int,
            height as int,
            YuvType::Yuv422,
        ),
        chroma_ready(
            old(v_plane)@.len() as int,
            v_stride as int,
            width as int,
            height as int,
            YuvType::Yuv422,
        ),
        packed_ready(rgba@.len() as int, rgba_stride as int, width as int, height as int, 4),
    ensures
        outcome is Ok,
        final(y_plane)@.len() == old(y_plane)@.len(),
        final(u_plane)@.len() == old(u_plane)@.len(),
        final(v_plane)@.len() == old(v_plane)@.len(),
{
    let (y_plane, u_plane, v_plane) = (
        yuv::BufferStoreMut::Borrowed(y_plane),
        yuv::BufferStoreMut::Borrowed(u_plane),
        yuv::BufferStoreMut::Borrowed(v_plane),
    );
    let mut planes =
        yuv::YuvPlanarImageMut { y_plane, y_stride, u_plane, u_stride, v_plane, v_stride, width, height };
    let range =
        match range { YuvRange::Tv => yuv::YuvRange::Limited, YuvRange::Pc => yuv::YuvRange::Full };
    let matrix = match matrix {
        StandardMatrix::Bt601 => yuv::YuvStandardMatrix::Bt601,
        StandardMatrix::Bt709 => yuv::YuvStandardMatrix::Bt709,
        StandardMatrix::Bt2020 => yuv::YuvStandardMatrix::Bt2020,
    };
    yuv::rgba_to_yuv422(&mut planes, rgba, rgba_stride, range, matrix, mode)
}

/// Calls `yuv::rgba_to_yuv444`.
/// Asks for a source and planes of exactly the image's size, rows whole;
/// claims that the kernel, whose only refusals are its size checks, accepts
/// them, and that each plane keeps its length.
#[verifier::external_body]
pub(crate) fn rgba_to_yuv444(
    y_plane: &mut [u8],
    y_stride: u32,
    u_plane: &mut [u8],
    u_stride: u32,
    v_plane: &mut [u8],
    v_stride: u32,
    width: u32,
    height: u32,
    rgba: &[u8],
    rgba_stride: u32,
    range: YuvRange,
    matrix: StandardMatrix,
    mode: yuv::YuvConversionMode,
) -> (outcome: Result<(), yuv::YuvError>)
    requires
        luma_ready(old(y_plane)@.len() as int, y_stride as int, width as int, height as int),
        chroma_ready(
            old(u_plane)@.len() as int,
            u_stride as int,
            width as int,
            height as int,
            YuvType::Yuv444,
        ),
        chroma_ready(
            old(v_plane)@.len() as int,
            v_stride as int,
            width as int,
            height as int,
            YuvType::Yuv444,
        ),
        packed_ready(rgba@.len() as int, rgba_stride as int, width as int, height as int, 4),
    ensures
        outcome is Ok,
        final(y_plane)@.len() == old(y_plane)@.len(),
        final(u_plane)@.len() == old(u_plane)@.len(),
        final(v_plane)@.len() == old(v_plane)@.len(),
{
    let (y_plane, u_plane, v_plane) = (
        yuv::BufferStoreMut::Borrowed(y_plane),
        yuv::BufferStoreMut::Borrowed(u_plane),
        yuv::BufferStoreMut::Borrowed(v_plane),
    );
    let mut planes =
        yuv::YuvPlanarImageMut { y_plane, y_stride, u_plane, u_stride, v_plane, v_stride, width, height };
    let range =
        match range { YuvRange::Tv => yuv::YuvRange::Limited, YuvRange::Pc => yuv::YuvRange::Full };
    let matrix = match matrix {
        StandardMatrix::Bt601 => yuv::YuvStandardMatrix::Bt601,
        StandardMatrix::Bt709 => yuv::YuvStandardMatrix::Bt709,
        StandardMatrix::Bt2020 => yuv::YuvStandardMatrix::Bt2020,
    };
    yuv::rgba_to_yuv444(&mut planes, rgba, rgba_stride, range, matrix, mode)
}

// What `yuv::rgba_to_gbr` leaves in its three planes: a function of the planes it is
// handed, their strides, the image's size, what the destination held, its
// stride, and the selectors, and of nothing else.
pub uninterp spec fn rgba_to_gbr_result(
    rgba: Seq<u8>,
    rgba_stride: int,
    width: int,
    height: int,
    y: Seq<u8>,
    y_stride: int,
    u: Seq<u8>,
    u_stride: int,
    v: Seq<u8>,
    v_stride: int,
    range: YuvRange,
) -> (Seq<u8>, Seq<u8>, Seq<u8>);

/// Calls `yuv::rgba_to_gbr`.
/// Asks for a source and planes of exactly the image's size, rows whole;
/// claims that the kernel, whose only refusals are its size checks, accepts
/// them, and that each plane keeps its length. The kernel asks for the
/// processor, and then runs the same integer code whatever the answer: what
/// it leaves in the planes is given a name. At full range that code copies:
/// claims that green goes to the first plane, blue to the second and red to
/// the third, sample for sample.
#[verifier::external_body]
pub(crate) fn rgba_to_gbr(
    y_plane: &mut [u8],
    y_stride: u32,
    u_plane: &mut [u8],
    u_stride: u32,
    v_plane: &mut [u8],
    v_stride: u32,
    width: u32,
    height: u32,
    rgba: &[u8],
    rgba_stride: u32,
    range: YuvRange,
) -> (outcome: Result<(), yuv::YuvError>)
    requires
        luma_ready(old(y_plane)@.len() as int, y_stride as int, width as int, height as int),
        chroma_ready(
            old(u_plane)@.len() as int,
            u_stride as int,
            width as int,
            height as int,
            YuvType::Yuv444,
        ),
        chroma_ready(
            old(v_plane)@.len() as int,
            v_stride as int,
            width as int,
            height as int,
            YuvType::Yuv444,
        ),
        packed_ready(rgba@.len() as int, rgba_stride as int, width as int, height as int, 4),
    ensures
        outcome is Ok,
        final(y_plane)@.len() == old(y_plane)@.len(),
        final(u_plane)@.len() == old(u_plane)@.len(),
        final(v_plane)@.len() == old(v_plane)@.len(),
        (final(y_plane)@, final(u_plane)@, final(v_plane)@) == rgba_to_gbr_result(
            rgba@,
            rgba_stride as int,
            width as int,
            height as int,
            old(y_plane)@,
            y_stride as int,
            old(u_plane)@,
            u_stride as int,
            old(v_plane)@,
            v_stride as int,
            range,
        ),
        range == YuvRange::Pc ==> colours_split(
            rgba@,
            rgba_stride as int,
            width as int,
            height as int,
            final(y_plane)@,
            y_stride as int,
            final(u_plane)@,
            u_stride as int,
            final(v_plane)@,
            v_stride as int,
        ),
{
    let (y_plane, u_plane, v_plane) = (
        yuv::BufferStoreMut::Borrowed(y_plane),
        yuv::BufferStoreMut::Borrowed(u_plane),
        yuv::BufferStoreMut::Borrowed(v_plane),
    );
    let mut planes =
        yuv::YuvPlanarImageMut { y_plane, y_stride, u_plane, u_stride, v_plane, v_stride, width, height };
    let range =
        match range { YuvRange::Tv => yuv::YuvRange::Limited, YuvRange::Pc => yuv::YuvRange::Full };
    yuv::rgba_to_gbr(&mut planes, rgba, rgba_stride, range)
}

// What `yuv::rgba_to_ycgco420` leaves in its three planes: a function of the planes it is
// handed, their strides, the image's size, what the destination held, its
// stride, and the selectors, and of nothing else.
pub uninterp spec fn rgba_to_ycgco420_result(
    rgba: Seq<u8>,
    rgba_stride: int,
    width: int,
    height: int,
    y: Seq<u8>,
    y_stride: int,
    u: Seq<u8>,
    u_stride: int,
    v: Seq<u8>,
    v_stride: int,
    range: YuvRange,
) -> (Seq<u8>, Seq<u8>, Seq<u8>);

/// Calls `yuv::rgba_to_ycgco420`.
/// Asks for a source and planes of exactly the image's size, rows whole;
/// claims that the kernel, whose only refusals are its size checks, accepts
/// them, and that each plane keeps its length. The kernel is one piece of
/// integer code, the same on every processor: what it leaves in the planes
/// is given a name.
#[verifier::external_body]
pub(crate) fn rgba_to_ycgco420(
    y_plane: &mut [u8],
    y_stride: u32,
    u_plane: &mut [u8],
    u_stride: u32,
    v_plane: &mut [u8],
    v_stride: u32,
    width: u32,
    height: u32,
    rgba: &[u8],
    rgba_stride: u32,
    range: YuvRange,
) -> (outcome: Result<(), yuv::YuvError>)
    requires
        luma_ready(old(y_plane)@.len() as int, y_stride as int, width as int, height as int),
        chroma_ready(
            old(u_plane)@.len() as int,
            u_stride as int,
            width as int,
            height as int,
            YuvType::Yuv420,
        ),
        chroma_ready(
            old(v_plane)@.len() as int,
            v_stride as int,
            width as int,
            height as int,
            YuvType::Yuv420,
        ),
        packed_ready(rgba@.len() as int, rgba_stride as int, width as int, height as int, 4),
    ensures
        outcome is Ok,
        final(y_plane)@.len() == old(y_plane)@.len(),
        final(u_plane)@.len() == old(u_plane)@.len(),
        final(v_plane)@.len() == old(v_plane)@.len(),
        (final(y_plane)@, final(u_plane)@, final(v_plane)@) == rgba_to_ycgco420_result(
            rgba@,
            rgba_stride as int,
            width as int,
            height as int,
            old(y_plane)@,
            y_stride as int,
            old(u_plane)@,
            u_stride as int,
            old(v_plane)@,
            v_stride as int,
            range,
        ),
{
    let (y_plane, u_plane, v_plane) = (
        yuv::BufferStoreMut::Borrowed(y_plane),
        yuv::BufferStoreMut::Borrowed(u_plane),
        yuv::BufferStoreMut::Borrowed(v_plane),
    );
    let mut planes =
        yuv::YuvPlanarImageMut { y_plane, y_stride, u_plane, u_stride, v_plane, v_stride, width, height };
    let range =
        match range { YuvRange::Tv => yuv::YuvRange::Limited, YuvRange::Pc => yuv::YuvRange::Full };
    yuv::rgba_to_ycgco420(&mut planes, rgba, rgba_stride, range)
}

// What `yuv::rgba_to_ycgco422` leaves in its three planes: a function of the planes it is
// handed, their strides, the image's size, what the destination held, its
// stride, and the selectors, and of nothing else.
pub uninterp spec fn rgba_to_ycgco422_result(
    rgba: Seq<u8>,
    rgba_stride: int,
    width: int,
    height: int,
    y: Seq<u8>,
    y_stride: int,
    u: Seq<u8>,
    u_stride: int,
    v: Seq<u8>,
    v_stride: int,
    range: YuvRange,
) -> (Seq<u8>, Seq<u8>, Seq<u8>);

/// Calls `yuv::rgba_to_ycgco422`.
/// Asks for a source and planes of exactly the image's size, rows whole;
/// claims that the kernel, whose only refusals are its size checks, accepts
/// them, and that each plane keeps its length. The kernel is one piece of
/// integer code, the same on every processor: what it leaves in the planes
/// is given a name.
#[verifier::external_body]
pub(crate) fn rgba_to_ycgco422(
    y_plane: &mut [u8],
    y_stride: u32,
    u_plane: &mut [u8],
    u_stride: u32,
    v_plane: &mut [u8],
    v_stride: u32,
    width: u32,
    height: u32,
    rgba: &[u8],
    rgba_stride: u32,
    range: YuvRange,
) -> (outcome: Result<(), yuv::YuvError>)
    requires
        luma_ready(old(y_plane)@.len() as int, y_stride as int, width as int, height as int),
        chroma_ready(
            old(u_plane)@.len() as int,
            u_stride as int,
            width as int,
            height as int,
            YuvType::Yuv422,
        ),
        chroma_ready(
            old(v_plane)@.len() as int,
            v_stride as int,
            width as int,
            height as int,
            YuvType::Yuv422,
        ),
        packed_ready(rgba@.len() as int, rgba_stride as int, width as int, height as int, 4),
    ensures
        outcome is Ok,
        final(y_plane)@.len() == old(y_plane)@.len(),
        final(u_plane)@.len() == old(u_plane)@.len(),
        final(v_plane)@.len() == old(v_plane)@.len(),
        (final(y_plane)@, final(u_plane)@, final(v_plane)@) == rgba_to_ycgco422_result(
            rgba@,
            rgba_stride as int,
            width as int,
            height as int,
            old(y_plane)@,
            y_stride as int,
            old(u_plane)@,
            u_stride as int,
            old(v_plane)@,
            v_stride as int,
            range,
        ),
{
    let (y_plane, u_plane, v_plane) = (
        yuv::BufferStoreMut::Borrowed(y_plane),
        yuv::BufferStoreMut::Borrowed(u_plane),
        yuv::BufferStoreMut::Borrowed(v_plane),
    );
    let mut planes =
        yuv::YuvPlanarImageMut { y_plane, y_stride, u_plane, u_stride, v_plane, v_stride, width, height };
    let range =
        match range { YuvRange::Tv => yuv::YuvRange::Limited, YuvRange::Pc => yuv::YuvRange::Full };
    yuv::rgba_to_ycgco422(&mut planes, rgba, rgba_stride, range)
}

// What `yuv::rgba_to_ycgco444` leaves in its three planes: a function of the planes it is
// handed, their strides, the image's size, what the destination held, its
// stride, and the selectors, and of nothing else.
pub uninterp spec fn rgba_to_ycgco444_result(
    rgba: Seq<u8>,
    rgba_stride: int,
    width: int,
    height: int,
    y: Seq<u8>,
    y_stride: int,
    u: Seq<u8>,
    u_stride: int,
    v: Seq<u8>,
    v_stride: int,
    range: YuvRange,
) -> (Seq<u8>, Seq<u8>, Seq<u8>);

/// Calls `yuv::rgba_to_ycgco444`.
/// Asks for a source and planes of exactly the image's size, rows whole;
/// claims that the kernel, whose only refusals are its size checks, accepts
/// them, and that each plane keeps its length. The kernel is one piece of
/// integer code, the same on every processor: what it leaves in the planes
/// is given a name.
#[verifier::external_body]
pub(crate) fn rgba_to_ycgco444(
    y_plane: &mut [u8],
    y_stride: u32,
    u_plane: &mut [u8],
    u_stride: u32,
    v_plane: &mut [u8],
    v_stride: u32,
    width: u32,
    height: u32,
    rgba: &[u8],
    rgba_stride: u32,
    range: YuvRange,
) -> (outcome: Result<(), yuv::YuvError>)
    requires
        luma_ready(old(y_plane)@.len() as int, y_stride as int, width as int, height as int),
        chroma_ready(
            old(u_plane)@.len() as int,
            u_stride as int,
            width as int,
            height as int,
            YuvType::Yuv444,
        ),
        chroma_ready(
            old(v_plane)@.len() as int,
            v_stride as int,
            width as int,
            height as int,
            YuvType::Yuv444,
        ),
        packed_ready(rgba@.len() as int, rgba_stride as int, width as int, height as int, 4),
    ensures
        outcome is Ok,
        final(y_plane)@.len() == old(y_plane)@.len(),
        final(u_plane)@.len() == old(u_plane)@.len(),
        final(v_plane)@.len() == old(v_plane)@.len(),
        (final(y_plane)@, final(u_plane)@, final(v_plane)@) == rgba_to_ycgco444_result(
            rgba@,
            rgba_stride as int,
            width as int,
            height as int,
            old(y_plane)@,
            y_stride as int,
            old(u_plane)@,
            u_stride as int,
            old(v_plane)@,
            v_stride as int,
            range,
        ),
{
    let (y_plane, u_plane, v_plane) = (
        yuv::BufferStoreMut::Borrowed(y_plane),
        yuv::BufferStoreMut::Borrowed(u_plane),
        yuv::BufferStoreMut::Borrowed(v_plane),
    );
    let mut planes =
        yuv::YuvPlanarImageMut { y_plane, y_stride, u_plane, u_stride, v_plane, v_stride, width, height };
    let range =
        match range { YuvRange::Tv => yuv::YuvRange::Limited, YuvRange::Pc => yuv::YuvRange::Full };
    yuv::rgba_to_ycgco444(&mut planes, rgba, rgba_stride, range)
}

/// Calls `yuv::rgba_to_yuv400`.
/// Asks for a source and a plane of exactly the image's size, rows whole;
/// claims that the kernel, whose only refusals are its size checks, accepts
/// them, and that the plane keeps its length. The kernel picks its row
/// handler by the processor, so the samples are not named. Claims what every
/// handler shows: nothing is written beyond the samples of a row.
#[verifier::external_body]
pub(crate) fn rgba_to_yuv400(
    y_plane: &mut [u8],
    y_stride: u32,
    width: u32,
    height: u32,
    rgba: &[u8],
    rgba_stride: u32,
    range: YuvRange,
    matrix: StandardMatrix,
) -> (outcome: Result<(), yuv::YuvError>)
    requires
        luma_ready(old(y_plane)@.len() as int, y_stride as int, width as int, height as int),
        packed_ready(rgba@.len() as int, rgba_stride as int, width as int, height as int, 4),
    ensures
        outcome is Ok,
        final(y_plane)@.len() == old(y_plane)@.len(),
        padding_kept(
            old(y_plane)@,
            final(y_plane)@,
            narrow_layout(y_stride, width, height, 1),
        ),
{
    let y_plane = yuv::BufferStoreMut::Borrowed(y_plane);
    let mut planes = yuv::YuvGrayImageMut { y_plane, y_stride, width, height };
    let range =
        match range { YuvRange::Tv => yuv::YuvRange::Limited, YuvRange::Pc => yuv::YuvRange::Full };
    let matrix = match matrix {
        StandardMatrix::Bt601 => yuv::YuvStandardMatrix::Bt601,
        StandardMatrix::Bt709 => yuv::YuvStandardMatrix::Bt709,
        StandardMatrix::Bt2020 => yuv::YuvStandardMatrix::Bt2020,
    };
    yuv::rgba_to_yuv400(&mut planes, rgba, rgba_stride, range, matrix)
}

// What `yuv::rgba_to_icgc_ro010` leaves in its three planes: a function of the planes it is
// handed, their strides, the image's size, what the destination held, its
// stride, and the selectors, and of nothing else.
pub uninterp spec fn rgba_to_icgc_ro010_result(
    rgba: Seq<u8>,
    rgba_stride: int,
    width: int,
    height: int,
    y: Seq<u16>,
    y_stride: int,
    u: Seq<u16>,
    u_stride: int,
    v: Seq<u16>,
    v_stride: int,
    range: YuvRange,
) -> (Seq<u16>, Seq<u16>, Seq<u16>);

/// Calls `yuv::rgba_to_icgc_ro010`.
/// Asks for a source and planes of exactly the image's size, rows whole;
/// claims that the kernel, whose only refusals are its size checks, accepts
/// them, and that each plane keeps its length. The kernel is one piece of
/// integer code, the same on every processor: what it leaves in the planes
/// is given a name. It writes nothing beyond the samples of a row.
#[verifier::external_body]
pub(crate) fn rgba_to_icgc_ro010(
    y_plane: &mut [u16],
    y_stride: u32,
    u_plane: &mut [u16],
    u_stride: u32,
    v_plane: &mut [u16],
    v_stride: u32,
    width: u32,
    height: u32,
    rgba: &[u8],
    rgba_stride: u32,
    range: YuvRange,
) -> (outcome: Result<(), yuv::YuvError>)
    requires
        luma_ready(old(y_plane)@.len() as int, y_stride as int, width as int, height as int),
        chroma_ready(
            old(u_plane)@.len() as int,
            u_stride as int,
            width as int,
            height as int,
            YuvType::Yuv420,
        ),
        chroma_ready(
            old(v_plane)@.len() as int,
            v_stride as int,
            width as int,
            height as int,
            YuvType::Yuv420,
        ),
        packed_ready(rgba@.len() as int, rgba_stride as int, width as int, height as int, 4),
    ensures
        outcome is Ok,
        final(y_plane)@.len() == old(y_plane)@.len(),
        final(u_plane)@.len() == old(u_plane)@.len(),
        final(v_plane)@.len() == old(v_plane)@.len(),
        (final(y_plane)@, final(u_plane)@, final(v_plane)@) == rgba_to_icgc_ro010_result(
            rgba@,
            rgba_stride as int,
            width as int,
            height as int,
            old(y_plane)@,
            y_stride as int,
            old(u_plane)@,
            u_stride as int,
            old(v_plane)@,
            v_stride as int,
            range,
        ),
        view_padding_kept(
            old(y_plane)@,
            final(y_plane)@,
            y_stride as int,
            width as int,
            height as int,
        ),
        view_padding_kept(
            old(u_plane)@,
            final(u_plane)@,
            u_stride as int,
            chroma_width_of(width as int, YuvType::Yuv420),
            chroma_height_of(height as int, YuvType::Yuv420),
        ),
        view_padding_kept(
            old(v_plane)@,
            final(v_plane)@,
            v_stride as int,
            chroma_width_of(width as int, YuvType::Yuv420),
            chroma_height_of(height as int, YuvType::Yuv420),
        ),
{
    let (y_plane, u_plane, v_plane) = (
        yuv::BufferStoreMut::Borrowed(y_plane),
        yuv::BufferStoreMut::Borrowed(u_plane),
        yuv::BufferStoreMut::Borrowed(v_plane),
    );
    let mut planes =
        yuv::YuvPlanarImageMut { y_plane, y_stride, u_plane, u_stride, v_plane, v_stride, width, height };
    let range =
        match range { YuvRange::Tv => yuv::YuvRange::Limited, YuvRange::Pc => yuv::YuvRange::Full };
    yuv::rgba_to_icgc_ro010(&mut planes, rgba, rgba_stride, range)
}

// What `yuv::rgba_to_icgc_re010` leaves in its three planes: a function of the planes it is
// handed, their strides, the image's size, what the destination held, its
// stride, and the selectors, and of nothing else.
pub uninterp spec fn rgba_to_icgc_re010_result(
    rgba: Seq<u8>,
    rgba_stride: int,
    width: int,
    height: int,
    y: Seq<u16>,
    y_stride: int,
    u: Seq<u16>,
    u_stride: int,
    v: Seq<u16>,
    v_stride: int,
    range: YuvRange,
) -> (Seq<u16>, Seq<u16>, Seq<u16>);

/// Calls `yuv::rgba_to_icgc_re010`.
/// Asks for a source and planes of exactly the image's size, rows whole;
/// claims that the kernel, whose only refusals are its size checks, accepts
/// them, and that each plane keeps its length. The kernel is one piece of
/// integer code, the same on every processor: what it leaves in the planes
/// is given a name. It writes nothing beyond the samples of a row.
#[verifier::external_body]
pub(crate) fn rgba_to_icgc_re010(
    y_plane: &mut [u16],
    y_stride: u32,
    u_plane: &mut [u16],
    u_stride: u32,
    v_plane: &mut [u16],
    v_stride: u32,
    width: u32,
    height: u32,
    rgba: &[u8],
    rgba_stride: u32,
    range: YuvRange,
) -> (outcome: Result<(), yuv::YuvError>)
    requires
        luma_ready(old(y_plane)@.len() as int, y_stride as int, width as int, height as int),
        chroma_ready(
            old(u_plane)@.len() as int,
            u_stride as int,
            width as int,
            height as int,
            YuvType::Yuv420,
        ),
        chroma_ready(
            old(v_plane)@.len() as int,
            v_stride as int,
            width as int,
            height as int,
            YuvType::Yuv420,
        ),
        packed_ready(rgba@.len() as int, rgba_stride as int, width as int, height as int, 4),
    ensures
        outcome is Ok,
        final(y_plane)@.len() == old(y_plane)@.len(),
        final(u_plane)@.len() == old(u_plane)@.len(),
        final(v_plane)@.len() == old(v_plane)@.len(),
        (final(y_plane)@, final(u_plane)@, final(v_plane)@) == rgba_to_icgc_re010_result(
            rgba@,
            rgba_stride as int,
            width as int,
            height as int,
            old(y_plane)@,
            y_stride as int,
            old(u_plane)@,
            u_stride as int,
            old(v_plane)@,
            v_stride as int,
            range,
        ),
        view_padding_kept(
            old(y_plane)@,
            final(y_plane)@,
            y_stride as int,
            width as int,
            height as int,
        ),
        view_padding_kept(
            old(u_plane)@,
            final(u_plane)@,
            u_stride as int,
            chroma_width_of(width as int, YuvType::Yuv420),
            chroma_height_of(height as int, YuvType::Yuv420),
        ),
        view_padding_kept(
            old(v_plane)@,
            final(v_plane)@,
            v_stride as int,
            chroma_width_of(width as int, YuvType::Yuv420),
            chroma_height_of(height as int, YuvType::Yuv420),
        ),
{
    let (y_plane, u_plane, v_plane) = (
        yuv::BufferStoreMut::Borrowed(y_plane),
        yuv::BufferStoreMut::Borrowed(u_plane),
        yuv::BufferStoreMut::Borrowed(v_plane),
    );
    let mut planes =
        yuv::YuvPlanarImageMut { y_plane, y_stride, u_plane, u_stride, v_plane, v_stride, width, height };
    let range =
        match range { YuvRange::Tv => yuv::YuvRange::Limited, YuvRange::Pc => yuv::YuvRange::Full };
    yuv::rgba_to_icgc_re010(&mut planes, rgba, rgba_stride, range)
}

// What `yuv::rgba_to_icgc_ro210` leaves in its three planes: a function of the planes it is
// handed, their strides, the image's size, what the destination held, its
// stride, and the selectors, and of nothing else.
pub uninterp spec fn rgba_to_icgc_ro210_result(
    rgba: Seq<u8>,
    rgba_stride: int,
    width: int,
    height: int,
    y: Seq<u16>,
    y_stride: int,
    u: Seq<u16>,
    u_stride: int,
    v: Seq<u16>,
    v_stride: int,
    range: YuvRange,
) -> (Seq<u16>, Seq<u16>, Seq<u16>);

/// Calls `yuv::rgba_to_icgc_ro210`.
/// Asks for a source and planes of exactly the image's size, rows whole;
/// claims that the kernel, whose only refusals are its size checks, accepts
/// them, and that each plane keeps its length. The kernel is one piece of
/// integer code, the same on every processor: what it leaves in the planes
/// is given a name. It writes nothing beyond the samples of a row.
#[verifier::external_body]
pub(crate) fn rgba_to_icgc_ro210(
    y_plane: &mut [u16],
    y_stride: u32,
    u_plane: &mut [u16],
    u_stride: u32,
    v_plane: &mut [u16],
    v_stride: u32,
    width: u32,
    height: u32,
    rgba: &[u8],
    rgba_stride: u32,
    range: YuvRange,
) -> (outcome: Result<(), yuv::YuvError>)
    requires
        luma_ready(old(y_plane)@.len() as int, y_stride as int, width as int, height as int),
        chroma_ready(
            old(u_plane)@.len() as int,
            u_stride as int,
            width as int,
            height as int,
            YuvType::Yuv422,
        ),
        chroma_ready(
            old(v_plane)@.len() as int,
            v_stride as int,
            width as int,
            height as int,
            YuvType::Yuv422,
        ),
        packed_ready(rgba@.len() as int, rgba_stride as int, width as int, height as int, 4),
    ensures
        outcome is Ok,
        final(y_plane)@.len() == old(y_plane)@.len(),
        final(u_plane)@.len() == old(u_plane)@.len(),
        final(v_plane)@.len() == old(v_plane)@.len(),
        (final(y_plane)@, final(u_plane)@, final(v_plane)@) == rgba_to_icgc_ro210_result(
            rgba@,
            rgba_stride as int,
            width as int,
            height as int,
            old(y_plane)@,
            y_stride as int,
            old(u_plane)@,
            u_stride as int,
            old(v_plane)@,
            v_stride as int,
            range,
        ),
        view_padding_kept(
            old(y_plane)@,
            final(y_plane)@,
            y_stride as int,
            width as int,
            height as int,
        ),
        view_padding_kept(
            old(u_plane)@,
            final(u_plane)@,
            u_stride as int,
            chroma_width_of(width as int, YuvType::Yuv422),
            chroma_height_of(height as int, YuvType::Yuv422),
        ),
        view_padding_kept(
            old(v_plane)@,
            final(v_plane)@,
            v_stride as int,
            chroma_width_of(width as int, YuvType::Yuv422),
            chroma_height_of(height as int, YuvType::Yuv422),
        ),
{
    let (y_plane, u_plane, v_plane) = (
        yuv::BufferStoreMut::Borrowed(y_plane),
        yuv::BufferStoreMut::Borrowed(u_plane),
        yuv::BufferStoreMut::Borrowed(v_plane),
    );
    let mut planes =
        yuv::YuvPlanarImageMut { y_plane, y_stride, u_plane, u_stride, v_plane, v_stride, width, height };
    let range =
        match range { YuvRange::Tv => yuv::YuvRange::Limited, YuvRange::Pc => yuv::YuvRange::Full };
    yuv::rgba_to_icgc_ro210(&mut planes, rgba, rgba_stride, range)
}

// What `yuv::rgba_to_icgc_re210` leaves in its three planes: a function of the planes it is
// handed, their strides, the image's size, what the destination held, its
// stride, and the selectors, and of nothing else.
pub uninterp spec fn rgba_to_icgc_re210_result(
    rgba: Seq<u8>,
    rgba_stride: int,
    width: int,
    height: int,
    y: Seq<u16>,
    y_stride: int,
    u: Seq<u16>,
    u_stride: int,
    v: Seq<u16>,
    v_stride: int,
    range: YuvRange,
) -> (Seq<u16>, Seq<u16>, Seq<u16>);

/// Calls `yuv::rgba_to_icgc_re210`.
/// Asks for a source and planes of exactly the image's size, rows whole;
/// claims that the kernel, whose only refusals are its size checks, accepts
/// them, and that each plane keeps its length. The kernel is one piece of
/// integer code, the same on every processor: what it leaves in the planes
/// is given a name. It writes nothing beyond the samples of a row.
#[verifier::external_body]
pub(crate) fn rgba_to_icgc_re210(
    y_plane: &mut [u16],
    y_stride: u32,
    u_plane: &mut [u16],
    u_stride: u32,
    v_plane: &mut [u16],
    v_stride: u32,
    width: u32,
    height: u32,
    rgba: &[u8],
    rgba_stride: u32,
    range: YuvRange,
) -> (outcome: Result<(), yuv::YuvError>)
    requires
        luma_ready(old(y_plane)@.len() as int, y_stride as int, width as int, height as int),
        chroma_ready(
            old(u_plane)@.len() as int,
            u_stride as int,
            width as int,
            height as int,
            YuvType::Yuv422,
        ),
        chroma_ready(
            old(v_plane)@.len() as int,
            v_stride as int,
            width as int,
            height as int,
            YuvType::Yuv422,
        ),
        packed_ready(rgba@.len() as int, rgba_stride as int, width as int, height as int, 4),
    ensures
        outcome is Ok,
        final(y_plane)@.len() == old(y_plane)@.len(),
        final(u_plane)@.len() == old(u_plane)@.len(),
        final(v_plane)@.len() == old(v_plane)@.len(),
        (final(y_plane)@, final(u_plane)@, final(v_plane)@) == rgba_to_icgc_re210_result(
            rgba@,
            rgba_stride as int,
            width as int,
            height as int,
            old(y_plane)@,
            y_stride as int,
            old(u_plane)@,
            u_stride as int,
            old(v_plane)@,
            v_stride as int,
            range,
        ),
        view_padding_kept(
            old(y_plane)@,
            final(y_plane)@,
            y_stride as int,
            width as int,
            height as int,
        ),
        view_padding_kept(
            old(u_plane)@,
            final(u_plane)@,
            u_stride as int,
            chroma_width_of(width as int, YuvType::Yuv422),
            chroma_height_of(height as int, YuvType::Yuv422),
        ),
        view_padding_kept(
            old(v_plane)@,
            final(v_plane)@,
            v_stride as int,
            chroma_width_of(width as int, YuvType::Yuv422),
            chroma_height_of(height as int, YuvType::Yuv422),
        ),
{
    let (y_plane, u_plane, v_plane) = (
        yuv::BufferStoreMut::Borrowed(y_plane),
        yuv::BufferStoreMut::Borrowed(u_plane),
        yuv::BufferStoreMut::Borrowed(v_plane),
    );
    let mut planes =
        yuv::YuvPlanarImageMut { y_plane, y_stride, u_plane, u_stride, v_plane, v_stride, width, height };
    let range =
        match range { YuvRange::Tv => yuv::YuvRange::Limited, YuvRange::Pc => yuv::YuvRange::Full };
    yuv::rgba_to_icgc_re210(&mut planes, rgba, rgba_stride, range)
}

// What `yuv::rgba_to_icgc_ro410` leaves in its three planes: a function of the planes it is
// handed, their strides, the image's size, what the destination held, its
// stride, and the selectors, and of nothing else.
pub uninterp spec fn rgba_to_icgc_ro410_result(
    rgba: Seq<u8>,
    rgba_stride: int,
    width: int,
    height: int,
    y: Seq<u16>,
    y_stride: int,
    u: Seq<u16>,
    u_stride: int,
    v: Seq<u16>,
    v_stride: int,
    range: YuvRange,
) -> (Seq<u16>, Seq<u16>, Seq<u16>);

/// Calls `yuv::rgba_to_icgc_ro410`.
/// Asks for a source and planes of exactly the image's size, rows whole;
/// claims that the kernel, whose only refusals are its size checks, accepts
/// them, and that each plane keeps its length. The kernel is one piece of
/// integer code, the same on every processor: what it leaves in the planes
/// is given a name. It writes nothing beyond the samples of a row.
#[verifier::external_body]
pub(crate) fn rgba_to_icgc_ro410(
    y_plane: &mut [u16],
    y_stride: u32,
    u_plane: &mut [u16],
    u_stride: u32,
    v_plane: &mut [u16],
    v_stride: u32,
    width: u32,
    height: u32,
    rgba: &[u8],
    rgba_stride: u32,
    range: YuvRange,
) -> (outcome: Result<(), yuv::YuvError>)
    requires
        luma_ready(old(y_plane)@.len() as int, y_stride as int, width as int, height as int),
        chroma_ready(
            old(u_plane)@.len() as int,
            u_stride as int,
            width as int,
            height as int,
            YuvType::Yuv444,
        ),
        chroma_ready(
            old(v_plane)@.len() as int,
            v_stride as int,
            width as int,
            height as int,
            YuvType::Yuv444,
        ),
        packed_ready(rgba@.len() as int, rgba_stride as int, width as int, height as int, 4),
    ensures
        outcome is Ok,
        final(y_plane)@.len() == old(y_plane)@.len(),
        final(u_plane)@.len() == old(u_plane)@.len(),
        final(v_plane)@.len() == old(v_plane)@.len(),
        (final(y_plane)@, final(u_plane)@, final(v_plane)@) == rgba_to_icgc_ro410_result(
            rgba@,
            rgba_stride as int,
            width as int,
            height as int,
            old(y_plane)@,
            y_stride as int,
            old(u_plane)@,
            u_stride as int,
            old(v_plane)@,
            v_stride as int,
            range,
        ),
        view_padding_kept(
            old(y_plane)@,
            final(y_plane)@,
            y_stride as int,
            width as int,
            height as int,
        ),
        view_padding_kept(
            old(u_plane)@,
            final(u_plane)@,
            u_stride as int,
            chroma_width_of(width as int, YuvType::Yuv444),
            chroma_height_of(height as int, YuvType::Yuv444),
        ),
        view_padding_kept(
            old(v_plane)@,
            final(v_plane)@,
            v_stride as int,
            chroma_width_of(width as int, YuvType::Yuv444),
            chroma_height_of(height as int, YuvType::Yuv444),
        ),
{
    let (y_plane, u_plane, v_plane) = (
        yuv::BufferStoreMut::Borrowed(y_plane),
        yuv::BufferStoreMut::Borrowed(u_plane),
        yuv::BufferStoreMut::Borrowed(v_plane),
    );
    let mut planes =
        yuv::YuvPlanarImageMut { y_plane, y_stride, u_plane, u_stride, v_plane, v_stride, width, height };
    let range =
        match range { YuvRange::Tv => yuv::YuvRange::Limited, YuvRange::Pc => yuv::YuvRange::Full };
    yuv::rgba_to_icgc_ro410(&mut planes, rgba, rgba_stride, range)
}

// What `yuv::rgba_to_icgc_re410` leaves in its three planes: a function of the planes it is
// handed, their strides, the image's size, what the destination held, its
// stride, and the selectors, and of nothing else.
pub uninterp spec fn rgba_to_icgc_re410_result(
    rgba: Seq<u8>,
    rgba_stride: int,
    width: int,
    height: int,
    y: Seq<u16>,
    y_stride: int,
    u: Seq<u16>,
    u_stride: int,
    v: Seq<u16>,
    v_stride: int,
    range: YuvRange,
) -> (Seq<u16>, Seq<u16>, Seq<u16>);

/// Calls `yuv::rgba_to_icgc_re410`.
/// Asks for a source and planes of exactly the image's size, rows whole;
/// claims that the kernel, whose only refusals are its size checks, accepts
/// them, and that each plane keeps its length. The kernel is one piece of
/// integer code, the same on every processor: what it leaves in the planes
/// is given a name. It writes nothing beyond the samples of a row.
#[verifier::external_body]
pub(crate) fn rgba_to_icgc_re410(
    y_plane: &mut [u16],
    y_stride: u32,
    u_plane: &mut [u16],
    u_stride: u32,
    v_plane: &mut [u16],
    v_stride: u32,
    width: u32,
    height: u32,
    rgba: &[u8],
    rgba_stride: u32,
    range: YuvRange,
) -> (outcome: Result<(), yuv::YuvError>)
    requires
        luma_ready(old(y_plane)@.len() as int, y_stride as int, width as int, height as int),
        chroma_ready(
            old(u_plane)@.len() as int,
            u_stride as int,
            width as int,
            height as int,
            YuvType::Yuv444,
        ),
        chroma_ready(
            old(v_plane)@.len() as int,
            v_stride as int,
            width as int,
            height as int,
            YuvType::Yuv444,
        ),
        packed_ready(rgba@.len() as int, rgba_stride as int, width as int, height as int, 4),
    ensures
        outcome is Ok,
        final(y_plane)@.len() == old(y_plane)@.len(),
        final(u_plane)@.len() == old(u_plane)@.len(),
        final(v_plane)@.len() == old(v_plane)@.len(),
        (final(y_plane)@, final(u_plane)@, final(v_plane)@) == rgba_to_icgc_re410_result(
            rgba@,
            rgba_stride as int,
            width as int,
            height as int,
            old(y_plane)@,
            y_stride as int,
            old(u_plane)@,
            u_stride as int,
            old(v_plane)@,
            v_stride as int,
            range,
        ),
        view_padding_kept(
            old(y_plane)@,
            final(y_plane)@,
            y_stride as int,
            width as int,
            height as int,
        ),
        view_padding_kept(
            old(u_plane)@,
            final(u_plane)@,
            u_stride as int,
            chroma_width_of(width as int, YuvType::Yuv444),
            chroma_height_of(height as int, YuvType::Yuv444),
        ),
        view_padding_kept(
            old(v_plane)@,
            final(v_plane)@,
            v_stride as int,
            chroma_width_of(width as int, YuvType::Yuv444),
            chroma_height_of(height as int, YuvType::Yuv444),
        ),
{
    let (y_plane, u_plane, v_plane) = (
        yuv::BufferStoreMut::Borrowed(y_plane),
        yuv::BufferStoreMut::Borrowed(u_plane),
        yuv::BufferStoreMut::Borrowed(v_plane),
    );
    let mut planes =
        yuv::YuvPlanarImageMut { y_plane, y_stride, u_plane, u_stride, v_plane, v_stride, width, height };
    let range =
        match range { YuvRange::Tv => yuv::YuvRange::Limited, YuvRange::Pc => yuv::YuvRange::Full };
    yuv::rgba_to_icgc_re410(&mut planes, rgba, rgba_stride, range)
}

} // verus!
