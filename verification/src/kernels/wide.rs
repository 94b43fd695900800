//! Kernels from planes of 16-bit samples to interleaved 16-bit pixels.
use crate::image::{packed_ready, Gray, GrayAlpha, Planar, PlanarAlpha};
use crate::modes::{StandardMatrix, YuvRange, YuvType};
use crate::pixels::{view_clamped, view_gray, view_padding_kept, view_takes};
use vstd::prelude::*;

verus! {

/// Calls `yuv::i010_to_rgb10`.
/// Asks for planes and a destination of exactly the image's size, rows whole,
/// and for samples below 1024, which the kernel's 16-bit arithmetic can hold;
/// claims that the kernel, whose only refusals are its size checks, accepts
/// them, and that the destination keeps its length. The kernel picks its
/// row handler by the processor, and the handlers round differently, so the
/// samples are not named. Claims what every handler shows: each sample is
/// capped below 1024 before it is stored, and nothing is written beyond the
/// pixels of a row.
#[verifier::external_body]
pub(crate) fn i010_to_rgb10(
    image: &Planar<u16>,
    dst: &mut [u16],
    dst_stride: u32,
    range: YuvRange,
    matrix: StandardMatrix,
) -> (outcome: Result<(), yuv::YuvError>)
    requires
        image.ready(YuvType::Yuv420),
        image.below(1024),
        packed_ready(
            old(dst)@.len() as int,
            dst_stride as int,
            image.width as int,
            image.height as int,
            3,
        ),
    ensures
        outcome is Ok,
        final(dst)@.len() == old(dst)@.len(),
        view_clamped(
            final(dst)@,
            dst_stride as int,
            3,
            image.width as int,
            image.height as int,
            1024,
        ),
        view_padding_kept(
            old(dst)@,
            final(dst)@,
            dst_stride as int,
            3 * image.width,
            image.height as int,
        ),
{
    let planes = yuv::YuvPlanarImage {
        y_plane: image.y_plane, y_stride: image.y_stride,
        u_plane: image.u_plane, u_stride: image.u_stride,
        v_plane: image.v_plane, v_stride: image.v_stride,
        width: image.width, height: image.height,
    };
    let range =
        match range { YuvRange::Tv => yuv::YuvRange::Limited, YuvRange::Pc => yuv::YuvRange::Full };
    let matrix = match matrix {
        StandardMatrix::Bt601 => yuv::YuvStandardMatrix::Bt601,
        StandardMatrix::Bt709 => yuv::YuvStandardMatrix::Bt709,
        StandardMatrix::Bt2020 => yuv::YuvStandardMatrix::Bt2020,
    };
    yuv::i010_to_rgb10(&planes, dst, dst_stride, range, matrix)
}

/// Calls `yuv::i012_to_rgb12`.
/// Asks for planes and a destination of exactly the image's size, rows whole,
/// and for samples below 4096, which the kernel's 16-bit arithmetic can hold;
/// claims that the kernel, whose only refusals are its size checks, accepts
/// them, and that the destination keeps its length. The kernel picks its
/// row handler by the processor, and the handlers round differently, so the
/// samples are not named. Claims what every handler shows: each sample is
/// capped below 4096 before it is stored, and nothing is written beyond the
/// pixels of a row.
#[verifier::external_body]
pub(crate) fn i012_to_rgb12(
    image: &Planar<u16>,
    dst: &mut [u16],
    dst_stride: u32,
    range: YuvRange,
    matrix: StandardMatrix,
) -> (outcome: Result<(), yuv::YuvError>)
    requires
        image.ready(YuvType::Yuv420),
        image.below(4096),
        packed_ready(
            old(dst)@.len() as int,
            dst_stride as int,
            image.width as int,
            image.height as int,
            3,
        ),
    ensures
        outcome is Ok,
        final(dst)@.len() == old(dst)@.len(),
        view_clamped(
            final(dst)@,
            dst_stride as int,
            3,
            image.width as int,
            image.height as int,
            4096,
        ),
        view_padding_kept(
            old(dst)@,
            final(dst)@,
            dst_stride as int,
            3 * image.width,
            image.height as int,
        ),
{
    let planes = yuv::YuvPlanarImage {
        y_plane: image.y_plane, y_stride: image.y_stride,
        u_plane: image.u_plane, u_stride: image.u_stride,
        v_plane: image.v_plane, v_stride: image.v_stride,
        width: image.width, height: image.height,
    };
    let range =
        match range { YuvRange::Tv => yuv::YuvRange::Limited, YuvRange::Pc => yuv::YuvRange::Full };
    let matrix = match matrix {
        StandardMatrix::Bt601 => yuv::YuvStandardMatrix::Bt601,
        StandardMatrix::Bt709 => yuv::YuvStandardMatrix::Bt709,
        StandardMatrix::Bt2020 => yuv::YuvStandardMatrix::Bt2020,
    };
    yuv::i012_to_rgb12(&planes, dst, dst_stride, range, matrix)
}

/// Calls `yuv::i210_to_rgb10`.
/// Asks for planes and a destination of exactly the image's size, rows whole,
/// and for samples below 1024, which the kernel's 16-bit arithmetic can hold;
/// claims that the kernel, whose only refusals are its size checks, accepts
/// them, and that the destination keeps its length. The kernel picks its
/// row handler by the processor, and the handlers round differently, so the
/// samples are not named. Claims what every handler shows: each sample is
/// capped below 1024 before it is stored, and nothing is written beyond the
/// pixels of a row.
#[verifier::external_body]
pub(crate) fn i210_to_rgb10(
    image: &Planar<u16>,
    dst: &mut [u16],
    dst_stride: u32,
    range: YuvRange,
    matrix: StandardMatrix,
) -> (outcome: Result<(), yuv::YuvError>)
    requires
        image.ready(YuvType::Yuv422),
        image.below(1024),
        packed_ready(
            old(dst)@.len() as int,
            dst_stride as int,
            image.width as int,
            image.height as int,
            3,
        ),
    ensures
        outcome is Ok,
        final(dst)@.len() == old(dst)@.len(),
        view_clamped(
            final(dst)@,
            dst_stride as int,
            3,
            image.width as int,
            image.height as int,
            1024,
        ),
        view_padding_kept(
            old(dst)@,
            final(dst)@,
            dst_stride as int,
            3 * image.width,
            image.height as int,
        ),
{
    let planes = yuv::YuvPlanarImage {
        y_plane: image.y_plane, y_stride: image.y_stride,
        u_plane: image.u_plane, u_stride: image.u_stride,
        v_plane: image.v_plane, v_stride: image.v_stride,
        width: image.width, height: image.height,
    };
    let range =
        match range { YuvRange::Tv => yuv::YuvRange::Limited, YuvRange::Pc => yuv::YuvRange::Full };
    let matrix = match matrix {
        StandardMatrix::Bt601 => yuv::YuvStandardMatrix::Bt601,
        StandardMatrix::Bt709 => yuv::YuvStandardMatrix::Bt709,
        StandardMatrix::Bt2020 => yuv::YuvStandardMatrix::Bt2020,
    };
    yuv::i210_to_rgb10(&planes, dst, dst_stride, range, matrix)
}

/// Calls `yuv::i212_to_rgb12`.
/// Asks for planes and a destination of exactly the image's size, rows whole,
/// and for samples below 4096, which the kernel's 16-bit arithmetic can hold;
/// claims that the kernel, whose only refusals are its size checks, accepts
/// them, and that the destination keeps its length. The kernel picks its
/// row handler by the processor, and the handlers round differently, so the
/// samples are not named. Claims what every handler shows: each sample is
/// capped below 4096 before it is stored, and nothing is written beyond the
/// pixels of a row.
#[verifier::external_body]
pub(crate) fn i212_to_rgb12(
    image: &Planar<u16>,
    dst: &mut [u16],
    dst_stride: u32,
    range: YuvRange,
    matrix: StandardMatrix,
) -> (outcome: Result<(), yuv::YuvError>)
    requires
        image.ready(YuvType::Yuv422),
        image.below(4096),
        packed_ready(
            old(dst)@.len() as int,
            dst_stride as int,
            image.width as int,
            image.height as int,
            3,
        ),
    ensures
        outcome is Ok,
        final(dst)@.len() == old(dst)@.len(),
        view_clamped(
            final(dst)@,
            dst_stride as int,
            3,
            image.width as int,
            image.height as int,
            4096,
        ),
        view_padding_kept(
            old(dst)@,
            final(dst)@,
            dst_stride as int,
            3 * image.width,
            image.height as int,
        ),
{
    let planes = yuv::YuvPlanarImage {
        y_plane: image.y_plane, y_stride: image.y_stride,
        u_plane: image.u_plane, u_stride: image.u_stride,
        v_plane: image.v_plane, v_stride: image.v_stride,
        width: image.width, height: image.height,
    };
    let range =
        match range { YuvRange::Tv => yuv::YuvRange::Limited, YuvRange::Pc => yuv::YuvRange::Full };
    let matrix = match matrix {
        StandardMatrix::Bt601 => yuv::YuvStandardMatrix::Bt601,
        StandardMatrix::Bt709 => yuv::YuvStandardMatrix::Bt709,
        StandardMatrix::Bt2020 => yuv::YuvStandardMatrix::Bt2020,
    };
    yuv::i212_to_rgb12(&planes, dst, dst_stride, range, matrix)
}

/// Calls `yuv::i410_to_rgb10`.
/// Asks for planes and a destination of exactly the image's size, rows whole,
/// and for samples below 1024, which the kernel's 16-bit arithmetic can hold;
/// claims that the kernel, whose only refusals are its size checks, accepts
/// them, and that the destination keeps its length. The kernel picks its
/// row handler by the processor, and the handlers round differently, so the
/// samples are not named. Claims what every handler shows: each sample is
/// capped below 1024 before it is stored, and nothing is written beyond the
/// pixels of a row.
#[verifier::external_body]
pub(crate) fn i410_to_rgb10(
    image: &Planar<u16>,
    dst: &mut [u16],
    dst_stride: u32,
    range: YuvRange,
    matrix: StandardMatrix,
) -> (outcome: Result<(), yuv::YuvError>)
    requires
        image.ready(YuvType::Yuv444),
        image.below(1024),
        packed_ready(
            old(dst)@.len() as int,
            dst_stride as int,
            image.width as int,
            image.height as int,
            3,
        ),
    ensures
        outcome is Ok,
        final(dst)@.len() == old(dst)@.len(),
        view_clamped(
            final(dst)@,
            dst_stride as int,
            3,
            image.width as int,
            image.height as int,
            1024,
        ),
        view_padding_kept(
            old(dst)@,
            final(dst)@,
            dst_stride as int,
            3 * image.width,
            image.height as int,
        ),
{
    let planes = yuv::YuvPlanarImage {
        y_plane: image.y_plane, y_stride: image.y_stride,
        u_plane: image.u_plane, u_stride: image.u_stride,
        v_plane: image.v_plane, v_stride: image.v_stride,
        width: image.width, height: image.height,
    };
    let range =
        match range { YuvRange::Tv => yuv::YuvRange::Limited, YuvRange::Pc => yuv::YuvRange::Full };
    let matrix = match matrix {
        StandardMatrix::Bt601 => yuv::YuvStandardMatrix::Bt601,
        StandardMatrix::Bt709 => yuv::YuvStandardMatrix::Bt709,
        StandardMatrix::Bt2020 => yuv::YuvStandardMatrix::Bt2020,
    };
    yuv::i410_to_rgb10(&planes, dst, dst_stride, range, matrix)
}

/// Calls `yuv::i412_to_rgb12`.
/// Asks for planes and a destination of exactly the image's size, rows whole,
/// and for samples below 4096, which the kernel's 16-bit arithmetic can hold;
/// claims that the kernel, whose only refusals are its size checks, accepts
/// them, and that the destination keeps its length. The kernel picks its
/// row handler by the processor, and the handlers round differently, so the
/// samples are not named. Claims what every handler shows: each sample is
/// capped below 4096 before it is stored, and nothing is written beyond the
/// pixels of a row.
#[verifier::external_body]
pub(crate) fn i412_to_rgb12(
    image: &Planar<u16>,
    dst: &mut [u16],
    dst_stride: u32,
    range: YuvRange,
    matrix: StandardMatrix,
) -> (outcome: Result<(), yuv::YuvError>)
    requires
        image.ready(YuvType::Yuv444),
        image.below(4096),
        packed_ready(
            old(dst)@.len() as int,
            dst_stride as int,
            image.width as int,
            image.height as int,
            3,
        ),
    ensures
        outcome is Ok,
        final(dst)@.len() == old(dst)@.len(),
        view_clamped(
            final(dst)@,
            dst_stride as int,
            3,
            image.width as int,
            image.height as int,
            4096,
        ),
        view_padding_kept(
            old(dst)@,
            final(dst)@,
            dst_stride as int,
            3 * image.width,
            image.height as int,
        ),
{
    let planes = yuv::YuvPlanarImage {
        y_plane: image.y_plane, y_stride: image.y_stride,
        u_plane: image.u_plane, u_stride: image.u_stride,
        v_plane: image.v_plane, v_stride: image.v_stride,
        width: image.width, height: image.height,
    };
    let range =
        match range { YuvRange::Tv => yuv::YuvRange::Limited, YuvRange::Pc => yuv::YuvRange::Full };
    let matrix = match matrix {
        StandardMatrix::Bt601 => yuv::YuvStandardMatrix::Bt601,
        StandardMatrix::Bt709 => yuv::YuvStandardMatrix::Bt709,
        StandardMatrix::Bt2020 => yuv::YuvStandardMatrix::Bt2020,
    };
    yuv::i412_to_rgb12(&planes, dst, dst_stride, range, matrix)
}

// What `yuv::gb10_to_rgb10` leaves in its destination: a function of the planes it is
// handed, their strides, the image's size, what the destination held, its
// stride, and the selectors, and of nothing else.
pub uninterp spec fn gb10_to_rgb10_result(
    y: Seq<u16>,
    y_stride: int,
    u: Seq<u16>,
    u_stride: int,
    v: Seq<u16>,
    v_stride: int,
    width: int,
    height: int,
    dst: Seq<u16>,
    dst_stride: int,
    range: YuvRange,
) -> Seq<u16>;

/// Calls `yuv::gb10_to_rgb10`.
/// Asks for planes and a destination of exactly the image's size, rows whole,
/// and for samples below 1024, which the kernel's 16-bit arithmetic can hold;
/// claims that the kernel, whose only refusals are its size checks, accepts
/// them, and that the destination keeps its length. For samples of two
/// bytes the kernel has no row handler picked by the processor: one piece of
/// integer code does every pixel, so what it leaves in the destination is
/// given a name. Every sample that it stores is capped below 1024, and at
/// full range is the plane's own: red from the third plane, green from the
/// first, blue from the second. It writes nothing beyond the pixels of a
/// row.
#[verifier::external_body]
pub(crate) fn gb10_to_rgb10(
    image: &Planar<u16>,
    dst: &mut [u16],
    dst_stride: u32,
    range: YuvRange,
) -> (outcome: Result<(), yuv::YuvError>)
    requires
        image.ready(YuvType::Yuv444),
        image.below(1024),
        packed_ready(
            old(dst)@.len() as int,
            dst_stride as int,
            image.width as int,
            image.height as int,
            3,
        ),
    ensures
        outcome is Ok,
        final(dst)@.len() == old(dst)@.len(),
        final(dst)@ == gb10_to_rgb10_result(
            image.y_plane@,
            image.y_stride as int,
            image.u_plane@,
            image.u_stride as int,
            image.v_plane@,
            image.v_stride as int,
            image.width as int,
            image.height as int,
            old(dst)@,
            dst_stride as int,
            range,
        ),
        view_clamped(
            final(dst)@,
            dst_stride as int,
            3,
            image.width as int,
            image.height as int,
            1024,
        ),
        view_padding_kept(
            old(dst)@,
            final(dst)@,
            dst_stride as int,
            3 * image.width,
            image.height as int,
        ),
        range == YuvRange::Pc ==> view_takes(
            final(dst)@,
            dst_stride as int,
            3,
            0,
            image.v_plane@,
            image.v_stride as int,
            image.width as int,
            image.height as int,
        ),
        range == YuvRange::Pc ==> view_takes(
            final(dst)@,
            dst_stride as int,
            3,
            1,
            image.y_plane@,
            image.y_stride as int,
            image.width as int,
            image.height as int,
        ),
        range == YuvRange::Pc ==> view_takes(
            final(dst)@,
            dst_stride as int,
            3,
            2,
            image.u_plane@,
            image.u_stride as int,
            image.width as int,
            image.height as int,
        ),
{
    let planes = yuv::YuvPlanarImage {
        y_plane: image.y_plane, y_stride: image.y_stride,
        u_plane: image.u_plane, u_stride: image.u_stride,
        v_plane: image.v_plane, v_stride: image.v_stride,
        width: image.width, height: image.height,
    };
    let range =
        match range { YuvRange::Tv => yuv::YuvRange::Limited, YuvRange::Pc => yuv::YuvRange::Full };
    yuv::gb10_to_rgb10(&planes, dst, dst_stride, range)
}

// What `yuv::gb12_to_rgb12` leaves in its destination: a function of the planes it is
// handed, their strides, the image's size, what the destination held, its
// stride, and the selectors, and of nothing else.
pub uninterp spec fn gb12_to_rgb12_result(
    y: Seq<u16>,
    y_stride: int,
    u: Seq<u16>,
    u_stride: int,
    v: Seq<u16>,
    v_stride: int,
    width: int,
    height: int,
    dst: Seq<u16>,
    dst_stride: int,
    range: YuvRange,
) -> Seq<u16>;

/// Calls `yuv::gb12_to_rgb12`.
/// Asks for planes and a destination of exactly the image's size, rows whole,
/// and for samples below 4096, which the kernel's 16-bit arithmetic can hold;
/// claims that the kernel, whose only refusals are its size checks, accepts
/// them, and that the destination keeps its length. For samples of two
/// bytes the kernel has no row handler picked by the processor: one piece of
/// integer code does every pixel, so what it leaves in the destination is
/// given a name. Every sample that it stores is capped below 4096, and at
/// full range is the plane's own: red from the third plane, green from the
/// first, blue from the second. It writes nothing beyond the pixels of a
/// row.
#[verifier::external_body]
pub(crate) fn gb12_to_rgb12(
    image: &Planar<u16>,
    dst: &mut [u16],
    dst_stride: u32,
    range: YuvRange,
) -> (outcome: Result<(), yuv::YuvError>)
    requires
        image.ready(YuvType::Yuv444),
        image.below(4096),
        packed_ready(
            old(dst)@.len() as int,
            dst_stride as int,
            image.width as int,
            image.height as int,
            3,
        ),
    ensures
        outcome is Ok,
        final(dst)@.len() == old(dst)@.len(),
        final(dst)@ == gb12_to_rgb12_result(
            image.y_plane@,
            image.y_stride as int,
            image.u_plane@,
            image.u_stride as int,
            image.v_plane@,
            image.v_stride as int,
            image.width as int,
            image.height as int,
            old(dst)@,
            dst_stride as int,
            range,
        ),
        view_clamped(
            final(dst)@,
            dst_stride as int,
            3,
            image.width as int,
            image.height as int,
            4096,
        ),
        view_padding_kept(
            old(dst)@,
            final(dst)@,
            dst_stride as int,
            3 * image.width,
            image.height as int,
        ),
        range == YuvRange::Pc ==> view_takes(
            final(dst)@,
            dst_stride as int,
            3,
            0,
            image.v_plane@,
            image.v_stride as int,
            image.width as int,
            image.height as int,
        ),
        range == YuvRange::Pc ==> view_takes(
            final(dst)@,
            dst_stride as int,
            3,
            1,
            image.y_plane@,
            image.y_stride as int,
            image.width as int,
            image.height as int,
        ),
        range == YuvRange::Pc ==> view_takes(
            final(dst)@,
            dst_stride as int,
            3,
            2,
            image.u_plane@,
            image.u_stride as int,
            image.width as int,
            image.height as int,
        ),
{
    let planes = yuv::YuvPlanarImage {
        y_plane: image.y_plane, y_stride: image.y_stride,
        u_plane: image.u_plane, u_stride: image.u_stride,
        v_plane: image.v_plane, v_stride: image.v_stride,
        width: image.width, height: image.height,
    };
    let range =
        match range { YuvRange::Tv => yuv::YuvRange::Limited, YuvRange::Pc => yuv::YuvRange::Full };
    yuv::gb12_to_rgb12(&planes, dst, dst_stride, range)
}

// What `yuv::icgc010_to_rgb10` leaves in its destination: a function of the planes it is
// handed, their strides, the image's size, what the destination held, its
// stride, and the selectors, and of nothing else.
pub uninterp spec fn icgc010_to_rgb10_result(
    y: Seq<u16>,
    y_stride: int,
    u: Seq<u16>,
    u_stride: int,
    v: Seq<u16>,
    v_stride: int,
    width: int,
    height: int,
    dst: Seq<u16>,
    dst_stride: int,
    range: YuvRange,
) -> Seq<u16>;

/// Calls `yuv::icgc010_to_rgb10`.
/// Asks for planes and a destination of exactly the image's size, rows whole,
/// and for samples below 1024, which the kernel's 16-bit arithmetic can hold;
/// claims that the kernel, whose only refusals are its size checks, accepts
/// them, and that the destination keeps its length. For samples of two
/// bytes the kernel has no row handler picked by the processor: one piece of
/// integer code does every pixel, so what it leaves in the destination is
/// given a name. Every sample that it stores is capped below 1024; it
/// writes nothing beyond the pixels of a row.
#[verifier::external_body]
pub(crate) fn icgc010_to_rgb10(
    image: &Planar<u16>,
    dst: &mut [u16],
    dst_stride: u32,
    range: YuvRange,
) -> (outcome: Result<(), yuv::YuvError>)
    requires
        image.ready(YuvType::Yuv420),
        image.below(1024),
        packed_ready(
            old(dst)@.len() as int,
            dst_stride as int,
            image.width as int,
            image.height as int,
            3,
        ),
    ensures
        outcome is Ok,
        final(dst)@.len() == old(dst)@.len(),
        final(dst)@ == icgc010_to_rgb10_result(
            image.y_plane@,
            image.y_stride as int,
            image.u_plane@,
            image.u_stride as int,
            image.v_plane@,
            image.v_stride as int,
            image.width as int,
            image.height as int,
            old(dst)@,
            dst_stride as int,
            range,
        ),
        view_clamped(
            final(dst)@,
            dst_stride as int,
            3,
            image.width as int,
            image.height as int,
            1024,
        ),
        view_padding_kept(
            old(dst)@,
            final(dst)@,
            dst_stride as int,
            3 * image.width,
            image.height as int,
        ),
{
    let planes = yuv::YuvPlanarImage {
        y_plane: image.y_plane, y_stride: image.y_stride,
        u_plane: image.u_plane, u_stride: image.u_stride,
        v_plane: image.v_plane, v_stride: image.v_stride,
        width: image.width, height: image.height,
    };
    let range =
        match range { YuvRange::Tv => yuv::YuvRange::Limited, YuvRange::Pc => yuv::YuvRange::Full };
    yuv::icgc010_to_rgb10(&planes, dst, dst_stride, range)
}

// What `yuv::icgc012_to_rgb12` leaves in its destination: a function of the planes it is
// handed, their strides, the image's size, what the destination held, its
// stride, and the selectors, and of nothing else.
pub uninterp spec fn icgc012_to_rgb12_result(
    y: Seq<u16>,
    y_stride: int,
    u: Seq<u16>,
    u_stride: int,
    v: Seq<u16>,
    v_stride: int,
    width: int,
    height: int,
    dst: Seq<u16>,
    dst_stride: int,
    range: YuvRange,
) -> Seq<u16>;

/// Calls `yuv::icgc012_to_rgb12`.
/// Asks for planes and a destination of exactly the image's size, rows whole,
/// and for samples below 4096, which the kernel's 16-bit arithmetic can hold;
/// claims that the kernel, whose only refusals are its size checks, accepts
/// them, and that the destination keeps its length. For samples of two
/// bytes the kernel has no row handler picked by the processor: one piece of
/// integer code does every pixel, so what it leaves in the destination is
/// given a name. Every sample that it stores is capped below 4096; it
/// writes nothing beyond the pixels of a row.
#[verifier::external_body]
pub(crate) fn icgc012_to_rgb12(
    image: &Planar<u16>,
    dst: &mut [u16],
    dst_stride: u32,
    range: YuvRange,
) -> (outcome: Result<(), yuv::YuvError>)
    requires
        image.ready(YuvType::Yuv420),
        image.below(4096),
        packed_ready(
            old(dst)@.len() as int,
            dst_stride as int,
            image.width as int,
            image.height as int,
            3,
        ),
    ensures
        outcome is Ok,
        final(dst)@.len() == old(dst)@.len(),
        final(dst)@ == icgc012_to_rgb12_result(
            image.y_plane@,
            image.y_stride as int,
            image.u_plane@,
            image.u_stride as int,
            image.v_plane@,
            image.v_stride as int,
            image.width as int,
            image.height as int,
            old(dst)@,
            dst_stride as int,
            range,
        ),
        view_clamped(
            final(dst)@,
            dst_stride as int,
            3,
            image.width as int,
            image.height as int,
            4096,
        ),
        view_padding_kept(
            old(dst)@,
            final(dst)@,
            dst_stride as int,
            3 * image.width,
            image.height as int,
        ),
{
    let planes = yuv::YuvPlanarImage {
        y_plane: image.y_plane, y_stride: image.y_stride,
        u_plane: image.u_plane, u_stride: image.u_stride,
        v_plane: image.v_plane, v_stride: image.v_stride,
        width: image.width, height: image.height,
    };
    let range =
        match range { YuvRange::Tv => yuv::YuvRange::Limited, YuvRange::Pc => yuv::YuvRange::Full };
    yuv::icgc012_to_rgb12(&planes, dst, dst_stride, range)
}

// What `yuv::icgc210_to_rgb10` leaves in its destination: a function of the planes it is
// handed, their strides, the image's size, what the destination held, its
// stride, and the selectors, and of nothing else.
pub uninterp spec fn icgc210_to_rgb10_result(
    y: Seq<u16>,
    y_stride: int,
    u: Seq<u16>,
    u_stride: int,
    v: Seq<u16>,
    v_stride: int,
    width: int,
    height: int,
    dst: Seq<u16>,
    dst_stride: int,
    range: YuvRange,
) -> Seq<u16>;

/// Calls `yuv::icgc210_to_rgb10`.
/// Asks for planes and a destination of exactly the image's size, rows whole,
/// and for samples below 1024, which the kernel's 16-bit arithmetic can hold;
/// claims that the kernel, whose only refusals are its size checks, accepts
/// them, and that the destination keeps its length. For samples of two
/// bytes the kernel has no row handler picked by the processor: one piece of
/// integer code does every pixel, so what it leaves in the destination is
/// given a name. Every sample that it stores is capped below 1024; it
/// writes nothing beyond the pixels of a row.
#[verifier::external_body]
pub(crate) fn icgc210_to_rgb10(
    image: &Planar<u16>,
    dst: &mut [u16],
    dst_stride: u32,
    range: YuvRange,
) -> (outcome: Result<(), yuv::YuvError>)
    requires
        image.ready(YuvType::Yuv422),
        image.below(1024),
        packed_ready(
            old(dst)@.len() as int,
            dst_stride as int,
            image.width as int,
            image.height as int,
            3,
        ),
    ensures
        outcome is Ok,
        final(dst)@.len() == old(dst)@.len(),
        final(dst)@ == icgc210_to_rgb10_result(
            image.y_plane@,
            image.y_stride as int,
            image.u_plane@,
            image.u_stride as int,
            image.v_plane@,
            image.v_stride as int,
            image.width as int,
            image.height as int,
            old(dst)@,
            dst_stride as int,
            range,
        ),
        view_clamped(
            final(dst)@,
            dst_stride as int,
            3,
            image.width as int,
            image.height as int,
            1024,
        ),
        view_padding_kept(
            old(dst)@,
            final(dst)@,
            dst_stride as int,
            3 * image.width,
            image.height as int,
        ),
{
    let planes = yuv::YuvPlanarImage {
        y_plane: image.y_plane, y_stride: image.y_stride,
        u_plane: image.u_plane, u_stride: image.u_stride,
        v_plane: image.v_plane, v_stride: image.v_stride,
        width: image.width, height: image.height,
    };
    let range =
        match range { YuvRange::Tv => yuv::YuvRange::Limited, YuvRange::Pc => yuv::YuvRange::Full };
    yuv::icgc210_to_rgb10(&planes, dst, dst_stride, range)
}

// What `yuv::icgc212_to_rgb12` leaves in its destination: a function of the planes it is
// handed, their strides, the image's size, what the destination held, its
// stride, and the selectors, and of nothing else.
pub uninterp spec fn icgc212_to_rgb12_result(
    y: Seq<u16>,
    y_stride: int,
    u: Seq<u16>,
    u_stride: int,
    v: Seq<u16>,
    v_stride: int,
    width: int,
    height: int,
    dst: Seq<u16>,
    dst_stride: int,
    range: YuvRange,
) -> Seq<u16>;

/// Calls `yuv::icgc212_to_rgb12`.
/// Asks for planes and a destination of exactly the image's size, rows whole,
/// and for samples below 4096, which the kernel's 16-bit arithmetic can hold;
/// claims that the kernel, whose only refusals are its size checks, accepts
/// them, and that the destination keeps its length. For samples of two
/// bytes the kernel has no row handler picked by the processor: one piece of
/// integer code does every pixel, so what it leaves in the destination is
/// given a name. Every sample that it stores is capped below 4096; it
/// writes nothing beyond the pixels of a row.
#[verifier::external_body]
pub(crate) fn icgc212_to_rgb12(
    image: &Planar<u16>,
    dst: &mut [u16],
    dst_stride: u32,
    range: YuvRange,
) -> (outcome: Result<(), yuv::YuvError>)
    requires
        image.ready(YuvType::Yuv422),
        image.below(4096),
        packed_ready(
            old(dst)@.len() as int,
            dst_stride as int,
            image.width as int,
            image.height as int,
            3,
        ),
    ensures
        outcome is Ok,
        final(dst)@.len() == old(dst)@.len(),
        final(dst)@ == icgc212_to_rgb12_result(
            image.y_plane@,
            image.y_stride as int,
            image.u_plane@,
            image.u_stride as int,
            image.v_plane@,
            image.v_stride as int,
            image.width as int,
            image.height as int,
            old(dst)@,
            dst_stride as int,
            range,
        ),
        view_clamped(
            final(dst)@,
            dst_stride as int,
            3,
            image.width as int,
            image.height as int,
            4096,
        ),
        view_padding_kept(
            old(dst)@,
            final(dst)@,
            dst_stride as int,
            3 * image.width,
            image.height as int,
        ),
{
    let planes = yuv::YuvPlanarImage {
        y_plane: image.y_plane, y_stride: image.y_stride,
        u_plane: image.u_plane, u_stride: image.u_stride,
        v_plane: image.v_plane, v_stride: image.v_stride,
        width: image.width, height: image.height,
    };
    let range =
        match range { YuvRange::Tv => yuv::YuvRange::Limited, YuvRange::Pc => yuv::YuvRange::Full };
    yuv::icgc212_to_rgb12(&planes, dst, dst_stride, range)
}

// What `yuv::icgc410_to_rgb10` leaves in its destination: a function of the planes it is
// handed, their strides, the image's size, what the destination held, its
// stride, and the selectors, and of nothing else.
pub uninterp spec fn icgc410_to_rgb10_result(
    y: Seq<u16>,
    y_stride: int,
    u: Seq<u16>,
    u_stride: int,
    v: Seq<u16>,
    v_stride: int,
    width: int,
    height: int,
    dst: Seq<u16>,
    dst_stride: int,
    range: YuvRange,
) -> Seq<u16>;

/// Calls `yuv::icgc410_to_rgb10`.
/// Asks for planes and a destination of exactly the image's size, rows whole,
/// and for samples below 1024, which the kernel's 16-bit arithmetic can hold;
/// claims that the kernel, whose only refusals are its size checks, accepts
/// them, and that the destination keeps its length. For samples of two
/// bytes the kernel has no row handler picked by the processor: one piece of
/// integer code does every pixel, so what it leaves in the destination is
/// given a name. Every sample that it stores is capped below 1024; it
/// writes nothing beyond the pixels of a row.
#[verifier::external_body]
pub(crate) fn icgc410_to_rgb10(
    image: &Planar<u16>,
    dst: &mut [u16],
    dst_stride: u32,
    range: YuvRange,
) -> (outcome: Result<(), yuv::YuvError>)
    requires
        image.ready(YuvType::Yuv444),
        image.below(1024),
        packed_ready(
            old(dst)@.len() as int,
            dst_stride as int,
            image.width as int,
            image.height as int,
            3,
        ),
    ensures
        outcome is Ok,
        final(dst)@.len() == old(dst)@.len(),
        final(dst)@ == icgc410_to_rgb10_result(
            image.y_plane@,
            image.y_stride as int,
            image.u_plane@,
            image.u_stride as int,
            image.v_plane@,
            image.v_stride as int,
            image.width as int,
            image.height as int,
            old(dst)@,
            dst_stride as int,
            range,
        ),
        view_clamped(
            final(dst)@,
            dst_stride as int,
            3,
            image.width as int,
            image.height as int,
            1024,
        ),
        view_padding_kept(
            old(dst)@,
            final(dst)@,
            dst_stride as int,
            3 * image.width,
            image.height as int,
        ),
{
    let planes = yuv::YuvPlanarImage {
        y_plane: image.y_plane, y_stride: image.y_stride,
        u_plane: image.u_plane, u_stride: image.u_stride,
        v_plane: image.v_plane, v_stride: image.v_stride,
        width: image.width, height: image.height,
    };
    let range =
        match range { YuvRange::Tv => yuv::YuvRange::Limited, YuvRange::Pc => yuv::YuvRange::Full };
    yuv::icgc410_to_rgb10(&planes, dst, dst_stride, range)
}

// What `yuv::icgc412_to_rgb12` leaves in its destination: a function of the planes it is
// handed, their strides, the image's size, what the destination held, its
// stride, and the selectors, and of nothing else.
pub uninterp spec fn icgc412_to_rgb12_result(
    y: Seq<u16>,
    y_stride: int,
    u: Seq<u16>,
    u_stride: int,
    v: Seq<u16>,
    v_stride: int,
    width: int,
    height: int,
    dst: Seq<u16>,
    dst_stride: int,
    range: YuvRange,
) -> Seq<u16>;

/// Calls `yuv::icgc412_to_rgb12`.
/// Asks for planes and a destination of exactly the image's size, rows whole,
/// and for samples below 4096, which the kernel's 16-bit arithmetic can hold;
/// claims that the kernel, whose only refusals are its size checks, accepts
/// them, and that the destination keeps its length. For samples of two
/// bytes the kernel has no row handler picked by the processor: one piece of
/// integer code does every pixel, so what it leaves in the destination is
/// given a name. Every sample that it stores is capped below 4096; it
/// writes nothing beyond the pixels of a row.
#[verifier::external_body]
pub(crate) fn icgc412_to_rgb12(
    image: &Planar<u16>,
    dst: &mut [u16],
    dst_stride: u32,
    range: YuvRange,
) -> (outcome: Result<(), yuv::YuvError>)
    requires
        image.ready(YuvType::Yuv444),
        image.below(4096),
        packed_ready(
            old(dst)@.len() as int,
            dst_stride as int,
            image.width as int,
            image.height as int,
            3,
        ),
    ensures
        outcome is Ok,
        final(dst)@.len() == old(dst)@.len(),
        final(dst)@ == icgc412_to_rgb12_result(
            image.y_plane@,
            image.y_stride as int,
            image.u_plane@,
            image.u_stride as int,
            image.v_plane@,
            image.v_stride as int,
            image.width as int,
            image.height as int,
            old(dst)@,
            dst_stride as int,
            range,
        ),
        view_clamped(
            final(dst)@,
            dst_stride as int,
            3,
            image.width as int,
            image.height as int,
            4096,
        ),
        view_padding_kept(
            old(dst)@,
            final(dst)@,
            dst_stride as int,
            3 * image.width,
            image.height as int,
        ),
{
    let planes = yuv::YuvPlanarImage {
        y_plane: image.y_plane, y_stride: image.y_stride,
        u_plane: image.u_plane, u_stride: image.u_stride,
        v_plane: image.v_plane, v_stride: image.v_stride,
        width: image.width, height: image.height,
    };
    let range =
        match range { YuvRange::Tv => yuv::YuvRange::Limited, YuvRange::Pc => yuv::YuvRange::Full };
    yuv::icgc412_to_rgb12(&planes, dst, dst_stride, range)
}

// What `yuv::icgc010_to_rgba10` leaves in its destination: a function of the planes it is
// handed, their strides, the image's size, what the destination held, its
// stride, and the selectors, and of nothing else.
pub uninterp spec fn icgc010_to_rgba10_result(
    y: Seq<u16>,
    y_stride: int,
    u: Seq<u16>,
    u_stride: int,
    v: Seq<u16>,
    v_stride: int,
    width: int,
    height: int,
    dst: Seq<u16>,
    dst_stride: int,
    range: YuvRange,
) -> Seq<u16>;

/// Calls `yuv::icgc010_to_rgba10`.
/// Asks for planes and a destination of exactly the image's size, rows whole,
/// and for samples below 1024, which the kernel's 16-bit arithmetic can hold;
/// claims that the kernel, whose only refusals are its size checks, accepts
/// them, and that the destination keeps its length. For samples of two
/// bytes the kernel has no row handler picked by the processor: one piece of
/// integer code does every pixel, so what it leaves in the destination is
/// given a name. Every sample that it stores is capped below 1024; it
/// writes nothing beyond the pixels of a row.
#[verifier::external_body]
pub(crate) fn icgc010_to_rgba10(
    image: &Planar<u16>,
    dst: &mut [u16],
    dst_stride: u32,
    range: YuvRange,
) -> (outcome: Result<(), yuv::YuvError>)
    requires
        image.ready(YuvType::Yuv420),
        image.below(1024),
        packed_ready(
            old(dst)@.len() as int,
            dst_stride as int,
            image.width as int,
            image.height as int,
            4,
        ),
    ensures
        outcome is Ok,
        final(dst)@.len() == old(dst)@.len(),
        final(dst)@ == icgc010_to_rgba10_result(
            image.y_plane@,
            image.y_stride as int,
            image.u_plane@,
            image.u_stride as int,
            image.v_plane@,
            image.v_stride as int,
            image.width as int,
            image.height as int,
            old(dst)@,
            dst_stride as int,
            range,
        ),
        view_clamped(
            final(dst)@,
            dst_stride as int,
            4,
            image.width as int,
            image.height as int,
            1024,
        ),
        view_padding_kept(
            old(dst)@,
            final(dst)@,
            dst_stride as int,
            4 * image.width,
            image.height as int,
        ),
{
    let planes = yuv::YuvPlanarImage {
        y_plane: image.y_plane, y_stride: image.y_stride,
        u_plane: image.u_plane, u_stride: image.u_stride,
        v_plane: image.v_plane, v_stride: image.v_stride,
        width: image.width, height: image.height,
    };
    let range =
        match range { YuvRange::Tv => yuv::YuvRange::Limited, YuvRange::Pc => yuv::YuvRange::Full };
    yuv::icgc010_to_rgba10(&planes, dst, dst_stride, range)
}

// What `yuv::icgc012_to_rgba12` leaves in its destination: a function of the planes it is
// handed, their strides, the image's size, what the destination held, its
// stride, and the selectors, and of nothing else.
pub uninterp spec fn icgc012_to_rgba12_result(
    y: Seq<u16>,
    y_stride: int,
    u: Seq<u16>,
    u_stride: int,
    v: Seq<u16>,
    v_stride: int,
    width: int,
    height: int,
    dst: Seq<u16>,
    dst_stride: int,
    range: YuvRange,
) -> Seq<u16>;

/// Calls `yuv::icgc012_to_rgba12`.
/// Asks for planes and a destination of exactly the image's size, rows whole,
/// and for samples below 4096, which the kernel's 16-bit arithmetic can hold;
/// claims that the kernel, whose only refusals are its size checks, accepts
/// them, and that the destination keeps its length. For samples of two
/// bytes the kernel has no row handler picked by the processor: one piece of
/// integer code does every pixel, so what it leaves in the destination is
/// given a name. Every sample that it stores is capped below 4096; it
/// writes nothing beyond the pixels of a row.
#[verifier::external_body]
pub(crate) fn icgc012_to_rgba12(
    image: &Planar<u16>,
    dst: &mut [u16],
    dst_stride: u32,
    range: YuvRange,
) -> (outcome: Result<(), yuv::YuvError>)
    requires
        image.ready(YuvType::Yuv420),
        image.below(4096),
        packed_ready(
            old(dst)@.len() as int,
            dst_stride as int,
            image.width as int,
            image.height as int,
            4,
        ),
    ensures
        outcome is Ok,
        final(dst)@.len() == old(dst)@.len(),
        final(dst)@ == icgc012_to_rgba12_result(
            image.y_plane@,
            image.y_stride as int,
            image.u_plane@,
            image.u_stride as int,
            image.v_plane@,
            image.v_stride as int,
            image.width as int,
            image.height as int,
            old(dst)@,
            dst_stride as int,
            range,
        ),
        view_clamped(
            final(dst)@,
            dst_stride as int,
            4,
            image.width as int,
            image.height as int,
            4096,
        ),
        view_padding_kept(
            old(dst)@,
            final(dst)@,
            dst_stride as int,
            4 * image.width,
            image.height as int,
        ),
{
    let planes = yuv::YuvPlanarImage {
        y_plane: image.y_plane, y_stride: image.y_stride,
        u_plane: image.u_plane, u_stride: image.u_stride,
        v_plane: image.v_plane, v_stride: image.v_stride,
        width: image.width, height: image.height,
    };
    let range =
        match range { YuvRange::Tv => yuv::YuvRange::Limited, YuvRange::Pc => yuv::YuvRange::Full };
    yuv::icgc012_to_rgba12(&planes, dst, dst_stride, range)
}

// What `yuv::icgc210_to_rgba10` leaves in its destination: a function of the planes it is
// handed, their strides, the image's size, what the destination held, its
// stride, and the selectors, and of nothing else.
pub uninterp spec fn icgc210_to_rgba10_result(
    y: Seq<u16>,
    y_stride: int,
    u: Seq<u16>,
    u_stride: int,
    v: Seq<u16>,
    v_stride: int,
    width: int,
    height: int,
    dst: Seq<u16>,
    dst_stride: int,
    range: YuvRange,
) -> Seq<u16>;

/// Calls `yuv::icgc210_to_rgba10`.
/// Asks for planes and a destination of exactly the image's size, rows whole,
/// and for samples below 1024, which the kernel's 16-bit arithmetic can hold;
/// claims that the kernel, whose only refusals are its size checks, accepts
/// them, and that the destination keeps its length. For samples of two
/// bytes the kernel has no row handler picked by the processor: one piece of
/// integer code does every pixel, so what it leaves in the destination is
/// given a name. Every sample that it stores is capped below 1024; it
/// writes nothing beyond the pixels of a row.
#[verifier::external_body]
pub(crate) fn icgc210_to_rgba10(
    image: &Planar<u16>,
    dst: &mut [u16],
    dst_stride: u32,
    range: YuvRange,
) -> (outcome: Result<(), yuv::YuvError>)
    requires
        image.ready(YuvType::Yuv422),
        image.below(1024),
        packed_ready(
            old(dst)@.len() as int,
            dst_stride as int,
            image.width as int,
            image.height as int,
            4,
        ),
    ensures
        outcome is Ok,
        final(dst)@.len() == old(dst)@.len(),
        final(dst)@ == icgc210_to_rgba10_result(
            image.y_plane@,
            image.y_stride as int,
            image.u_plane@,
            image.u_stride as int,
            image.v_plane@,
            image.v_stride as int,
            image.width as int,
            image.height as int,
            old(dst)@,
            dst_stride as int,
            range,
        ),
        view_clamped(
            final(dst)@,
            dst_stride as int,
            4,
            image.width as int,
            image.height as int,
            1024,
        ),
        view_padding_kept(
            old(dst)@,
            final(dst)@,
            dst_stride as int,
            4 * image.width,
            image.height as int,
        ),
{
    let planes = yuv::YuvPlanarImage {
        y_plane: image.y_plane, y_stride: image.y_stride,
        u_plane: image.u_plane, u_stride: image.u_stride,
        v_plane: image.v_plane, v_stride: image.v_stride,
        width: image.width, height: image.height,
    };
    let range =
        match range { YuvRange::Tv => yuv::YuvRange::Limited, YuvRange::Pc => yuv::YuvRange::Full };
    yuv::icgc210_to_rgba10(&planes, dst, dst_stride, range)
}

// What `yuv::icgc212_to_rgba12` leaves in its destination: a function of the planes it is
// handed, their strides, the image's size, what the destination held, its
// stride, and the selectors, and of nothing else.
pub uninterp spec fn icgc212_to_rgba12_result(
    y: Seq<u16>,
    y_stride: int,
    u: Seq<u16>,
    u_stride: int,
    v: Seq<u16>,
    v_stride: int,
    width: int,
    height: int,
    dst: Seq<u16>,
    dst_stride: int,
    range: YuvRange,
) -> Seq<u16>;

/// Calls `yuv::icgc212_to_rgba12`.
/// Asks for planes and a destination of exactly the image's size, rows whole,
/// and for samples below 4096, which the kernel's 16-bit arithmetic can hold;
/// claims that the kernel, whose only refusals are its size checks, accepts
/// them, and that the destination keeps its length. For samples of two
/// bytes the kernel has no row handler picked by the processor: one piece of
/// integer code does every pixel, so what it leaves in the destination is
/// given a name. Every sample that it stores is capped below 4096; it
/// writes nothing beyond the pixels of a row.
#[verifier::external_body]
pub(crate) fn icgc212_to_rgba12(
    image: &Planar<u16>,
    dst: &mut [u16],
    dst_stride: u32,
    range: YuvRange,
) -> (outcome: Result<(), yuv::YuvError>)
    requires
        image.ready(YuvType::Yuv422),
        image.below(4096),
        packed_ready(
            old(dst)@.len() as int,
            dst_stride as int,
            image.width as int,
            image.height as int,
            4,
        ),
    ensures
        outcome is Ok,
        final(dst)@.len() == old(dst)@.len(),
        final(dst)@ == icgc212_to_rgba12_result(
            image.y_plane@,
            image.y_stride as int,
            image.u_plane@,
            image.u_stride as int,
            image.v_plane@,
            image.v_stride as int,
            image.width as int,
            image.height as int,
            old(dst)@,
            dst_stride as int,
            range,
        ),
        view_clamped(
            final(dst)@,
            dst_stride as int,
            4,
            image.width as int,
            image.height as int,
            4096,
        ),
        view_padding_kept(
            old(dst)@,
            final(dst)@,
            dst_stride as int,
            4 * image.width,
            image.height as int,
        ),
{
    let planes = yuv::YuvPlanarImage {
        y_plane: image.y_plane, y_stride: image.y_stride,
        u_plane: image.u_plane, u_stride: image.u_stride,
        v_plane: image.v_plane, v_stride: image.v_stride,
        width: image.width, height: image.height,
    };
    let range =
        match range { YuvRange::Tv => yuv::YuvRange::Limited, YuvRange::Pc => yuv::YuvRange::Full };
    yuv::icgc212_to_rgba12(&planes, dst, dst_stride, range)
}

// What `yuv::icgc410_to_rgba10` leaves in its destination: a function of the planes it is
// handed, their strides, the image's size, what the destination held, its
// stride, and the selectors, and of nothing else.
pub uninterp spec fn icgc410_to_rgba10_result(
    y: Seq<u16>,
    y_stride: int,
    u: Seq<u16>,
    u_stride: int,
    v: Seq<u16>,
    v_stride: int,
    width: int,
    height: int,
    dst: Seq<u16>,
    dst_stride: int,
    range: YuvRange,
) -> Seq<u16>;

/// Calls `yuv::icgc410_to_rgba10`.
/// Asks for planes and a destination of exactly the image's size, rows whole,
/// and for samples below 1024, which the kernel's 16-bit arithmetic can hold;
/// claims that the kernel, whose only refusals are its size checks, accepts
/// them, and that the destination keeps its length. For samples of two
/// bytes the kernel has no row handler picked by the processor: one piece of
/// integer code does every pixel, so what it leaves in the destination is
/// given a name. Every sample that it stores is capped below 1024; it
/// writes nothing beyond the pixels of a row.
#[verifier::external_body]
pub(crate) fn icgc410_to_rgba10(
    image: &Planar<u16>,
    dst: &mut [u16],
    dst_stride: u32,
    range: YuvRange,
) -> (outcome: Result<(), yuv::YuvError>)
    requires
        image.ready(YuvType::Yuv444),
        image.below(1024),
        packed_ready(
            old(dst)@.len() as int,
            dst_stride as int,
            image.width as int,
            image.height as int,
            4,
        ),
    ensures
        outcome is Ok,
        final(dst)@.len() == old(dst)@.len(),
        final(dst)@ == icgc410_to_rgba10_result(
            image.y_plane@,
            image.y_stride as int,
            image.u_plane@,
            image.u_stride as int,
            image.v_plane@,
            image.v_stride as int,
            image.width as int,
            image.height as int,
            old(dst)@,
            dst_stride as int,
            range,
        ),
        view_clamped(
            final(dst)@,
            dst_stride as int,
            4,
            image.width as int,
            image.height as int,
            1024,
        ),
        view_padding_kept(
            old(dst)@,
            final(dst)@,
            dst_stride as int,
            4 * image.width,
            image.height as int,
        ),
{
    let planes = yuv::YuvPlanarImage {
        y_plane: image.y_plane, y_stride: image.y_stride,
        u_plane: image.u_plane, u_stride: image.u_stride,
        v_plane: image.v_plane, v_stride: image.v_stride,
        width: image.width, height: image.height,
    };
    let range =
        match range { YuvRange::Tv => yuv::YuvRange::Limited, YuvRange::Pc => yuv::YuvRange::Full };
    yuv::icgc410_to_rgba10(&planes, dst, dst_stride, range)
}

// What `yuv::icgc412_to_rgba12` leaves in its destination: a function of the planes it is
// handed, their strides, the image's size, what the destination held, its
// stride, and the selectors, and of nothing else.
pub uninterp spec fn icgc412_to_rgba12_result(
    y: Seq<u16>,
    y_stride: int,
    u: Seq<u16>,
    u_stride: int,
    v: Seq<u16>,
    v_stride: int,
    width: int,
    height: int,
    dst: Seq<u16>,
    dst_stride: int,
    range: YuvRange,
) -> Seq<u16>;

/// Calls `yuv::icgc412_to_rgba12`.
/// Asks for planes and a destination of exactly the image's size, rows whole,
/// and for samples below 4096, which the kernel's 16-bit arithmetic can hold;
/// claims that the kernel, whose only refusals are its size checks, accepts
/// them, and that the destination keeps its length. For samples of two
/// bytes the kernel has no row handler picked by the processor: one piece of
/// integer code does every pixel, so what it leaves in the destination is
/// given a name. Every sample that it stores is capped below 4096; it
/// writes nothing beyond the pixels of a row.
#[verifier::external_body]
pub(crate) fn icgc412_to_rgba12(
    image: &Planar<u16>,
    dst: &mut [u16],
    dst_stride: u32,
    range: YuvRange,
) -> (outcome: Result<(), yuv::YuvError>)
    requires
        image.ready(YuvType::Yuv444),
        image.below(4096),
        packed_ready(
            old(dst)@.len() as int,
            dst_stride as int,
            image.width as int,
            image.height as int,
            4,
        ),
    ensures
        outcome is Ok,
        final(dst)@.len() == old(dst)@.len(),
        final(dst)@ == icgc412_to_rgba12_result(
            image.y_plane@,
            image.y_stride as int,
            image.u_plane@,
            image.u_stride as int,
            image.v_plane@,
            image.v_stride as int,
            image.width as int,
            image.height as int,
            old(dst)@,
            dst_stride as int,
            range,
        ),
        view_clamped(
            final(dst)@,
            dst_stride as int,
            4,
            image.width as int,
            image.height as int,
            4096,
        ),
        view_padding_kept(
            old(dst)@,
            final(dst)@,
            dst_stride as int,
            4 * image.width,
            image.height as int,
        ),
{
    let planes = yuv::YuvPlanarImage {
        y_plane: image.y_plane, y_stride: image.y_stride,
        u_plane: image.u_plane, u_stride: image.u_stride,
        v_plane: image.v_plane, v_stride: image.v_stride,
        width: image.width, height: image.height,
    };
    let range =
        match range { YuvRange::Tv => yuv::YuvRange::Limited, YuvRange::Pc => yuv::YuvRange::Full };
    yuv::icgc412_to_rgba12(&planes, dst, dst_stride, range)
}

// What `yuv::icgc_ro012_to_rgb10` leaves in its destination: a function of the planes it is
// handed, their strides, the image's size, what the destination held, its
// stride, and the selectors, and of nothing else.
pub uninterp spec fn icgc_ro012_to_rgb10_result(
    y: Seq<u16>,
    y_stride: int,
    u: Seq<u16>,
    u_stride: int,
    v: Seq<u16>,
    v_stride: int,
    width: int,
    height: int,
    dst: Seq<u16>,
    dst_stride: int,
    range: YuvRange,
) -> Seq<u16>;

/// Calls `yuv::icgc_ro012_to_rgb10`.
/// Asks for planes and a destination of exactly the image's size, rows whole,
/// and for samples below 4096, which the kernel's 16-bit arithmetic can hold;
/// claims that the kernel, whose only refusals are its size checks, accepts
/// them, and that the destination keeps its length. For a destination of
/// two-byte samples the kernel has no row handler picked by the processor:
/// one piece of integer code does every pixel, so what it leaves in the
/// destination is given a name. Every sample that it stores is capped below
/// 1024; it writes nothing beyond the pixels of a row.
#[verifier::external_body]
pub(crate) fn icgc_ro012_to_rgb10(
    image: &Planar<u16>,
    dst: &mut [u16],
    dst_stride: u32,
    range: YuvRange,
) -> (outcome: Result<(), yuv::YuvError>)
    requires
        image.ready(YuvType::Yuv420),
        image.below(4096),
        packed_ready(
            old(dst)@.len() as int,
            dst_stride as int,
            image.width as int,
            image.height as int,
            3,
        ),
    ensures
        outcome is Ok,
        final(dst)@.len() == old(dst)@.len(),
        final(dst)@ == icgc_ro012_to_rgb10_result(
            image.y_plane@,
            image.y_stride as int,
            image.u_plane@,
            image.u_stride as int,
            image.v_plane@,
            image.v_stride as int,
            image.width as int,
            image.height as int,
            old(dst)@,
            dst_stride as int,
            range,
        ),
        view_clamped(
            final(dst)@,
            dst_stride as int,
            3,
            image.width as int,
            image.height as int,
            1024,
        ),
        view_padding_kept(
            old(dst)@,
            final(dst)@,
            dst_stride as int,
            3 * image.width,
            image.height as int,
        ),
{
    let planes = yuv::YuvPlanarImage {
        y_plane: image.y_plane, y_stride: image.y_stride,
        u_plane: image.u_plane, u_stride: image.u_stride,
        v_plane: image.v_plane, v_stride: image.v_stride,
        width: image.width, height: image.height,
    };
    let range =
        match range { YuvRange::Tv => yuv::YuvRange::Limited, YuvRange::Pc => yuv::YuvRange::Full };
    yuv::icgc_ro012_to_rgb10(&planes, dst, dst_stride, range)
}

// What `yuv::icgc_re012_to_rgb10` leaves in its destination: a function of the planes it is
// handed, their strides, the image's size, what the destination held, its
// stride, and the selectors, and of nothing else.
pub uninterp spec fn icgc_re012_to_rgb10_result(
    y: Seq<u16>,
    y_stride: int,
    u: Seq<u16>,
    u_stride: int,
    v: Seq<u16>,
    v_stride: int,
    width: int,
    height: int,
    dst: Seq<u16>,
    dst_stride: int,
    range: YuvRange,
) -> Seq<u16>;

/// Calls `yuv::icgc_re012_to_rgb10`.
/// Asks for planes and a destination of exactly the image's size, rows whole,
/// and for samples below 4096, which the kernel's 16-bit arithmetic can hold;
/// claims that the kernel, whose only refusals are its size checks, accepts
/// them, and that the destination keeps its length. For a destination of
/// two-byte samples the kernel has no row handler picked by the processor:
/// one piece of integer code does every pixel, so what it leaves in the
/// destination is given a name. Every sample that it stores is capped below
/// 1024; it writes nothing beyond the pixels of a row.
#[verifier::external_body]
pub(crate) fn icgc_re012_to_rgb10(
    image: &Planar<u16>,
    dst: &mut [u16],
    dst_stride: u32,
    range: YuvRange,
) -> (outcome: Result<(), yuv::YuvError>)
    requires
        image.ready(YuvType::Yuv420),
        image.below(4096),
        packed_ready(
            old(dst)@.len() as int,
            dst_stride as int,
            image.width as int,
            image.height as int,
            3,
        ),
    ensures
        outcome is Ok,
        final(dst)@.len() == old(dst)@.len(),
        final(dst)@ == icgc_re012_to_rgb10_result(
            image.y_plane@,
            image.y_stride as int,
            image.u_plane@,
            image.u_stride as int,
            image.v_plane@,
            image.v_stride as int,
            image.width as int,
            image.height as int,
            old(dst)@,
            dst_stride as int,
            range,
        ),
        view_clamped(
            final(dst)@,
            dst_stride as int,
            3,
            image.width as int,
            image.height as int,
            1024,
        ),
        view_padding_kept(
            old(dst)@,
            final(dst)@,
            dst_stride as int,
            3 * image.width,
            image.height as int,
        ),
{
    let planes = yuv::YuvPlanarImage {
        y_plane: image.y_plane, y_stride: image.y_stride,
        u_plane: image.u_plane, u_stride: image.u_stride,
        v_plane: image.v_plane, v_stride: image.v_stride,
        width: image.width, height: image.height,
    };
    let range =
        match range { YuvRange::Tv => yuv::YuvRange::Limited, YuvRange::Pc => yuv::YuvRange::Full };
    yuv::icgc_re012_to_rgb10(&planes, dst, dst_stride, range)
}

// What `yuv::icgc_ro212_to_rgb10` leaves in its destination: a function of the planes it is
// handed, their strides, the image's size, what the destination held, its
// stride, and the selectors, and of nothing else.
pub uninterp spec fn icgc_ro212_to_rgb10_result(
    y: Seq<u16>,
    y_stride: int,
    u: Seq<u16>,
    u_stride: int,
    v: Seq<u16>,
    v_stride: int,
    width: int,
    height: int,
    dst: Seq<u16>,
    dst_stride: int,
    range: YuvRange,
) -> Seq<u16>;

/// Calls `yuv::icgc_ro212_to_rgb10`.
/// Asks for planes and a destination of exactly the image's size, rows whole,
/// and for samples below 4096, which the kernel's 16-bit arithmetic can hold;
/// claims that the kernel, whose only refusals are its size checks, accepts
/// them, and that the destination keeps its length. For a destination of
/// two-byte samples the kernel has no row handler picked by the processor:
/// one piece of integer code does every pixel, so what it leaves in the
/// destination is given a name. Every sample that it stores is capped below
/// 1024; it writes nothing beyond the pixels of a row.
#[verifier::external_body]
pub(crate) fn icgc_ro212_to_rgb10(
    image: &Planar<u16>,
    dst: &mut [u16],
    dst_stride: u32,
    range: YuvRange,
) -> (outcome: Result<(), yuv::YuvError>)
    requires
        image.ready(YuvType::Yuv422),
        image.below(4096),
        packed_ready(
            old(dst)@.len() as int,
            dst_stride as int,
            image.width as int,
            image.height as int,
            3,
        ),
    ensures
        outcome is Ok,
        final(dst)@.len() == old(dst)@.len(),
        final(dst)@ == icgc_ro212_to_rgb10_result(
            image.y_plane@,
            image.y_stride as int,
            image.u_plane@,
            image.u_stride as int,
            image.v_plane@,
            image.v_stride as int,
            image.width as int,
            image.height as int,
            old(dst)@,
            dst_stride as int,
            range,
        ),
        view_clamped(
            final(dst)@,
            dst_stride as int,
            3,
            image.width as int,
            image.height as int,
            1024,
        ),
        view_padding_kept(
            old(dst)@,
            final(dst)@,
            dst_stride as int,
            3 * image.width,
            image.height as int,
        ),
{
    let planes = yuv::YuvPlanarImage {
        y_plane: image.y_plane, y_stride: image.y_stride,
        u_plane: image.u_plane, u_stride: image.u_stride,
        v_plane: image.v_plane, v_stride: image.v_stride,
        width: image.width, height: image.height,
    };
    let range =
        match range { YuvRange::Tv => yuv::YuvRange::Limited, YuvRange::Pc => yuv::YuvRange::Full };
    yuv::icgc_ro212_to_rgb10(&planes, dst, dst_stride, range)
}

// What `yuv::icgc_re212_to_rgb10` leaves in its destination: a function of the planes it is
// handed, their strides, the image's size, what the destination held, its
// stride, and the selectors, and of nothing else.
pub uninterp spec fn icgc_re212_to_rgb10_result(
    y: Seq<u16>,
    y_stride: int,
    u: Seq<u16>,
    u_stride: int,
    v: Seq<u16>,
    v_stride: int,
    width: int,
    height: int,
    dst: Seq<u16>,
    dst_stride: int,
    range: YuvRange,
) -> Seq<u16>;

/// Calls `yuv::icgc_re212_to_rgb10`.
/// Asks for planes and a destination of exactly the image's size, rows whole,
/// and for samples below 4096, which the kernel's 16-bit arithmetic can hold;
/// claims that the kernel, whose only refusals are its size checks, accepts
/// them, and that the destination keeps its length. For a destination of
/// two-byte samples the kernel has no row handler picked by the processor:
/// one piece of integer code does every pixel, so what it leaves in the
/// destination is given a name. Every sample that it stores is capped below
/// 1024; it writes nothing beyond the pixels of a row.
#[verifier::external_body]
pub(crate) fn icgc_re212_to_rgb10(
    image: &Planar<u16>,
    dst: &mut [u16],
    dst_stride: u32,
    range: YuvRange,
) -> (outcome: Result<(), yuv::YuvError>)
    requires
        image.ready(YuvType::Yuv422),
        image.below(4096),
        packed_ready(
            old(dst)@.len() as int,
            dst_stride as int,
            image.width as int,
            image.height as int,
            3,
        ),
    ensures
        outcome is Ok,
        final(dst)@.len() == old(dst)@.len(),
        final(dst)@ == icgc_re212_to_rgb10_result(
            image.y_plane@,
            image.y_stride as int,
            image.u_plane@,
            image.u_stride as int,
            image.v_plane@,
            image.v_stride as int,
            image.width as int,
            image.height as int,
            old(dst)@,
            dst_stride as int,
            range,
        ),
        view_clamped(
            final(dst)@,
            dst_stride as int,
            3,
            image.width as int,
            image.height as int,
            1024,
        ),
        view_padding_kept(
            old(dst)@,
            final(dst)@,
            dst_stride as int,
            3 * image.width,
            image.height as int,
        ),
{
    let planes = yuv::YuvPlanarImage {
        y_plane: image.y_plane, y_stride: image.y_stride,
        u_plane: image.u_plane, u_stride: image.u_stride,
        v_plane: image.v_plane, v_stride: image.v_stride,
        width: image.width, height: image.height,
    };
    let range =
        match range { YuvRange::Tv => yuv::YuvRange::Limited, YuvRange::Pc => yuv::YuvRange::Full };
    yuv::icgc_re212_to_rgb10(&planes, dst, dst_stride, range)
}

// What `yuv::icgc_ro412_to_rgb10` leaves in its destination: a function of the planes it is
// handed, their strides, the image's size, what the destination held, its
// stride, and the selectors, and of nothing else.
pub uninterp spec fn icgc_ro412_to_rgb10_result(
    y: Seq<u16>,
    y_stride: int,
    u: Seq<u16>,
    u_stride: int,
    v: Seq<u16>,
    v_stride: int,
    width: int,
    height: int,
    dst: Seq<u16>,
    dst_stride: int,
    range: YuvRange,
) -> Seq<u16>;

/// Calls `yuv::icgc_ro412_to_rgb10`.
/// Asks for planes and a destination of exactly the image's size, rows whole,
/// and for samples below 4096, which the kernel's 16-bit arithmetic can hold;
/// claims that the kernel, whose only refusals are its size checks, accepts
/// them, and that the destination keeps its length. For a destination of
/// two-byte samples the kernel has no row handler picked by the processor:
/// one piece of integer code does every pixel, so what it leaves in the
/// destination is given a name. Every sample that it stores is capped below
/// 1024; it writes nothing beyond the pixels of a row.
#[verifier::external_body]
pub(crate) fn icgc_ro412_to_rgb10(
    image: &Planar<u16>,
    dst: &mut [u16],
    dst_stride: u32,
    range: YuvRange,
) -> (outcome: Result<(), yuv::YuvError>)
    requires
        image.ready(YuvType::Yuv444),
        image.below(4096),
        packed_ready(
            old(dst)@.len() as int,
            dst_stride as int,
            image.width as int,
            image.height as int,
            3,
        ),
    ensures
        outcome is Ok,
        final(dst)@.len() == old(dst)@.len(),
        final(dst)@ == icgc_ro412_to_rgb10_result(
            image.y_plane@,
            image.y_stride as int,
            image.u_plane@,
            image.u_stride as int,
            image.v_plane@,
            image.v_stride as int,
            image.width as int,
            image.height as int,
            old(dst)@,
            dst_stride as int,
            range,
        ),
        view_clamped(
            final(dst)@,
            dst_stride as int,
            3,
            image.width as int,
            image.height as int,
            1024,
        ),
        view_padding_kept(
            old(dst)@,
            final(dst)@,
            dst_stride as int,
            3 * image.width,
            image.height as int,
        ),
{
    let planes = yuv::YuvPlanarImage {
        y_plane: image.y_plane, y_stride: image.y_stride,
        u_plane: image.u_plane, u_stride: image.u_stride,
        v_plane: image.v_plane, v_stride: image.v_stride,
        width: image.width, height: image.height,
    };
    let range =
        match range { YuvRange::Tv => yuv::YuvRange::Limited, YuvRange::Pc => yuv::YuvRange::Full };
    yuv::icgc_ro412_to_rgb10(&planes, dst, dst_stride, range)
}

// What `yuv::icgc_re412_to_rgb10` leaves in its destination: a function of the planes it is
// handed, their strides, the image's size, what the destination held, its
// stride, and the selectors, and of nothing else.
pub uninterp spec fn icgc_re412_to_rgb10_result(
    y: Seq<u16>,
    y_stride: int,
    u: Seq<u16>,
    u_stride: int,
    v: Seq<u16>,
    v_stride: int,
    width: int,
    height: int,
    dst: Seq<u16>,
    dst_stride: int,
    range: YuvRange,
) -> Seq<u16>;

/// Calls `yuv::icgc_re412_to_rgb10`.
/// Asks for planes and a destination of exactly the image's size, rows whole,
/// and for samples below 4096, which the kernel's 16-bit arithmetic can hold;
/// claims that the kernel, whose only refusals are its size checks, accepts
/// them, and that the destination keeps its length. For a destination of
/// two-byte samples the kernel has no row handler picked by the processor:
/// one piece of integer code does every pixel, so what it leaves in the
/// destination is given a name. Every sample that it stores is capped below
/// 1024; it writes nothing beyond the pixels of a row.
#[verifier::external_body]
pub(crate) fn icgc_re412_to_rgb10(
    image: &Planar<u16>,
    dst: &mut [u16],
    dst_stride: u32,
    range: YuvRange,
) -> (outcome: Result<(), yuv::YuvError>)
    requires
        image.ready(YuvType::Yuv444),
        image.below(4096),
        packed_ready(
            old(dst)@.len() as int,
            dst_stride as int,
            image.width as int,
            image.height as int,
            3,
        ),
    ensures
        outcome is Ok,
        final(dst)@.len() == old(dst)@.len(),
        final(dst)@ == icgc_re412_to_rgb10_result(
            image.y_plane@,
            image.y_stride as int,
            image.u_plane@,
            image.u_stride as int,
            image.v_plane@,
            image.v_stride as int,
            image.width as int,
            image.height as int,
            old(dst)@,
            dst_stride as int,
            range,
        ),
        view_clamped(
            final(dst)@,
            dst_stride as int,
            3,
            image.width as int,
            image.height as int,
            1024,
        ),
        view_padding_kept(
            old(dst)@,
            final(dst)@,
            dst_stride as int,
            3 * image.width,
            image.height as int,
        ),
{
    let planes = yuv::YuvPlanarImage {
        y_plane: image.y_plane, y_stride: image.y_stride,
        u_plane: image.u_plane, u_stride: image.u_stride,
        v_plane: image.v_plane, v_stride: image.v_stride,
        width: image.width, height: image.height,
    };
    let range =
        match range { YuvRange::Tv => yuv::YuvRange::Limited, YuvRange::Pc => yuv::YuvRange::Full };
    yuv::icgc_re412_to_rgb10(&planes, dst, dst_stride, range)
}

/// Calls `yuv::i010_alpha_to_rgba10`.
/// Asks for planes and a destination of exactly the image's size, rows whole,
/// and for samples below 1024, which the kernel's 16-bit arithmetic can hold;
/// claims that the kernel, whose only refusals are its size checks, accepts
/// them, and that the destination keeps its length. The kernel picks its
/// row handler by the processor, and the handlers round differently, so the
/// samples are not named. Claims what every handler shows: each colour is
/// capped below 1024 before it is stored, each alpha is a sample of the alpha
/// plane, and nothing is written beyond the pixels of a row.
#[verifier::external_body]
pub(crate) fn i010_alpha_to_rgba10(
    image: &PlanarAlpha<u16>,
    dst: &mut [u16],
    dst_stride: u32,
    range: YuvRange,
    matrix: StandardMatrix,
) -> (outcome: Result<(), yuv::YuvError>)
    requires
        image.ready(YuvType::Yuv420),
        image.below(1024),
        packed_ready(
            old(dst)@.len() as int,
            dst_stride as int,
            image.width as int,
            image.height as int,
            4,
        ),
    ensures
        outcome is Ok,
        final(dst)@.len() == old(dst)@.len(),
        view_clamped(
            final(dst)@,
            dst_stride as int,
            4,
            image.width as int,
            image.height as int,
            1024,
        ),
        view_padding_kept(
            old(dst)@,
            final(dst)@,
            dst_stride as int,
            4 * image.width,
            image.height as int,
        ),
{
    let planes = yuv::YuvPlanarImageWithAlpha {
        y_plane: image.y_plane, y_stride: image.y_stride,
        u_plane: image.u_plane, u_stride: image.u_stride,
        v_plane: image.v_plane, v_stride: image.v_stride,
        a_plane: image.a_plane, a_stride: image.a_stride,
        width: image.width, height: image.height,
    };
    let range =
        match range { YuvRange::Tv => yuv::YuvRange::Limited, YuvRange::Pc => yuv::YuvRange::Full };
    let matrix = match matrix {
        StandardMatrix::Bt601 => yuv::YuvStandardMatrix::Bt601,
        StandardMatrix::Bt709 => yuv::YuvStandardMatrix::Bt709,
        StandardMatrix::Bt2020 => yuv::YuvStandardMatrix::Bt2020,
    };
    yuv::i010_alpha_to_rgba10(&planes, dst, dst_stride, range, matrix)
}

/// Calls `yuv::i012_alpha_to_rgba12`.
/// Asks for planes and a destination of exactly the image's size, rows whole,
/// and for samples below 4096, which the kernel's 16-bit arithmetic can hold;
/// claims that the kernel, whose only refusals are its size checks, accepts
/// them, and that the destination keeps its length. The kernel picks its
/// row handler by the processor, and the handlers round differently, so the
/// samples are not named. Claims what every handler shows: each colour is
/// capped below 4096 before it is stored, each alpha is a sample of the alpha
/// plane, and nothing is written beyond the pixels of a row.
#[verifier::external_body]
pub(crate) fn i012_alpha_to_rgba12(
    image: &PlanarAlpha<u16>,
    dst: &mut [u16],
    dst_stride: u32,
    range: YuvRange,
    matrix: StandardMatrix,
) -> (outcome: Result<(), yuv::YuvError>)
    requires
        image.ready(YuvType::Yuv420),
        image.below(4096),
        packed_ready(
            old(dst)@.len() as int,
            dst_stride as int,
            image.width as int,
            image.height as int,
            4,
        ),
    ensures
        outcome is Ok,
        final(dst)@.len() == old(dst)@.len(),
        view_clamped(
            final(dst)@,
            dst_stride as int,
            4,
            image.width as int,
            image.height as int,
            4096,
        ),
        view_padding_kept(
            old(dst)@,
            final(dst)@,
            dst_stride as int,
            4 * image.width,
            image.height as int,
        ),
{
    let planes = yuv::YuvPlanarImageWithAlpha {
        y_plane: image.y_plane, y_stride: image.y_stride,
        u_plane: image.u_plane, u_stride: image.u_stride,
        v_plane: image.v_plane, v_stride: image.v_stride,
        a_plane: image.a_plane, a_stride: image.a_stride,
        width: image.width, height: image.height,
    };
    let range =
        match range { YuvRange::Tv => yuv::YuvRange::Limited, YuvRange::Pc => yuv::YuvRange::Full };
    let matrix = match matrix {
        StandardMatrix::Bt601 => yuv::YuvStandardMatrix::Bt601,
        StandardMatrix::Bt709 => yuv::YuvStandardMatrix::Bt709,
        StandardMatrix::Bt2020 => yuv::YuvStandardMatrix::Bt2020,
    };
    yuv::i012_alpha_to_rgba12(&planes, dst, dst_stride, range, matrix)
}

/// Calls `yuv::i210_alpha_to_rgba10`.
/// Asks for planes and a destination of exactly the image's size, rows whole,
/// and for samples below 1024, which the kernel's 16-bit arithmetic can hold;
/// claims that the kernel, whose only refusals are its size checks, accepts
/// them, and that the destination keeps its length. The kernel picks its
/// row handler by the processor, and the handlers round differently, so the
/// samples are not named. Claims what every handler shows: each colour is
/// capped below 1024 before it is stored, each alpha is a sample of the alpha
/// plane, and nothing is written beyond the pixels of a row.
#[verifier::external_body]
pub(crate) fn i210_alpha_to_rgba10(
    image: &PlanarAlpha<u16>,
    dst: &mut [u16],
    dst_stride: u32,
    range: YuvRange,
    matrix: StandardMatrix,
) -> (outcome: Result<(), yuv::YuvError>)
    requires
        image.ready(YuvType::Yuv422),
        image.below(1024),
        packed_ready(
            old(dst)@.len() as int,
            dst_stride as int,
            image.width as int,
            image.height as int,
            4,
        ),
    ensures
        outcome is Ok,
        final(dst)@.len() == old(dst)@.len(),
        view_clamped(
            final(dst)@,
            dst_stride as int,
            4,
            image.width as int,
            image.height as int,
            1024,
        ),
        view_padding_kept(
            old(dst)@,
            final(dst)@,
            dst_stride as int,
            4 * image.width,
            image.height as int,
        ),
{
    let planes = yuv::YuvPlanarImageWithAlpha {
        y_plane: image.y_plane, y_stride: image.y_stride,
        u_plane: image.u_plane, u_stride: image.u_stride,
        v_plane: image.v_plane, v_stride: image.v_stride,
        a_plane: image.a_plane, a_stride: image.a_stride,
        width: image.width, height: image.height,
    };
    let range =
        match range { YuvRange::Tv => yuv::YuvRange::Limited, YuvRange::Pc => yuv::YuvRange::Full };
    let matrix = match matrix {
        StandardMatrix::Bt601 => yuv::YuvStandardMatrix::Bt601,
        StandardMatrix::Bt709 => yuv::YuvStandardMatrix::Bt709,
        StandardMatrix::Bt2020 => yuv::YuvStandardMatrix::Bt2020,
    };
    yuv::i210_alpha_to_rgba10(&planes, dst, dst_stride, range, matrix)
}

/// Calls `yuv::i212_alpha_to_rgba12`.
/// Asks for planes and a destination of exactly the image's size, rows whole,
/// and for samples below 4096, which the kernel's 16-bit arithmetic can hold;
/// claims that the kernel, whose only refusals are its size checks, accepts
/// them, and that the destination keeps its length. The kernel picks its
/// row handler by the processor, and the handlers round differently, so the
/// samples are not named. Claims what every handler shows: each colour is
/// capped below 4096 before it is stored, each alpha is a sample of the alpha
/// plane, and nothing is written beyond the pixels of a row.
#[verifier::external_body]
pub(crate) fn i212_alpha_to_rgba12(
    image: &PlanarAlpha<u16>,
    dst: &mut [u16],
    dst_stride: u32,
    range: YuvRange,
    matrix: StandardMatrix,
) -> (outcome: Result<(), yuv::YuvError>)
    requires
        image.ready(YuvType::Yuv422),
        image.below(4096),
        packed_ready(
            old(dst)@.len() as int,
            dst_stride as int,
            image.width as int,
            image.height as int,
            4,
        ),
    ensures
        outcome is Ok,
        final(dst)@.len() == old(dst)@.len(),
        view_clamped(
            final(dst)@,
            dst_stride as int,
            4,
            image.width as int,
            image.height as int,
            4096,
        ),
        view_padding_kept(
            old(dst)@,
            final(dst)@,
            dst_stride as int,
            4 * image.width,
            image.height as int,
        ),
{
    let planes = yuv::YuvPlanarImageWithAlpha {
        y_plane: image.y_plane, y_stride: image.y_stride,
        u_plane: image.u_plane, u_stride: image.u_stride,
        v_plane: image.v_plane, v_stride: image.v_stride,
        a_plane: image.a_plane, a_stride: image.a_stride,
        width: image.width, height: image.height,
    };
    let range =
        match range { YuvRange::Tv => yuv::YuvRange::Limited, YuvRange::Pc => yuv::YuvRange::Full };
    let matrix = match matrix {
        StandardMatrix::Bt601 => yuv::YuvStandardMatrix::Bt601,
        StandardMatrix::Bt709 => yuv::YuvStandardMatrix::Bt709,
        StandardMatrix::Bt2020 => yuv::YuvStandardMatrix::Bt2020,
    };
    yuv::i212_alpha_to_rgba12(&planes, dst, dst_stride, range, matrix)
}

/// Calls `yuv::i410_alpha_to_rgba10`.
/// Asks for planes and a destination of exactly the image's size, rows whole,
/// and for samples below 1024, which the kernel's 16-bit arithmetic can hold;
/// claims that the kernel, whose only refusals are its size checks, accepts
/// them, and that the destination keeps its length. The kernel picks its
/// row handler by the processor, and the handlers round differently, so the
/// samples are not named. Claims what every handler shows: each colour is
/// capped below 1024 before it is stored, each alpha is a sample of the alpha
/// plane, and nothing is written beyond the pixels of a row.
#[verifier::external_body]
pub(crate) fn i410_alpha_to_rgba10(
    image: &PlanarAlpha<u16>,
    dst: &mut [u16],
    dst_stride: u32,
    range: YuvRange,
    matrix: StandardMatrix,
) -> (outcome: Result<(), yuv::YuvError>)
    requires
        image.ready(YuvType::Yuv444),
        image.below(1024),
        packed_ready(
            old(dst)@.len() as int,
            dst_stride as int,
            image.width as int,
            image.height as int,
            4,
        ),
    ensures
        outcome is Ok,
        final(dst)@.len() == old(dst)@.len(),
        view_clamped(
            final(dst)@,
            dst_stride as int,
            4,
            image.width as int,
            image.height as int,
            1024,
        ),
        view_padding_kept(
            old(dst)@,
            final(dst)@,
            dst_stride as int,
            4 * image.width,
            image.height as int,
        ),
{
    let planes = yuv::YuvPlanarImageWithAlpha {
        y_plane: image.y_plane, y_stride: image.y_stride,
        u_plane: image.u_plane, u_stride: image.u_stride,
        v_plane: image.v_plane, v_stride: image.v_stride,
        a_plane: image.a_plane, a_stride: image.a_stride,
        width: image.width, height: image.height,
    };
    let range =
        match range { YuvRange::Tv => yuv::YuvRange::Limited, YuvRange::Pc => yuv::YuvRange::Full };
    let matrix = match matrix {
        StandardMatrix::Bt601 => yuv::YuvStandardMatrix::Bt601,
        StandardMatrix::Bt709 => yuv::YuvStandardMatrix::Bt709,
        StandardMatrix::Bt2020 => yuv::YuvStandardMatrix::Bt2020,
    };
    yuv::i410_alpha_to_rgba10(&planes, dst, dst_stride, range, matrix)
}

/// Calls `yuv::i412_alpha_to_rgba12`.
/// Asks for planes and a destination of exactly the image's size, rows whole,
/// and for samples below 4096, which the kernel's 16-bit arithmetic can hold;
/// claims that the kernel, whose only refusals are its size checks, accepts
/// them, and that the destination keeps its length. The kernel picks its
/// row handler by the processor, and the handlers round differently, so the
/// samples are not named. Claims what every handler shows: each colour is
/// capped below 4096 before it is stored, each alpha is a sample of the alpha
/// plane, and nothing is written beyond the pixels of a row.
#[verifier::external_body]
pub(crate) fn i412_alpha_to_rgba12(
    image: &PlanarAlpha<u16>,
    dst: &mut [u16],
    dst_stride: u32,
    range: YuvRange,
    matrix: StandardMatrix,
) -> (outcome: Result<(), yuv::YuvError>)
    requires
        image.ready(YuvType::Yuv444),
        image.below(4096),
        packed_ready(
            old(dst)@.len() as int,
            dst_stride as int,
            image.width as int,
            image.height as int,
            4,
        ),
    ensures
        outcome is Ok,
        final(dst)@.len() == old(dst)@.len(),
        view_clamped(
            final(dst)@,
            dst_stride as int,
            4,
            image.width as int,
            image.height as int,
            4096,
        ),
        view_padding_kept(
            old(dst)@,
            final(dst)@,
            dst_stride as int,
            4 * image.width,
            image.height as int,
        ),
{
    let planes = yuv::YuvPlanarImageWithAlpha {
        y_plane: image.y_plane, y_stride: image.y_stride,
        u_plane: image.u_plane, u_stride: image.u_stride,
        v_plane: image.v_plane, v_stride: image.v_stride,
        a_plane: image.a_plane, a_stride: image.a_stride,
        width: image.width, height: image.height,
    };
    let range =
        match range { YuvRange::Tv => yuv::YuvRange::Limited, YuvRange::Pc => yuv::YuvRange::Full };
    let matrix = match matrix {
        StandardMatrix::Bt601 => yuv::YuvStandardMatrix::Bt601,
        StandardMatrix::Bt709 => yuv::YuvStandardMatrix::Bt709,
        StandardMatrix::Bt2020 => yuv::YuvStandardMatrix::Bt2020,
    };
    yuv::i412_alpha_to_rgba12(&planes, dst, dst_stride, range, matrix)
}

// What `yuv::gb10_alpha_to_rgba10` leaves in its destination: a function of the planes it is
// handed, their strides, the image's size, what the destination held, its
// stride, and the selectors, and of nothing else.
pub uninterp spec fn gb10_alpha_to_rgba10_result(
    y: Seq<u16>,
    y_stride: int,
    u: Seq<u16>,
    u_stride: int,
    v: Seq<u16>,
    v_stride: int,
    a: Seq<u16>,
    a_stride: int,
    width: int,
    height: int,
    dst: Seq<u16>,
    dst_stride: int,
    range: YuvRange,
) -> Seq<u16>;

/// Calls `yuv::gb10_alpha_to_rgba10`.
/// Asks for planes and a destination of exactly the image's size, rows whole,
/// and for samples below 1024, which the kernel's 16-bit arithmetic can hold;
/// claims that the kernel, whose only refusals are its size checks, accepts
/// them, and that the destination keeps its length. The kernel is one
/// piece of integer code, the same on every processor: what it leaves in the
/// destination is given a name. Each colour that it stores is capped below
/// 1024, each alpha is the alpha plane's sample at that row and column, and
/// at full range each colour is the plane's own: red from the third plane,
/// green from the first, blue from the second. It writes nothing beyond the
/// pixels of a row.
#[verifier::external_body]
pub(crate) fn gb10_alpha_to_rgba10(
    image: &PlanarAlpha<u16>,
    dst: &mut [u16],
    dst_stride: u32,
    range: YuvRange,
) -> (outcome: Result<(), yuv::YuvError>)
    requires
        image.ready(YuvType::Yuv444),
        image.below(1024),
        packed_ready(
            old(dst)@.len() as int,
            dst_stride as int,
            image.width as int,
            image.height as int,
            4,
        ),
    ensures
        outcome is Ok,
        final(dst)@.len() == old(dst)@.len(),
        final(dst)@ == gb10_alpha_to_rgba10_result(
            image.y_plane@,
            image.y_stride as int,
            image.u_plane@,
            image.u_stride as int,
            image.v_plane@,
            image.v_stride as int,
            image.a_plane@,
            image.a_stride as int,
            image.width as int,
            image.height as int,
            old(dst)@,
            dst_stride as int,
            range,
        ),
        view_clamped(
            final(dst)@,
            dst_stride as int,
            4,
            image.width as int,
            image.height as int,
            1024,
        ),
        view_padding_kept(
            old(dst)@,
            final(dst)@,
            dst_stride as int,
            4 * image.width,
            image.height as int,
        ),
        view_takes(
            final(dst)@,
            dst_stride as int,
            4,
            3,
            image.a_plane@,
            image.a_stride as int,
            image.width as int,
            image.height as int,
        ),
        range == YuvRange::Pc ==> view_takes(
            final(dst)@,
            dst_stride as int,
            4,
            0,
            image.v_plane@,
            image.v_stride as int,
            image.width as int,
            image.height as int,
        ),
        range == YuvRange::Pc ==> view_takes(
            final(dst)@,
            dst_stride as int,
            4,
            1,
            image.y_plane@,
            image.y_stride as int,
            image.width as int,
            image.height as int,
        ),
        range == YuvRange::Pc ==> view_takes(
            final(dst)@,
            dst_stride as int,
            4,
            2,
            image.u_plane@,
            image.u_stride as int,
            image.width as int,
            image.height as int,
        ),
{
    let planes = yuv::YuvPlanarImageWithAlpha {
        y_plane: image.y_plane, y_stride: image.y_stride,
        u_plane: image.u_plane, u_stride: image.u_stride,
        v_plane: image.v_plane, v_stride: image.v_stride,
        a_plane: image.a_plane, a_stride: image.a_stride,
        width: image.width, height: image.height,
    };
    let range =
        match range { YuvRange::Tv => yuv::YuvRange::Limited, YuvRange::Pc => yuv::YuvRange::Full };
    yuv::gb10_alpha_to_rgba10(&planes, dst, dst_stride, range)
}

// What `yuv::gb12_alpha_to_rgba12` leaves in its destination: a function of the planes it is
// handed, their strides, the image's size, what the destination held, its
// stride, and the selectors, and of nothing else.
pub uninterp spec fn gb12_alpha_to_rgba12_result(
    y: Seq<u16>,
    y_stride: int,
    u: Seq<u16>,
    u_stride: int,
    v: Seq<u16>,
    v_stride: int,
    a: Seq<u16>,
    a_stride: int,
    width: int,
    height: int,
    dst: Seq<u16>,
    dst_stride: int,
    range: YuvRange,
) -> Seq<u16>;

/// Calls `yuv::gb12_alpha_to_rgba12`.
/// Asks for planes and a destination of exactly the image's size, rows whole,
/// and for samples below 4096, which the kernel's 16-bit arithmetic can hold;
/// claims that the kernel, whose only refusals are its size checks, accepts
/// them, and that the destination keeps its length. The kernel is one
/// piece of integer code, the same on every processor: what it leaves in the
/// destination is given a name. Each colour that it stores is capped below
/// 4096, each alpha is the alpha plane's sample at that row and column, and
/// at full range each colour is the plane's own: red from the third plane,
/// green from the first, blue from the second. It writes nothing beyond the
/// pixels of a row.
#[verifier::external_body]
pub(crate) fn gb12_alpha_to_rgba12(
    image: &PlanarAlpha<u16>,
    dst: &mut [u16],
    dst_stride: u32,
    range: YuvRange,
) -> (outcome: Result<(), yuv::YuvError>)
    requires
        image.ready(YuvType::Yuv444),
        image.below(4096),
        packed_ready(
            old(dst)@.len() as int,
            dst_stride as int,
            image.width as int,
            image.height as int,
            4,
        ),
    ensures
        outcome is Ok,
        final(dst)@.len() == old(dst)@.len(),
        final(dst)@ == gb12_alpha_to_rgba12_result(
            image.y_plane@,
            image.y_stride as int,
            image.u_plane@,
            image.u_stride as int,
            image.v_plane@,
            image.v_stride as int,
            image.a_plane@,
            image.a_stride as int,
            image.width as int,
            image.height as int,
            old(dst)@,
            dst_stride as int,
            range,
        ),
        view_clamped(
            final(dst)@,
            dst_stride as int,
            4,
            image.width as int,
            image.height as int,
            4096,
        ),
        view_padding_kept(
            old(dst)@,
            final(dst)@,
            dst_stride as int,
            4 * image.width,
            image.height as int,
        ),
        view_takes(
            final(dst)@,
            dst_stride as int,
            4,
            3,
            image.a_plane@,
            image.a_stride as int,
            image.width as int,
            image.height as int,
        ),
        range == YuvRange::Pc ==> view_takes(
            final(dst)@,
            dst_stride as int,
            4,
            0,
            image.v_plane@,
            image.v_stride as int,
            image.width as int,
            image.height as int,
        ),
        range == YuvRange::Pc ==> view_takes(
            final(dst)@,
            dst_stride as int,
            4,
            1,
            image.y_plane@,
            image.y_stride as int,
            image.width as int,
            image.height as int,
        ),
        range == YuvRange::Pc ==> view_takes(
            final(dst)@,
            dst_stride as int,
            4,
            2,
            image.u_plane@,
            image.u_stride as int,
            image.width as int,
            image.height as int,
        ),
{
    let planes = yuv::YuvPlanarImageWithAlpha {
        y_plane: image.y_plane, y_stride: image.y_stride,
        u_plane: image.u_plane, u_stride: image.u_stride,
        v_plane: image.v_plane, v_stride: image.v_stride,
        a_plane: image.a_plane, a_stride: image.a_stride,
        width: image.width, height: image.height,
    };
    let range =
        match range { YuvRange::Tv => yuv::YuvRange::Limited, YuvRange::Pc => yuv::YuvRange::Full };
    yuv::gb12_alpha_to_rgba12(&planes, dst, dst_stride, range)
}

// What `yuv::icgc010_alpha_to_rgba10` leaves in its destination: a function of the planes it is
// handed, their strides, the image's size, what the destination held, its
// stride, and the selectors, and of nothing else.
pub uninterp spec fn icgc010_alpha_to_rgba10_result(
    y: Seq<u16>,
    y_stride: int,
    u: Seq<u16>,
    u_stride: int,
    v: Seq<u16>,
    v_stride: int,
    a: Seq<u16>,
    a_stride: int,
    width: int,
    height: int,
    dst: Seq<u16>,
    dst_stride: int,
    range: YuvRange,
) -> Seq<u16>;

/// Calls `yuv::icgc010_alpha_to_rgba10`.
/// Asks for planes and a destination of exactly the image's size, rows whole,
/// and for samples below 1024, which the kernel's 16-bit arithmetic can hold;
/// claims that the kernel, whose only refusals are its size checks, accepts
/// them, and that the destination keeps its length. The kernel is one
/// piece of integer code, the same on every processor: what it leaves in the
/// destination is given a name. Each colour that it stores is capped below
/// 1024, each alpha is the alpha plane's sample at that row and column, and
/// it writes nothing beyond the pixels of a row.
#[verifier::external_body]
pub(crate) fn icgc010_alpha_to_rgba10(
    image: &PlanarAlpha<u16>,
    dst: &mut [u16],
    dst_stride: u32,
    range: YuvRange,
) -> (outcome: Result<(), yuv::YuvError>)
    requires
        image.ready(YuvType::Yuv420),
        image.below(1024),
        packed_ready(
            old(dst)@.len() as int,
            dst_stride as int,
            image.width as int,
            image.height as int,
            4,
        ),
    ensures
        outcome is Ok,
        final(dst)@.len() == old(dst)@.len(),
        final(dst)@ == icgc010_alpha_to_rgba10_result(
            image.y_plane@,
            image.y_stride as int,
            image.u_plane@,
            image.u_stride as int,
            image.v_plane@,
            image.v_stride as int,
            image.a_plane@,
            image.a_stride as int,
            image.width as int,
            image.height as int,
            old(dst)@,
            dst_stride as int,
            range,
        ),
        view_clamped(
            final(dst)@,
            dst_stride as int,
            4,
            image.width as int,
            image.height as int,
            1024,
        ),
        view_padding_kept(
            old(dst)@,
            final(dst)@,
            dst_stride as int,
            4 * image.width,
            image.height as int,
        ),
        view_takes(
            final(dst)@,
            dst_stride as int,
            4,
            3,
            image.a_plane@,
            image.a_stride as int,
            image.width as int,
            image.height as int,
        ),
{
    let planes = yuv::YuvPlanarImageWithAlpha {
        y_plane: image.y_plane, y_stride: image.y_stride,
        u_plane: image.u_plane, u_stride: image.u_stride,
        v_plane: image.v_plane, v_stride: image.v_stride,
        a_plane: image.a_plane, a_stride: image.a_stride,
        width: image.width, height: image.height,
    };
    let range =
        match range { YuvRange::Tv => yuv::YuvRange::Limited, YuvRange::Pc => yuv::YuvRange::Full };
    yuv::icgc010_alpha_to_rgba10(&planes, dst, dst_stride, range)
}

// What `yuv::icgc012_alpha_to_rgba12` leaves in its destination: a function of the planes it is
// handed, their strides, the image's size, what the destination held, its
// stride, and the selectors, and of nothing else.
pub uninterp spec fn icgc012_alpha_to_rgba12_result(
    y: Seq<u16>,
    y_stride: int,
    u: Seq<u16>,
    u_stride: int,
    v: Seq<u16>,
    v_stride: int,
    a: Seq<u16>,
    a_stride: int,
    width: int,
    height: int,
    dst: Seq<u16>,
    dst_stride: int,
    range: YuvRange,
) -> Seq<u16>;

/// Calls `yuv::icgc012_alpha_to_rgba12`.
/// Asks for planes and a destination of exactly the image's size, rows whole,
/// and for samples below 4096, which the kernel's 16-bit arithmetic can hold;
/// claims that the kernel, whose only refusals are its size checks, accepts
/// them, and that the destination keeps its length. The kernel is one
/// piece of integer code, the same on every processor: what it leaves in the
/// destination is given a name. Each colour that it stores is capped below
/// 4096, each alpha is the alpha plane's sample at that row and column, and
/// it writes nothing beyond the pixels of a row.
#[verifier::external_body]
pub(crate) fn icgc012_alpha_to_rgba12(
    image: &PlanarAlpha<u16>,
    dst: &mut [u16],
    dst_stride: u32,
    range: YuvRange,
) -> (outcome: Result<(), yuv::YuvError>)
    requires
        image.ready(YuvType::Yuv420),
        image.below(4096),
        packed_ready(
            old(dst)@.len() as int,
            dst_stride as int,
            image.width as int,
            image.height as int,
            4,
        ),
    ensures
        outcome is Ok,
        final(dst)@.len() == old(dst)@.len(),
        final(dst)@ == icgc012_alpha_to_rgba12_result(
            image.y_plane@,
            image.y_stride as int,
            image.u_plane@,
            image.u_stride as int,
            image.v_plane@,
            image.v_stride as int,
            image.a_plane@,
            image.a_stride as int,
            image.width as int,
            image.height as int,
            old(dst)@,
            dst_stride as int,
            range,
        ),
        view_clamped(
            final(dst)@,
            dst_stride as int,
            4,
            image.width as int,
            image.height as int,
            4096,
        ),
        view_padding_kept(
            old(dst)@,
            final(dst)@,
            dst_stride as int,
            4 * image.width,
            image.height as int,
        ),
        view_takes(
            final(dst)@,
            dst_stride as int,
            4,
            3,
            image.a_plane@,
            image.a_stride as int,
            image.width as int,
            image.height as int,
        ),
{
    let planes = yuv::YuvPlanarImageWithAlpha {
        y_plane: image.y_plane, y_stride: image.y_stride,
        u_plane: image.u_plane, u_stride: image.u_stride,
        v_plane: image.v_plane, v_stride: image.v_stride,
        a_plane: image.a_plane, a_stride: image.a_stride,
        width: image.width, height: image.height,
    };
    let range =
        match range { YuvRange::Tv => yuv::YuvRange::Limited, YuvRange::Pc => yuv::YuvRange::Full };
    yuv::icgc012_alpha_to_rgba12(&planes, dst, dst_stride, range)
}

// What `yuv::icgc210_alpha_to_rgba10` leaves in its destination: a function of the planes it is
// handed, their strides, the image's size, what the destination held, its
// stride, and the selectors, and of nothing else.
pub uninterp spec fn icgc210_alpha_to_rgba10_result(
    y: Seq<u16>,
    y_stride: int,
    u: Seq<u16>,
    u_stride: int,
    v: Seq<u16>,
    v_stride: int,
    a: Seq<u16>,
    a_stride: int,
    width: int,
    height: int,
    dst: Seq<u16>,
    dst_stride: int,
    range: YuvRange,
) -> Seq<u16>;

/// Calls `yuv::icgc210_alpha_to_rgba10`.
/// Asks for planes and a destination of exactly the image's size, rows whole,
/// and for samples below 1024, which the kernel's 16-bit arithmetic can hold;
/// claims that the kernel, whose only refusals are its size checks, accepts
/// them, and that the destination keeps its length. The kernel is one
/// piece of integer code, the same on every processor: what it leaves in the
/// destination is given a name. Each colour that it stores is capped below
/// 1024, each alpha is the alpha plane's sample at that row and column, and
/// it writes nothing beyond the pixels of a row.
#[verifier::external_body]
pub(crate) fn icgc210_alpha_to_rgba10(
    image: &PlanarAlpha<u16>,
    dst: &mut [u16],
    dst_stride: u32,
    range: YuvRange,
) -> (outcome: Result<(), yuv::YuvError>)
    requires
        image.ready(YuvType::Yuv422),
        image.below(1024),
        packed_ready(
            old(dst)@.len() as int,
            dst_stride as int,
            image.width as int,
            image.height as int,
            4,
        ),
    ensures
        outcome is Ok,
        final(dst)@.len() == old(dst)@.len(),
        final(dst)@ == icgc210_alpha_to_rgba10_result(
            image.y_plane@,
            image.y_stride as int,
            image.u_plane@,
            image.u_stride as int,
            image.v_plane@,
            image.v_stride as int,
            image.a_plane@,
            image.a_stride as int,
            image.width as int,
            image.height as int,
            old(dst)@,
            dst_stride as int,
            range,
        ),
        view_clamped(
            final(dst)@,
            dst_stride as int,
            4,
            image.width as int,
            image.height as int,
            1024,
        ),
        view_padding_kept(
            old(dst)@,
            final(dst)@,
            dst_stride as int,
            4 * image.width,
            image.height as int,
        ),
        view_takes(
            final(dst)@,
            dst_stride as int,
            4,
            3,
            image.a_plane@,
            image.a_stride as int,
            image.width as int,
            image.height as int,
        ),
{
    let planes = yuv::YuvPlanarImageWithAlpha {
        y_plane: image.y_plane, y_stride: image.y_stride,
        u_plane: image.u_plane, u_stride: image.u_stride,
        v_plane: image.v_plane, v_stride: image.v_stride,
        a_plane: image.a_plane, a_stride: image.a_stride,
        width: image.width, height: image.height,
    };
    let range =
        match range { YuvRange::Tv => yuv::YuvRange::Limited, YuvRange::Pc => yuv::YuvRange::Full };
    yuv::icgc210_alpha_to_rgba10(&planes, dst, dst_stride, range)
}

// What `yuv::icgc212_alpha_to_rgba12` leaves in its destination: a function of the planes it is
// handed, their strides, the image's size, what the destination held, its
// stride, and the selectors, and of nothing else.
pub uninterp spec fn icgc212_alpha_to_rgba12_result(
    y: Seq<u16>,
    y_stride: int,
    u: Seq<u16>,
    u_stride: int,
    v: Seq<u16>,
    v_stride: int,
    a: Seq<u16>,
    a_stride: int,
    width: int,
    height: int,
    dst: Seq<u16>,
    dst_stride: int,
    range: YuvRange,
) -> Seq<u16>;

/// Calls `yuv::icgc212_alpha_to_rgba12`.
/// Asks for planes and a destination of exactly the image's size, rows whole,
/// and for samples below 4096, which the kernel's 16-bit arithmetic can hold;
/// claims that the kernel, whose only refusals are its size checks, accepts
/// them, and that the destination keeps its length. The kernel is one
/// piece of integer code, the same on every processor: what it leaves in the
/// destination is given a name. Each colour that it stores is capped below
/// 4096, each alpha is the alpha plane's sample at that row and column, and
/// it writes nothing beyond the pixels of a row.
#[verifier::external_body]
pub(crate) fn icgc212_alpha_to_rgba12(
    image: &PlanarAlpha<u16>,
    dst: &mut [u16],
    dst_stride: u32,
    range: YuvRange,
) -> (outcome: Result<(), yuv::YuvError>)
    requires
        image.ready(YuvType::Yuv422),
        image.below(4096),
        packed_ready(
            old(dst)@.len() as int,
            dst_stride as int,
            image.width as int,
            image.height as int,
            4,
        ),
    ensures
        outcome is Ok,
        final(dst)@.len() == old(dst)@.len(),
        final(dst)@ == icgc212_alpha_to_rgba12_result(
            image.y_plane@,
            image.y_stride as int,
            image.u_plane@,
            image.u_stride as int,
            image.v_plane@,
            image.v_stride as int,
            image.a_plane@,
            image.a_stride as int,
            image.width as int,
            image.height as int,
            old(dst)@,
            dst_stride as int,
            range,
        ),
        view_clamped(
            final(dst)@,
            dst_stride as int,
            4,
            image.width as int,
            image.height as int,
            4096,
        ),
        view_padding_kept(
            old(dst)@,
            final(dst)@,
            dst_stride as int,
            4 * image.width,
            image.height as int,
        ),
        view_takes(
            final(dst)@,
            dst_stride as int,
            4,
            3,
            image.a_plane@,
            image.a_stride as int,
            image.width as int,
            image.height as int,
        ),
{
    let planes = yuv::YuvPlanarImageWithAlpha {
        y_plane: image.y_plane, y_stride: image.y_stride,
        u_plane: image.u_plane, u_stride: image.u_stride,
        v_plane: image.v_plane, v_stride: image.v_stride,
        a_plane: image.a_plane, a_stride: image.a_stride,
        width: image.width, height: image.height,
    };
    let range =
        match range { YuvRange::Tv => yuv::YuvRange::Limited, YuvRange::Pc => yuv::YuvRange::Full };
    yuv::icgc212_alpha_to_rgba12(&planes, dst, dst_stride, range)
}

// What `yuv::icgc410_alpha_to_rgba10` leaves in its destination: a function of the planes it is
// handed, their strides, the image's size, what the destination held, its
// stride, and the selectors, and of nothing else.
pub uninterp spec fn icgc410_alpha_to_rgba10_result(
    y: Seq<u16>,
    y_stride: int,
    u: Seq<u16>,
    u_stride: int,
    v: Seq<u16>,
    v_stride: int,
    a: Seq<u16>,
    a_stride: int,
    width: int,
    height: int,
    dst: Seq<u16>,
    dst_stride: int,
    range: YuvRange,
) -> Seq<u16>;

/// Calls `yuv::icgc410_alpha_to_rgba10`.
/// Asks for planes and a destination of exactly the image's size, rows whole,
/// and for samples below 1024, which the kernel's 16-bit arithmetic can hold;
/// claims that the kernel, whose only refusals are its size checks, accepts
/// them, and that the destination keeps its length. The kernel is one
/// piece of integer code, the same on every processor: what it leaves in the
/// destination is given a name. Each colour that it stores is capped below
/// 1024, each alpha is the alpha plane's sample at that row and column, and
/// it writes nothing beyond the pixels of a row.
#[verifier::external_body]
pub(crate) fn icgc410_alpha_to_rgba10(
    image: &PlanarAlpha<u16>,
    dst: &mut [u16],
    dst_stride: u32,
    range: YuvRange,
) -> (outcome: Result<(), yuv::YuvError>)
    requires
        image.ready(YuvType::Yuv444),
        image.below(1024),
        packed_ready(
            old(dst)@.len() as int,
            dst_stride as int,
            image.width as int,
            image.height as int,
            4,
        ),
    ensures
        outcome is Ok,
        final(dst)@.len() == old(dst)@.len(),
        final(dst)@ == icgc410_alpha_to_rgba10_result(
            image.y_plane@,
            image.y_stride as int,
            image.u_plane@,
            image.u_stride as int,
            image.v_plane@,
            image.v_stride as int,
            image.a_plane@,
            image.a_stride as int,
            image.width as int,
            image.height as int,
            old(dst)@,
            dst_stride as int,
            range,
        ),
        view_clamped(
            final(dst)@,
            dst_stride as int,
            4,
            image.width as int,
            image.height as int,
            1024,
        ),
        view_padding_kept(
            old(dst)@,
            final(dst)@,
            dst_stride as int,
            4 * image.width,
            image.height as int,
        ),
        view_takes(
            final(dst)@,
            dst_stride as int,
            4,
            3,
            image.a_plane@,
            image.a_stride as int,
            image.width as int,
            image.height as int,
        ),
{
    let planes = yuv::YuvPlanarImageWithAlpha {
        y_plane: image.y_plane, y_stride: image.y_stride,
        u_plane: image.u_plane, u_stride: image.u_stride,
        v_plane: image.v_plane, v_stride: image.v_stride,
        a_plane: image.a_plane, a_stride: image.a_stride,
        width: image.width, height: image.height,
    };
    let range =
        match range { YuvRange::Tv => yuv::YuvRange::Limited, YuvRange::Pc => yuv::YuvRange::Full };
    yuv::icgc410_alpha_to_rgba10(&planes, dst, dst_stride, range)
}

// What `yuv::icgc412_alpha_to_rgba12` leaves in its destination: a function of the planes it is
// handed, their strides, the image's size, what the destination held, its
// stride, and the selectors, and of nothing else.
pub uninterp spec fn icgc412_alpha_to_rgba12_result(
    y: Seq<u16>,
    y_stride: int,
    u: Seq<u16>,
    u_stride: int,
    v: Seq<u16>,
    v_stride: int,
    a: Seq<u16>,
    a_stride: int,
    width: int,
    height: int,
    dst: Seq<u16>,
    dst_stride: int,
    range: YuvRange,
) -> Seq<u16>;

/// Calls `yuv::icgc412_alpha_to_rgba12`.
/// Asks for planes and a destination of exactly the image's size, rows whole,
/// and for samples below 4096, which the kernel's 16-bit arithmetic can hold;
/// claims that the kernel, whose only refusals are its size checks, accepts
/// them, and that the destination keeps its length. The kernel is one
/// piece of integer code, the same on every processor: what it leaves in the
/// destination is given a name. Each colour that it stores is capped below
/// 4096, each alpha is the alpha plane's sample at that row and column, and
/// it writes nothing beyond the pixels of a row.
#[verifier::external_body]
pub(crate) fn icgc412_alpha_to_rgba12(
    image: &PlanarAlpha<u16>,
    dst: &mut [u16],
    dst_stride: u32,
    range: YuvRange,
) -> (outcome: Result<(), yuv::YuvError>)
    requires
        image.ready(YuvType::Yuv444),
        image.below(4096),
        packed_ready(
            old(dst)@.len() as int,
            dst_stride as int,
            image.width as int,
            image.height as int,
            4,
        ),
    ensures
        outcome is Ok,
        final(dst)@.len() == old(dst)@.len(),
        final(dst)@ == icgc412_alpha_to_rgba12_result(
            image.y_plane@,
            image.y_stride as int,
            image.u_plane@,
            image.u_stride as int,
            image.v_plane@,
            image.v_stride as int,
            image.a_plane@,
            image.a_stride as int,
            image.width as int,
            image.height as int,
            old(dst)@,
            dst_stride as int,
            range,
        ),
        view_clamped(
            final(dst)@,
            dst_stride as int,
            4,
            image.width as int,
            image.height as int,
            4096,
        ),
        view_padding_kept(
            old(dst)@,
            final(dst)@,
            dst_stride as int,
            4 * image.width,
            image.height as int,
        ),
        view_takes(
            final(dst)@,
            dst_stride as int,
            4,
            3,
            image.a_plane@,
            image.a_stride as int,
            image.width as int,
            image.height as int,
        ),
{
    let planes = yuv::YuvPlanarImageWithAlpha {
        y_plane: image.y_plane, y_stride: image.y_stride,
        u_plane: image.u_plane, u_stride: image.u_stride,
        v_plane: image.v_plane, v_stride: image.v_stride,
        a_plane: image.a_plane, a_stride: image.a_stride,
        width: image.width, height: image.height,
    };
    let range =
        match range { YuvRange::Tv => yuv::YuvRange::Limited, YuvRange::Pc => yuv::YuvRange::Full };
    yuv::icgc412_alpha_to_rgba12(&planes, dst, dst_stride, range)
}

// What `yuv::icgc_ro_alpha012_to_rgba10` leaves in its destination: a function of the planes it is
// handed, their strides, the image's size, what the destination held, its
// stride, and the selectors, and of nothing else.
pub uninterp spec fn icgc_ro_alpha012_to_rgba10_result(
    y: Seq<u16>,
    y_stride: int,
    u: Seq<u16>,
    u_stride: int,
    v: Seq<u16>,
    v_stride: int,
    a: Seq<u16>,
    a_stride: int,
    width: int,
    height: int,
    dst: Seq<u16>,
    dst_stride: int,
    range: YuvRange,
) -> Seq<u16>;

/// Calls `yuv::icgc_ro_alpha012_to_rgba10`.
/// Asks for planes and a destination of exactly the image's size, rows whole,
/// and for samples below 4096, which the kernel's 16-bit arithmetic can hold;
/// claims that the kernel, whose only refusals are its size checks, accepts
/// them, and that the destination keeps its length. The kernel is one
/// piece of integer code, the same on every processor: what it leaves in the
/// destination is given a name. Every sample that it stores, alpha too, is
/// capped below 1024; it writes nothing beyond the pixels of a row.
#[verifier::external_body]
pub(crate) fn icgc_ro_alpha012_to_rgba10(
    image: &PlanarAlpha<u16>,
    dst: &mut [u16],
    dst_stride: u32,
    range: YuvRange,
) -> (outcome: Result<(), yuv::YuvError>)
    requires
        image.ready(YuvType::Yuv420),
        image.below(4096),
        packed_ready(
            old(dst)@.len() as int,
            dst_stride as int,
            image.width as int,
            image.height as int,
            4,
        ),
    ensures
        outcome is Ok,
        final(dst)@.len() == old(dst)@.len(),
        final(dst)@ == icgc_ro_alpha012_to_rgba10_result(
            image.y_plane@,
            image.y_stride as int,
            image.u_plane@,
            image.u_stride as int,
            image.v_plane@,
            image.v_stride as int,
            image.a_plane@,
            image.a_stride as int,
            image.width as int,
            image.height as int,
            old(dst)@,
            dst_stride as int,
            range,
        ),
        view_clamped(
            final(dst)@,
            dst_stride as int,
            4,
            image.width as int,
            image.height as int,
            1024,
        ),
        view_padding_kept(
            old(dst)@,
            final(dst)@,
            dst_stride as int,
            4 * image.width,
            image.height as int,
        ),
{
    let planes = yuv::YuvPlanarImageWithAlpha {
        y_plane: image.y_plane, y_stride: image.y_stride,
        u_plane: image.u_plane, u_stride: image.u_stride,
        v_plane: image.v_plane, v_stride: image.v_stride,
        a_plane: image.a_plane, a_stride: image.a_stride,
        width: image.width, height: image.height,
    };
    let range =
        match range { YuvRange::Tv => yuv::YuvRange::Limited, YuvRange::Pc => yuv::YuvRange::Full };
    yuv::icgc_ro_alpha012_to_rgba10(&planes, dst, dst_stride, range)
}

// What `yuv::icgc_re_alpha012_to_rgba10` leaves in its destination: a function of the planes it is
// handed, their strides, the image's size, what the destination held, its
// stride, and the selectors, and of nothing else.
pub uninterp spec fn icgc_re_alpha012_to_rgba10_result(
    y: Seq<u16>,
    y_stride: int,
    u: Seq<u16>,
    u_stride: int,
    v: Seq<u16>,
    v_stride: int,
    a: Seq<u16>,
    a_stride: int,
    width: int,
    height: int,
    dst: Seq<u16>,
    dst_stride: int,
    range: YuvRange,
) -> Seq<u16>;

/// Calls `yuv::icgc_re_alpha012_to_rgba10`.
/// Asks for planes and a destination of exactly the image's size, rows whole,
/// and for samples below 4096, which the kernel's 16-bit arithmetic can hold;
/// claims that the kernel, whose only refusals are its size checks, accepts
/// them, and that the destination keeps its length. The kernel is one
/// piece of integer code, the same on every processor: what it leaves in the
/// destination is given a name. Every sample that it stores, alpha too, is
/// capped below 1024; it writes nothing beyond the pixels of a row.
#[verifier::external_body]
pub(crate) fn icgc_re_alpha012_to_rgba10(
    image: &PlanarAlpha<u16>,
    dst: &mut [u16],
    dst_stride: u32,
    range: YuvRange,
) -> (outcome: Result<(), yuv::YuvError>)
    requires
        image.ready(YuvType::Yuv420),
        image.below(4096),
        packed_ready(
            old(dst)@.len() as int,
            dst_stride as int,
            image.width as int,
            image.height as int,
            4,
        ),
    ensures
        outcome is Ok,
        final(dst)@.len() == old(dst)@.len(),
        final(dst)@ == icgc_re_alpha012_to_rgba10_result(
            image.y_plane@,
            image.y_stride as int,
            image.u_plane@,
            image.u_stride as int,
            image.v_plane@,
            image.v_stride as int,
            image.a_plane@,
            image.a_stride as int,
            image.width as int,
            image.height as int,
            old(dst)@,
            dst_stride as int,
            range,
        ),
        view_clamped(
            final(dst)@,
            dst_stride as int,
            4,
            image.width as int,
            image.height as int,
            1024,
        ),
        view_padding_kept(
            old(dst)@,
            final(dst)@,
            dst_stride as int,
            4 * image.width,
            image.height as int,
        ),
{
    let planes = yuv::YuvPlanarImageWithAlpha {
        y_plane: image.y_plane, y_stride: image.y_stride,
        u_plane: image.u_plane, u_stride: image.u_stride,
        v_plane: image.v_plane, v_stride: image.v_stride,
        a_plane: image.a_plane, a_stride: image.a_stride,
        width: image.width, height: image.height,
    };
    let range =
        match range { YuvRange::Tv => yuv::YuvRange::Limited, YuvRange::Pc => yuv::YuvRange::Full };
    yuv::icgc_re_alpha012_to_rgba10(&planes, dst, dst_stride, range)
}

// What `yuv::icgc_ro_alpha212_to_rgba10` leaves in its destination: a function of the planes it is
// handed, their strides, the image's size, what the destination held, its
// stride, and the selectors, and of nothing else.
pub uninterp spec fn icgc_ro_alpha212_to_rgba10_result(
    y: Seq<u16>,
    y_stride: int,
    u: Seq<u16>,
    u_stride: int,
    v: Seq<u16>,
    v_stride: int,
    a: Seq<u16>,
    a_stride: int,
    width: int,
    height: int,
    dst: Seq<u16>,
    dst_stride: int,
    range: YuvRange,
) -> Seq<u16>;

/// Calls `yuv::icgc_ro_alpha212_to_rgba10`.
/// Asks for planes and a destination of exactly the image's size, rows whole,
/// and for samples below 4096, which the kernel's 16-bit arithmetic can hold;
/// claims that the kernel, whose only refusals are its size checks, accepts
/// them, and that the destination keeps its length. The kernel is one
/// piece of integer code, the same on every processor: what it leaves in the
/// destination is given a name. Every sample that it stores, alpha too, is
/// capped below 1024; it writes nothing beyond the pixels of a row.
#[verifier::external_body]
pub(crate) fn icgc_ro_alpha212_to_rgba10(
    image: &PlanarAlpha<u16>,
    dst: &mut [u16],
    dst_stride: u32,
    range: YuvRange,
) -> (outcome: Result<(), yuv::YuvError>)
    requires
        image.ready(YuvType::Yuv422),
        image.below(4096),
        packed_ready(
            old(dst)@.len() as int,
            dst_stride as int,
            image.width as int,
            image.height as int,
            4,
        ),
    ensures
        outcome is Ok,
        final(dst)@.len() == old(dst)@.len(),
        final(dst)@ == icgc_ro_alpha212_to_rgba10_result(
            image.y_plane@,
            image.y_stride as int,
            image.u_plane@,
            image.u_stride as int,
            image.v_plane@,
            image.v_stride as int,
            image.a_plane@,
            image.a_stride as int,
            image.width as int,
            image.height as int,
            old(dst)@,
            dst_stride as int,
            range,
        ),
        view_clamped(
            final(dst)@,
            dst_stride as int,
            4,
            image.width as int,
            image.height as int,
            1024,
        ),
        view_padding_kept(
            old(dst)@,
            final(dst)@,
            dst_stride as int,
            4 * image.width,
            image.height as int,
        ),
{
    let planes = yuv::YuvPlanarImageWithAlpha {
        y_plane: image.y_plane, y_stride: image.y_stride,
        u_plane: image.u_plane, u_stride: image.u_stride,
        v_plane: image.v_plane, v_stride: image.v_stride,
        a_plane: image.a_plane, a_stride: image.a_stride,
        width: image.width, height: image.height,
    };
    let range =
        match range { YuvRange::Tv => yuv::YuvRange::Limited, YuvRange::Pc => yuv::YuvRange::Full };
    yuv::icgc_ro_alpha212_to_rgba10(&planes, dst, dst_stride, range)
}

// What `yuv::icgc_re_alpha212_to_rgba10` leaves in its destination: a function of the planes it is
// handed, their strides, the image's size, what the destination held, its
// stride, and the selectors, and of nothing else.
pub uninterp spec fn icgc_re_alpha212_to_rgba10_result(
    y: Seq<u16>,
    y_stride: int,
    u: Seq<u16>,
    u_stride: int,
    v: Seq<u16>,
    v_stride: int,
    a: Seq<u16>,
    a_stride: int,
    width: int,
    height: int,
    dst: Seq<u16>,
    dst_stride: int,
    range: YuvRange,
) -> Seq<u16>;

/// Calls `yuv::icgc_re_alpha212_to_rgba10`.
/// Asks for planes and a destination of exactly the image's size, rows whole,
/// and for samples below 4096, which the kernel's 16-bit arithmetic can hold;
/// claims that the kernel, whose only refusals are its size checks, accepts
/// them, and that the destination keeps its length. The kernel is one
/// piece of integer code, the same on every processor: what it leaves in the
/// destination is given a name. Every sample that it stores, alpha too, is
/// capped below 1024; it writes nothing beyond the pixels of a row.
#[verifier::external_body]
pub(crate) fn icgc_re_alpha212_to_rgba10(
    image: &PlanarAlpha<u16>,
    dst: &mut [u16],
    dst_stride: u32,
    range: YuvRange,
) -> (outcome: Result<(), yuv::YuvError>)
    requires
        image.ready(YuvType::Yuv422),
        image.below(4096),
        packed_ready(
            old(dst)@.len() as int,
            dst_stride as int,
            image.width as int,
            image.height as int,
            4,
        ),
    ensures
        outcome is Ok,
        final(dst)@.len() == old(dst)@.len(),
        final(dst)@ == icgc_re_alpha212_to_rgba10_result(
            image.y_plane@,
            image.y_stride as int,
            image.u_plane@,
            image.u_stride as int,
            image.v_plane@,
            image.v_stride as int,
            image.a_plane@,
            image.a_stride as int,
            image.width as int,
            image.height as int,
            old(dst)@,
            dst_stride as int,
            range,
        ),
        view_clamped(
            final(dst)@,
            dst_stride as int,
            4,
            image.width as int,
            image.height as int,
            1024,
        ),
        view_padding_kept(
            old(dst)@,
            final(dst)@,
            dst_stride as int,
            4 * image.width,
            image.height as int,
        ),
{
    let planes = yuv::YuvPlanarImageWithAlpha {
        y_plane: image.y_plane, y_stride: image.y_stride,
        u_plane: image.u_plane, u_stride: image.u_stride,
        v_plane: image.v_plane, v_stride: image.v_stride,
        a_plane: image.a_plane, a_stride: image.a_stride,
        width: image.width, height: image.height,
    };
    let range =
        match range { YuvRange::Tv => yuv::YuvRange::Limited, YuvRange::Pc => yuv::YuvRange::Full };
    yuv::icgc_re_alpha212_to_rgba10(&planes, dst, dst_stride, range)
}

// What `yuv::icgc_ro_alpha412_to_rgba10` leaves in its destination: a function of the planes it is
// handed, their strides, the image's size, what the destination held, its
// stride, and the selectors, and of nothing else.
pub uninterp spec fn icgc_ro_alpha412_to_rgba10_result(
    y: Seq<u16>,
    y_stride: int,
    u: Seq<u16>,
    u_stride: int,
    v: Seq<u16>,
    v_stride: int,
    a: Seq<u16>,
    a_stride: int,
    width: int,
    height: int,
    dst: Seq<u16>,
    dst_stride: int,
    range: YuvRange,
) -> Seq<u16>;

/// Calls `yuv::icgc_ro_alpha412_to_rgba10`.
/// Asks for planes and a destination of exactly the image's size, rows whole,
/// and for samples below 4096, which the kernel's 16-bit arithmetic can hold;
/// claims that the kernel, whose only refusals are its size checks, accepts
/// them, and that the destination keeps its length. The kernel is one
/// piece of integer code, the same on every processor: what it leaves in the
/// destination is given a name. Every sample that it stores, alpha too, is
/// capped below 1024; it writes nothing beyond the pixels of a row.
#[verifier::external_body]
pub(crate) fn icgc_ro_alpha412_to_rgba10(
    image: &PlanarAlpha<u16>,
    dst: &mut [u16],
    dst_stride: u32,
    range: YuvRange,
) -> (outcome: Result<(), yuv::YuvError>)
    requires
        image.ready(YuvType::Yuv444),
        image.below(4096),
        packed_ready(
            old(dst)@.len() as int,
            dst_stride as int,
            image.width as int,
            image.height as int,
            4,
        ),
    ensures
        outcome is Ok,
        final(dst)@.len() == old(dst)@.len(),
        final(dst)@ == icgc_ro_alpha412_to_rgba10_result(
            image.y_plane@,
            image.y_stride as int,
            image.u_plane@,
            image.u_stride as int,
            image.v_plane@,
            image.v_stride as int,
            image.a_plane@,
            image.a_stride as int,
            image.width as int,
            image.height as int,
            old(dst)@,
            dst_stride as int,
            range,
        ),
        view_clamped(
            final(dst)@,
            dst_stride as int,
            4,
            image.width as int,
            image.height as int,
            1024,
        ),
        view_padding_kept(
            old(dst)@,
            final(dst)@,
            dst_stride as int,
            4 * image.width,
            image.height as int,
        ),
{
    let planes = yuv::YuvPlanarImageWithAlpha {
        y_plane: image.y_plane, y_stride: image.y_stride,
        u_plane: image.u_plane, u_stride: image.u_stride,
        v_plane: image.v_plane, v_stride: image.v_stride,
        a_plane: image.a_plane, a_stride: image.a_stride,
        width: image.width, height: image.height,
    };
    let range =
        match range { YuvRange::Tv => yuv::YuvRange::Limited, YuvRange::Pc => yuv::YuvRange::Full };
    yuv::icgc_ro_alpha412_to_rgba10(&planes, dst, dst_stride, range)
}

// What `yuv::icgc_re_alpha412_to_rgba10` leaves in its destination: a function of the planes it is
// handed, their strides, the image's size, what the destination held, its
// stride, and the selectors, and of nothing else.
pub uninterp spec fn icgc_re_alpha412_to_rgba10_result(
    y: Seq<u16>,
    y_stride: int,
    u: Seq<u16>,
    u_stride: int,
    v: Seq<u16>,
    v_stride: int,
    a: Seq<u16>,
    a_stride: int,
    width: int,
    height: int,
    dst: Seq<u16>,
    dst_stride: int,
    range: YuvRange,
) -> Seq<u16>;

/// Calls `yuv::icgc_re_alpha412_to_rgba10`.
/// Asks for planes and a destination of exactly the image's size, rows whole,
/// and for samples below 4096, which the kernel's 16-bit arithmetic can hold;
/// claims that the kernel, whose only refusals are its size checks, accepts
/// them, and that the destination keeps its length. The kernel is one
/// piece of integer code, the same on every processor: what it leaves in the
/// destination is given a name. Every sample that it stores, alpha too, is
/// capped below 1024; it writes nothing beyond the pixels of a row.
#[verifier::external_body]
pub(crate) fn icgc_re_alpha412_to_rgba10(
    image: &PlanarAlpha<u16>,
    dst: &mut [u16],
    dst_stride: u32,
    range: YuvRange,
) -> (outcome: Result<(), yuv::YuvError>)
    requires
        image.ready(YuvType::Yuv444),
        image.below(4096),
        packed_ready(
            old(dst)@.len() as int,
            dst_stride as int,
            image.width as int,
            image.height as int,
            4,
        ),
    ensures
        outcome is Ok,
        final(dst)@.len() == old(dst)@.len(),
        final(dst)@ == icgc_re_alpha412_to_rgba10_result(
            image.y_plane@,
            image.y_stride as int,
            image.u_plane@,
            image.u_stride as int,
            image.v_plane@,
            image.v_stride as int,
            image.a_plane@,
            image.a_stride as int,
            image.width as int,
            image.height as int,
            old(dst)@,
            dst_stride as int,
            range,
        ),
        view_clamped(
            final(dst)@,
            dst_stride as int,
            4,
            image.width as int,
            image.height as int,
            1024,
        ),
        view_padding_kept(
            old(dst)@,
            final(dst)@,
            dst_stride as int,
            4 * image.width,
            image.height as int,
        ),
{
    let planes = yuv::YuvPlanarImageWithAlpha {
        y_plane: image.y_plane, y_stride: image.y_stride,
        u_plane: image.u_plane, u_stride: image.u_stride,
        v_plane: image.v_plane, v_stride: image.v_stride,
        a_plane: image.a_plane, a_stride: image.a_stride,
        width: image.width, height: image.height,
    };
    let range =
        match range { YuvRange::Tv => yuv::YuvRange::Limited, YuvRange::Pc => yuv::YuvRange::Full };
    yuv::icgc_re_alpha412_to_rgba10(&planes, dst, dst_stride, range)
}

/// Calls `yuv::y010_to_rgb10`.
/// Asks for a plane and a destination of exactly the image's size, rows whole,
/// and for samples below 1024, which the kernel's 16-bit arithmetic can hold;
/// claims that the kernel, whose only refusals are its size checks, accepts
/// them, and that the destination keeps its length. Of the pixels it claims
/// what holds on every processor: the three colours of a pixel are one
/// value below 1024, at full range the luma sample itself, and nothing is
/// written beyond the pixels of a row.
#[verifier::external_body]
pub(crate) fn y010_to_rgb10(
    image: &Gray<u16>,
    dst: &mut [u16],
    dst_stride: u32,
    range: YuvRange,
    matrix: StandardMatrix,
) -> (outcome: Result<(), yuv::YuvError>)
    requires
        image.ready(),
        image.below(1024),
        packed_ready(
            old(dst)@.len() as int,
            dst_stride as int,
            image.width as int,
            image.height as int,
            3,
        ),
    ensures
        outcome is Ok,
        final(dst)@.len() == old(dst)@.len(),
        view_gray(final(dst)@, dst_stride as int, 3, image.width as int, image.height as int),
        view_clamped(
            final(dst)@,
            dst_stride as int,
            3,
            image.width as int,
            image.height as int,
            1024,
        ),
        range == YuvRange::Pc ==> view_takes(
            final(dst)@,
            dst_stride as int,
            3,
            0,
            image.y_plane@,
            image.y_stride as int,
            image.width as int,
            image.height as int,
        ),
        view_padding_kept(
            old(dst)@,
            final(dst)@,
            dst_stride as int,
            3 * image.width,
            image.height as int,
        ),
{
    let planes = yuv::YuvGrayImage {
        y_plane: image.y_plane, y_stride: image.y_stride,
        width: image.width, height: image.height,
    };
    let range =
        match range { YuvRange::Tv => yuv::YuvRange::Limited, YuvRange::Pc => yuv::YuvRange::Full };
    let matrix = match matrix {
        StandardMatrix::Bt601 => yuv::YuvStandardMatrix::Bt601,
        StandardMatrix::Bt709 => yuv::YuvStandardMatrix::Bt709,
        StandardMatrix::Bt2020 => yuv::YuvStandardMatrix::Bt2020,
    };
    yuv::y010_to_rgb10(&planes, dst, dst_stride, range, matrix)
}

/// Calls `yuv::y012_to_rgb12`.
/// Asks for a plane and a destination of exactly the image's size, rows whole,
/// and for samples below 4096, which the kernel's 16-bit arithmetic can hold;
/// claims that the kernel, whose only refusals are its size checks, accepts
/// them, and that the destination keeps its length. Of the pixels it claims
/// what holds on every processor: the three colours of a pixel are one
/// value below 4096, at full range the luma sample itself, and nothing is
/// written beyond the pixels of a row.
#[verifier::external_body]
pub(crate) fn y012_to_rgb12(
    image: &Gray<u16>,
    dst: &mut [u16],
    dst_stride: u32,
    range: YuvRange,
    matrix: StandardMatrix,
) -> (outcome: Result<(), yuv::YuvError>)
    requires
        image.ready(),
        image.below(4096),
        packed_ready(
            old(dst)@.len() as int,
            dst_stride as int,
            image.width as int,
            image.height as int,
            3,
        ),
    ensures
        outcome is Ok,
        final(dst)@.len() == old(dst)@.len(),
        view_gray(final(dst)@, dst_stride as int, 3, image.width as int, image.height as int),
        view_clamped(
            final(dst)@,
            dst_stride as int,
            3,
            image.width as int,
            image.height as int,
            4096,
        ),
        range == YuvRange::Pc ==> view_takes(
            final(dst)@,
            dst_stride as int,
            3,
            0,
            image.y_plane@,
            image.y_stride as int,
            image.width as int,
            image.height as int,
        ),
        view_padding_kept(
            old(dst)@,
            final(dst)@,
            dst_stride as int,
            3 * image.width,
            image.height as int,
        ),
{
    let planes = yuv::YuvGrayImage {
        y_plane: image.y_plane, y_stride: image.y_stride,
        width: image.width, height: image.height,
    };
    let range =
        match range { YuvRange::Tv => yuv::YuvRange::Limited, YuvRange::Pc => yuv::YuvRange::Full };
    let matrix = match matrix {
        StandardMatrix::Bt601 => yuv::YuvStandardMatrix::Bt601,
        StandardMatrix::Bt709 => yuv::YuvStandardMatrix::Bt709,
        StandardMatrix::Bt2020 => yuv::YuvStandardMatrix::Bt2020,
    };
    yuv::y012_to_rgb12(&planes, dst, dst_stride, range, matrix)
}

// What `yuv::y010_alpha_to_rgba10` leaves in its destination: a function of the planes it is
// handed, their strides, the image's size, what the destination held, its
// stride, and the selectors, and of nothing else.
pub uninterp spec fn y010_alpha_to_rgba10_result(
    y: Seq<u16>,
    y_stride: int,
    a: Seq<u16>,
    a_stride: int,
    width: int,
    height: int,
    dst: Seq<u16>,
    dst_stride: int,
    range: YuvRange,
    matrix: StandardMatrix,
) -> Seq<u16>;

/// Calls `yuv::y010_alpha_to_rgba10`.
/// Asks for planes and a destination of exactly the image's size, rows whole,
/// and for samples below 1024, which the kernel's 16-bit arithmetic can hold;
/// claims that the kernel, whose only refusals are its size checks, accepts
/// them, and that the destination keeps its length. The kernel is one
/// piece of integer code, the same on every processor: what it leaves in the
/// destination is given a name. The three colours of a pixel are one value
/// below 1024, at full range the luma sample itself; the alpha is the alpha
/// plane's sample at that row and column; nothing is written beyond the
/// pixels of a row.
#[verifier::external_body]
pub(crate) fn y010_alpha_to_rgba10(
    image: &GrayAlpha<u16>,
    dst: &mut [u16],
    dst_stride: u32,
    range: YuvRange,
    matrix: StandardMatrix,
) -> (outcome: Result<(), yuv::YuvError>)
    requires
        image.ready(),
        image.below(1024),
        packed_ready(
            old(dst)@.len() as int,
            dst_stride as int,
            image.width as int,
            image.height as int,
            4,
        ),
    ensures
        outcome is Ok,
        final(dst)@.len() == old(dst)@.len(),
        final(dst)@ == y010_alpha_to_rgba10_result(
            image.y_plane@,
            image.y_stride as int,
            image.a_plane@,
            image.a_stride as int,
            image.width as int,
            image.height as int,
            old(dst)@,
            dst_stride as int,
            range,
            matrix,
        ),
        view_gray(final(dst)@, dst_stride as int, 4, image.width as int, image.height as int),
        view_clamped(
            final(dst)@,
            dst_stride as int,
            4,
            image.width as int,
            image.height as int,
            1024,
        ),
        view_takes(
            final(dst)@,
            dst_stride as int,
            4,
            3,
            image.a_plane@,
            image.a_stride as int,
            image.width as int,
            image.height as int,
        ),
        range == YuvRange::Pc ==> view_takes(
            final(dst)@,
            dst_stride as int,
            4,
            0,
            image.y_plane@,
            image.y_stride as int,
            image.width as int,
            image.height as int,
        ),
        view_padding_kept(
            old(dst)@,
            final(dst)@,
            dst_stride as int,
            4 * image.width,
            image.height as int,
        ),
{
    let planes = yuv::YuvGrayAlphaImage {
        y_plane: image.y_plane, y_stride: image.y_stride,
        a_plane: image.a_plane, a_stride: image.a_stride,
        width: image.width, height: image.height,
    };
    let range =
        match range { YuvRange::Tv => yuv::YuvRange::Limited, YuvRange::Pc => yuv::YuvRange::Full };
    let matrix = match matrix {
        StandardMatrix::Bt601 => yuv::YuvStandardMatrix::Bt601,
        StandardMatrix::Bt709 => yuv::YuvStandardMatrix::Bt709,
        StandardMatrix::Bt2020 => yuv::YuvStandardMatrix::Bt2020,
    };
    yuv::y010_alpha_to_rgba10(&planes, dst, dst_stride, range, matrix)
}

// What `yuv::y012_alpha_to_rgba12` leaves in its destination: a function of the planes it is
// handed, their strides, the image's size, what the destination held, its
// stride, and the selectors, and of nothing else.
pub uninterp spec fn y012_alpha_to_rgba12_result(
    y: Seq<u16>,
    y_stride: int,
    a: Seq<u16>,
    a_stride: int,
    width: int,
    height: int,
    dst: Seq<u16>,
    dst_stride: int,
    range: YuvRange,
    matrix: StandardMatrix,
) -> Seq<u16>;

/// Calls `yuv::y012_alpha_to_rgba12`.
/// Asks for planes and a destination of exactly the image's size, rows whole,
/// and for samples below 4096, which the kernel's 16-bit arithmetic can hold;
/// claims that the kernel, whose only refusals are its size checks, accepts
/// them, and that the destination keeps its length. The kernel is one
/// piece of integer code, the same on every processor: what it leaves in the
/// destination is given a name. The three colours of a pixel are one value
/// below 4096, at full range the luma sample itself; the alpha is the alpha
/// plane's sample at that row and column; nothing is written beyond the
/// pixels of a row.
#[verifier::external_body]
pub(crate) fn y012_alpha_to_rgba12(
    image: &GrayAlpha<u16>,
    dst: &mut [u16],
    dst_stride: u32,
    range: YuvRange,
    matrix: StandardMatrix,
) -> (outcome: Result<(), yuv::YuvError>)
    requires
        image.ready(),
        image.below(4096),
        packed_ready(
            old(dst)@.len() as int,
            dst_stride as int,
            image.width as int,
            image.height as int,
            4,
        ),
    ensures
        outcome is Ok,
        final(dst)@.len() == old(dst)@.len(),
        final(dst)@ == y012_alpha_to_rgba12_result(
            image.y_plane@,
            image.y_stride as int,
            image.a_plane@,
            image.a_stride as int,
            image.width as int,
            image.height as int,
            old(dst)@,
            dst_stride as int,
            range,
            matrix,
        ),
        view_gray(final(dst)@, dst_stride as int, 4, image.width as int, image.height as int),
        view_clamped(
            final(dst)@,
            dst_stride as int,
            4,
            image.width as int,
            image.height as int,
            4096,
        ),
        view_takes(
            final(dst)@,
            dst_stride as int,
            4,
            3,
            image.a_plane@,
            image.a_stride as int,
            image.width as int,
            image.height as int,
        ),
        range == YuvRange::Pc ==> view_takes(
            final(dst)@,
            dst_stride as int,
            4,
            0,
            image.y_plane@,
            image.y_stride as int,
            image.width as int,
            image.height as int,
        ),
        view_padding_kept(
            old(dst)@,
            final(dst)@,
            dst_stride as int,
            4 * image.width,
            image.height as int,
        ),
{
    let planes = yuv::YuvGrayAlphaImage {
        y_plane: image.y_plane, y_stride: image.y_stride,
        a_plane: image.a_plane, a_stride: image.a_stride,
        width: image.width, height: image.height,
    };
    let range =
        match range { YuvRange::Tv => yuv::YuvRange::Limited, YuvRange::Pc => yuv::YuvRange::Full };
    let matrix = match matrix {
        StandardMatrix::Bt601 => yuv::YuvStandardMatrix::Bt601,
        StandardMatrix::Bt709 => yuv::YuvStandardMatrix::Bt709,
        StandardMatrix::Bt2020 => yuv::YuvStandardMatrix::Bt2020,
    };
    yuv::y012_alpha_to_rgba12(&planes, dst, dst_stride, range, matrix)
}

} // verus!
