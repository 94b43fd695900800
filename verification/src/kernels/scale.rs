//! The plane scaler of the `pic_scale` crate, as this crate calls it.
use pic_scale::{Scaling, ScalingU16};
use vstd::prelude::*;

verus! {

/// `pic_scale::Scaler`, carried through to the calls below unread.
#[verifier::external_type_specification]
#[verifier::external_body]
pub struct ExScaler(pic_scale::Scaler);

/// `pic_scale::ResamplingFunction`.
#[verifier::external_type_specification]
#[verifier::external_body]
pub struct ExResamplingFunction(pic_scale::ResamplingFunction);

/// `pic_scale::ThreadingPolicy`.
#[verifier::external_type_specification]
#[verifier::external_body]
pub struct ExThreadingPolicy(pic_scale::ThreadingPolicy);

/// `pic_scale::WorkloadStrategy`.
#[verifier::external_type_specification]
#[verifier::external_body]
pub struct ExWorkloadStrategy(pic_scale::WorkloadStrategy);

/// `pic_scale::PicScaleError`, the scaler's report of stores it refuses.
#[verifier::external_type_specification]
#[verifier::external_body]
pub struct ExScaleError(pic_scale::PicScaleError);

/// Whether a plane of `len` samples is exactly `height` rows, `stride`
/// samples apart, of at least `width` samples each, and not empty: what the
/// scaler asks of a store.
pub open spec fn store_ready(len: int, stride: int, width: int, height: int) -> bool {
    &&& width > 0
    &&& height > 0
    &&& stride >= width
    &&& len == stride * height
}

/// The sample at column `col` of row `row` of a plane whose rows are `stride`
/// samples apart.
pub open spec fn cell<T>(plane: Seq<T>, stride: int, row: int, col: int) -> T {
    plane[row * stride + col]
}

/// Whether a destination has taken over a source of the same size row by
/// row: of each of the `height` rows, as many samples as both strides hold
/// are the source's, and what the destination's stride holds beyond is as it
/// was.
pub open spec fn copied_rows<T>(
    src: Seq<T>,
    src_stride: int,
    before: Seq<T>,
    after: Seq<T>,
    dst_stride: int,
    height: int,
) -> bool {
    &&& forall|row: int, col: int|
        0 <= row < height && 0 <= col < src_stride && col < dst_stride ==> #[trigger] cell(
            after,
            dst_stride,
            row,
            col,
        ) == cell(src, src_stride, row, col)
    &&& forall|row: int, col: int|
        0 <= row < height && src_stride <= col < dst_stride ==> #[trigger] cell(
            after,
            dst_stride,
            row,
            col,
        ) == cell(before, dst_stride, row, col)
}

/// Gives `pic_scale::ResamplingFunction::Lanczos3`. Nothing is claimed of
/// the result.
#[verifier::external_body]
pub(crate) fn lanczos3() -> pic_scale::ResamplingFunction {
    pic_scale::ResamplingFunction::Lanczos3
}

/// Gives `pic_scale::ThreadingPolicy::Single`. Nothing is claimed of the
/// result.
#[verifier::external_body]
pub(crate) fn single_thread() -> pic_scale::ThreadingPolicy {
    pic_scale::ThreadingPolicy::Single
}

/// Gives `pic_scale::WorkloadStrategy::PreferQuality`. Nothing is claimed of
/// the result.
#[verifier::external_body]
pub(crate) fn quality_first() -> pic_scale::WorkloadStrategy {
    pic_scale::WorkloadStrategy::PreferQuality
}

/// Calls `pic_scale::Scaler::new`. Nothing is claimed of the result.
#[verifier::external_body]
pub(crate) fn new_scaler(filter: pic_scale::ResamplingFunction) -> pic_scale::Scaler {
    pic_scale::Scaler::new(filter)
}

/// Calls `pic_scale::Scaling::set_threading_policy`. Nothing is claimed of
/// the scaler afterwards.
#[verifier::external_body]
pub(crate) fn set_threading_policy(
    scaler: &mut pic_scale::Scaler,
    policy: pic_scale::ThreadingPolicy,
) {
    scaler.set_threading_policy(policy)
}

/// Calls `pic_scale::Scaler::set_workload_strategy`. Nothing is claimed of
/// the scaler afterwards.
#[verifier::external_body]
pub(crate) fn set_workload_strategy(
    scaler: &mut pic_scale::Scaler,
    strategy: pic_scale::WorkloadStrategy,
) {
    scaler.set_workload_strategy(strategy)
}

/// Calls `pic_scale::ScalingU16::resize_plane_u16` on a borrowed source store
/// and a borrowed destination store. Asks for stores that pass the scaler's
/// size checks and for a bit depth from 1 to 16; claims that the destination
/// keeps its length, and that a source of the destination's own width and
/// height is accepted and copied row by row, as the scaler does before it
/// plans any resampling. Of a resampling nothing is claimed: it may be
/// refused for want of memory.
#[verifier::external_body]
pub(crate) fn resize_plane_u16(
    scaler: &pic_scale::Scaler,
    src: &[u16],
    src_stride: usize,
    width: usize,
    height: usize,
    dst: &mut [u16],
    dst_stride: usize,
    new_width: usize,
    new_height: usize,
    bit_depth: usize,
) -> (outcome: Result<(), pic_scale::PicScaleError>)
    requires
        store_ready(src@.len() as int, src_stride as int, width as int, height as int),
        store_ready(old(dst)@.len() as int, dst_stride as int, new_width as int, new_height as int),
        1 <= bit_depth <= 16,
    ensures
        final(dst)@.len() == old(dst)@.len(),
        width == new_width && height == new_height ==> outcome is Ok && copied_rows(
            src@,
            src_stride as int,
            old(dst)@,
            final(dst)@,
            dst_stride as int,
            height as int,
        ),
{
    let buffer = std::borrow::Cow::Borrowed(src);
    let stride = src_stride;
    let store = pic_scale::ImageStore::<u16, 1> { buffer, channels: 1, width, height, stride, bit_depth };
    let buffer = pic_scale::BufferStore::Borrowed(dst);
    let (width, height, stride) = (new_width, new_height, dst_stride);
    let mut into =
        pic_scale::ImageStoreMut::<u16, 1> { buffer, channels: 1, width, height, stride, bit_depth };
    scaler.resize_plane_u16(&store, &mut into)
}

/// Calls `pic_scale::Scaling::resize_plane` on a borrowed source store and a
/// borrowed destination store of one-byte samples. Asks for stores that pass
/// the scaler's size checks; claims that the destination keeps its length,
/// and that a source of the destination's own width and height is accepted
/// and copied row by row, as the scaler does before it plans any resampling.
/// Of a resampling nothing is claimed: it may be refused for want of memory.
#[verifier::external_body]
pub(crate) fn resize_plane(
    scaler: &pic_scale::Scaler,
    src: &[u8],
    src_stride: usize,
    width: usize,
    height: usize,
    dst: &mut [u8],
    dst_stride: usize,
    new_width: usize,
    new_height: usize,
    bit_depth: usize,
) -> (outcome: Result<(), pic_scale::PicScaleError>)
    requires
        store_ready(src@.len() as int, src_stride as int, width as int, height as int),
        store_ready(old(dst)@.len() as int, dst_stride as int, new_width as int, new_height as int),
    ensures
        final(dst)@.len() == old(dst)@.len(),
        width == new_width && height == new_height ==> outcome is Ok && copied_rows(
            src@,
            src_stride as int,
            old(dst)@,
            final(dst)@,
            dst_stride as int,
            height as int,
        ),
{
    let buffer = std::borrow::Cow::Borrowed(src);
    let stride = src_stride;
    let store = pic_scale::ImageStore::<u8, 1> { buffer, channels: 1, width, height, stride, bit_depth };
    let buffer = pic_scale::BufferStore::Borrowed(dst);
    let (width, height, stride) = (new_width, new_height, dst_stride);
    let mut into =
        pic_scale::ImageStoreMut::<u8, 1> { buffer, channels: 1, width, height, stride, bit_depth };
    scaler.resize_plane(&store, &mut into)
}

} // verus!
