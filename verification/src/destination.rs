//! Settling a destination once the kernel has returned its verdict.
use crate::adapter::blank_plane;
use crate::content::{flushed, padding_kept, presents};
use crate::error::{PixartError, PlanePath};
use crate::layout::{PlaneLayout, SampleWidth};
use crate::publisher::publish;
use vstd::prelude::*;

verus! {

/// The packed buffer that stands in for a destination on `path`: a blank
/// buffer of the plane's shape on the slow path, nothing on the fast path.
pub fn staging_for(path: PlanePath, layout: &PlaneLayout) -> (staged: Vec<u16>)
    requires
        layout.packed_samples() <= usize::MAX,
    ensures
        path == PlanePath::Slow ==> staged@.len() == layout.packed_samples(),
        path == PlanePath::Fast ==> staged@.len() == 0,
        forall|k: int| 0 <= k < staged@.len() ==> staged@[k] == 0,
{
    match path {
        PlanePath::Fast => Vec::new(),
        PlanePath::Slow => blank_plane(layout),
    }
}

/// Settles a destination of 16-bit samples after the kernel has returned.
/// Where the kernel converted, the destination is published: flushed from
/// the packed buffer on the slow path, left alone on the fast path, where the
/// kernel wrote into it directly. Where the kernel refused, nothing is
/// written, and the refusal is reported with the path.
pub fn settle<E>(
    verdict: Result<(), E>,
    path: PlanePath,
    staged: &[u16],
    dst: &mut [u8],
    layout: &PlaneLayout,
) -> (outcome: Result<PlanePath, PixartError>)
    requires
        layout.sample_width == SampleWidth::Two,
        layout.admits(old(dst)@.len() as int),
        path == PlanePath::Slow ==> staged@.len() == layout.packed_samples(),
    ensures
        final(dst)@.len() == old(dst)@.len(),
        verdict is Ok ==> outcome == Ok::<PlanePath, PixartError>(path),
        verdict is Err ==> outcome == Err::<PlanePath, PixartError>(
            PixartError::KernelRejected(path),
        ),
        verdict is Err || path == PlanePath::Fast ==> final(dst)@ == old(dst)@,
        verdict is Ok && path == PlanePath::Slow ==> {
            &&& final(dst)@ == flushed(old(dst)@, staged@, *layout)
            &&& presents(staged@, layout.row_samples(), final(dst)@, *layout)
            &&& padding_kept(old(dst)@, final(dst)@, *layout)
        },
{
    match verdict {
        Ok(()) => {
            publish(path, staged, dst, layout);
            Ok(path)
        },
        Err(_) => Err(PixartError::KernelRejected(path)),
    }
}

/// Reports the kernel's verdict on a destination that it worked on directly.
pub fn settle_direct<E>(verdict: Result<(), E>) -> (outcome: Result<(), PixartError>)
    ensures
        verdict is Ok ==> outcome is Ok,
        verdict is Err ==> outcome == Err::<(), PixartError>(
            PixartError::KernelRejected(PlanePath::Fast),
        ),
{
    match verdict {
        Ok(()) => Ok(()),
        Err(_) => Err(PixartError::KernelRejected(PlanePath::Fast)),
    }
}

} // verus!
