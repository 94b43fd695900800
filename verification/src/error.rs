//! What an operation reports when it cannot run to completion.
use vstd::prelude::*;

verus! {

/// How a plane of wide samples was made available to a kernel.
#[derive(Copy, Clone, Debug, PartialEq, Eq, Structural)]
pub enum PlanePath {
    /// The caller's region itself was viewed as samples, without a copy.
    Fast,
    /// A tightly packed buffer stood in for the caller's region.
    Slow,
}

/// Why an operation stopped.
#[derive(Copy, Clone, Debug, PartialEq, Eq, Structural)]
pub enum PixartError {
    /// The image has no columns or no rows.
    EmptyImage,
    /// A plane's byte stride is smaller than one row of its samples.
    StrideTooSmall,
    /// A plane's region is not exactly its byte stride times its height.
    RegionMismatch,
    /// The bit depth selector names no supported depth.
    UnsupportedBitDepth,
    /// A sample of a source plane does not fit the plane's bit depth.
    SampleOutOfRange,
    /// An outside call refused the views it was given. The payload tells how the
    /// destination had been adapted: on the slow path nothing was written to
    /// the caller's destination.
    KernelRejected(PlanePath),
}

} // verus!
