//! The kernels' own mode and error types, carried through unread.
use vstd::prelude::*;

verus! {

/// `yuv::YuvConversionMode`.
#[verifier::external_type_specification]
#[verifier::external_body]
pub struct ExKernelMode(yuv::YuvConversionMode);

/// `yuv::YuvError`, the kernels' report of views they refuse.
#[verifier::external_type_specification]
#[verifier::external_body]
pub struct ExKernelError(yuv::YuvError);

} // verus!
