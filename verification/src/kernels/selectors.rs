//! The one value of the kernels' own selectors that this crate passes on.
//!
//! Range, matrix and byte order go to the kernels as this crate's own values,
//! and are turned into the kernels' at the call. The mode of an encoder is
//! carried unread, so it comes from a function that only names it.
use vstd::prelude::*;

verus! {

/// Gives `yuv::YuvConversionMode::Balanced`. Nothing is claimed of the
/// result.
#[verifier::external_body]
pub(crate) fn balanced_mode() -> yuv::YuvConversionMode {
    yuv::YuvConversionMode::Balanced
}

} // verus!
