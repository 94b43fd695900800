//! The selectors a caller passes with an image: value range, colour matrix,
//! chroma subsampling, and what follows from them for the size of a plane.
use vstd::prelude::*;

verus! {

/// Value range of the samples.
#[derive(Copy, Clone, Debug, PartialEq, Eq, PartialOrd, Ord, Structural)]
pub enum YuvRange {
    /// Limited ("TV") range.
    Tv,
    /// Full ("PC") range.
    Pc,
}

/// Colour matrix of the image.
#[derive(Copy, Clone, Debug, PartialEq, Eq, PartialOrd, Ord, Structural)]
pub enum YuvMatrix {
    Bt601,
    Bt709,
    Bt2020,
    /// The planes are G, B and R themselves. Exists for 4:4:4 only.
    Identity,
    YCgCo,
}

/// Which reversible YCgCo variant the planes hold.
#[derive(Copy, Clone, Debug, PartialEq, Eq, PartialOrd, Ord, Structural)]
pub enum AvifYCgCoRType {
    Ro,
    Re,
}

/// Chroma subsampling of the image.
#[derive(Copy, Clone, Debug, PartialEq, Eq, PartialOrd, Ord, Structural)]
pub enum YuvType {
    /// Chroma at half resolution on both axes.
    Yuv420,
    /// Chroma at half resolution horizontally.
    Yuv422,
    /// Chroma at full resolution.
    Yuv444,
}

/// A colour matrix that is given by two coefficients, as opposed to the
/// identity and YCgCo models, which have kernels of their own.
#[derive(Copy, Clone, Debug, PartialEq, Eq, Structural)]
pub enum StandardMatrix {
    Bt601,
    Bt709,
    Bt2020,
}

/// Half of `n`, rounded up.
pub open spec fn half_up(n: int) -> int {
    (n + 1) / 2
}

/// `half_up(n)` is the least number of pairs that cover `n` items.
pub proof fn lemma_half_up_is_ceiling(n: int)
    requires
        0 <= n,
    ensures
        2 * half_up(n) >= n,
        2 * (half_up(n) - 1) < n,
        n % 2 == 1 ==> half_up(n) == (n - 1) / 2 + 1,
        n % 2 == 0 ==> half_up(n) == n / 2,
{
}

/// Width of a chroma plane of an image `width` pixels wide: half the width,
/// rounded up, where chroma is subsampled horizontally.
pub open spec fn chroma_width_of(width: int, yuv_type: YuvType) -> int {
    match yuv_type {
        YuvType::Yuv420 | YuvType::Yuv422 => half_up(width),
        YuvType::Yuv444 => width,
    }
}

/// Height of a chroma plane of an image `height` pixels high: half the
/// height, rounded up, where chroma is subsampled vertically.
pub open spec fn chroma_height_of(height: int, yuv_type: YuvType) -> int {
    match yuv_type {
        YuvType::Yuv420 => half_up(height),
        YuvType::Yuv422 | YuvType::Yuv444 => height,
    }
}

/// The matrix's coefficients, where it is given by coefficients.
pub open spec fn standard_matrix_of(matrix: YuvMatrix) -> Option<StandardMatrix> {
    match matrix {
        YuvMatrix::Bt601 => Some(StandardMatrix::Bt601),
        YuvMatrix::Bt709 => Some(StandardMatrix::Bt709),
        YuvMatrix::Bt2020 => Some(StandardMatrix::Bt2020),
        YuvMatrix::Identity => None,
        YuvMatrix::YCgCo => None,
    }
}

/// Whether kernels exist for a matrix under a subsampling: the identity
/// matrix exists for 4:4:4 only, every other matrix for every subsampling.
pub open spec fn combination_exists(matrix: YuvMatrix, yuv_type: YuvType) -> bool {
    matrix == YuvMatrix::Identity ==> yuv_type == YuvType::Yuv444
}

/// Whether a matrix is given by coefficients, as a luma-only image needs it.
pub open spec fn has_coefficients(matrix: YuvMatrix) -> bool {
    standard_matrix_of(matrix) is Some
}

/// Half of `n`, rounded up.
pub fn half_rounded_up(n: u32) -> (half: u32)
    ensures
        half == half_up(n as int),
{
    n / 2 + n % 2
}

/// Width of a chroma plane of an image `width` pixels wide.
pub fn chroma_width(width: u32, yuv_type: YuvType) -> (chroma: u32)
    ensures
        chroma == chroma_width_of(width as int, yuv_type),
{
    match yuv_type {
        YuvType::Yuv420 => half_rounded_up(width),
        YuvType::Yuv422 => half_rounded_up(width),
        YuvType::Yuv444 => width,
    }
}

/// Height of a chroma plane of an image `height` pixels high.
pub fn chroma_height(height: u32, yuv_type: YuvType) -> (chroma: u32)
    ensures
        chroma == chroma_height_of(height as int, yuv_type),
{
    match yuv_type {
        YuvType::Yuv420 => half_rounded_up(height),
        YuvType::Yuv422 => height,
        YuvType::Yuv444 => height,
    }
}

/// The coefficients of a matrix that is given by coefficients.
pub fn standard_coefficients(matrix: YuvMatrix) -> (standard: StandardMatrix)
    requires
        has_coefficients(matrix),
    ensures
        Some(standard) == standard_matrix_of(matrix),
{
    match matrix {
        YuvMatrix::Bt601 => StandardMatrix::Bt601,
        YuvMatrix::Bt709 => StandardMatrix::Bt709,
        _ => StandardMatrix::Bt2020,
    }
}

} // verus!
