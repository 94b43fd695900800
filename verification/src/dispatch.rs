//! Which kernel an operation runs for its selectors.
//!
//! Every kernel is named after the function of the `yuv` crate that it
//! stands for. The operations match on these names and run that function.
use crate::modes::{AvifYCgCoRType, StandardMatrix, YuvMatrix, YuvRange, YuvType};
use vstd::prelude::*;

verus! {

/// The kernels from planar 8-bit YUV to interleaved 8-bit RGB.
#[derive(Copy, Clone, Debug, PartialEq, Eq, Structural)]
pub enum Yuv8Kernel {
    Yuv420ToRgb,
    Yuv422ToRgb,
    Yuv444ToRgb,
    GbrToRgba,
    Ycgco420ToRgb,
    Ycgco422ToRgb,
    Ycgco444ToRgb,
}

/// The kernel of `pixart_yuv8_to_rgb8`: by matrix, then by subsampling.
pub open spec fn yuv8_to_rgb8_kernel_of(yuv_matrix: YuvMatrix, yuv_type: YuvType) -> Yuv8Kernel {
    match yuv_matrix {
        YuvMatrix::Identity => Yuv8Kernel::GbrToRgba,
        YuvMatrix::YCgCo => match yuv_type {
            YuvType::Yuv420 => Yuv8Kernel::Ycgco420ToRgb,
            YuvType::Yuv422 => Yuv8Kernel::Ycgco422ToRgb,
            YuvType::Yuv444 => Yuv8Kernel::Ycgco444ToRgb,
        },
        _ => match yuv_type {
            YuvType::Yuv420 => Yuv8Kernel::Yuv420ToRgb,
            YuvType::Yuv422 => Yuv8Kernel::Yuv422ToRgb,
            YuvType::Yuv444 => Yuv8Kernel::Yuv444ToRgb,
        },
    }
}

/// The kernel of `pixart_yuv8_to_rgb8`: by matrix, then by subsampling.
pub fn yuv8_to_rgb8_kernel(yuv_matrix: YuvMatrix, yuv_type: YuvType) -> (kernel: Yuv8Kernel)
    ensures
        kernel == yuv8_to_rgb8_kernel_of(yuv_matrix, yuv_type),
{
    match yuv_matrix {
        YuvMatrix::Identity => Yuv8Kernel::GbrToRgba,
        YuvMatrix::YCgCo => match yuv_type {
            YuvType::Yuv420 => Yuv8Kernel::Ycgco420ToRgb,
            YuvType::Yuv422 => Yuv8Kernel::Ycgco422ToRgb,
            YuvType::Yuv444 => Yuv8Kernel::Ycgco444ToRgb,
        },
        _ => match yuv_type {
            YuvType::Yuv420 => Yuv8Kernel::Yuv420ToRgb,
            YuvType::Yuv422 => Yuv8Kernel::Yuv422ToRgb,
            YuvType::Yuv444 => Yuv8Kernel::Yuv444ToRgb,
        },
    }
}

/// The kernels from planar 8-bit YUV with alpha to interleaved 8-bit RGBA.
#[derive(Copy, Clone, Debug, PartialEq, Eq, Structural)]
pub enum Yuv8AlphaKernel {
    Yuv420AlphaToRgba,
    Yuv422AlphaToRgba,
    Yuv444AlphaToRgba,
    GbrWithAlphaToRgba,
    Ycgco420AlphaToRgba,
    Ycgco422AlphaToRgba,
    Ycgco444AlphaToRgba,
}

/// The kernel of `pixart_yuv8_with_alpha_to_rgba8`: by matrix, then by subsampling.
pub open spec fn yuv8_with_alpha_to_rgba8_kernel_of(
    yuv_matrix: YuvMatrix,
    yuv_type: YuvType,
) -> Yuv8AlphaKernel {
    match yuv_matrix {
        YuvMatrix::Identity => Yuv8AlphaKernel::GbrWithAlphaToRgba,
        YuvMatrix::YCgCo => match yuv_type {
            YuvType::Yuv420 => Yuv8AlphaKernel::Ycgco420AlphaToRgba,
            YuvType::Yuv422 => Yuv8AlphaKernel::Ycgco422AlphaToRgba,
            YuvType::Yuv444 => Yuv8AlphaKernel::Ycgco444AlphaToRgba,
        },
        _ => match yuv_type {
            YuvType::Yuv420 => Yuv8AlphaKernel::Yuv420AlphaToRgba,
            YuvType::Yuv422 => Yuv8AlphaKernel::Yuv422AlphaToRgba,
            YuvType::Yuv444 => Yuv8AlphaKernel::Yuv444AlphaToRgba,
        },
    }
}

/// The kernel of `pixart_yuv8_with_alpha_to_rgba8`: by matrix, then by subsampling.
pub fn yuv8_with_alpha_to_rgba8_kernel(
    yuv_matrix: YuvMatrix,
    yuv_type: YuvType,
) -> (kernel: Yuv8AlphaKernel)
    ensures
        kernel == yuv8_with_alpha_to_rgba8_kernel_of(yuv_matrix, yuv_type),
{
    match yuv_matrix {
        YuvMatrix::Identity => Yuv8AlphaKernel::GbrWithAlphaToRgba,
        YuvMatrix::YCgCo => match yuv_type {
            YuvType::Yuv420 => Yuv8AlphaKernel::Ycgco420AlphaToRgba,
            YuvType::Yuv422 => Yuv8AlphaKernel::Ycgco422AlphaToRgba,
            YuvType::Yuv444 => Yuv8AlphaKernel::Ycgco444AlphaToRgba,
        },
        _ => match yuv_type {
            YuvType::Yuv420 => Yuv8AlphaKernel::Yuv420AlphaToRgba,
            YuvType::Yuv422 => Yuv8AlphaKernel::Yuv422AlphaToRgba,
            YuvType::Yuv444 => Yuv8AlphaKernel::Yuv444AlphaToRgba,
        },
    }
}

/// The kernels from planar 16-bit YUV to interleaved 16-bit RGB.
#[derive(Copy, Clone, Debug, PartialEq, Eq, Structural)]
pub enum Yuv16Kernel {
    I010ToRgb10,
    I012ToRgb12,
    I210ToRgb10,
    I212ToRgb12,
    I410ToRgb10,
    I412ToRgb12,
    Gb10ToRgb10,
    Gb12ToRgb12,
    Icgc010ToRgb10,
    Icgc012ToRgb12,
    Icgc210ToRgb10,
    Icgc212ToRgb12,
    Icgc410ToRgb10,
    Icgc412ToRgb12,
}

/// The kernel of `pixart_yuv16_to_rgb16`: by matrix, then by subsampling,
/// then by bit depth, 10 bits or else 12.
pub open spec fn yuv16_to_rgb16_kernel_of(
    bit_depth: u32,
    yuv_matrix: YuvMatrix,
    yuv_type: YuvType,
) -> Yuv16Kernel {
    match yuv_matrix {
        YuvMatrix::Identity => if bit_depth == 10 {
            Yuv16Kernel::Gb10ToRgb10
        } else {
            Yuv16Kernel::Gb12ToRgb12
        },
        YuvMatrix::YCgCo => match yuv_type {
            YuvType::Yuv420 => if bit_depth == 10 {
                Yuv16Kernel::Icgc010ToRgb10
            } else {
                Yuv16Kernel::Icgc012ToRgb12
            },
            YuvType::Yuv422 => if bit_depth == 10 {
                Yuv16Kernel::Icgc210ToRgb10
            } else {
                Yuv16Kernel::Icgc212ToRgb12
            },
            YuvType::Yuv444 => if bit_depth == 10 {
                Yuv16Kernel::Icgc410ToRgb10
            } else {
                Yuv16Kernel::Icgc412ToRgb12
            },
        },
        _ => match yuv_type {
            YuvType::Yuv420 => if bit_depth == 10 {
                Yuv16Kernel::I010ToRgb10
            } else {
                Yuv16Kernel::I012ToRgb12
            },
            YuvType::Yuv422 => if bit_depth == 10 {
                Yuv16Kernel::I210ToRgb10
            } else {
                Yuv16Kernel::I212ToRgb12
            },
            YuvType::Yuv444 => if bit_depth == 10 {
                Yuv16Kernel::I410ToRgb10
            } else {
                Yuv16Kernel::I412ToRgb12
            },
        },
    }
}

/// The kernel of `pixart_yuv16_to_rgb16`: by matrix, then by subsampling,
/// then by bit depth, 10 bits or else 12.
pub fn yuv16_to_rgb16_kernel(
    bit_depth: u32,
    yuv_matrix: YuvMatrix,
    yuv_type: YuvType,
) -> (kernel: Yuv16Kernel)
    ensures
        kernel == yuv16_to_rgb16_kernel_of(bit_depth, yuv_matrix, yuv_type),
{
    match yuv_matrix {
        YuvMatrix::Identity => if bit_depth == 10 {
            Yuv16Kernel::Gb10ToRgb10
        } else {
            Yuv16Kernel::Gb12ToRgb12
        },
        YuvMatrix::YCgCo => match yuv_type {
            YuvType::Yuv420 => if bit_depth == 10 {
                Yuv16Kernel::Icgc010ToRgb10
            } else {
                Yuv16Kernel::Icgc012ToRgb12
            },
            YuvType::Yuv422 => if bit_depth == 10 {
                Yuv16Kernel::Icgc210ToRgb10
            } else {
                Yuv16Kernel::Icgc212ToRgb12
            },
            YuvType::Yuv444 => if bit_depth == 10 {
                Yuv16Kernel::Icgc410ToRgb10
            } else {
                Yuv16Kernel::Icgc412ToRgb12
            },
        },
        _ => match yuv_type {
            YuvType::Yuv420 => if bit_depth == 10 {
                Yuv16Kernel::I010ToRgb10
            } else {
                Yuv16Kernel::I012ToRgb12
            },
            YuvType::Yuv422 => if bit_depth == 10 {
                Yuv16Kernel::I210ToRgb10
            } else {
                Yuv16Kernel::I212ToRgb12
            },
            YuvType::Yuv444 => if bit_depth == 10 {
                Yuv16Kernel::I410ToRgb10
            } else {
                Yuv16Kernel::I412ToRgb12
            },
        },
    }
}

/// The kernels from planar 16-bit YUV with alpha to interleaved 16-bit RGBA.
#[derive(Copy, Clone, Debug, PartialEq, Eq, Structural)]
pub enum Yuv16AlphaKernel {
    I010AlphaToRgba10,
    I012AlphaToRgba12,
    I210AlphaToRgba10,
    I212AlphaToRgba12,
    I410AlphaToRgba10,
    I412AlphaToRgba12,
    Gb10AlphaToRgba10,
    Gb12AlphaToRgba12,
    Icgc010AlphaToRgba10,
    Icgc012AlphaToRgba12,
    Icgc210AlphaToRgba10,
    Icgc212AlphaToRgba12,
    Icgc410AlphaToRgba10,
    Icgc412AlphaToRgba12,
}

/// The kernel of `pixart_yuv16_with_alpha_to_rgba16`: by matrix, then by
/// subsampling, then by bit depth, 10 bits or else 12.
pub open spec fn yuv16_with_alpha_to_rgba16_kernel_of(
    bit_depth: u32,
    yuv_matrix: YuvMatrix,
    yuv_type: YuvType,
) -> Yuv16AlphaKernel {
    match yuv_matrix {
        YuvMatrix::Identity => if bit_depth == 10 {
            Yuv16AlphaKernel::Gb10AlphaToRgba10
        } else {
            Yuv16AlphaKernel::Gb12AlphaToRgba12
        },
        YuvMatrix::YCgCo => match yuv_type {
            YuvType::Yuv420 => if bit_depth == 10 {
                Yuv16AlphaKernel::Icgc010AlphaToRgba10
            } else {
                Yuv16AlphaKernel::Icgc012AlphaToRgba12
            },
            YuvType::Yuv422 => if bit_depth == 10 {
                Yuv16AlphaKernel::Icgc210AlphaToRgba10
            } else {
                Yuv16AlphaKernel::Icgc212AlphaToRgba12
            },
            YuvType::Yuv444 => if bit_depth == 10 {
                Yuv16AlphaKernel::Icgc410AlphaToRgba10
            } else {
                Yuv16AlphaKernel::Icgc412AlphaToRgba12
            },
        },
        _ => match yuv_type {
            YuvType::Yuv420 => if bit_depth == 10 {
                Yuv16AlphaKernel::I010AlphaToRgba10
            } else {
                Yuv16AlphaKernel::I012AlphaToRgba12
            },
            YuvType::Yuv422 => if bit_depth == 10 {
                Yuv16AlphaKernel::I210AlphaToRgba10
            } else {
                Yuv16AlphaKernel::I212AlphaToRgba12
            },
            YuvType::Yuv444 => if bit_depth == 10 {
                Yuv16AlphaKernel::I410AlphaToRgba10
            } else {
                Yuv16AlphaKernel::I412AlphaToRgba12
            },
        },
    }
}

/// The kernel of `pixart_yuv16_with_alpha_to_rgba16`: by matrix, then by
/// subsampling, then by bit depth, 10 bits or else 12.
pub fn yuv16_with_alpha_to_rgba16_kernel(
    bit_depth: u32,
    yuv_matrix: YuvMatrix,
    yuv_type: YuvType,
) -> (kernel: Yuv16AlphaKernel)
    ensures
        kernel == yuv16_with_alpha_to_rgba16_kernel_of(bit_depth, yuv_matrix, yuv_type),
{
    match yuv_matrix {
        YuvMatrix::Identity => if bit_depth == 10 {
            Yuv16AlphaKernel::Gb10AlphaToRgba10
        } else {
            Yuv16AlphaKernel::Gb12AlphaToRgba12
        },
        YuvMatrix::YCgCo => match yuv_type {
            YuvType::Yuv420 => if bit_depth == 10 {
                Yuv16AlphaKernel::Icgc010AlphaToRgba10
            } else {
                Yuv16AlphaKernel::Icgc012AlphaToRgba12
            },
            YuvType::Yuv422 => if bit_depth == 10 {
                Yuv16AlphaKernel::Icgc210AlphaToRgba10
            } else {
                Yuv16AlphaKernel::Icgc212AlphaToRgba12
            },
            YuvType::Yuv444 => if bit_depth == 10 {
                Yuv16AlphaKernel::Icgc410AlphaToRgba10
            } else {
                Yuv16AlphaKernel::Icgc412AlphaToRgba12
            },
        },
        _ => match yuv_type {
            YuvType::Yuv420 => if bit_depth == 10 {
                Yuv16AlphaKernel::I010AlphaToRgba10
            } else {
                Yuv16AlphaKernel::I012AlphaToRgba12
            },
            YuvType::Yuv422 => if bit_depth == 10 {
                Yuv16AlphaKernel::I210AlphaToRgba10
            } else {
                Yuv16AlphaKernel::I212AlphaToRgba12
            },
            YuvType::Yuv444 => if bit_depth == 10 {
                Yuv16AlphaKernel::I410AlphaToRgba10
            } else {
                Yuv16AlphaKernel::I412AlphaToRgba12
            },
        },
    }
}

/// The kernels from a 16-bit luma plane to interleaved 16-bit RGB.
#[derive(Copy, Clone, Debug, PartialEq, Eq, Structural)]
pub enum Gray16Kernel {
    Y010ToRgb10,
    Y012ToRgb12,
}

/// The kernel of `pixart_yuv400_p16_to_rgb16`: by bit depth, 10 bits or else
/// 12.
pub open spec fn yuv400_p16_to_rgb16_kernel_of(bit_depth: u32) -> Gray16Kernel {
    if bit_depth == 10 {
        Gray16Kernel::Y010ToRgb10
    } else {
        Gray16Kernel::Y012ToRgb12
    }
}

/// The kernel of `pixart_yuv400_p16_to_rgb16`: by bit depth, 10 bits or else
/// 12.
pub fn yuv400_p16_to_rgb16_kernel(bit_depth: u32) -> (kernel: Gray16Kernel)
    ensures
        kernel == yuv400_p16_to_rgb16_kernel_of(bit_depth),
{
    if bit_depth == 10 {
        Gray16Kernel::Y010ToRgb10
    } else {
        Gray16Kernel::Y012ToRgb12
    }
}

/// The kernels from 16-bit luma and alpha planes to interleaved 16-bit RGBA.
#[derive(Copy, Clone, Debug, PartialEq, Eq, Structural)]
pub enum Gray16AlphaKernel {
    Y010AlphaToRgba10,
    Y012AlphaToRgba12,
}

/// The kernel of `pixart_yuv400_p16_with_alpha_to_rgba16`: by bit depth, 10
/// bits or else 12.
pub open spec fn yuv400_p16_with_alpha_to_rgba16_kernel_of(bit_depth: u32) -> Gray16AlphaKernel {
    if bit_depth == 10 {
        Gray16AlphaKernel::Y010AlphaToRgba10
    } else {
        Gray16AlphaKernel::Y012AlphaToRgba12
    }
}

/// The kernel of `pixart_yuv400_p16_with_alpha_to_rgba16`: by bit depth, 10
/// bits or else 12.
pub fn yuv400_p16_with_alpha_to_rgba16_kernel(bit_depth: u32) -> (kernel: Gray16AlphaKernel)
    ensures
        kernel == yuv400_p16_with_alpha_to_rgba16_kernel_of(bit_depth),
{
    if bit_depth == 10 {
        Gray16AlphaKernel::Y010AlphaToRgba10
    } else {
        Gray16AlphaKernel::Y012AlphaToRgba12
    }
}

/// The kernels from planar reversible YCgCo of 12 bits to interleaved 10-bit RGB.
#[derive(Copy, Clone, Debug, PartialEq, Eq, Structural)]
pub enum Icgc12Kernel {
    IcgcRo012ToRgb10,
    IcgcRe012ToRgb10,
    IcgcRo212ToRgb10,
    IcgcRe212ToRgb10,
    IcgcRo412ToRgb10,
    IcgcRe412ToRgb10,
}

/// The kernel of `pixart_icgc12_r_to_rgb10`: by subsampling, then by variant.
pub open spec fn icgc12_r_to_rgb10_kernel_of(
    r_type: AvifYCgCoRType,
    yuv_type: YuvType,
) -> Icgc12Kernel {
    match yuv_type {
        YuvType::Yuv420 => match r_type {
            AvifYCgCoRType::Ro => Icgc12Kernel::IcgcRo012ToRgb10,
            AvifYCgCoRType::Re => Icgc12Kernel::IcgcRe012ToRgb10,
        },
        YuvType::Yuv422 => match r_type {
            AvifYCgCoRType::Ro => Icgc12Kernel::IcgcRo212ToRgb10,
            AvifYCgCoRType::Re => Icgc12Kernel::IcgcRe212ToRgb10,
        },
        YuvType::Yuv444 => match r_type {
            AvifYCgCoRType::Ro => Icgc12Kernel::IcgcRo412ToRgb10,
            AvifYCgCoRType::Re => Icgc12Kernel::IcgcRe412ToRgb10,
        },
    }
}

/// The kernel of `pixart_icgc12_r_to_rgb10`: by subsampling, then by variant.
pub fn icgc12_r_to_rgb10_kernel(r_type: AvifYCgCoRType, yuv_type: YuvType) -> (kernel: Icgc12Kernel)
    ensures
        kernel == icgc12_r_to_rgb10_kernel_of(r_type, yuv_type),
{
    match yuv_type {
        YuvType::Yuv420 => match r_type {
            AvifYCgCoRType::Ro => Icgc12Kernel::IcgcRo012ToRgb10,
            AvifYCgCoRType::Re => Icgc12Kernel::IcgcRe012ToRgb10,
        },
        YuvType::Yuv422 => match r_type {
            AvifYCgCoRType::Ro => Icgc12Kernel::IcgcRo212ToRgb10,
            AvifYCgCoRType::Re => Icgc12Kernel::IcgcRe212ToRgb10,
        },
        YuvType::Yuv444 => match r_type {
            AvifYCgCoRType::Ro => Icgc12Kernel::IcgcRo412ToRgb10,
            AvifYCgCoRType::Re => Icgc12Kernel::IcgcRe412ToRgb10,
        },
    }
}

/// The kernels from planar reversible YCgCo of 12 bits with alpha to
/// interleaved 10-bit RGBA.
#[derive(Copy, Clone, Debug, PartialEq, Eq, Structural)]
pub enum Icgc12AlphaKernel {
    IcgcRoAlpha012ToRgba10,
    IcgcReAlpha012ToRgba10,
    IcgcRoAlpha212ToRgba10,
    IcgcReAlpha212ToRgba10,
    IcgcRoAlpha412ToRgba10,
    IcgcReAlpha412ToRgba10,
}

/// The kernel of `pixart_icgc_r_alpha12_to_rgba10`: by subsampling, then by
/// variant.
pub open spec fn icgc_r_alpha12_to_rgba10_kernel_of(
    r_type: AvifYCgCoRType,
    yuv_type: YuvType,
) -> Icgc12AlphaKernel {
    match yuv_type {
        YuvType::Yuv420 => match r_type {
            AvifYCgCoRType::Ro => Icgc12AlphaKernel::IcgcRoAlpha012ToRgba10,
            AvifYCgCoRType::Re => Icgc12AlphaKernel::IcgcReAlpha012ToRgba10,
        },
        YuvType::Yuv422 => match r_type {
            AvifYCgCoRType::Ro => Icgc12AlphaKernel::IcgcRoAlpha212ToRgba10,
            AvifYCgCoRType::Re => Icgc12AlphaKernel::IcgcReAlpha212ToRgba10,
        },
        YuvType::Yuv444 => match r_type {
            AvifYCgCoRType::Ro => Icgc12AlphaKernel::IcgcRoAlpha412ToRgba10,
            AvifYCgCoRType::Re => Icgc12AlphaKernel::IcgcReAlpha412ToRgba10,
        },
    }
}

/// The kernel of `pixart_icgc_r_alpha12_to_rgba10`: by subsampling, then by
/// variant.
pub fn icgc_r_alpha12_to_rgba10_kernel(
    r_type: AvifYCgCoRType,
    yuv_type: YuvType,
) -> (kernel: Icgc12AlphaKernel)
    ensures
        kernel == icgc_r_alpha12_to_rgba10_kernel_of(r_type, yuv_type),
{
    match yuv_type {
        YuvType::Yuv420 => match r_type {
            AvifYCgCoRType::Ro => Icgc12AlphaKernel::IcgcRoAlpha012ToRgba10,
            AvifYCgCoRType::Re => Icgc12AlphaKernel::IcgcReAlpha012ToRgba10,
        },
        YuvType::Yuv422 => match r_type {
            AvifYCgCoRType::Ro => Icgc12AlphaKernel::IcgcRoAlpha212ToRgba10,
            AvifYCgCoRType::Re => Icgc12AlphaKernel::IcgcReAlpha212ToRgba10,
        },
        YuvType::Yuv444 => match r_type {
            AvifYCgCoRType::Ro => Icgc12AlphaKernel::IcgcRoAlpha412ToRgba10,
            AvifYCgCoRType::Re => Icgc12AlphaKernel::IcgcReAlpha412ToRgba10,
        },
    }
}

/// The kernels from planar reversible YCgCo of 10 bits to interleaved 8-bit RGB.
#[derive(Copy, Clone, Debug, PartialEq, Eq, Structural)]
pub enum Icgc10Kernel {
    IcgcRo010ToRgb,
    IcgcRe010ToRgb,
    IcgcRo210ToRgb,
    IcgcRe210ToRgb,
    IcgcRo410ToRgb,
    IcgcRe410ToRgb,
}

/// The kernel of `pixart_icgc_r_type_to_rgb`: by subsampling, then by variant.
pub open spec fn icgc_r_type_to_rgb_kernel_of(
    r_type: AvifYCgCoRType,
    yuv_type: YuvType,
) -> Icgc10Kernel {
    match yuv_type {
        YuvType::Yuv420 => match r_type {
            AvifYCgCoRType::Ro => Icgc10Kernel::IcgcRo010ToRgb,
            AvifYCgCoRType::Re => Icgc10Kernel::IcgcRe010ToRgb,
        },
        YuvType::Yuv422 => match r_type {
            AvifYCgCoRType::Ro => Icgc10Kernel::IcgcRo210ToRgb,
            AvifYCgCoRType::Re => Icgc10Kernel::IcgcRe210ToRgb,
        },
        YuvType::Yuv444 => match r_type {
            AvifYCgCoRType::Ro => Icgc10Kernel::IcgcRo410ToRgb,
            AvifYCgCoRType::Re => Icgc10Kernel::IcgcRe410ToRgb,
        },
    }
}

/// The kernel of `pixart_icgc_r_type_to_rgb`: by subsampling, then by variant.
pub fn icgc_r_type_to_rgb_kernel(
    r_type: AvifYCgCoRType,
    yuv_type: YuvType,
) -> (kernel: Icgc10Kernel)
    ensures
        kernel == icgc_r_type_to_rgb_kernel_of(r_type, yuv_type),
{
    match yuv_type {
        YuvType::Yuv420 => match r_type {
            AvifYCgCoRType::Ro => Icgc10Kernel::IcgcRo010ToRgb,
            AvifYCgCoRType::Re => Icgc10Kernel::IcgcRe010ToRgb,
        },
        YuvType::Yuv422 => match r_type {
            AvifYCgCoRType::Ro => Icgc10Kernel::IcgcRo210ToRgb,
            AvifYCgCoRType::Re => Icgc10Kernel::IcgcRe210ToRgb,
        },
        YuvType::Yuv444 => match r_type {
            AvifYCgCoRType::Ro => Icgc10Kernel::IcgcRo410ToRgb,
            AvifYCgCoRType::Re => Icgc10Kernel::IcgcRe410ToRgb,
        },
    }
}

/// The kernels from planar reversible YCgCo of 10 bits with alpha to
/// interleaved 8-bit RGBA.
#[derive(Copy, Clone, Debug, PartialEq, Eq, Structural)]
pub enum Icgc10AlphaKernel {
    IcgcRoAlpha010ToRgba,
    IcgcReAlpha010ToRgba,
    IcgcRoAlpha210ToRgba,
    IcgcReAlpha210ToRgba,
    IcgcRoAlpha410ToRgba,
    IcgcReAlpha410ToRgba,
}

/// The kernel of `pixart_icgc_r_type_with_alpha_to_rgba`: by subsampling,
/// then by variant. Every pair has a kernel of its own.
pub open spec fn icgc_r_type_with_alpha_to_rgba_kernel_of(
    r_type: AvifYCgCoRType,
    yuv_type: YuvType,
) -> Icgc10AlphaKernel {
    match yuv_type {
        YuvType::Yuv420 => match r_type {
            AvifYCgCoRType::Ro => Icgc10AlphaKernel::IcgcRoAlpha010ToRgba,
            AvifYCgCoRType::Re => Icgc10AlphaKernel::IcgcReAlpha010ToRgba,
        },
        YuvType::Yuv422 => match r_type {
            AvifYCgCoRType::Ro => Icgc10AlphaKernel::IcgcRoAlpha210ToRgba,
            AvifYCgCoRType::Re => Icgc10AlphaKernel::IcgcReAlpha210ToRgba,
        },
        YuvType::Yuv444 => match r_type {
            AvifYCgCoRType::Ro => Icgc10AlphaKernel::IcgcRoAlpha410ToRgba,
            AvifYCgCoRType::Re => Icgc10AlphaKernel::IcgcReAlpha410ToRgba,
        },
    }
}

/// The kernel of `pixart_icgc_r_type_with_alpha_to_rgba`: by subsampling,
/// then by variant. Every pair has a kernel of its own.
pub fn icgc_r_type_with_alpha_to_rgba_kernel(
    r_type: AvifYCgCoRType,
    yuv_type: YuvType,
) -> (kernel: Icgc10AlphaKernel)
    ensures
        kernel == icgc_r_type_with_alpha_to_rgba_kernel_of(r_type, yuv_type),
{
    match yuv_type {
        YuvType::Yuv420 => match r_type {
            AvifYCgCoRType::Ro => Icgc10AlphaKernel::IcgcRoAlpha010ToRgba,
            AvifYCgCoRType::Re => Icgc10AlphaKernel::IcgcReAlpha010ToRgba,
        },
        YuvType::Yuv422 => match r_type {
            AvifYCgCoRType::Ro => Icgc10AlphaKernel::IcgcRoAlpha210ToRgba,
            AvifYCgCoRType::Re => Icgc10AlphaKernel::IcgcReAlpha210ToRgba,
        },
        YuvType::Yuv444 => match r_type {
            AvifYCgCoRType::Ro => Icgc10AlphaKernel::IcgcRoAlpha410ToRgba,
            AvifYCgCoRType::Re => Icgc10AlphaKernel::IcgcReAlpha410ToRgba,
        },
    }
}

/// The kernels from interleaved 8-bit RGBA to planar reversible YCgCo of 10 bits.
#[derive(Copy, Clone, Debug, PartialEq, Eq, Structural)]
pub enum Rgba8IcgcKernel {
    RgbaToIcgcRo010,
    RgbaToIcgcRe010,
    RgbaToIcgcRo210,
    RgbaToIcgcRe210,
    RgbaToIcgcRo410,
    RgbaToIcgcRe410,
}

/// The kernel of `pixart_rgba8_to_icgco_r10`: by subsampling, then by variant.
pub open spec fn rgba8_to_icgco_r10_kernel_of(
    r_type: AvifYCgCoRType,
    yuv_type: YuvType,
) -> Rgba8IcgcKernel {
    match yuv_type {
        YuvType::Yuv420 => match r_type {
            AvifYCgCoRType::Ro => Rgba8IcgcKernel::RgbaToIcgcRo010,
            AvifYCgCoRType::Re => Rgba8IcgcKernel::RgbaToIcgcRe010,
        },
        YuvType::Yuv422 => match r_type {
            AvifYCgCoRType::Ro => Rgba8IcgcKernel::RgbaToIcgcRo210,
            AvifYCgCoRType::Re => Rgba8IcgcKernel::RgbaToIcgcRe210,
        },
        YuvType::Yuv444 => match r_type {
            AvifYCgCoRType::Ro => Rgba8IcgcKernel::RgbaToIcgcRo410,
            AvifYCgCoRType::Re => Rgba8IcgcKernel::RgbaToIcgcRe410,
        },
    }
}

/// The kernel of `pixart_rgba8_to_icgco_r10`: by subsampling, then by variant.
pub fn rgba8_to_icgco_r10_kernel(
    r_type: AvifYCgCoRType,
    yuv_type: YuvType,
) -> (kernel: Rgba8IcgcKernel)
    ensures
        kernel == rgba8_to_icgco_r10_kernel_of(r_type, yuv_type),
{
    match yuv_type {
        YuvType::Yuv420 => match r_type {
            AvifYCgCoRType::Ro => Rgba8IcgcKernel::RgbaToIcgcRo010,
            AvifYCgCoRType::Re => Rgba8IcgcKernel::RgbaToIcgcRe010,
        },
        YuvType::Yuv422 => match r_type {
            AvifYCgCoRType::Ro => Rgba8IcgcKernel::RgbaToIcgcRo210,
            AvifYCgCoRType::Re => Rgba8IcgcKernel::RgbaToIcgcRe210,
        },
        YuvType::Yuv444 => match r_type {
            AvifYCgCoRType::Ro => Rgba8IcgcKernel::RgbaToIcgcRo410,
            AvifYCgCoRType::Re => Rgba8IcgcKernel::RgbaToIcgcRe410,
        },
    }
}

/// The kernels from interleaved 8-bit RGBA to planar 8-bit YUV.
#[derive(Copy, Clone, Debug, PartialEq, Eq, Structural)]
pub enum Rgba8Kernel {
    RgbaToYuv420,
    RgbaToYuv422,
    RgbaToYuv444,
    RgbaToGbr,
    RgbaToYcgco420,
    RgbaToYcgco422,
    RgbaToYcgco444,
}

/// The kernel of `pixart_rgba8_to_yuv8`: by matrix, then by subsampling.
pub open spec fn rgba8_to_yuv8_kernel_of(yuv_matrix: YuvMatrix, yuv_type: YuvType) -> Rgba8Kernel {
    match yuv_matrix {
        YuvMatrix::Identity => Rgba8Kernel::RgbaToGbr,
        YuvMatrix::YCgCo => match yuv_type {
            YuvType::Yuv420 => Rgba8Kernel::RgbaToYcgco420,
            YuvType::Yuv422 => Rgba8Kernel::RgbaToYcgco422,
            YuvType::Yuv444 => Rgba8Kernel::RgbaToYcgco444,
        },
        _ => match yuv_type {
            YuvType::Yuv420 => Rgba8Kernel::RgbaToYuv420,
            YuvType::Yuv422 => Rgba8Kernel::RgbaToYuv422,
            YuvType::Yuv444 => Rgba8Kernel::RgbaToYuv444,
        },
    }
}

/// The kernel of `pixart_rgba8_to_yuv8`: by matrix, then by subsampling.
pub fn rgba8_to_yuv8_kernel(yuv_matrix: YuvMatrix, yuv_type: YuvType) -> (kernel: Rgba8Kernel)
    ensures
        kernel == rgba8_to_yuv8_kernel_of(yuv_matrix, yuv_type),
{
    match yuv_matrix {
        YuvMatrix::Identity => Rgba8Kernel::RgbaToGbr,
        YuvMatrix::YCgCo => match yuv_type {
            YuvType::Yuv420 => Rgba8Kernel::RgbaToYcgco420,
            YuvType::Yuv422 => Rgba8Kernel::RgbaToYcgco422,
            YuvType::Yuv444 => Rgba8Kernel::RgbaToYcgco444,
        },
        _ => match yuv_type {
            YuvType::Yuv420 => Rgba8Kernel::RgbaToYuv420,
            YuvType::Yuv422 => Rgba8Kernel::RgbaToYuv422,
            YuvType::Yuv444 => Rgba8Kernel::RgbaToYuv444,
        },
    }
}

/// The kernels from interleaved 16-bit RGBA to packed 30-bit pixels.
#[derive(Copy, Clone, Debug, PartialEq, Eq, Structural)]
pub enum RgbaRa30Kernel {
    Rgba10ToRa30,
    Rgba12ToRa30,
}

/// The kernel of `pixart_rgba_u16_to_ra30`: by bit depth, 10 bits or else 12.
pub open spec fn rgba_u16_to_ra30_kernel_of(bit_depth: u32) -> RgbaRa30Kernel {
    if bit_depth == 10 {
        RgbaRa30Kernel::Rgba10ToRa30
    } else {
        RgbaRa30Kernel::Rgba12ToRa30
    }
}

/// The kernel of `pixart_rgba_u16_to_ra30`: by bit depth, 10 bits or else 12.
pub fn rgba_u16_to_ra30_kernel(bit_depth: u32) -> (kernel: RgbaRa30Kernel)
    ensures
        kernel == rgba_u16_to_ra30_kernel_of(bit_depth),
{
    if bit_depth == 10 {
        RgbaRa30Kernel::Rgba10ToRa30
    } else {
        RgbaRa30Kernel::Rgba12ToRa30
    }
}

/// The kernels from interleaved 16-bit RGB to packed 30-bit pixels.
#[derive(Copy, Clone, Debug, PartialEq, Eq, Structural)]
pub enum RgbRa30Kernel {
    Rgb10ToRa30,
    Rgb12ToRa30,
}

/// The kernel of `pixart_rgb_u16_to_ra30`: by bit depth, 10 bits or else 12.
pub open spec fn rgb_u16_to_ra30_kernel_of(bit_depth: u32) -> RgbRa30Kernel {
    if bit_depth == 10 {
        RgbRa30Kernel::Rgb10ToRa30
    } else {
        RgbRa30Kernel::Rgb12ToRa30
    }
}

/// The kernel of `pixart_rgb_u16_to_ra30`: by bit depth, 10 bits or else 12.
pub fn rgb_u16_to_ra30_kernel(bit_depth: u32) -> (kernel: RgbRa30Kernel)
    ensures
        kernel == rgb_u16_to_ra30_kernel_of(bit_depth),
{
    if bit_depth == 10 {
        RgbRa30Kernel::Rgb10ToRa30
    } else {
        RgbRa30Kernel::Rgb12ToRa30
    }
}

/// The kernels from planar 16-bit YCgCo to interleaved 16-bit RGBA.
#[derive(Copy, Clone, Debug, PartialEq, Eq, Structural)]
pub enum YcgcoRgbaKernel {
    Icgc010ToRgba10,
    Icgc012ToRgba12,
    Icgc210ToRgba10,
    Icgc212ToRgba12,
    Icgc410ToRgba10,
    Icgc412ToRgba12,
}

/// The kernel of `ycgco_to_packed_rgba16`: by subsampling, then by bit depth,
/// 10 bits or else 12.
pub open spec fn ycgco_to_packed_rgba16_kernel_of(
    bit_depth: u32,
    yuv_type: YuvType,
) -> YcgcoRgbaKernel {
    match yuv_type {
        YuvType::Yuv420 => if bit_depth == 10 {
            YcgcoRgbaKernel::Icgc010ToRgba10
        } else {
            YcgcoRgbaKernel::Icgc012ToRgba12
        },
        YuvType::Yuv422 => if bit_depth == 10 {
            YcgcoRgbaKernel::Icgc210ToRgba10
        } else {
            YcgcoRgbaKernel::Icgc212ToRgba12
        },
        YuvType::Yuv444 => if bit_depth == 10 {
            YcgcoRgbaKernel::Icgc410ToRgba10
        } else {
            YcgcoRgbaKernel::Icgc412ToRgba12
        },
    }
}

/// The kernel of `ycgco_to_packed_rgba16`: by subsampling, then by bit depth,
/// 10 bits or else 12.
pub fn ycgco_to_packed_rgba16_kernel(bit_depth: u32, yuv_type: YuvType) -> (kernel: YcgcoRgbaKernel)
    ensures
        kernel == ycgco_to_packed_rgba16_kernel_of(bit_depth, yuv_type),
{
    match yuv_type {
        YuvType::Yuv420 => if bit_depth == 10 {
            YcgcoRgbaKernel::Icgc010ToRgba10
        } else {
            YcgcoRgbaKernel::Icgc012ToRgba12
        },
        YuvType::Yuv422 => if bit_depth == 10 {
            YcgcoRgbaKernel::Icgc210ToRgba10
        } else {
            YcgcoRgbaKernel::Icgc212ToRgba12
        },
        YuvType::Yuv444 => if bit_depth == 10 {
            YcgcoRgbaKernel::Icgc410ToRgba10
        } else {
            YcgcoRgbaKernel::Icgc412ToRgba12
        },
    }
}

/// What the kernel leaves in the destination, where the kernel is one piece
/// of integer code whose result is a function of what it is handed; `None`
/// for a kernel that chooses its arithmetic by the processor.
pub open spec fn yuv8_with_alpha_to_rgba8_pixels(
    kernel: Yuv8AlphaKernel,
    y: Seq<u8>,
    y_stride: int,
    u: Seq<u8>,
    u_stride: int,
    v: Seq<u8>,
    v_stride: int,
    a: Seq<u8>,
    a_stride: int,
    width: int,
    height: int,
    dst: Seq<u8>,
    dst_stride: int,
    range: YuvRange,
) -> Option<Seq<u8>> {
    match kernel {
        Yuv8AlphaKernel::GbrWithAlphaToRgba => Some(
            crate::kernels::narrow::gbr_with_alpha_to_rgba_result(
                y,
                y_stride,
                u,
                u_stride,
                v,
                v_stride,
                a,
                a_stride,
                width,
                height,
                dst,
                dst_stride,
                range,
            ),
        ),
        Yuv8AlphaKernel::Ycgco420AlphaToRgba => Some(
            crate::kernels::narrow::ycgco420_alpha_to_rgba_result(
                y,
                y_stride,
                u,
                u_stride,
                v,
                v_stride,
                a,
                a_stride,
                width,
                height,
                dst,
                dst_stride,
                range,
            ),
        ),
        Yuv8AlphaKernel::Ycgco422AlphaToRgba => Some(
            crate::kernels::narrow::ycgco422_alpha_to_rgba_result(
                y,
                y_stride,
                u,
                u_stride,
                v,
                v_stride,
                a,
                a_stride,
                width,
                height,
                dst,
                dst_stride,
                range,
            ),
        ),
        Yuv8AlphaKernel::Ycgco444AlphaToRgba => Some(
            crate::kernels::narrow::ycgco444_alpha_to_rgba_result(
                y,
                y_stride,
                u,
                u_stride,
                v,
                v_stride,
                a,
                a_stride,
                width,
                height,
                dst,
                dst_stride,
                range,
            ),
        ),
        _ => None,
    }
}

/// What the kernel leaves in the destination, where the kernel is one piece
/// of integer code whose result is a function of what it is handed; `None`
/// for a kernel that chooses its arithmetic by the processor.
pub open spec fn yuv16_with_alpha_to_rgba16_pixels(
    kernel: Yuv16AlphaKernel,
    y: Seq<u16>,
    y_stride: int,
    u: Seq<u16>,
    u_stride: int,
    v: Seq<u16>,
    v_stride: int,
    a: Seq<u16>,
    a_stride: int,
    width: int,
    height: int,
    dst: Seq<u16>,
    dst_stride: int,
    range: YuvRange,
) -> Option<Seq<u16>> {
    match kernel {
        Yuv16AlphaKernel::Gb10AlphaToRgba10 => Some(
            crate::kernels::wide::gb10_alpha_to_rgba10_result(
                y,
                y_stride,
                u,
                u_stride,
                v,
                v_stride,
                a,
                a_stride,
                width,
                height,
                dst,
                dst_stride,
                range,
            ),
        ),
        Yuv16AlphaKernel::Gb12AlphaToRgba12 => Some(
            crate::kernels::wide::gb12_alpha_to_rgba12_result(
                y,
                y_stride,
                u,
                u_stride,
                v,
                v_stride,
                a,
                a_stride,
                width,
                height,
                dst,
                dst_stride,
                range,
            ),
        ),
        Yuv16AlphaKernel::Icgc010AlphaToRgba10 => Some(
            crate::kernels::wide::icgc010_alpha_to_rgba10_result(
                y,
                y_stride,
                u,
                u_stride,
                v,
                v_stride,
                a,
                a_stride,
                width,
                height,
                dst,
                dst_stride,
                range,
            ),
        ),
        Yuv16AlphaKernel::Icgc012AlphaToRgba12 => Some(
            crate::kernels::wide::icgc012_alpha_to_rgba12_result(
                y,
                y_stride,
                u,
                u_stride,
                v,
                v_stride,
                a,
                a_stride,
                width,
                height,
                dst,
                dst_stride,
                range,
            ),
        ),
        Yuv16AlphaKernel::Icgc210AlphaToRgba10 => Some(
            crate::kernels::wide::icgc210_alpha_to_rgba10_result(
                y,
                y_stride,
                u,
                u_stride,
                v,
                v_stride,
                a,
                a_stride,
                width,
                height,
                dst,
                dst_stride,
                range,
            ),
        ),
        Yuv16AlphaKernel::Icgc212AlphaToRgba12 => Some(
            crate::kernels::wide::icgc212_alpha_to_rgba12_result(
                y,
                y_stride,
                u,
                u_stride,
                v,
                v_stride,
                a,
                a_stride,
                width,
                height,
                dst,
                dst_stride,
                range,
            ),
        ),
        Yuv16AlphaKernel::Icgc410AlphaToRgba10 => Some(
            crate::kernels::wide::icgc410_alpha_to_rgba10_result(
                y,
                y_stride,
                u,
                u_stride,
                v,
                v_stride,
                a,
                a_stride,
                width,
                height,
                dst,
                dst_stride,
                range,
            ),
        ),
        Yuv16AlphaKernel::Icgc412AlphaToRgba12 => Some(
            crate::kernels::wide::icgc412_alpha_to_rgba12_result(
                y,
                y_stride,
                u,
                u_stride,
                v,
                v_stride,
                a,
                a_stride,
                width,
                height,
                dst,
                dst_stride,
                range,
            ),
        ),
        _ => None,
    }
}

/// What the kernel leaves in the destination: each of these kernels is one
/// piece of integer code whose result is a function of what it is handed.
pub open spec fn yuv400_p16_with_alpha_to_rgba16_pixels(
    kernel: Gray16AlphaKernel,
    y: Seq<u16>,
    y_stride: int,
    a: Seq<u16>,
    a_stride: int,
    width: int,
    height: int,
    dst: Seq<u16>,
    dst_stride: int,
    range: YuvRange,
    matrix: StandardMatrix,
) -> Option<Seq<u16>> {
    match kernel {
        Gray16AlphaKernel::Y010AlphaToRgba10 => Some(
            crate::kernels::wide::y010_alpha_to_rgba10_result(
                y,
                y_stride,
                a,
                a_stride,
                width,
                height,
                dst,
                dst_stride,
                range,
                matrix,
            ),
        ),
        Gray16AlphaKernel::Y012AlphaToRgba12 => Some(
            crate::kernels::wide::y012_alpha_to_rgba12_result(
                y,
                y_stride,
                a,
                a_stride,
                width,
                height,
                dst,
                dst_stride,
                range,
                matrix,
            ),
        ),
    }
}

/// What the kernel leaves in the destination: each of these kernels is one
/// piece of integer code whose result is a function of what it is handed.
pub open spec fn icgc_r_alpha12_to_rgba10_pixels(
    kernel: Icgc12AlphaKernel,
    y: Seq<u16>,
    y_stride: int,
    u: Seq<u16>,
    u_stride: int,
    v: Seq<u16>,
    v_stride: int,
    a: Seq<u16>,
    a_stride: int,
    width: int,
    height: int,
    dst: Seq<u16>,
    dst_stride: int,
    range: YuvRange,
) -> Option<Seq<u16>> {
    match kernel {
        Icgc12AlphaKernel::IcgcRoAlpha012ToRgba10 => Some(
            crate::kernels::wide::icgc_ro_alpha012_to_rgba10_result(
                y,
                y_stride,
                u,
                u_stride,
                v,
                v_stride,
                a,
                a_stride,
                width,
                height,
                dst,
                dst_stride,
                range,
            ),
        ),
        Icgc12AlphaKernel::IcgcReAlpha012ToRgba10 => Some(
            crate::kernels::wide::icgc_re_alpha012_to_rgba10_result(
                y,
                y_stride,
                u,
                u_stride,
                v,
                v_stride,
                a,
                a_stride,
                width,
                height,
                dst,
                dst_stride,
                range,
            ),
        ),
        Icgc12AlphaKernel::IcgcRoAlpha212ToRgba10 => Some(
            crate::kernels::wide::icgc_ro_alpha212_to_rgba10_result(
                y,
                y_stride,
                u,
                u_stride,
                v,
                v_stride,
                a,
                a_stride,
                width,
                height,
                dst,
                dst_stride,
                range,
            ),
        ),
        Icgc12AlphaKernel::IcgcReAlpha212ToRgba10 => Some(
            crate::kernels::wide::icgc_re_alpha212_to_rgba10_result(
                y,
                y_stride,
                u,
                u_stride,
                v,
                v_stride,
                a,
                a_stride,
                width,
                height,
                dst,
                dst_stride,
                range,
            ),
        ),
        Icgc12AlphaKernel::IcgcRoAlpha412ToRgba10 => Some(
            crate::kernels::wide::icgc_ro_alpha412_to_rgba10_result(
                y,
                y_stride,
                u,
                u_stride,
                v,
                v_stride,
                a,
                a_stride,
                width,
                height,
                dst,
                dst_stride,
                range,
            ),
        ),
        Icgc12AlphaKernel::IcgcReAlpha412ToRgba10 => Some(
            crate::kernels::wide::icgc_re_alpha412_to_rgba10_result(
                y,
                y_stride,
                u,
                u_stride,
                v,
                v_stride,
                a,
                a_stride,
                width,
                height,
                dst,
                dst_stride,
                range,
            ),
        ),
    }
}

/// What the kernel leaves in the destination: each of these kernels is one
/// piece of integer code whose result is a function of what it is handed.
pub open spec fn icgc_r_type_with_alpha_to_rgba_pixels(
    kernel: Icgc10AlphaKernel,
    y: Seq<u16>,
    y_stride: int,
    u: Seq<u16>,
    u_stride: int,
    v: Seq<u16>,
    v_stride: int,
    a: Seq<u16>,
    a_stride: int,
    width: int,
    height: int,
    dst: Seq<u8>,
    dst_stride: int,
    range: YuvRange,
) -> Option<Seq<u8>> {
    match kernel {
        Icgc10AlphaKernel::IcgcRoAlpha010ToRgba => Some(
            crate::kernels::narrowing::icgc_ro_alpha010_to_rgba_result(
                y,
                y_stride,
                u,
                u_stride,
                v,
                v_stride,
                a,
                a_stride,
                width,
                height,
                dst,
                dst_stride,
                range,
            ),
        ),
        Icgc10AlphaKernel::IcgcReAlpha010ToRgba => Some(
            crate::kernels::narrowing::icgc_re_alpha010_to_rgba_result(
                y,
                y_stride,
                u,
                u_stride,
                v,
                v_stride,
                a,
                a_stride,
                width,
                height,
                dst,
                dst_stride,
                range,
            ),
        ),
        Icgc10AlphaKernel::IcgcRoAlpha210ToRgba => Some(
            crate::kernels::narrowing::icgc_ro_alpha210_to_rgba_result(
                y,
                y_stride,
                u,
                u_stride,
                v,
                v_stride,
                a,
                a_stride,
                width,
                height,
                dst,
                dst_stride,
                range,
            ),
        ),
        Icgc10AlphaKernel::IcgcReAlpha210ToRgba => Some(
            crate::kernels::narrowing::icgc_re_alpha210_to_rgba_result(
                y,
                y_stride,
                u,
                u_stride,
                v,
                v_stride,
                a,
                a_stride,
                width,
                height,
                dst,
                dst_stride,
                range,
            ),
        ),
        Icgc10AlphaKernel::IcgcRoAlpha410ToRgba => Some(
            crate::kernels::narrowing::icgc_ro_alpha410_to_rgba_result(
                y,
                y_stride,
                u,
                u_stride,
                v,
                v_stride,
                a,
                a_stride,
                width,
                height,
                dst,
                dst_stride,
                range,
            ),
        ),
        Icgc10AlphaKernel::IcgcReAlpha410ToRgba => Some(
            crate::kernels::narrowing::icgc_re_alpha410_to_rgba_result(
                y,
                y_stride,
                u,
                u_stride,
                v,
                v_stride,
                a,
                a_stride,
                width,
                height,
                dst,
                dst_stride,
                range,
            ),
        ),
    }
}

/// What the kernel leaves in the three planes: each of these kernels is one
/// piece of integer code whose result is a function of what it is handed.
pub open spec fn rgba8_to_icgco_r10_planes(
    kernel: Rgba8IcgcKernel,
    rgba: Seq<u8>,
    rgba_stride: int,
    width: int,
    height: int,
    y: Seq<u16>,
    y_stride: int,
    u: Seq<u16>,
    u_stride: int,
    v: Seq<u16>,
    v_stride: int,
    range: YuvRange,
) -> Option<(Seq<u16>, Seq<u16>, Seq<u16>)> {
    match kernel {
        Rgba8IcgcKernel::RgbaToIcgcRo010 => Some(
            crate::kernels::encode::rgba_to_icgc_ro010_result(
                rgba,
                rgba_stride,
                width,
                height,
                y,
                y_stride,
                u,
                u_stride,
                v,
                v_stride,
                range,
            ),
        ),
        Rgba8IcgcKernel::RgbaToIcgcRe010 => Some(
            crate::kernels::encode::rgba_to_icgc_re010_result(
                rgba,
                rgba_stride,
                width,
                height,
                y,
                y_stride,
                u,
                u_stride,
                v,
                v_stride,
                range,
            ),
        ),
        Rgba8IcgcKernel::RgbaToIcgcRo210 => Some(
            crate::kernels::encode::rgba_to_icgc_ro210_result(
                rgba,
                rgba_stride,
                width,
                height,
                y,
                y_stride,
                u,
                u_stride,
                v,
                v_stride,
                range,
            ),
        ),
        Rgba8IcgcKernel::RgbaToIcgcRe210 => Some(
            crate::kernels::encode::rgba_to_icgc_re210_result(
                rgba,
                rgba_stride,
                width,
                height,
                y,
                y_stride,
                u,
                u_stride,
                v,
                v_stride,
                range,
            ),
        ),
        Rgba8IcgcKernel::RgbaToIcgcRo410 => Some(
            crate::kernels::encode::rgba_to_icgc_ro410_result(
                rgba,
                rgba_stride,
                width,
                height,
                y,
                y_stride,
                u,
                u_stride,
                v,
                v_stride,
                range,
            ),
        ),
        Rgba8IcgcKernel::RgbaToIcgcRe410 => Some(
            crate::kernels::encode::rgba_to_icgc_re410_result(
                rgba,
                rgba_stride,
                width,
                height,
                y,
                y_stride,
                u,
                u_stride,
                v,
                v_stride,
                range,
            ),
        ),
    }
}

/// What the kernel leaves in the three planes, where the kernel is one piece
/// of integer code whose result is a function of what it is handed; `None`
/// for a kernel that chooses its arithmetic by the processor.
pub open spec fn rgba8_to_yuv8_planes(
    kernel: Rgba8Kernel,
    rgba: Seq<u8>,
    rgba_stride: int,
    width: int,
    height: int,
    y: Seq<u8>,
    y_stride: int,
    u: Seq<u8>,
    u_stride: int,
    v: Seq<u8>,
    v_stride: int,
    range: YuvRange,
) -> Option<(Seq<u8>, Seq<u8>, Seq<u8>)> {
    match kernel {
        Rgba8Kernel::RgbaToGbr => Some(
            crate::kernels::encode::rgba_to_gbr_result(
                rgba,
                rgba_stride,
                width,
                height,
                y,
                y_stride,
                u,
                u_stride,
                v,
                v_stride,
                range,
            ),
        ),
        Rgba8Kernel::RgbaToYcgco420 => Some(
            crate::kernels::encode::rgba_to_ycgco420_result(
                rgba,
                rgba_stride,
                width,
                height,
                y,
                y_stride,
                u,
                u_stride,
                v,
                v_stride,
                range,
            ),
        ),
        Rgba8Kernel::RgbaToYcgco422 => Some(
            crate::kernels::encode::rgba_to_ycgco422_result(
                rgba,
                rgba_stride,
                width,
                height,
                y,
                y_stride,
                u,
                u_stride,
                v,
                v_stride,
                range,
            ),
        ),
        Rgba8Kernel::RgbaToYcgco444 => Some(
            crate::kernels::encode::rgba_to_ycgco444_result(
                rgba,
                rgba_stride,
                width,
                height,
                y,
                y_stride,
                u,
                u_stride,
                v,
                v_stride,
                range,
            ),
        ),
        _ => None,
    }
}

/// What the kernel leaves in the destination, where the kernel is one piece
/// of integer code whose result is a function of what it is handed; `None`
/// for a kernel that chooses its arithmetic by the processor.
pub open spec fn yuv16_to_rgb16_pixels(
    kernel: Yuv16Kernel,
    y: Seq<u16>,
    y_stride: int,
    u: Seq<u16>,
    u_stride: int,
    v: Seq<u16>,
    v_stride: int,
    width: int,
    height: int,
    dst: Seq<u16>,
    dst_stride: int,
    range: YuvRange,
) -> Option<Seq<u16>> {
    match kernel {
        Yuv16Kernel::Gb10ToRgb10 => Some(
            crate::kernels::wide::gb10_to_rgb10_result(
                y,
                y_stride,
                u,
                u_stride,
                v,
                v_stride,
                width,
                height,
                dst,
                dst_stride,
                range,
            ),
        ),
        Yuv16Kernel::Gb12ToRgb12 => Some(
            crate::kernels::wide::gb12_to_rgb12_result(
                y,
                y_stride,
                u,
                u_stride,
                v,
                v_stride,
                width,
                height,
                dst,
                dst_stride,
                range,
            ),
        ),
        Yuv16Kernel::Icgc010ToRgb10 => Some(
            crate::kernels::wide::icgc010_to_rgb10_result(
                y,
                y_stride,
                u,
                u_stride,
                v,
                v_stride,
                width,
                height,
                dst,
                dst_stride,
                range,
            ),
        ),
        Yuv16Kernel::Icgc012ToRgb12 => Some(
            crate::kernels::wide::icgc012_to_rgb12_result(
                y,
                y_stride,
                u,
                u_stride,
                v,
                v_stride,
                width,
                height,
                dst,
                dst_stride,
                range,
            ),
        ),
        Yuv16Kernel::Icgc210ToRgb10 => Some(
            crate::kernels::wide::icgc210_to_rgb10_result(
                y,
                y_stride,
                u,
                u_stride,
                v,
                v_stride,
                width,
                height,
                dst,
                dst_stride,
                range,
            ),
        ),
        Yuv16Kernel::Icgc212ToRgb12 => Some(
            crate::kernels::wide::icgc212_to_rgb12_result(
                y,
                y_stride,
                u,
                u_stride,
                v,
                v_stride,
                width,
                height,
                dst,
                dst_stride,
                range,
            ),
        ),
        Yuv16Kernel::Icgc410ToRgb10 => Some(
            crate::kernels::wide::icgc410_to_rgb10_result(
                y,
                y_stride,
                u,
                u_stride,
                v,
                v_stride,
                width,
                height,
                dst,
                dst_stride,
                range,
            ),
        ),
        Yuv16Kernel::Icgc412ToRgb12 => Some(
            crate::kernels::wide::icgc412_to_rgb12_result(
                y,
                y_stride,
                u,
                u_stride,
                v,
                v_stride,
                width,
                height,
                dst,
                dst_stride,
                range,
            ),
        ),
        _ => None,
    }
}

/// What the kernel leaves in the destination: each of these kernels is one
/// piece of integer code whose result is a function of what it is handed.
pub open spec fn ycgco_to_packed_rgba16_pixels(
    kernel: YcgcoRgbaKernel,
    y: Seq<u16>,
    y_stride: int,
    u: Seq<u16>,
    u_stride: int,
    v: Seq<u16>,
    v_stride: int,
    width: int,
    height: int,
    dst: Seq<u16>,
    dst_stride: int,
    range: YuvRange,
) -> Option<Seq<u16>> {
    match kernel {
        YcgcoRgbaKernel::Icgc010ToRgba10 => Some(
            crate::kernels::wide::icgc010_to_rgba10_result(
                y,
                y_stride,
                u,
                u_stride,
                v,
                v_stride,
                width,
                height,
                dst,
                dst_stride,
                range,
            ),
        ),
        YcgcoRgbaKernel::Icgc012ToRgba12 => Some(
            crate::kernels::wide::icgc012_to_rgba12_result(
                y,
                y_stride,
                u,
                u_stride,
                v,
                v_stride,
                width,
                height,
                dst,
                dst_stride,
                range,
            ),
        ),
        YcgcoRgbaKernel::Icgc210ToRgba10 => Some(
            crate::kernels::wide::icgc210_to_rgba10_result(
                y,
                y_stride,
                u,
                u_stride,
                v,
                v_stride,
                width,
                height,
                dst,
                dst_stride,
                range,
            ),
        ),
        YcgcoRgbaKernel::Icgc212ToRgba12 => Some(
            crate::kernels::wide::icgc212_to_rgba12_result(
                y,
                y_stride,
                u,
                u_stride,
                v,
                v_stride,
                width,
                height,
                dst,
                dst_stride,
                range,
            ),
        ),
        YcgcoRgbaKernel::Icgc410ToRgba10 => Some(
            crate::kernels::wide::icgc410_to_rgba10_result(
                y,
                y_stride,
                u,
                u_stride,
                v,
                v_stride,
                width,
                height,
                dst,
                dst_stride,
                range,
            ),
        ),
        YcgcoRgbaKernel::Icgc412ToRgba12 => Some(
            crate::kernels::wide::icgc412_to_rgba12_result(
                y,
                y_stride,
                u,
                u_stride,
                v,
                v_stride,
                width,
                height,
                dst,
                dst_stride,
                range,
            ),
        ),
    }
}

/// What the kernel leaves in the destination: each of these kernels is one
/// piece of integer code whose result is a function of what it is handed.
pub open spec fn icgc12_r_to_rgb10_pixels(
    kernel: Icgc12Kernel,
    y: Seq<u16>,
    y_stride: int,
    u: Seq<u16>,
    u_stride: int,
    v: Seq<u16>,
    v_stride: int,
    width: int,
    height: int,
    dst: Seq<u16>,
    dst_stride: int,
    range: YuvRange,
) -> Option<Seq<u16>> {
    match kernel {
        Icgc12Kernel::IcgcRo012ToRgb10 => Some(
            crate::kernels::wide::icgc_ro012_to_rgb10_result(
                y,
                y_stride,
                u,
                u_stride,
                v,
                v_stride,
                width,
                height,
                dst,
                dst_stride,
                range,
            ),
        ),
        Icgc12Kernel::IcgcRe012ToRgb10 => Some(
            crate::kernels::wide::icgc_re012_to_rgb10_result(
                y,
                y_stride,
                u,
                u_stride,
                v,
                v_stride,
                width,
                height,
                dst,
                dst_stride,
                range,
            ),
        ),
        Icgc12Kernel::IcgcRo212ToRgb10 => Some(
            crate::kernels::wide::icgc_ro212_to_rgb10_result(
                y,
                y_stride,
                u,
                u_stride,
                v,
                v_stride,
                width,
                height,
                dst,
                dst_stride,
                range,
            ),
        ),
        Icgc12Kernel::IcgcRe212ToRgb10 => Some(
            crate::kernels::wide::icgc_re212_to_rgb10_result(
                y,
                y_stride,
                u,
                u_stride,
                v,
                v_stride,
                width,
                height,
                dst,
                dst_stride,
                range,
            ),
        ),
        Icgc12Kernel::IcgcRo412ToRgb10 => Some(
            crate::kernels::wide::icgc_ro412_to_rgb10_result(
                y,
                y_stride,
                u,
                u_stride,
                v,
                v_stride,
                width,
                height,
                dst,
                dst_stride,
                range,
            ),
        ),
        Icgc12Kernel::IcgcRe412ToRgb10 => Some(
            crate::kernels::wide::icgc_re412_to_rgb10_result(
                y,
                y_stride,
                u,
                u_stride,
                v,
                v_stride,
                width,
                height,
                dst,
                dst_stride,
                range,
            ),
        ),
    }
}

/// What the kernel leaves in the destination at limited range, where the
/// kernel is one piece of integer code whose result is a function of what it
/// is handed; `None` for a kernel that chooses its arithmetic by the
/// processor.
pub open spec fn yuv8_to_rgb8_limited_pixels(
    kernel: Yuv8Kernel,
    y: Seq<u8>,
    y_stride: int,
    u: Seq<u8>,
    u_stride: int,
    v: Seq<u8>,
    v_stride: int,
    width: int,
    height: int,
    dst: Seq<u8>,
    dst_stride: int,
) -> Option<Seq<u8>> {
    match kernel {
        Yuv8Kernel::Ycgco420ToRgb => Some(
            crate::kernels::narrow::ycgco420_to_rgb_result(
                y,
                y_stride,
                u,
                u_stride,
                v,
                v_stride,
                width,
                height,
                dst,
                dst_stride,
            ),
        ),
        Yuv8Kernel::Ycgco422ToRgb => Some(
            crate::kernels::narrow::ycgco422_to_rgb_result(
                y,
                y_stride,
                u,
                u_stride,
                v,
                v_stride,
                width,
                height,
                dst,
                dst_stride,
            ),
        ),
        Yuv8Kernel::Ycgco444ToRgb => Some(
            crate::kernels::narrow::ycgco444_to_rgb_result(
                y,
                y_stride,
                u,
                u_stride,
                v,
                v_stride,
                width,
                height,
                dst,
                dst_stride,
            ),
        ),
        _ => None,
    }
}

} // verus!
