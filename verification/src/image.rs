//! Adapted planes bundled into one logical image, as a kernel takes them, and
//! what a kernel asks of the sizes it is handed. The kernels walk their planes
//! in whole strides, so every plane is asked to be exactly as many strides
//! long as it has rows.
use crate::modes::{chroma_height_of, chroma_width_of, YuvType};
use vstd::prelude::*;

verus! {

/// Whether `len` samples are exactly `height` rows, `stride` samples apart,
/// of at least `row` samples each: a row fits in the stride, the plane is
/// `height` strides long, and it is no longer than any slice can be.
pub open spec fn rows_fit(len: int, stride: int, row: int, height: int) -> bool {
    &&& stride >= row
    &&& len == stride * height
    &&& len <= isize::MAX
}

/// Whether a full-resolution plane of `len` samples, rows `stride` samples
/// apart, holds a `width` by `height` image that is not empty.
pub open spec fn luma_ready(len: int, stride: int, width: int, height: int) -> bool {
    &&& width > 0
    &&& height > 0
    &&& rows_fit(len, stride, width, height)
}

/// Whether a chroma plane of `len` samples, rows `stride` samples apart,
/// holds the chroma of a `width` by `height` image under `sampling`.
pub open spec fn chroma_ready(
    len: int,
    stride: int,
    width: int,
    height: int,
    sampling: YuvType,
) -> bool {
    &&& width > 0
    &&& height > 0
    &&& rows_fit(
        len,
        stride,
        chroma_width_of(width, sampling),
        chroma_height_of(height, sampling),
    )
}

/// Whether an interleaved plane of `len` samples, rows `stride` samples
/// apart, holds `height` rows of `width` pixels of `channels` samples each.
pub open spec fn packed_ready(
    len: int,
    stride: int,
    width: int,
    height: int,
    channels: int,
) -> bool {
    &&& width > 0
    &&& height > 0
    &&& rows_fit(len, stride, width * channels, height)
}

/// The sample at `row` and `col` of a plane of one-byte samples whose rows
/// are `stride` samples apart.
pub open spec fn plane_byte(plane: Seq<u8>, stride: int, row: int, col: int) -> u8 {
    plane[row * stride + col]
}

/// Whether three planes hold the colours of interleaved RGBA pixels, sample
/// for sample: green in the first plane, blue in the second, red in the
/// third.
pub open spec fn colours_split(
    rgba: Seq<u8>,
    rgba_stride: int,
    width: int,
    height: int,
    y: Seq<u8>,
    y_stride: int,
    u: Seq<u8>,
    u_stride: int,
    v: Seq<u8>,
    v_stride: int,
) -> bool {
    forall|row: int, col: int|
        0 <= row < height && 0 <= col < width ==> {
            &&& #[trigger] plane_byte(y, y_stride, row, col) == plane_byte(
                rgba,
                rgba_stride,
                row,
                4 * col + 1,
            )
            &&& plane_byte(u, u_stride, row, col) == plane_byte(rgba, rgba_stride, row, 4 * col + 2)
            &&& plane_byte(v, v_stride, row, col) == plane_byte(rgba, rgba_stride, row, 4 * col)
        }
}

/// Whether every sample of a plane is below `limit`.
pub open spec fn samples_below(plane: Seq<u16>, limit: int) -> bool {
    forall|k: int| 0 <= k < plane.len() ==> #[trigger] plane[k] < limit
}

/// A luma plane and two chroma planes.
pub struct Planar<'a, T> {
    pub y_plane: &'a [T],
    /// Samples between rows of `y_plane`.
    pub y_stride: u32,
    pub u_plane: &'a [T],
    /// Samples between rows of `u_plane`.
    pub u_stride: u32,
    pub v_plane: &'a [T],
    /// Samples between rows of `v_plane`.
    pub v_stride: u32,
    pub width: u32,
    pub height: u32,
}

impl<'a, T> Planar<'a, T> {
    /// Whether every plane is large enough for the image under `sampling`.
    pub open spec fn ready(&self, sampling: YuvType) -> bool {
        &&& luma_ready(
            self.y_plane@.len() as int,
            self.y_stride as int,
            self.width as int,
            self.height as int,
        )
        &&& chroma_ready(
            self.u_plane@.len() as int,
            self.u_stride as int,
            self.width as int,
            self.height as int,
            sampling,
        )
        &&& chroma_ready(
            self.v_plane@.len() as int,
            self.v_stride as int,
            self.width as int,
            self.height as int,
            sampling,
        )
    }
}

/// A luma plane, two chroma planes, and an alpha plane at full resolution.
pub struct PlanarAlpha<'a, T> {
    pub y_plane: &'a [T],
    /// Samples between rows of `y_plane`.
    pub y_stride: u32,
    pub u_plane: &'a [T],
    /// Samples between rows of `u_plane`.
    pub u_stride: u32,
    pub v_plane: &'a [T],
    /// Samples between rows of `v_plane`.
    pub v_stride: u32,
    pub a_plane: &'a [T],
    /// Samples between rows of `a_plane`.
    pub a_stride: u32,
    pub width: u32,
    pub height: u32,
}

impl<'a, T> PlanarAlpha<'a, T> {
    /// Whether every plane is large enough for the image under `sampling`.
    pub open spec fn ready(&self, sampling: YuvType) -> bool {
        &&& luma_ready(
            self.y_plane@.len() as int,
            self.y_stride as int,
            self.width as int,
            self.height as int,
        )
        &&& luma_ready(
            self.a_plane@.len() as int,
            self.a_stride as int,
            self.width as int,
            self.height as int,
        )
        &&& chroma_ready(
            self.u_plane@.len() as int,
            self.u_stride as int,
            self.width as int,
            self.height as int,
            sampling,
        )
        &&& chroma_ready(
            self.v_plane@.len() as int,
            self.v_stride as int,
            self.width as int,
            self.height as int,
            sampling,
        )
    }
}

/// A single luma plane.
pub struct Gray<'a, T> {
    pub y_plane: &'a [T],
    /// Samples between rows of `y_plane`.
    pub y_stride: u32,
    pub width: u32,
    pub height: u32,
}

impl<'a, T> Gray<'a, T> {
    /// Whether the plane is large enough for the image.
    pub open spec fn ready(&self) -> bool {
        luma_ready(
            self.y_plane@.len() as int,
            self.y_stride as int,
            self.width as int,
            self.height as int,
        )
    }
}

/// A luma plane and an alpha plane.
pub struct GrayAlpha<'a, T> {
    pub y_plane: &'a [T],
    /// Samples between rows of `y_plane`.
    pub y_stride: u32,
    pub a_plane: &'a [T],
    /// Samples between rows of `a_plane`.
    pub a_stride: u32,
    pub width: u32,
    pub height: u32,
}

impl<'a, T> GrayAlpha<'a, T> {
    /// Whether both planes are large enough for the image.
    pub open spec fn ready(&self) -> bool {
        &&& luma_ready(
            self.y_plane@.len() as int,
            self.y_stride as int,
            self.width as int,
            self.height as int,
        )
        &&& luma_ready(
            self.a_plane@.len() as int,
            self.a_stride as int,
            self.width as int,
            self.height as int,
        )
    }
}

impl<'a> Planar<'a, u16> {
    /// Whether every sample of every plane is below `limit`.
    pub open spec fn below(&self, limit: int) -> bool {
        &&& samples_below(self.y_plane@, limit)
        &&& samples_below(self.u_plane@, limit)
        &&& samples_below(self.v_plane@, limit)
    }
}

impl<'a> PlanarAlpha<'a, u16> {
    /// Whether every sample of every plane is below `limit`.
    pub open spec fn below(&self, limit: int) -> bool {
        &&& samples_below(self.y_plane@, limit)
        &&& samples_below(self.u_plane@, limit)
        &&& samples_below(self.v_plane@, limit)
        &&& samples_below(self.a_plane@, limit)
    }
}

impl<'a> Gray<'a, u16> {
    /// Whether every sample of the plane is below `limit`.
    pub open spec fn below(&self, limit: int) -> bool {
        samples_below(self.y_plane@, limit)
    }
}

impl<'a> GrayAlpha<'a, u16> {
    /// Whether every sample of both planes is below `limit`.
    pub open spec fn below(&self, limit: int) -> bool {
        &&& samples_below(self.y_plane@, limit)
        &&& samples_below(self.a_plane@, limit)
    }
}

} // verus!
