//! Geometry of one plane inside a caller's byte region.
use crate::error::PixartError;
use vstd::prelude::*;

verus! {

/// How many bytes one sample of a plane occupies.
#[derive(Copy, Clone, Debug, PartialEq, Eq, Structural)]
pub enum SampleWidth {
    /// One byte per sample.
    One,
    /// Two bytes per sample, low byte first.
    Two,
}

impl SampleWidth {
    /// The width as a number of bytes.
    pub open spec fn bytes_of(self) -> int {
        match self {
            SampleWidth::One => 1,
            SampleWidth::Two => 2,
        }
    }

    /// The width as a number of bytes.
    pub fn bytes(self) -> (n: usize)
        ensures
            n == self.bytes_of(),
    {
        match self {
            SampleWidth::One => 1,
            SampleWidth::Two => 2,
        }
    }
}

/// Describes one plane of a caller's image: the distance in bytes between
/// consecutive rows, and the logical size of a row.
#[derive(Copy, Clone, Debug, PartialEq, Eq, Structural)]
pub struct PlaneLayout {
    /// Distance in bytes between the starts of consecutive rows.
    pub byte_stride: usize,
    /// Pixels per row.
    pub width: usize,
    /// Number of rows.
    pub height: usize,
    /// Samples per pixel.
    pub channels: usize,
    /// Bytes per sample.
    pub sample_width: SampleWidth,
}

impl PlaneLayout {
    /// Samples in the logical part of one row.
    pub open spec fn row_samples(self) -> int {
        self.width * self.channels
    }

    /// Bytes in the logical part of one row; the rest of the stride is padding.
    pub open spec fn row_bytes(self) -> int {
        self.row_samples() * self.sample_width.bytes_of()
    }

    /// Bytes in the whole region: every row at full stride.
    pub open spec fn region_bytes(self) -> int {
        self.byte_stride * self.height
    }

    /// Samples in a tightly packed copy of the plane.
    pub open spec fn packed_samples(self) -> int {
        self.row_samples() * self.height
    }

    /// Whether a region of `len` bytes is exactly a plane of this layout:
    /// each row fits in the stride, the region is `height` strides long, and
    /// it is no longer than any region of memory can be.
    pub open spec fn admits(self, len: int) -> bool {
        &&& self.row_bytes() <= self.byte_stride
        &&& len == self.region_bytes()
        &&& len <= isize::MAX
    }

    /// The fault found in a region of `len` bytes, if any. A stride that cannot
    /// hold a row is reported before a region of the wrong size; a region
    /// longer than `isize::MAX` bytes is of the wrong size for every layout.
    pub open spec fn fault(self, len: int) -> Option<PixartError> {
        if self.row_bytes() > self.byte_stride {
            Some(PixartError::StrideTooSmall)
        } else if len != self.region_bytes() || len > isize::MAX {
            Some(PixartError::RegionMismatch)
        } else {
            None
        }
    }

    /// A layout admits a region exactly when it finds no fault in it.
    pub proof fn lemma_fault_free_iff_admits(self, len: int)
        ensures
            self.fault(len) is None <==> self.admits(len),
    {
    }

    /// The layout of a plane of two-byte samples.
    pub fn wide(byte_stride: u32, width: u32, height: u32, channels: usize) -> (layout: Self)
        ensures
            layout == (PlaneLayout {
                byte_stride: byte_stride as usize,
                width: width as usize,
                height: height as usize,
                channels,
                sample_width: SampleWidth::Two,
            }),
    {
        PlaneLayout {
            byte_stride: byte_stride as usize,
            width: width as usize,
            height: height as usize,
            channels,
            sample_width: SampleWidth::Two,
        }
    }

    /// The layout of a plane of one-byte samples.
    pub fn narrow(byte_stride: u32, width: u32, height: u32, channels: usize) -> (layout: Self)
        ensures
            layout == (PlaneLayout {
                byte_stride: byte_stride as usize,
                width: width as usize,
                height: height as usize,
                channels,
                sample_width: SampleWidth::One,
            }),
    {
        PlaneLayout {
            byte_stride: byte_stride as usize,
            width: width as usize,
            height: height as usize,
            channels,
            sample_width: SampleWidth::One,
        }
    }

    /// Checks a region of `len` bytes against this layout, and reports the
    /// fault where there is one. Sizes that do not fit the address space are
    /// larger than any stride or region, and are reported as such.
    pub fn check(&self, len: usize) -> (verdict: Result<(), PixartError>)
        ensures
            verdict == match self.fault(len as int) {
                Some(fault) => Err::<(), PixartError>(fault),
                None => Ok::<(), PixartError>(()),
            },
    {
        let unit = self.sample_width.bytes();
        let row_samples = match self.width.checked_mul(self.channels) {
            Some(n) => n,
            None => {
                proof {
                    lemma_row_exceeds(self.row_samples(), unit as int, self.byte_stride as int);
                }
                return Err(PixartError::StrideTooSmall);
            },
        };
        let row_bytes = match row_samples.checked_mul(unit) {
            Some(n) => n,
            None => {
                return Err(PixartError::StrideTooSmall);
            },
        };
        if row_bytes > self.byte_stride {
            return Err(PixartError::StrideTooSmall);
        }
        match self.byte_stride.checked_mul(self.height) {
            Some(region) => {
                if region == len && len <= isize::MAX as usize {
                    Ok(())
                } else {
                    Err(PixartError::RegionMismatch)
                }
            },
            None => Err(PixartError::RegionMismatch),
        }
    }
}

/// A row of more samples than the address space holds is longer than any stride.
proof fn lemma_row_exceeds(row_samples: int, unit: int, stride: int)
    requires
        row_samples > usize::MAX,
        unit >= 1,
        stride <= usize::MAX,
    ensures
        row_samples * unit > stride,
{
    assert(row_samples * unit >= row_samples) by (nonlinear_arith)
        requires
            row_samples > 0,
            unit >= 1,
    ;
}

} // verus!
