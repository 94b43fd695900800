//! Writing an alpha plane of 10-bit samples into the alpha bytes of
//! interleaved 8-bit RGBA pixels.
use crate::content::{byte_at, lemma_row_in_region, view_sample};
use crate::image::rows_fit;
use crate::layout::{PlaneLayout, SampleWidth};
use vstd::prelude::*;

verus! {

/// A 10-bit alpha sample as a byte: a quarter of the sample, rounded to the
/// nearest with halves up, and capped at 255.
pub open spec fn alpha_byte_of(alpha: u16) -> u8 {
    let rounded = (alpha as int + 1) / 4;
    if rounded > 255 {
        255u8
    } else {
        rounded as u8
    }
}

/// A 10-bit alpha sample as a byte.
pub fn alpha_byte(alpha: u16) -> (byte: u8)
    ensures
        byte == alpha_byte_of(alpha),
{
    let widened: u32 = alpha as u32;
    let rounded: u32 = (widened + 1) / 4;
    if rounded > 255 {
        255
    } else {
        rounded as u8
    }
}

/// Whether `offset` within a row of RGBA pixels is the alpha byte of one of
/// the row's `width` pixels.
pub open spec fn is_alpha_offset(offset: int, width: int) -> bool {
    0 <= offset < 4 * width && offset % 4 == 3
}

/// Whether a region of RGBA pixels has taken over an alpha plane: the alpha
/// byte of every pixel is the byte of the plane's sample at the same row and
/// column.
pub open spec fn alpha_overlaid(
    rgba: Seq<u8>,
    layout: PlaneLayout,
    alpha: Seq<u16>,
    alpha_stride: int,
) -> bool {
    forall|row: int, col: int|
        0 <= row < layout.height && 0 <= col < layout.width ==> byte_at(
            rgba,
            layout,
            row,
            4 * col + 3,
        ) == alpha_byte_of(#[trigger] view_sample(alpha, alpha_stride, row, col))
}

/// Whether two regions of RGBA pixels differ in alpha bytes at most: they
/// have the same length and the same byte at every offset of every row that
/// is not the alpha byte of a pixel.
pub open spec fn colour_kept(before: Seq<u8>, after: Seq<u8>, layout: PlaneLayout) -> bool {
    &&& after.len() == before.len()
    &&& forall|row: int, offset: int|
        0 <= row < layout.height && 0 <= offset < layout.byte_stride && !is_alpha_offset(
            offset,
            layout.width as int,
        ) ==> #[trigger] byte_at(after, layout, row, offset) == byte_at(before, layout, row, offset)
}

/// Writes one row of an alpha plane into the alpha bytes of one row of
/// pixels. Every other byte of the region is left as it was.
fn overlay_alpha_row(
    rgba: &mut [u8],
    layout: &PlaneLayout,
    alpha: &[u16],
    alpha_stride: u32,
    row: usize,
)
    requires
        layout.sample_width == SampleWidth::One,
        layout.channels == 4,
        layout.admits(old(rgba)@.len() as int),
        rows_fit(
            alpha@.len() as int,
            alpha_stride as int,
            layout.width as int,
            layout.height as int,
        ),
        row < layout.height,
    ensures
        final(rgba)@.len() == old(rgba)@.len(),
        forall|index: int|
            0 <= index < old(rgba)@.len() && !(row * layout.byte_stride <= index < row
                * layout.byte_stride + 4 * layout.width && (index - row * layout.byte_stride) % 4
                == 3) ==> final(rgba)@[index] == old(rgba)@[index],
        forall|col: int|
            0 <= col < layout.width ==> byte_at(final(rgba)@, *layout, row as int, 4 * col + 3)
                == alpha_byte_of(
                #[trigger] view_sample(alpha@, alpha_stride as int, row as int, col),
            ),
{
    proof {
        lemma_row_in_region(row as int, layout.height as int, layout.byte_stride as int);
        lemma_row_in_region(row as int, layout.height as int, alpha_stride as int);
        assert(alpha_stride * (layout.height - 1) == alpha_stride * layout.height - alpha_stride)
            by (nonlinear_arith);
        vstd::slice::axiom_spec_len(alpha);
        vstd::slice::axiom_spec_len(rgba);
    }
    let ghost len = rgba@.len();
    let width: usize = layout.width;
    let base: usize = row * layout.byte_stride;
    let from: usize = row * (alpha_stride as usize);
    let mut col: usize = 0;
    while col < width
        invariant
            width == layout.width,
            4 * width <= layout.byte_stride,
            base == row * layout.byte_stride,
            from == row * alpha_stride,
            from + width <= alpha@.len(),
            alpha@.len() <= usize::MAX,
            base + layout.byte_stride <= len,
            len == rgba@.len(),
            len <= usize::MAX,
            rgba@.len() == old(rgba)@.len(),
            col <= width,
            forall|index: int|
                0 <= index < rgba@.len() && !(base <= index < base + 4 * col && (index - base) % 4
                    == 3) ==> rgba@[index] == old(rgba)@[index],
            forall|c: int|
                0 <= c < col ==> rgba@[base + 4 * c + 3] == alpha_byte_of(
                    #[trigger] alpha@[from + c],
                ),
        decreases width - col,
    {
        let byte = alpha_byte(alpha[from + col]);
        rgba[base + 4 * col + 3] = byte;
        col = col + 1;
    }
}

/// Writes an alpha plane into the alpha bytes of a region of interleaved
/// RGBA pixels, row by row and pixel by pixel, for exactly `width` pixels
/// per row. Colour bytes and stride padding are left as they were.
pub fn overlay_alpha(rgba: &mut [u8], layout: &PlaneLayout, alpha: &[u16], alpha_stride: u32)
    requires
        layout.sample_width == SampleWidth::One,
        layout.channels == 4,
        layout.admits(old(rgba)@.len() as int),
        rows_fit(
            alpha@.len() as int,
            alpha_stride as int,
            layout.width as int,
            layout.height as int,
        ),
    ensures
        alpha_overlaid(final(rgba)@, *layout, alpha@, alpha_stride as int),
        colour_kept(old(rgba)@, final(rgba)@, *layout),
{
    let height: usize = layout.height;
    let mut row: usize = 0;
    while row < height
        invariant
            layout.sample_width == SampleWidth::One,
            layout.channels == 4,
            layout.admits(rgba@.len() as int),
            rows_fit(
                alpha@.len() as int,
                alpha_stride as int,
                layout.width as int,
                layout.height as int,
            ),
            height == layout.height,
            row <= height,
            rgba@.len() == old(rgba)@.len(),
            forall|index: int|
                row * layout.byte_stride <= index < rgba@.len() ==> rgba@[index] == old(
                    rgba,
                )@[index],
            forall|r: int, offset: int|
                0 <= r < row && 0 <= offset < layout.byte_stride && !is_alpha_offset(
                    offset,
                    layout.width as int,
                ) ==> #[trigger] byte_at(rgba@, *layout, r, offset) == byte_at(
                    old(rgba)@,
                    *layout,
                    r,
                    offset,
                ),
            forall|r: int, col: int|
                0 <= r < row && 0 <= col < layout.width ==> byte_at(rgba@, *layout, r, 4 * col + 3)
                    == alpha_byte_of(#[trigger] view_sample(alpha@, alpha_stride as int, r, col)),
        decreases height - row,
    {
        let ghost before = rgba@;
        overlay_alpha_row(rgba, layout, alpha, alpha_stride, row);
        proof {
            let stride = layout.byte_stride as int;
            lemma_row_in_region(row as int, height as int, stride);
            assert((row + 1) * stride == row * stride + stride) by (nonlinear_arith);
            assert forall|r: int, offset: int|
                0 <= r < row + 1 && 0 <= offset < stride && !is_alpha_offset(
                    offset,
                    layout.width as int,
                ) implies #[trigger] byte_at(rgba@, *layout, r, offset) == byte_at(
                old(rgba)@,
                *layout,
                r,
                offset,
            ) by {
                lemma_row_in_region(r, height as int, stride);
                if r < row {
                    lemma_row_in_region(r, row as int, stride);
                    assert(byte_at(before, *layout, r, offset) == byte_at(
                        old(rgba)@,
                        *layout,
                        r,
                        offset,
                    ));
                }
            }
            assert forall|r: int, col: int|
                0 <= r < row + 1 && 0 <= col < layout.width implies byte_at(
                rgba@,
                *layout,
                r,
                4 * col + 3,
            ) == alpha_byte_of(#[trigger] view_sample(alpha@, alpha_stride as int, r, col)) by {
                if r < row {
                    lemma_row_in_region(r, row as int, stride);
                    lemma_row_in_region(r, height as int, stride);
                    assert(byte_at(rgba@, *layout, r, 4 * col + 3) == byte_at(
                        before,
                        *layout,
                        r,
                        4 * col + 3,
                    ));
                }
            }
        }
        row = row + 1;
    }
}

} // verus!
