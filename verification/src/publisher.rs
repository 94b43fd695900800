//! The result publisher: from a tightly packed buffer that a kernel has
//! filled, back into the caller's region at its true stride.
use crate::adapter::lemma_packed_fits;
use crate::content::{
    byte_at, carries, flushed, lemma_carries_iff_presents, lemma_carries_is_flushed,
    lemma_row_in_region, padding_kept, presents, view_sample,
};
use crate::error::PlanePath;
use crate::layout::{PlaneLayout, SampleWidth};
use crate::sample::{high_byte, high_byte_of, low_byte, low_byte_of};
use vstd::prelude::*;

verus! {

/// Every byte of a region that lies in a row other than `row` is the same
/// before and after, and so is every byte of row `row` from `from` on.
pub open spec fn row_written(
    before: Seq<u8>,
    after: Seq<u8>,
    layout: PlaneLayout,
    row: int,
    from: int,
) -> bool {
    &&& after.len() == before.len()
    &&& forall|index: int|
        0 <= index < before.len() && !(row * layout.byte_stride <= index < row * layout.byte_stride
            + from) ==> after[index] == before[index]
}

/// Writes one row of a packed buffer into its row of the region: each sample
/// as two bytes, low byte then high byte. Bytes of other rows, and the
/// padding of this row, are left as they were.
fn flush_row(staged: &[u16], dst: &mut [u8], layout: &PlaneLayout, row: usize)
    requires
        layout.sample_width == SampleWidth::Two,
        layout.admits(old(dst)@.len() as int),
        staged@.len() == layout.packed_samples(),
        row < layout.height,
    ensures
        row_written(old(dst)@, final(dst)@, *layout, row as int, layout.row_bytes()),
        forall|col: int|
            0 <= col < layout.row_samples() ==> {
                &&& byte_at(final(dst)@, *layout, row as int, 2 * col) == low_byte_of(
                    #[trigger] view_sample(staged@, layout.row_samples(), row as int, col),
                )
                &&& byte_at(final(dst)@, *layout, row as int, 2 * col + 1) == high_byte_of(
                    view_sample(staged@, layout.row_samples(), row as int, col),
                )
            },
{
    proof {
        lemma_packed_fits(*layout, dst@.len() as int);
        lemma_row_in_region(row as int, layout.height as int, layout.byte_stride as int);
        lemma_row_in_region(row as int, layout.height as int, layout.row_samples());
        vstd::slice::axiom_spec_len(dst);
    }
    let ghost len = dst@.len();
    let row_samples: usize = layout.width * layout.channels;
    let base: usize = row * layout.byte_stride;
    let from: usize = row * row_samples;
    let mut col: usize = 0;
    while col < row_samples
        invariant
            layout.sample_width == SampleWidth::Two,
            row_samples == layout.row_samples(),
            2 * row_samples <= layout.byte_stride,
            base == row * layout.byte_stride,
            from == row * row_samples,
            from + row_samples <= staged@.len(),
            from + row_samples <= len,
            base + layout.byte_stride <= len,
            len == dst@.len(),
            len <= usize::MAX,
            dst@.len() == old(dst)@.len(),
            col <= row_samples,
            forall|index: int|
                0 <= index < dst@.len() && !(base <= index < base + 2 * col) ==> dst@[index] == old(
                    dst,
                )@[index],
            forall|c: int|
                0 <= c < col ==> {
                    &&& dst@[base + 2 * c] == low_byte_of(#[trigger] staged@[from + c])
                    &&& dst@[base + 2 * c + 1] == high_byte_of(staged@[from + c])
                },
        decreases row_samples - col,
    {
        let sample: u16 = staged[from + col];
        let at: usize = base + 2 * col;
        dst[at] = low_byte(sample);
        dst[at + 1] = high_byte(sample);
        col = col + 1;
    }
}

/// Flushes a packed buffer into the caller's region, row by row at the
/// region's true stride. Each sample is written as two bytes, low byte then
/// high byte, for exactly one row of samples per row; the padding between a
/// row's samples and the next row is left untouched.
pub fn flush(staged: &[u16], dst: &mut [u8], layout: &PlaneLayout)
    requires
        layout.sample_width == SampleWidth::Two,
        layout.admits(old(dst)@.len() as int),
        staged@.len() == layout.packed_samples(),
    ensures
        final(dst)@ == flushed(old(dst)@, staged@, *layout),
        carries(final(dst)@, *layout, staged@, layout.row_samples()),
        presents(staged@, layout.row_samples(), final(dst)@, *layout),
        padding_kept(old(dst)@, final(dst)@, *layout),
{
    let height: usize = layout.height;
    let mut row: usize = 0;
    while row < height
        invariant
            layout.sample_width == SampleWidth::Two,
            layout.admits(dst@.len() as int),
            staged@.len() == layout.packed_samples(),
            height == layout.height,
            row <= height,
            dst@.len() == old(dst)@.len(),
            forall|index: int|
                row * layout.byte_stride <= index < dst@.len() ==> dst@[index] == old(dst)@[index],
            forall|r: int, offset: int|
                0 <= r < row && layout.row_bytes() <= offset < layout.byte_stride
                    ==> #[trigger] byte_at(dst@, *layout, r, offset) == byte_at(
                    old(dst)@,
                    *layout,
                    r,
                    offset,
                ),
            forall|r: int, col: int|
                0 <= r < row && 0 <= col < layout.row_samples() ==> {
                    &&& byte_at(dst@, *layout, r, 2 * col) == low_byte_of(
                        #[trigger] view_sample(staged@, layout.row_samples(), r, col),
                    )
                    &&& byte_at(dst@, *layout, r, 2 * col + 1) == high_byte_of(
                        view_sample(staged@, layout.row_samples(), r, col),
                    )
                },
        decreases height - row,
    {
        let ghost before = dst@;
        flush_row(staged, dst, layout, row);
        proof {
            let stride = layout.byte_stride as int;
            lemma_row_in_region(row as int, height as int, stride);
            assert((row + 1) * stride == row * stride + stride) by (nonlinear_arith);
            assert forall|r: int, offset: int|
                0 <= r < row + 1 && layout.row_bytes() <= offset < stride implies #[trigger] byte_at(
                dst@,
                *layout,
                r,
                offset,
            ) == byte_at(old(dst)@, *layout, r, offset) by {
                lemma_row_in_region(r, height as int, stride);
                if r < row {
                    lemma_row_in_region(r, row as int, stride);
                    assert(byte_at(before, *layout, r, offset) == byte_at(
                        old(dst)@,
                        *layout,
                        r,
                        offset,
                    ));
                }
            }
            assert forall|r: int, col: int|
                0 <= r < row + 1 && 0 <= col < layout.row_samples() implies {
                &&& byte_at(dst@, *layout, r, 2 * col) == low_byte_of(
                    #[trigger] view_sample(staged@, layout.row_samples(), r, col),
                )
                &&& byte_at(dst@, *layout, r, 2 * col + 1) == high_byte_of(
                    view_sample(staged@, layout.row_samples(), r, col),
                )
            } by {
                if r < row {
                    lemma_row_in_region(r, row as int, stride);
                    lemma_row_in_region(r, height as int, stride);
                    assert(byte_at(dst@, *layout, r, 2 * col) == byte_at(
                        before,
                        *layout,
                        r,
                        2 * col,
                    ));
                    assert(byte_at(dst@, *layout, r, 2 * col + 1) == byte_at(
                        before,
                        *layout,
                        r,
                        2 * col + 1,
                    ));
                }
            }
        }
        row = row + 1;
    }
    proof {
        lemma_carries_iff_presents(dst@, *layout, staged@, layout.row_samples());
        lemma_carries_is_flushed(old(dst)@, dst@, staged@, *layout);
    }
}

/// Settles a destination after the kernel has run. On the fast path the
/// kernel wrote into the caller's region itself: nothing is left to do, and
/// nothing is written. On the slow path the packed buffer is flushed.
pub fn publish(path: PlanePath, staged: &[u16], dst: &mut [u8], layout: &PlaneLayout)
    requires
        layout.sample_width == SampleWidth::Two,
        layout.admits(old(dst)@.len() as int),
        path == PlanePath::Slow ==> staged@.len() == layout.packed_samples(),
    ensures
        path == PlanePath::Fast ==> final(dst)@ == old(dst)@,
        path == PlanePath::Slow ==> {
            &&& final(dst)@ == flushed(old(dst)@, staged@, *layout)
            &&& carries(final(dst)@, *layout, staged@, layout.row_samples())
            &&& presents(staged@, layout.row_samples(), final(dst)@, *layout)
            &&& padding_kept(old(dst)@, final(dst)@, *layout)
        },
{
    match path {
        PlanePath::Fast => {},
        PlanePath::Slow => {
            flush(staged, dst, layout);
        },
    }
}

} // verus!
