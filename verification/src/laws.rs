//! What holds of the adapter and the publisher together, for every plane.
use crate::content::{
    byte_at, carries, flushed, lemma_carries_iff_presents, lemma_carries_is_flushed,
    lemma_flushed_carries, lemma_paired_presents, lemma_presents_is_unpacked,
    lemma_unpacked_presents, logical_sample, padding_kept, unpacked, view_sample,
};
use crate::layout::{PlaneLayout, SampleWidth};
use crate::native::paired;
use vstd::prelude::*;

verus! {

/// Two planes have the same logical content when they have the same number
/// of rows and of samples per row, and the same sample at every row and
/// column. Their strides, and what their padding holds, may differ.
pub open spec fn same_content(
    one: Seq<u8>,
    one_layout: PlaneLayout,
    other: Seq<u8>,
    other_layout: PlaneLayout,
) -> bool {
    &&& one_layout.height == other_layout.height
    &&& one_layout.row_samples() == other_layout.row_samples()
    &&& forall|row: int, col: int|
        0 <= row < one_layout.height && 0 <= col < one_layout.row_samples()
            ==> #[trigger] logical_sample(one, one_layout, row, col) == logical_sample(
            other,
            other_layout,
            row,
            col,
        )
}

/// Reading on the fast path and reading on the slow path agree: of two planes
/// with the same logical content, the view in place of the one and the packed
/// copy of the other hold the same sample at every row and column.
pub proof fn lemma_fast_and_slow_reads_agree(
    fast_bytes: Seq<u8>,
    fast_layout: PlaneLayout,
    slow_bytes: Seq<u8>,
    slow_layout: PlaneLayout,
)
    requires
        fast_layout.sample_width == SampleWidth::Two,
        fast_layout.admits(fast_bytes.len() as int),
        fast_layout.byte_stride % 2 == 0,
        same_content(fast_bytes, fast_layout, slow_bytes, slow_layout),
    ensures
        forall|row: int, col: int|
            0 <= row < fast_layout.height && 0 <= col < fast_layout.row_samples()
                ==> #[trigger] view_sample(
                paired(fast_bytes),
                fast_layout.byte_stride as int / 2,
                row,
                col,
            ) == view_sample(unpacked(slow_bytes, slow_layout), slow_layout.row_samples(), row, col),
{
    lemma_paired_presents(fast_bytes, fast_layout);
    lemma_unpacked_presents(slow_bytes, slow_layout);
    assert forall|row: int, col: int|
        0 <= row < fast_layout.height && 0 <= col < fast_layout.row_samples()
            implies #[trigger] view_sample(
        paired(fast_bytes),
        fast_layout.byte_stride as int / 2,
        row,
        col,
    ) == view_sample(unpacked(slow_bytes, slow_layout), slow_layout.row_samples(), row, col) by {
        assert(logical_sample(fast_bytes, fast_layout, row, col) == logical_sample(
            slow_bytes,
            slow_layout,
            row,
            col,
        ));
        assert(view_sample(unpacked(slow_bytes, slow_layout), slow_layout.row_samples(), row, col)
            == logical_sample(slow_bytes, slow_layout, row, col));
    }
}

/// Writing on the fast path and writing on the slow path agree: when a kernel
/// leaves the same sample at every row and column of a view in place and of a
/// packed buffer, the region behind the view and the region that the buffer
/// is flushed into end with the same logical content.
pub proof fn lemma_fast_and_slow_writes_agree(
    fast_after: Seq<u8>,
    fast_layout: PlaneLayout,
    slow_before: Seq<u8>,
    staged: Seq<u16>,
    slow_layout: PlaneLayout,
)
    requires
        fast_layout.sample_width == SampleWidth::Two,
        fast_layout.admits(fast_after.len() as int),
        fast_layout.byte_stride % 2 == 0,
        slow_layout.sample_width == SampleWidth::Two,
        slow_layout.admits(slow_before.len() as int),
        fast_layout.height == slow_layout.height,
        fast_layout.row_samples() == slow_layout.row_samples(),
        forall|row: int, col: int|
            0 <= row < fast_layout.height && 0 <= col < fast_layout.row_samples()
                ==> #[trigger] view_sample(
                paired(fast_after),
                fast_layout.byte_stride as int / 2,
                row,
                col,
            ) == view_sample(staged, slow_layout.row_samples(), row, col),
    ensures
        same_content(
            fast_after,
            fast_layout,
            flushed(slow_before, staged, slow_layout),
            slow_layout,
        ),
{
    let slow_after = flushed(slow_before, staged, slow_layout);
    lemma_paired_presents(fast_after, fast_layout);
    lemma_flushed_carries(slow_before, staged, slow_layout);
    lemma_carries_iff_presents(slow_after, slow_layout, staged, slow_layout.row_samples());
    assert forall|row: int, col: int|
        0 <= row < fast_layout.height && 0 <= col < fast_layout.row_samples()
            implies #[trigger] logical_sample(fast_after, fast_layout, row, col) == logical_sample(
        slow_after,
        slow_layout,
        row,
        col,
    ) by {
        assert(view_sample(paired(fast_after), fast_layout.byte_stride as int / 2, row, col)
            == logical_sample(fast_after, fast_layout, row, col));
        assert(view_sample(staged, slow_layout.row_samples(), row, col) == logical_sample(
            slow_after,
            slow_layout,
            row,
            col,
        ));
    }
}

/// Unpacking a plane and flushing the packed copy back into the same region
/// reproduces the region byte for byte, whatever the samples' values.
pub proof fn lemma_unpack_then_flush_is_identity(bytes: Seq<u8>, layout: PlaneLayout)
    requires
        layout.sample_width == SampleWidth::Two,
        layout.admits(bytes.len() as int),
    ensures
        flushed(bytes, unpacked(bytes, layout), layout) == bytes,
{
    lemma_unpacked_presents(bytes, layout);
    lemma_carries_iff_presents(bytes, layout, unpacked(bytes, layout), layout.row_samples());
    lemma_carries_is_flushed(bytes, bytes, unpacked(bytes, layout), layout);
}

/// Flushing a packed buffer into a region and unpacking that region gives the
/// buffer back, whatever the region held before.
pub proof fn lemma_flush_then_unpack_is_identity(
    before: Seq<u8>,
    staged: Seq<u16>,
    layout: PlaneLayout,
)
    requires
        layout.sample_width == SampleWidth::Two,
        layout.admits(before.len() as int),
        staged.len() == layout.packed_samples(),
    ensures
        unpacked(flushed(before, staged, layout), layout) == staged,
{
    let after = flushed(before, staged, layout);
    lemma_flushed_carries(before, staged, layout);
    lemma_carries_iff_presents(after, layout, staged, layout.row_samples());
    lemma_presents_is_unpacked(staged, after, layout);
}

/// Flushing never modifies stride padding: every byte of a row that lies
/// beyond the row's samples and below the stride is after the flush what it
/// was before, and the region keeps its length.
pub proof fn lemma_flush_keeps_padding(before: Seq<u8>, staged: Seq<u16>, layout: PlaneLayout)
    requires
        layout.sample_width == SampleWidth::Two,
        layout.admits(before.len() as int),
    ensures
        flushed(before, staged, layout).len() == before.len(),
        forall|row: int, offset: int|
            0 <= row < layout.height && layout.row_bytes() <= offset < layout.byte_stride
                ==> #[trigger] byte_at(flushed(before, staged, layout), layout, row, offset)
                == byte_at(before, layout, row, offset),
{
    lemma_flushed_carries(before, staged, layout);
}

/// Flushing the same unmodified buffer a second time changes nothing.
pub proof fn lemma_flush_is_idempotent(before: Seq<u8>, staged: Seq<u16>, layout: PlaneLayout)
    requires
        layout.sample_width == SampleWidth::Two,
        layout.admits(before.len() as int),
    ensures
        flushed(flushed(before, staged, layout), staged, layout) == flushed(before, staged, layout),
{
    let once = flushed(before, staged, layout);
    lemma_flushed_carries(before, staged, layout);
    assert(padding_kept(once, once, layout));
    assert(carries(once, layout, staged, layout.row_samples()));
    lemma_carries_is_flushed(once, once, staged, layout);
}

} // verus!
