//! The logical content of a plane, as mathematics: which sample stands at a
//! row and column of a byte region, and when a sample view shows the same.
use crate::layout::{PlaneLayout, SampleWidth};
use crate::native::paired;
use crate::sample::{
    high_byte_of, lemma_bytes_round_trip, lemma_sample_round_trip, low_byte_of, sample_of,
};
use vstd::prelude::*;

verus! {

/// The byte at `offset` within row `row` of a region.
pub open spec fn byte_at(bytes: Seq<u8>, layout: PlaneLayout, row: int, offset: int) -> u8 {
    bytes[row * layout.byte_stride + offset]
}

/// The sample at column `col` of row `row` of a plane of two-byte samples:
/// assembled from the two bytes of its slot, low byte first.
pub open spec fn logical_sample(bytes: Seq<u8>, layout: PlaneLayout, row: int, col: int) -> u16 {
    sample_of(byte_at(bytes, layout, row, 2 * col), byte_at(bytes, layout, row, 2 * col + 1))
}

/// The sample at column `col` of row `row` of a view whose rows are `stride`
/// samples apart.
pub open spec fn view_sample(samples: Seq<u16>, stride: int, row: int, col: int) -> u16 {
    samples[row * stride + col]
}

/// A view presents a plane when, at every row and column of the plane, the
/// view holds the plane's sample.
pub open spec fn presents(
    samples: Seq<u16>,
    stride: int,
    bytes: Seq<u8>,
    layout: PlaneLayout,
) -> bool {
    forall|row: int, col: int|
        0 <= row < layout.height && 0 <= col < layout.row_samples() ==> #[trigger] view_sample(
            samples,
            stride,
            row,
            col,
        ) == logical_sample(bytes, layout, row, col)
}

/// A region carries a view when each sample of the view stands in its slot of
/// the region as two bytes, low byte then high byte.
pub open spec fn carries(
    bytes: Seq<u8>,
    layout: PlaneLayout,
    samples: Seq<u16>,
    stride: int,
) -> bool {
    forall|row: int, col: int|
        0 <= row < layout.height && 0 <= col < layout.row_samples() ==> {
            &&& byte_at(bytes, layout, row, 2 * col) == low_byte_of(
                #[trigger] view_sample(samples, stride, row, col),
            )
            &&& byte_at(bytes, layout, row, 2 * col + 1) == high_byte_of(
                view_sample(samples, stride, row, col),
            )
        }
}

/// Two regions of one layout agree on padding when they have the same length
/// and the same byte at every offset of every row that lies beyond the row's
/// samples and below the stride.
pub open spec fn padding_kept(before: Seq<u8>, after: Seq<u8>, layout: PlaneLayout) -> bool {
    &&& after.len() == before.len()
    &&& forall|row: int, offset: int|
        0 <= row < layout.height && layout.row_bytes() <= offset < layout.byte_stride
            ==> #[trigger] byte_at(after, layout, row, offset) == byte_at(
            before,
            layout,
            row,
            offset,
        )
}

/// The tightly packed copy of a plane: its samples row after row, with no
/// padding between rows.
pub open spec fn unpacked(bytes: Seq<u8>, layout: PlaneLayout) -> Seq<u16> {
    Seq::new(
        layout.packed_samples() as nat,
        |k: int| logical_sample(bytes, layout, k / layout.row_samples(), k % layout.row_samples()),
    )
}

/// The byte at `index` of a region after a packed buffer has been flushed
/// into it: within a row's samples, the low or high byte of the sample whose
/// slot it is; in the padding, the byte that was there.
pub open spec fn flushed_byte(
    before: Seq<u8>,
    staged: Seq<u16>,
    layout: PlaneLayout,
    index: int,
) -> u8 {
    let row = index / (layout.byte_stride as int);
    let offset = index % (layout.byte_stride as int);
    if offset < layout.row_bytes() {
        let sample = view_sample(staged, layout.row_samples(), row, offset / 2);
        if offset % 2 == 0 {
            low_byte_of(sample)
        } else {
            high_byte_of(sample)
        }
    } else {
        before[index]
    }
}

/// A region after a packed buffer has been flushed into it.
pub open spec fn flushed(before: Seq<u8>, staged: Seq<u16>, layout: PlaneLayout) -> Seq<u8> {
    Seq::new(before.len(), |index: int| flushed_byte(before, staged, layout, index))
}

/// Row `row` of a plane lies wholly inside a region of `height` rows.
pub proof fn lemma_row_in_region(row: int, height: int, stride: int)
    requires
        0 <= row < height,
        0 <= stride,
    ensures
        0 <= row * stride,
        row * stride + stride <= stride * height,
        row * stride == stride * row,
{
    assert(0 <= row * stride && row * stride + stride <= stride * height && row * stride == stride
        * row) by (nonlinear_arith)
        requires
            0 <= row < height,
            0 <= stride,
    ;
}

/// Every index of a region is one offset of one row.
pub proof fn lemma_index_is_row_and_offset(index: int, height: int, stride: int)
    requires
        0 <= index < height * stride,
        0 <= height,
        0 < stride,
    ensures
        0 <= index / stride < height,
        0 <= index % stride < stride,
        index == (index / stride) * stride + index % stride,
{
    vstd::arithmetic::div_mod::lemma_fundamental_div_mod(index, stride);
    vstd::arithmetic::div_mod::lemma_mod_bound(index, stride);
    let row = index / stride;
    assert(stride * row == row * stride) by (nonlinear_arith);
    assert(0 <= row < height) by (nonlinear_arith)
        requires
            0 <= index < height * stride,
            0 < stride,
            0 <= index - row * stride < stride,
    ;
}

/// The offset `offset` of row `row` is index `row * stride + offset`, and no
/// other row and offset share that index.
pub proof fn lemma_row_and_offset_of_index(row: int, offset: int, stride: int)
    requires
        0 <= row,
        0 <= offset < stride,
    ensures
        (row * stride + offset) / stride == row,
        (row * stride + offset) % stride == offset,
{
    vstd::arithmetic::div_mod::lemma_fundamental_div_mod_converse(
        row * stride + offset,
        stride,
        row,
        offset,
    );
}

/// A packed buffer that presents a plane is the plane's tightly packed copy.
pub proof fn lemma_presents_is_unpacked(samples: Seq<u16>, bytes: Seq<u8>, layout: PlaneLayout)
    requires
        samples.len() == layout.packed_samples(),
        presents(samples, layout.row_samples(), bytes, layout),
    ensures
        samples == unpacked(bytes, layout),
{
    let rs = layout.row_samples();
    let height = layout.height as int;
    let packed = unpacked(bytes, layout);
    assert forall|k: int| 0 <= k < samples.len() implies samples[k] == packed[k] by {
        assert(rs > 0) by (nonlinear_arith)
            requires
                0 <= k < rs * height,
                0 <= height,
        ;
        assert(rs * height == height * rs) by (nonlinear_arith);
        lemma_index_is_row_and_offset(k, height, rs);
        assert(samples[k] == view_sample(samples, rs, k / rs, k % rs));
    }
    assert(samples =~= unpacked(bytes, layout));
}

/// The tightly packed copy of a plane presents the plane.
pub proof fn lemma_unpacked_presents(bytes: Seq<u8>, layout: PlaneLayout)
    ensures
        unpacked(bytes, layout).len() == layout.packed_samples(),
        presents(unpacked(bytes, layout), layout.row_samples(), bytes, layout),
{
    let rs = layout.row_samples();
    let height = layout.height as int;
    assert(0 <= rs * height) by (nonlinear_arith)
        requires
            rs == layout.width * layout.channels,
            0 <= height,
    ;
    assert forall|row: int, col: int|
        0 <= row < layout.height && 0 <= col < layout.row_samples() implies #[trigger] view_sample(
        unpacked(bytes, layout),
        rs,
        row,
        col,
    ) == logical_sample(bytes, layout, row, col) by {
        lemma_row_in_region(row, height, rs);
        lemma_row_and_offset_of_index(row, col, rs);
    }
}

/// A region that carries a packed buffer and agrees with an earlier region on
/// padding is the earlier region with the buffer flushed into it.
pub proof fn lemma_carries_is_flushed(
    before: Seq<u8>,
    after: Seq<u8>,
    staged: Seq<u16>,
    layout: PlaneLayout,
)
    requires
        layout.sample_width == SampleWidth::Two,
        layout.admits(before.len() as int),
        carries(after, layout, staged, layout.row_samples()),
        padding_kept(before, after, layout),
    ensures
        after == flushed(before, staged, layout),
{
    let stride = layout.byte_stride as int;
    let height = layout.height as int;
    let rs = layout.row_samples();
    assert forall|index: int| 0 <= index < after.len() implies after[index] == flushed_byte(
        before,
        staged,
        layout,
        index,
    ) by {
        assert(stride > 0) by (nonlinear_arith)
            requires
                0 <= index < stride * height,
                0 <= height,
        ;
        assert(stride * height == height * stride) by (nonlinear_arith);
        lemma_index_is_row_and_offset(index, height, stride);
        let row = index / stride;
        let offset = index % stride;
        assert(after[index] == byte_at(after, layout, row, offset));
        assert(before[index] == byte_at(before, layout, row, offset));
        if offset < layout.row_bytes() {
            let col = offset / 2;
            assert(0 <= col < rs);
            let sample = view_sample(staged, rs, row, col);
            if offset % 2 == 0 {
                assert(offset == 2 * col);
            } else {
                assert(offset == 2 * col + 1);
            }
        }
    }
    assert(after =~= flushed(before, staged, layout));
}

/// A region with a packed buffer flushed into it carries the buffer, and
/// agrees with the region before on padding.
pub proof fn lemma_flushed_carries(before: Seq<u8>, staged: Seq<u16>, layout: PlaneLayout)
    requires
        layout.sample_width == SampleWidth::Two,
        layout.admits(before.len() as int),
    ensures
        carries(flushed(before, staged, layout), layout, staged, layout.row_samples()),
        padding_kept(before, flushed(before, staged, layout), layout),
{
    let stride = layout.byte_stride as int;
    let height = layout.height as int;
    let rs = layout.row_samples();
    let after = flushed(before, staged, layout);
    assert forall|row: int, col: int| 0 <= row < layout.height && 0 <= col < rs implies {
        &&& byte_at(after, layout, row, 2 * col) == low_byte_of(
            #[trigger] view_sample(staged, rs, row, col),
        )
        &&& byte_at(after, layout, row, 2 * col + 1) == high_byte_of(
            view_sample(staged, rs, row, col),
        )
    } by {
        lemma_row_in_region(row, height, stride);
        lemma_row_and_offset_of_index(row, 2 * col, stride);
        lemma_row_and_offset_of_index(row, 2 * col + 1, stride);
    }
    assert forall|row: int, offset: int|
        0 <= row < layout.height && layout.row_bytes() <= offset < stride implies #[trigger] byte_at(
        after,
        layout,
        row,
        offset,
    ) == byte_at(before, layout, row, offset) by {
        lemma_row_in_region(row, height, stride);
        lemma_row_and_offset_of_index(row, offset, stride);
    }
}

/// A region carries a view exactly when the view presents the region.
pub proof fn lemma_carries_iff_presents(
    bytes: Seq<u8>,
    layout: PlaneLayout,
    samples: Seq<u16>,
    stride: int,
)
    ensures
        carries(bytes, layout, samples, stride) <==> presents(samples, stride, bytes, layout),
{
    if carries(bytes, layout, samples, stride) {
        assert forall|row: int, col: int|
            0 <= row < layout.height && 0 <= col < layout.row_samples() implies #[trigger] view_sample(
            samples,
            stride,
            row,
            col,
        ) == logical_sample(bytes, layout, row, col) by {
            lemma_sample_round_trip(view_sample(samples, stride, row, col));
        }
    }
    if presents(samples, stride, bytes, layout) {
        assert forall|row: int, col: int|
            0 <= row < layout.height && 0 <= col < layout.row_samples() implies {
            &&& byte_at(bytes, layout, row, 2 * col) == low_byte_of(
                #[trigger] view_sample(samples, stride, row, col),
            )
            &&& byte_at(bytes, layout, row, 2 * col + 1) == high_byte_of(
                view_sample(samples, stride, row, col),
            )
        } by {
            lemma_bytes_round_trip(
                byte_at(bytes, layout, row, 2 * col),
                byte_at(bytes, layout, row, 2 * col + 1),
            );
        }
    }
}

/// The samples of a region viewed in place present the region, with rows
/// half as many samples apart as they are bytes apart.
pub proof fn lemma_paired_presents(bytes: Seq<u8>, layout: PlaneLayout)
    requires
        layout.sample_width == SampleWidth::Two,
        layout.admits(bytes.len() as int),
        layout.byte_stride % 2 == 0,
    ensures
        paired(bytes).len() == (layout.byte_stride / 2) * layout.height,
        presents(paired(bytes), layout.byte_stride as int / 2, bytes, layout),
{
    let stride = layout.byte_stride as int;
    let half = stride / 2;
    let height = layout.height as int;
    assert(half * 2 == stride);
    assert((half * height) * 2 == stride * height) by (nonlinear_arith)
        requires
            half * 2 == stride,
    ;
    assert forall|row: int, col: int|
        0 <= row < layout.height && 0 <= col < layout.row_samples() implies #[trigger] view_sample(
        paired(bytes),
        half,
        row,
        col,
    ) == logical_sample(bytes, layout, row, col) by {
        lemma_row_in_region(row, height, half);
        assert(2 * (row * half + col) == row * stride + 2 * col) by (nonlinear_arith)
            requires
                half * 2 == stride,
        ;
        assert(0 <= row * half + col < half * height) by (nonlinear_arith)
            requires
                0 <= row < height,
                0 <= col,
                2 * col < stride,
                half * 2 == stride,
        ;
    }
}

/// The same, of every region that the layout admits.
pub proof fn lemma_every_paired_presents(layout: PlaneLayout)
    requires
        layout.sample_width == SampleWidth::Two,
        layout.byte_stride % 2 == 0,
    ensures
        forall|bytes: Seq<u8>|
            layout.admits(bytes.len() as int) ==> presents(
                #[trigger] paired(bytes),
                layout.byte_stride as int / 2,
                bytes,
                layout,
            ),
{
    assert forall|bytes: Seq<u8>| layout.admits(bytes.len() as int) implies presents(
        #[trigger] paired(bytes),
        layout.byte_stride as int / 2,
        bytes,
        layout,
    ) by {
        lemma_paired_presents(bytes, layout);
    }
}

/// A region of even length is determined by the samples it holds: two such
/// regions of one length with the same samples are the same region.
pub proof fn lemma_paired_determines_region(one: Seq<u8>, other: Seq<u8>)
    requires
        one.len() == other.len(),
        one.len() % 2 == 0,
        paired(one) == paired(other),
    ensures
        one == other,
{
    assert forall|index: int| 0 <= index < one.len() implies one[index] == other[index] by {
        let slot = index / 2;
        assert(0 <= slot < paired(one).len());
        assert(paired(one)[slot] == sample_of(one[2 * slot], one[2 * slot + 1]));
        assert(paired(other)[slot] == sample_of(other[2 * slot], other[2 * slot + 1]));
        crate::sample::lemma_sample_of_injective(
            one[2 * slot],
            one[2 * slot + 1],
            other[2 * slot],
            other[2 * slot + 1],
        );
    }
    assert(one =~= other);
}

/// The same, of every two regions.
pub proof fn lemma_paired_determines_every_region()
    ensures
        forall|one: Seq<u8>, other: Seq<u8>|
            one.len() == other.len() && one.len() % 2 == 0 && #[trigger] paired(one)
                == #[trigger] paired(other) ==> one == other,
{
    assert forall|one: Seq<u8>, other: Seq<u8>|
        one.len() == other.len() && one.len() % 2 == 0 && #[trigger] paired(one)
            == #[trigger] paired(other) implies one == other by {
        lemma_paired_determines_region(one, other);
    }
}

/// Whether every sample of a plane, at every row and column, is below
/// `limit`. What stride padding holds is of no account.
pub open spec fn plane_below(bytes: Seq<u8>, layout: PlaneLayout, limit: int) -> bool {
    forall|row: int, col: int|
        0 <= row < layout.height && 0 <= col < layout.row_samples() ==> #[trigger] logical_sample(
            bytes,
            layout,
            row,
            col,
        ) < limit
}

/// A plane is below a limit exactly when its tightly packed copy is.
pub proof fn lemma_plane_below_is_unpacked_below(bytes: Seq<u8>, layout: PlaneLayout, limit: int)
    ensures
        plane_below(bytes, layout, limit) <==> (forall|k: int|
            0 <= k < unpacked(bytes, layout).len() ==> #[trigger] unpacked(bytes, layout)[k]
                < limit),
{
    let rs = layout.row_samples();
    let height = layout.height as int;
    let packed = unpacked(bytes, layout);
    lemma_unpacked_presents(bytes, layout);
    if plane_below(bytes, layout, limit) {
        assert forall|k: int| 0 <= k < packed.len() implies #[trigger] packed[k] < limit by {
            assert(rs > 0) by (nonlinear_arith)
                requires
                    0 <= k < rs * height,
                    0 <= height,
            ;
            assert(rs * height == height * rs) by (nonlinear_arith);
            lemma_index_is_row_and_offset(k, height, rs);
            assert(packed[k] == logical_sample(bytes, layout, k / rs, k % rs));
        }
    }
    if forall|k: int| 0 <= k < packed.len() ==> #[trigger] packed[k] < limit {
        assert forall|row: int, col: int|
            0 <= row < layout.height && 0 <= col < rs implies #[trigger] logical_sample(
            bytes,
            layout,
            row,
            col,
        ) < limit by {
            lemma_row_in_region(row, height, rs);
            assert(view_sample(packed, rs, row, col) == logical_sample(bytes, layout, row, col));
            assert(packed[row * rs + col] < limit);
        }
    }
}

/// A plane whose samples in place are all below a limit is below it.
pub proof fn lemma_paired_below(bytes: Seq<u8>, layout: PlaneLayout, limit: int)
    requires
        layout.sample_width == SampleWidth::Two,
        layout.admits(bytes.len() as int),
        layout.byte_stride % 2 == 0,
        forall|k: int| 0 <= k < paired(bytes).len() ==> #[trigger] paired(bytes)[k] < limit,
    ensures
        plane_below(bytes, layout, limit),
{
    let stride = layout.byte_stride as int;
    let half = stride / 2;
    let height = layout.height as int;
    lemma_paired_presents(bytes, layout);
    assert forall|row: int, col: int|
        0 <= row < layout.height && 0 <= col < layout.row_samples() implies #[trigger] logical_sample(
        bytes,
        layout,
        row,
        col,
    ) < limit by {
        assert(0 <= row * half + col < half * height) by (nonlinear_arith)
            requires
                0 <= row < height,
                0 <= col,
                2 * col < stride,
                half * 2 == stride,
        ;
        assert(view_sample(paired(bytes), half, row, col) == logical_sample(
            bytes,
            layout,
            row,
            col,
        ));
        assert(paired(bytes)[row * half + col] < limit);
    }
}

} // verus!
