//! The plane view adapter: from a caller's byte region to a view of 16-bit
//! samples that a kernel can read or fill.
use crate::content::{
    lemma_every_paired_presents, lemma_paired_presents, lemma_presents_is_unpacked,
    lemma_row_in_region, logical_sample, presents, unpacked, view_sample,
};
use crate::error::PlanePath;
use crate::image::rows_fit;
use crate::layout::{PlaneLayout, SampleWidth};
use crate::native::{paired, view_samples, view_samples_mut};
use crate::sample::sample_from_bytes;
use vstd::prelude::*;

verus! {

/// A read-only view of a plane's samples.
pub enum PlaneView<'a> {
    /// The caller's region itself, seen as samples.
    Borrowed(&'a [u16]),
    /// A tightly packed copy of the plane's samples.
    Owned(Vec<u16>),
}

impl<'a> PlaneView<'a> {
    /// The samples of the view, row after row.
    pub open spec fn samples(&self) -> Seq<u16> {
        match self {
            PlaneView::Borrowed(samples) => samples@,
            PlaneView::Owned(samples) => samples@,
        }
    }

    /// The path on which the view was made.
    pub open spec fn path_of(&self) -> PlanePath {
        match self {
            PlaneView::Borrowed(_) => PlanePath::Fast,
            PlaneView::Owned(_) => PlanePath::Slow,
        }
    }

    /// The samples of the view, for a kernel to read.
    pub fn as_slice(&self) -> (samples: &[u16])
        ensures
            samples@ == self.samples(),
    {
        match self {
            PlaneView::Borrowed(samples) => samples,
            PlaneView::Owned(samples) => samples.as_slice(),
        }
    }

    /// The path on which the view was made.
    pub fn path(&self) -> (path: PlanePath)
        ensures
            path == self.path_of(),
    {
        match self {
            PlaneView::Borrowed(_) => PlanePath::Fast,
            PlaneView::Owned(_) => PlanePath::Slow,
        }
    }
}

/// The distance in samples between rows of a view made on `path`: half the
/// byte stride on the fast path, exactly one row of samples on the slow path.
pub open spec fn view_stride_of(layout: PlaneLayout, path: PlanePath) -> int {
    match path {
        PlanePath::Fast => layout.byte_stride as int / 2,
        PlanePath::Slow => layout.row_samples(),
    }
}

/// The number of samples in a view made on `path`: every row at full stride
/// on the fast path, no padding at all on the slow path.
pub open spec fn view_len_of(layout: PlaneLayout, path: PlanePath) -> int {
    match path {
        PlanePath::Fast => (layout.byte_stride as int / 2) * layout.height,
        PlanePath::Slow => layout.packed_samples(),
    }
}

/// The view of a source plane made on `path`: the region's samples in place
/// on the fast path, its tightly packed copy on the slow path.
pub open spec fn source_view(src: Seq<u8>, layout: PlaneLayout, path: PlanePath) -> Seq<u16> {
    match path {
        PlanePath::Fast => paired(src),
        PlanePath::Slow => unpacked(src, layout),
    }
}

/// The view that a destination plane hands to a kernel on `path`: the
/// region's samples in place on the fast path, a blank packed buffer on the
/// slow path.
pub open spec fn target_view(before: Seq<u8>, layout: PlaneLayout, path: PlanePath) -> Seq<u16> {
    match path {
        PlanePath::Fast => paired(before),
        PlanePath::Slow => Seq::new(layout.packed_samples() as nat, |k: int| 0u16),
    }
}

/// A plane that its region admits has no more samples than the region has
/// bytes, so its packed size fits wherever the region's size fits.
pub proof fn lemma_packed_fits(layout: PlaneLayout, len: int)
    requires
        layout.sample_width == SampleWidth::Two,
        layout.admits(len),
    ensures
        0 <= layout.row_samples() <= layout.byte_stride,
        0 <= layout.packed_samples() <= len,
        2 * layout.packed_samples() <= len,
{
    let rs = layout.row_samples();
    let height = layout.height as int;
    let stride = layout.byte_stride as int;
    assert(0 <= rs) by (nonlinear_arith)
        requires
            rs == layout.width * layout.channels,
    ;
    assert(0 <= rs * height && 2 * (rs * height) <= stride * height) by (nonlinear_arith)
        requires
            0 <= rs,
            2 * rs <= stride,
            0 <= height,
    ;
}

/// The distance in samples between rows of a view made on `path`.
pub fn view_stride(layout: &PlaneLayout, path: PlanePath) -> (stride: usize)
    requires
        layout.sample_width == SampleWidth::Two,
        layout.row_bytes() <= layout.byte_stride,
    ensures
        stride == view_stride_of(*layout, path),
{
    match path {
        PlanePath::Fast => layout.byte_stride / 2,
        PlanePath::Slow => {
            assert(0 <= layout.width * layout.channels) by (nonlinear_arith);
            layout.width * layout.channels
        },
    }
}

/// The slow path of reading: copies the plane's samples, row by row, into a
/// tightly packed buffer. Each sample is assembled from the two bytes of its
/// slot, low byte first, and the padding that follows a row is skipped.
pub fn unpack_plane(src: &[u8], layout: &PlaneLayout) -> (packed: Vec<u16>)
    requires
        layout.sample_width == SampleWidth::Two,
        layout.admits(src@.len() as int),
    ensures
        packed@ == unpacked(src@, *layout),
        packed@.len() == layout.packed_samples(),
        presents(packed@, layout.row_samples(), src@, *layout),
{
    proof {
        lemma_packed_fits(*layout, src@.len() as int);
    }
    let row_samples: usize = layout.width * layout.channels;
    let stride: usize = layout.byte_stride;
    let height: usize = layout.height;
    proof {
        vstd::slice::axiom_spec_len(src);
    }
    let ghost len = src@.len();
    let mut packed: Vec<u16> = Vec::with_capacity(row_samples * height);
    let mut row: usize = 0;
    while row < height
        invariant
            layout.sample_width == SampleWidth::Two,
            layout.admits(src@.len() as int),
            row_samples == layout.row_samples(),
            stride == layout.byte_stride,
            height == layout.height,
            2 * row_samples <= stride,
            stride * height == src@.len(),
            len == src@.len(),
            len <= usize::MAX,
            row <= height,
            packed@.len() == row_samples * row,
            forall|r: int, c: int|
                0 <= r < row && 0 <= c < row_samples ==> #[trigger] view_sample(
                    packed@,
                    row_samples as int,
                    r,
                    c,
                ) == logical_sample(src@, *layout, r, c),
        decreases height - row,
    {
        proof {
            lemma_row_in_region(row as int, height as int, stride as int);
            lemma_row_in_region(row as int, height as int, row_samples as int);
            assert(row_samples * height <= stride * height) by (nonlinear_arith)
                requires
                    row_samples <= stride,
                    0 <= height,
            ;
        }
        let base: usize = row * stride;
        let ghost done = packed@;
        let mut col: usize = 0;
        while col < row_samples
            invariant
                row < height,
                col <= row_samples,
                2 * row_samples <= stride,
                base == row * stride,
                base + stride <= src@.len(),
                len == src@.len(),
                len <= usize::MAX,
                stride == layout.byte_stride,
                done.len() == row * row_samples,
                done.len() + row_samples <= usize::MAX,
                packed@.len() == done.len() + col,
                forall|k: int| 0 <= k < done.len() ==> packed@[k] == done[k],
                forall|c: int|
                    0 <= c < col ==> packed@[done.len() + c] == logical_sample(
                        src@,
                        *layout,
                        row as int,
                        c,
                    ),
            decreases row_samples - col,
        {
            let at: usize = base + 2 * col;
            let sample = sample_from_bytes(src[at], src[at + 1]);
            packed.push(sample);
            col = col + 1;
        }
        proof {
            assert(row_samples * (row + 1) == row * row_samples + row_samples) by (nonlinear_arith);
            assert forall|r: int, c: int|
                0 <= r < row + 1 && 0 <= c < row_samples implies #[trigger] view_sample(
                packed@,
                row_samples as int,
                r,
                c,
            ) == logical_sample(src@, *layout, r, c) by {
                if r < row {
                    lemma_row_in_region(r, row as int, row_samples as int);
                    assert(view_sample(done, row_samples as int, r, c) == logical_sample(
                        src@,
                        *layout,
                        r,
                        c,
                    ));
                }
            }
        }
        row = row + 1;
    }
    proof {
        lemma_presents_is_unpacked(packed@, src@, *layout);
    }
    packed
}

/// Chooses the view for a plane once it is known whether the region can be
/// seen as samples in place. The fast path is taken when the in-place view
/// exists and the byte stride is even; a view in place of a region whose
/// stride is odd would not keep rows apart, so the slow path is taken then,
/// as it is when no in-place view exists.
pub fn adapt_read_with<'a>(
    in_place: Option<&'a [u16]>,
    src: &'a [u8],
    layout: &PlaneLayout,
) -> (adapted: (PlaneView<'a>, usize))
    requires
        layout.sample_width == SampleWidth::Two,
        layout.admits(src@.len() as int),
        in_place matches Some(samples) ==> samples@ == paired(src@),
    ensures
        adapted.0.path_of() == (if in_place is Some && layout.byte_stride % 2 == 0 {
            PlanePath::Fast
        } else {
            PlanePath::Slow
        }),
        adapted.0 matches PlaneView::Borrowed(samples) ==> in_place == Some(samples),
        adapted.0.samples() == source_view(src@, *layout, adapted.0.path_of()),
        adapted.1 == view_stride_of(*layout, adapted.0.path_of()),
        adapted.0.samples().len() == view_len_of(*layout, adapted.0.path_of()),
        presents(adapted.0.samples(), adapted.1 as int, src@, *layout),
{
    match in_place {
        Some(samples) => {
            if layout.byte_stride % 2 == 0 {
                proof {
                    lemma_paired_presents(src@, *layout);
                }
                return (PlaneView::Borrowed(samples), layout.byte_stride / 2);
            }
        },
        None => {},
    }
    proof {
        lemma_packed_fits(*layout, src@.len() as int);
    }
    let packed = unpack_plane(src, layout);
    (PlaneView::Owned(packed), layout.width * layout.channels)
}

/// Adapts a caller's plane for reading. The result is the view and the
/// distance in samples between its rows. Whichever path is taken, the view
/// holds the plane's sample at every row and column. The fast path is taken
/// only for an even byte stride, and only where the region can be seen as
/// samples in place, which depends on its address.
pub fn adapt_read<'a>(src: &'a [u8], layout: &PlaneLayout) -> (adapted: (PlaneView<'a>, usize))
    requires
        layout.sample_width == SampleWidth::Two,
        layout.admits(src@.len() as int),
    ensures
        layout.byte_stride % 2 != 0 ==> adapted.0.path_of() == PlanePath::Slow,
        adapted.0.samples() == source_view(src@, *layout, adapted.0.path_of()),
        adapted.1 == view_stride_of(*layout, adapted.0.path_of()),
        adapted.0.samples().len() == view_len_of(*layout, adapted.0.path_of()),
        presents(adapted.0.samples(), adapted.1 as int, src@, *layout),
{
    let in_place = view_samples(src);
    adapt_read_with(in_place, src, layout)
}

/// Adapts a caller's plane for writing, on the fast path: the region itself
/// as a view for the kernel to fill, rows half the byte stride apart. Whatever
/// the kernel leaves in the view is then what the region holds, sample for
/// sample. `None` means that the fast path is closed and a packed buffer has
/// to stand in; the region is untouched then. The fast path is open only for
/// an even byte stride, and only where the region can be seen as samples in
/// place, which depends on its address.
pub fn adapt_write<'a>(dst: &'a mut [u8], layout: &PlaneLayout) -> (view: Option<&'a mut [u16]>)
    requires
        layout.sample_width == SampleWidth::Two,
        layout.admits(old(dst)@.len() as int),
    ensures
        layout.byte_stride % 2 != 0 ==> view is None,
        view is None ==> final(dst)@ == old(dst)@,
        view matches Some(samples) ==> {
            &&& layout.byte_stride % 2 == 0
            &&& samples@ == paired(old(dst)@)
            &&& samples@.len() == view_len_of(*layout, PlanePath::Fast)
            &&& final(samples)@.len() == samples@.len()
            &&& final(dst)@.len() == old(dst)@.len()
            &&& final(samples)@ == paired(final(dst)@)
            &&& presents(
                final(samples)@,
                view_stride_of(*layout, PlanePath::Fast),
                final(dst)@,
                *layout,
            )
        },
{
    proof {
        if layout.byte_stride % 2 == 0 {
            lemma_paired_presents(dst@, *layout);
            lemma_every_paired_presents(*layout);
        }
        crate::content::lemma_paired_determines_every_region();
    }
    let in_place = view_samples_mut(dst);
    adapt_write_with(in_place, layout)
}

/// Chooses the view for a destination once it is known whether the region
/// can be seen as samples in place. The in-place view is handed on, as it
/// is, when the byte stride is even. When the stride is odd the view is let
/// go unwritten, and there is none: rows an odd number of bytes apart do not
/// start on a sample of such a view. Where no in-place view exists there is
/// none to hand on.
pub fn adapt_write_with<'a>(in_place: Option<&'a mut [u16]>, layout: &PlaneLayout) -> (view: Option<
    &'a mut [u16],
>)
    ensures
        view is Some <==> in_place is Some && layout.byte_stride % 2 == 0,
        in_place matches Some(given) ==> match view {
            Some(samples) => samples@ == given@ && final(samples)@ == final(given)@,
            None => final(given)@ == given@,
        },
{
    if layout.byte_stride % 2 == 0 {
        in_place
    } else {
        None
    }
}

/// A view made on either path is exactly its plane's rows at the view's
/// stride: a row of samples fits in the stride, the view is as many strides
/// long as the plane has rows, and it is no longer than the region.
pub proof fn lemma_view_rows_fit(layout: PlaneLayout, path: PlanePath)
    requires
        layout.sample_width == SampleWidth::Two,
        layout.row_bytes() <= layout.byte_stride,
        layout.region_bytes() <= isize::MAX,
    ensures
        rows_fit(
            view_len_of(layout, path),
            view_stride_of(layout, path),
            layout.row_samples(),
            layout.height as int,
        ),
        0 <= view_stride_of(layout, path) <= layout.byte_stride,
{
    let stride = view_stride_of(layout, path);
    let height = layout.height as int;
    assert(0 <= layout.row_samples()) by (nonlinear_arith)
        requires
            layout.row_samples() == layout.width * layout.channels,
    ;
    assert(0 <= stride * height <= layout.byte_stride * height) by (nonlinear_arith)
        requires
            0 <= stride <= layout.byte_stride,
            0 <= height,
    ;
}

/// A tightly packed buffer of the plane's shape, all zeros.
pub fn blank_plane(layout: &PlaneLayout) -> (staged: Vec<u16>)
    requires
        layout.packed_samples() <= usize::MAX,
    ensures
        staged@.len() == layout.packed_samples(),
        forall|k: int| 0 <= k < staged@.len() ==> staged@[k] == 0,
{
    assert(0 <= layout.width * layout.channels <= layout.packed_samples() || layout.height == 0)
        by (nonlinear_arith)
        requires
            layout.packed_samples() == (layout.width * layout.channels) * layout.height,
    ;
    if layout.height == 0 {
        return Vec::new();
    }
    let total: usize = layout.width * layout.channels * layout.height;
    let mut staged: Vec<u16> = Vec::with_capacity(total);
    let mut filled: usize = 0;
    while filled < total
        invariant
            filled <= total,
            staged@.len() == filled,
            forall|k: int| 0 <= k < filled ==> staged@[k] == 0,
        decreases total - filled,
    {
        staged.push(0);
        filled = filled + 1;
    }
    staged
}

/// The slow path of writing: a tightly packed buffer of the plane's shape for
/// the kernel to fill. With `copy` it starts as the plane's present samples;
/// without, it starts as zeros.
pub fn stage_plane(dst: &[u8], layout: &PlaneLayout, copy: bool) -> (staged: Vec<u16>)
    requires
        layout.sample_width == SampleWidth::Two,
        layout.admits(dst@.len() as int),
    ensures
        staged@.len() == layout.packed_samples(),
        copy ==> staged@ == unpacked(dst@, *layout),
        !copy ==> forall|k: int| 0 <= k < staged@.len() ==> staged@[k] == 0,
{
    if copy {
        return unpack_plane(dst, layout);
    }
    proof {
        lemma_packed_fits(*layout, dst@.len() as int);
        vstd::slice::axiom_spec_len(dst);
    }
    blank_plane(layout)
}

} // verus!
