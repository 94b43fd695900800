//! The packed 30-bit pixel: ten bits of red, ten of green, ten of blue and
//! two of alpha in one word of four bytes, red highest.
use crate::content::{byte_at, logical_sample, padding_kept, view_sample};
use crate::layout::PlaneLayout;
use crate::native::host_is_little_endian;
use vstd::prelude::*;

verus! {

/// The order in which the four bytes of a packed pixel are stored.
#[derive(Copy, Clone, Debug, PartialEq, Eq, Structural)]
pub enum ByteOrder {
    /// The order of the machine that packs.
    Host,
    /// Highest byte first, on every machine.
    Network,
}

/// The bits that a colour sample gives to a packed pixel: a sample of 10
/// bits as it is, a sample of 12 bits without its lowest two.
pub open spec fn colour_bits_of(sample: u16, bit_depth: int) -> u32 {
    if bit_depth == 10 {
        sample as u32
    } else {
        (sample as u32) >> 2u32
    }
}

/// The bits that an alpha sample gives to a packed pixel: what is left of
/// the sample above its lowest `bit_depth - 2` bits.
pub open spec fn alpha_bits_of(sample: u16, bit_depth: int) -> u32 {
    if bit_depth == 10 {
        (sample as u32) >> 8u32
    } else {
        (sample as u32) >> 10u32
    }
}

/// The word of a packed pixel. Nothing is masked: bits of a field wider than
/// its place reach into the field above, and bits beyond the word are lost.
pub open spec fn ra30_word(r: u32, g: u32, b: u32, a: u32) -> u32 {
    (r << 22u32) | (g << 12u32) | (b << 2u32) | a
}

/// Byte `k` of a word, counted from its highest byte.
pub open spec fn word_byte(word: u32, k: int) -> u8 {
    if k == 0 {
        (word >> 24u32) as u8
    } else if k == 1 {
        ((word >> 16u32) & 0xffu32) as u8
    } else if k == 2 {
        ((word >> 8u32) & 0xffu32) as u8
    } else {
        (word & 0xffu32) as u8
    }
}

/// Byte `k` of a word as it is stored in `order`.
pub open spec fn stored_byte(word: u32, k: int, order: ByteOrder) -> u8 {
    match order {
        ByteOrder::Network => word_byte(word, k),
        ByteOrder::Host => if host_is_little_endian() {
            word_byte(word, 3 - k)
        } else {
            word_byte(word, k)
        },
    }
}

/// The word of the pixel at `row` and `col` of a view of interleaved
/// samples, `channels` to the pixel: three colours and, where there is a
/// fourth sample, its alpha; a pixel without alpha is opaque.
pub open spec fn view_word(
    samples: Seq<u16>,
    stride: int,
    channels: int,
    row: int,
    col: int,
    bit_depth: int,
) -> u32 {
    ra30_word(
        colour_bits_of(view_sample(samples, stride, row, channels * col), bit_depth),
        colour_bits_of(view_sample(samples, stride, row, channels * col + 1), bit_depth),
        colour_bits_of(view_sample(samples, stride, row, channels * col + 2), bit_depth),
        if channels == 4 {
            alpha_bits_of(view_sample(samples, stride, row, channels * col + 3), bit_depth)
        } else {
            3u32
        },
    )
}

/// The word of the pixel at `row` and `col` of a region of interleaved
/// two-byte samples, as `view_word` has it of a view.
pub open spec fn region_word(
    bytes: Seq<u8>,
    layout: PlaneLayout,
    row: int,
    col: int,
    bit_depth: int,
) -> u32 {
    let channels = layout.channels as int;
    ra30_word(
        colour_bits_of(logical_sample(bytes, layout, row, channels * col), bit_depth),
        colour_bits_of(logical_sample(bytes, layout, row, channels * col + 1), bit_depth),
        colour_bits_of(logical_sample(bytes, layout, row, channels * col + 2), bit_depth),
        if channels == 4 {
            alpha_bits_of(logical_sample(bytes, layout, row, channels * col + 3), bit_depth)
        } else {
            3u32
        },
    )
}

/// Byte `k` of the packed pixel at `row` and `col` of a region of packed
/// pixels.
pub open spec fn packed_byte(bytes: Seq<u8>, layout: PlaneLayout, row: int, col: int, k: int) -> u8 {
    byte_at(bytes, layout, row, 4 * col + k)
}

/// Whether a region of packed pixels holds the pixels of a view, stored in
/// `order`, with its stride padding as it was before.
pub open spec fn view_packed(
    samples: Seq<u16>,
    stride: int,
    channels: int,
    before: Seq<u8>,
    after: Seq<u8>,
    target: PlaneLayout,
    bit_depth: int,
    order: ByteOrder,
) -> bool {
    &&& padding_kept(before, after, target)
    &&& forall|row: int, col: int, k: int|
        0 <= row < target.height && 0 <= col < target.width && 0 <= k < 4 ==> #[trigger] packed_byte(
            after,
            target,
            row,
            col,
            k,
        ) == stored_byte(view_word(samples, stride, channels, row, col, bit_depth), k, order)
}

/// Whether a region of packed pixels holds the pixels of a region of
/// interleaved two-byte samples, highest byte first, with its stride padding
/// as it was before.
pub open spec fn region_packed(
    source: Seq<u8>,
    source_layout: PlaneLayout,
    before: Seq<u8>,
    after: Seq<u8>,
    target: PlaneLayout,
    bit_depth: int,
) -> bool {
    &&& padding_kept(before, after, target)
    &&& forall|row: int, col: int, k: int|
        0 <= row < target.height && 0 <= col < target.width && 0 <= k < 4 ==> #[trigger] packed_byte(
            after,
            target,
            row,
            col,
            k,
        ) == word_byte(region_word(source, source_layout, row, col, bit_depth), k)
}

/// A region that holds the pixels of a view holds the pixels of every region
/// that the view presents.
pub proof fn lemma_view_packed_is_region_packed(
    samples: Seq<u16>,
    stride: int,
    source: Seq<u8>,
    source_layout: PlaneLayout,
    before: Seq<u8>,
    after: Seq<u8>,
    target: PlaneLayout,
    bit_depth: int,
)
    requires
        crate::content::presents(samples, stride, source, source_layout),
        source_layout.channels == 3 || source_layout.channels == 4,
        source_layout.width == target.width,
        source_layout.height == target.height,
        view_packed(
            samples,
            stride,
            source_layout.channels as int,
            before,
            after,
            target,
            bit_depth,
            ByteOrder::Network,
        ),
    ensures
        region_packed(source, source_layout, before, after, target, bit_depth),
{
    let channels = source_layout.channels as int;
    assert forall|row: int, col: int, k: int|
        0 <= row < target.height && 0 <= col < target.width && 0 <= k < 4 implies #[trigger] packed_byte(
        after,
        target,
        row,
        col,
        k,
    ) == word_byte(region_word(source, source_layout, row, col, bit_depth), k) by {
        assert(channels * col + channels <= channels * target.width) by (nonlinear_arith)
            requires
                0 <= col < target.width,
                3 <= channels,
        ;
        assert(0 <= channels * col) by (nonlinear_arith)
            requires
                0 <= col,
                3 <= channels,
        ;
        assert(source_layout.row_samples() == channels * target.width) by (nonlinear_arith)
            requires
                source_layout.row_samples() == source_layout.width * source_layout.channels,
                source_layout.width == target.width,
                channels == source_layout.channels,
        ;
        assert(view_sample(samples, stride, row, channels * col) == logical_sample(
            source,
            source_layout,
            row,
            channels * col,
        ));
        assert(view_sample(samples, stride, row, channels * col + 1) == logical_sample(
            source,
            source_layout,
            row,
            channels * col + 1,
        ));
        assert(view_sample(samples, stride, row, channels * col + 2) == logical_sample(
            source,
            source_layout,
            row,
            channels * col + 2,
        ));
        if channels == 4 {
            assert(view_sample(samples, stride, row, channels * col + 3) == logical_sample(
                source,
                source_layout,
                row,
                channels * col + 3,
            ));
        }
        assert(view_word(samples, stride, channels, row, col, bit_depth) == region_word(
            source,
            source_layout,
            row,
            col,
            bit_depth,
        ));
    }
}

} // verus!
