//! Byte-order-safe marshaling of one 16-bit sample: low byte first, high byte second.
use vstd::prelude::*;

verus! {

/// The sample whose two-byte slot holds `lo` followed by `hi`.
pub open spec fn sample_of(lo: u8, hi: u8) -> u16 {
    (lo as int + 256 * (hi as int)) as u16
}

/// The byte stored first in a sample's two-byte slot.
pub open spec fn low_byte_of(sample: u16) -> u8 {
    (sample as int % 256) as u8
}

/// The byte stored second in a sample's two-byte slot.
pub open spec fn high_byte_of(sample: u16) -> u8 {
    (sample as int / 256) as u8
}

/// Splitting a sample into its two bytes and assembling them again gives the
/// sample back, for every value from 0 to 65535.
pub proof fn lemma_sample_round_trip(sample: u16)
    ensures
        sample_of(low_byte_of(sample), high_byte_of(sample)) == sample,
{
}

/// Assembling two bytes into a sample and splitting it again gives the same
/// two bytes back, in the same order.
pub proof fn lemma_bytes_round_trip(lo: u8, hi: u8)
    ensures
        low_byte_of(sample_of(lo, hi)) == lo,
        high_byte_of(sample_of(lo, hi)) == hi,
{
}

/// Two byte pairs that assemble to the same sample are the same pair.
pub proof fn lemma_sample_of_injective(lo: u8, hi: u8, lo2: u8, hi2: u8)
    requires
        sample_of(lo, hi) == sample_of(lo2, hi2),
    ensures
        lo == lo2,
        hi == hi2,
{
}

/// Assembles a sample from the two bytes of its slot.
pub fn sample_from_bytes(lo: u8, hi: u8) -> (sample: u16)
    ensures
        sample == sample_of(lo, hi),
{
    let low: u16 = lo as u16;
    let high: u16 = hi as u16;
    low + 256 * high
}

/// Splits a sample into the two bytes of its slot, low byte first.
pub fn sample_to_bytes(sample: u16) -> (bytes: (u8, u8))
    ensures
        bytes.0 == low_byte_of(sample),
        bytes.1 == high_byte_of(sample),
{
    ((sample % 256) as u8, (sample / 256) as u8)
}

/// The first byte of a sample's slot.
pub fn low_byte(sample: u16) -> (byte: u8)
    ensures
        byte == low_byte_of(sample),
{
    (sample % 256) as u8
}

/// The second byte of a sample's slot.
pub fn high_byte(sample: u16) -> (byte: u8)
    ensures
        byte == high_byte_of(sample),
{
    (sample / 256) as u8
}

} // verus!
