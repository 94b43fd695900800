//! Viewing a byte region as 16-bit samples in place.
//!
//! The items here rest on `bytemuck` and on the host's byte order; their
//! contracts are taken on trust.
use crate::sample::sample_of;
use vstd::prelude::*;

verus! {

/// Whether the host stores the low byte of a 16-bit value first.
pub open spec fn host_is_little_endian() -> bool {
    vstd::endian::endianness() is Little
}

/// The samples that a region holds when every two bytes form one slot, low
/// byte first. A trailing odd byte belongs to no slot.
pub open spec fn paired(bytes: Seq<u8>) -> Seq<u16> {
    Seq::new((bytes.len() / 2) as nat, |k: int| sample_of(bytes[2 * k], bytes[2 * k + 1]))
}

/// Calls `u16::from_ne_bytes` on the two bytes in the order given. The
/// contract claims that the result is the value whose memory representation
/// on this host is `first` followed by `second`: the low-byte-first assembly
/// on a little-endian host, the high-byte-first assembly elsewhere.
#[verifier::external_body]
fn sample_in_host_order(first: u8, second: u8) -> (sample: u16)
    ensures
        host_is_little_endian() ==> sample == sample_of(first, second),
        !host_is_little_endian() ==> sample == sample_of(second, first),
{
    u16::from_ne_bytes([first, second])
}

/// Calls `bytemuck::try_cast_slice` from bytes to 16-bit values. The contract
/// claims that a successful cast covers the whole region, two bytes per
/// sample, and that on a little-endian host sample `k` is assembled from
/// bytes `2k` (low) and `2k + 1` (high). Whether the cast succeeds depends on
/// the region's address, of which nothing is claimed.
#[verifier::external_body]
fn cast_samples(bytes: &[u8]) -> (view: Option<&[u16]>)
    ensures
        view matches Some(samples) ==> {
            &&& 2 * samples@.len() == bytes@.len()
            &&& host_is_little_endian() ==> samples@ == paired(bytes@)
        },
{
    match bytemuck::try_cast_slice::<u8, u16>(bytes) {
        Ok(samples) => Some(samples),
        Err(_) => None,
    }
}

/// Calls `bytemuck::try_cast_slice_mut` from bytes to 16-bit values. The
/// contract claims that a failed cast leaves the region as it was; that a
/// successful cast covers the whole region, two bytes per sample, and keeps
/// both lengths; and that on a little-endian host the view starts as the
/// region's samples and the region ends as the bytes of the view's samples,
/// low byte first. Whether the cast succeeds depends on the region's address,
/// of which nothing is claimed.
#[verifier::external_body]
fn cast_samples_mut(bytes: &mut [u8]) -> (view: Option<&mut [u16]>)
    ensures
        view is None ==> final(bytes)@ == old(bytes)@,
        view matches Some(samples) ==> {
            &&& 2 * samples@.len() == old(bytes)@.len()
            &&& final(samples)@.len() == samples@.len()
            &&& final(bytes)@.len() == old(bytes)@.len()
            &&& host_is_little_endian() ==> samples@ == paired(old(bytes)@)
            &&& host_is_little_endian() ==> final(samples)@ == paired(final(bytes)@)
        },
{
    match bytemuck::try_cast_slice_mut::<u8, u16>(bytes) {
        Ok(samples) => Some(samples),
        Err(_) => None,
    }
}

/// Finds out whether the host stores the low byte of a sample first, by
/// assembling the bytes 1 and 0 in host order.
pub fn host_stores_low_byte_first() -> (little: bool)
    ensures
        little == host_is_little_endian(),
{
    sample_in_host_order(1, 0) == 1
}

/// Views a region as samples in place where the host allows it: the host is
/// little-endian, and the region starts at an even address and has an even
/// length. `None` otherwise.
pub fn view_samples(bytes: &[u8]) -> (view: Option<&[u16]>)
    ensures
        view matches Some(samples) ==> {
            &&& bytes@.len() % 2 == 0
            &&& samples@ == paired(bytes@)
        },
{
    if host_stores_low_byte_first() {
        cast_samples(bytes)
    } else {
        None
    }
}

/// Views a writable region as samples in place where the host allows it: the
/// host is little-endian, and the region starts at an even address and has an
/// even length. What is written to the view lands in the region, low byte
/// first. `None` otherwise, and the region is then untouched.
pub fn view_samples_mut(bytes: &mut [u8]) -> (view: Option<&mut [u16]>)
    ensures
        view is None ==> final(bytes)@ == old(bytes)@,
        view matches Some(samples) ==> {
            &&& old(bytes)@.len() % 2 == 0
            &&& samples@ == paired(old(bytes)@)
            &&& final(samples)@.len() == samples@.len()
            &&& final(bytes)@.len() == old(bytes)@.len()
            &&& final(samples)@ == paired(final(bytes)@)
        },
{
    if host_stores_low_byte_first() {
        cast_samples_mut(bytes)
    } else {
        None
    }
}

} // verus!
