//! The checksum of a record: CRC-32 with the IEEE polynomial, as the `crc`
//! crate computes it.

use vstd::prelude::*;

verus! {

/// The CRC-32/IEEE checksum of a byte string. The value is whatever
/// `crc::crc32::checksum_ieee` returns for these bytes; nothing else is
/// known of it here.
pub uninterp spec fn crc32_ieee(bytes: Seq<u8>) -> u32;

/// Computes the CRC-32/IEEE checksum of the bytes.
///
/// Not proved: `crc::crc32::checksum_ieee` is taken to return, for the same
/// bytes, always the same number, and that number is what `crc32_ieee` names.
#[verifier::external_body]
pub(crate) fn checksum_ieee(bytes: &[u8]) -> (sum: u32)
    ensures
        sum == crc32_ieee(bytes@),
{
    crc::crc32::checksum_ieee(bytes)
}

} // verus!
