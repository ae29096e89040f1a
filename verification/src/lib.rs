//! CRC-32 checksums in the ISO-HDLC parameterization (the variant used by
//! Ethernet, ZIP, PNG and gzip): polynomial 0x04C11DB7 (0xEDB88320 reversed),
//! initial register 0xFFFFFFFF, input and output reflected, final XOR
//! 0xFFFFFFFF. The library computes the checksum of a byte slice and checks a
//! byte slice against a caller-supplied checksum.

use vstd::prelude::*;

verus! {

/// The CRC-32/ISO-HDLC checksum of a byte sequence, as an abstract function:
/// the algorithm is pinned by the `crc` crate's `CRC_32_ISO_HDLC` parameters,
/// and its value depends on the bytes alone.
pub uninterp spec fn crc32_of(d: Seq<u8>) -> u32;

/// Relies on `crc::Crc::<u32>::checksum` with the `CRC_32_ISO_HDLC` algorithm:
/// the result is a function of the input bytes alone, and on empty input the
/// initial register 0xFFFFFFFF is returned unchanged through the final XOR
/// with 0xFFFFFFFF, giving 0.
#[verifier::external_body]
fn crc32_checksum(data: &[u8]) -> (r: u32)
    ensures
        r == crc32_of(data@),
        data@.len() == 0 ==> r == 0,
{
    crc::Crc::<u32>::new(&crc::CRC_32_ISO_HDLC).checksum(data)
}

/// Compute the CRC-32/ISO-HDLC checksum of `data`. Any byte slice, the empty
/// one included, is valid input; the empty slice checksums to 0.
pub fn crc32(data: &[u8]) -> (r: u32)
    ensures
        r == crc32_of(data@),
        data@.len() == 0 ==> r == 0,
{
    crc32_checksum(data)
}

/// A candidate checksum `e` matches a byte sequence `d` exactly when it
/// equals the sequence's CRC-32/ISO-HDLC checksum.
pub open spec fn checksum_matches(d: Seq<u8>, e: u32) -> bool {
    crc32_of(d) == e
}

/// Check `data` against a caller-supplied checksum: true on exact equality
/// with the recomputed CRC-32/ISO-HDLC checksum, false otherwise. Every byte
/// slice is valid input; a mismatch is reported only through the boolean.
pub fn verify_crc32(data: &[u8], expected: u32) -> (r: bool)
    ensures
        r == checksum_matches(data@, expected),
{
    crc32(data) == expected
}

/// A byte sequence always matches its own checksum: verification of data
/// against the checksum computed from that same data succeeds.
pub proof fn lemma_verify_own_checksum(d: Seq<u8>)
    ensures
        checksum_matches(d, crc32_of(d)),
{
}

/// Any candidate other than the checksum itself fails verification: the
/// boolean result is false for every such candidate.
pub proof fn lemma_verify_mismatch(d: Seq<u8>, e: u32)
    requires
        e != crc32_of(d),
    ensures
        !checksum_matches(d, e),
{
}

/// The candidate one above the checksum never matches, even where the
/// increment wraps around the 32-bit range: there is no accidental
/// wraparound equality in the off-by-one case.
pub proof fn lemma_verify_off_by_one(d: Seq<u8>)
    ensures
        !checksum_matches(d, ((crc32_of(d) + 1) % 0x1_0000_0000) as u32),
{
}

} // verus!
