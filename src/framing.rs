use vstd::prelude::*;

verus! {

/// The IEEE CRC-32 checksum of a byte sequence, as crc32fast computes it.
pub uninterp spec fn crc32_of(b: Seq<u8>) -> u32;

/// Relies on crc32fast::hash for the IEEE CRC-32 checksum of a byte slice.
#[verifier::external_body]
pub fn crc32(b: &[u8]) -> (r: u32)
    ensures
        r == crc32_of(b@),
{
    crc32fast::hash(b)
}

} // verus!
