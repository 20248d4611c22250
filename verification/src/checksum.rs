//! The integrity checksum of the wire format: CRC-32 with the ISO-HDLC
//! parameterization (the same CRC-32 that zlib and PNG use), computed by the
//! `crc` crate.

use vstd::prelude::*;

verus! {

/// The CRC-32 (ISO-HDLC) checksum of a byte sequence. The algorithm itself is
/// left uninterpreted: every contract of this crate relates checksums through
/// this name, and the `crc` crate computes the value at run time.
pub uninterp spec fn crc32_of(bytes: Seq<u8>) -> u32;

/// Relies on `crc::Crc::<u32>::checksum` with `crc::CRC_32_ISO_HDLC`: it
/// computes the CRC-32 (ISO-HDLC) checksum of the bytes, a value that depends
/// on the bytes alone.
#[verifier::external_body]
pub(crate) fn crc32_iso_hdlc(bytes: &[u8]) -> (r: u32)
    ensures
        r == crc32_of(bytes@),
{
    crc::Crc::<u32>::new(&crc::CRC_32_ISO_HDLC).checksum(bytes)
}

} // verus!
