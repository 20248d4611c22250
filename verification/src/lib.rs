//! A binary chunk codec in the PNG chunk layout: length-prefixed, type-tagged,
//! checksum-verified records.
//!
//! A record carries a 4-byte type tag and an arbitrary byte payload. On the
//! wire it is laid out as a 4-byte big-endian payload length, the 4 raw tag
//! bytes, the payload, and a 4-byte big-endian CRC-32 (ISO-HDLC) checksum over
//! the tag bytes followed by the payload. Decoding rejects any buffer whose
//! declared length or checksum does not match its contents.

pub mod be_bytes;
pub mod checksum;
pub mod chunk;
pub mod chunk_type;
pub mod text;
