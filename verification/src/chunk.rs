//! A chunk: a type tag plus an owned payload, together with its derived
//! length and CRC-32 checksum, and the wire encoding and decoding of the
//! record.

use crate::be_bytes::{
    lemma_u32_be_bytes_inverse, lemma_u32_be_bytes_round_trip, lemma_u32_from_be_bytes_injective,
    push_be_u32, read_be_u32, spec_u32_from_be_bytes, spec_u32_to_be_bytes,
};
use crate::checksum::{crc32_iso_hdlc, crc32_of};
use crate::chunk_type::ChunkType;
use crate::text::{push_decimal_u32, spec_byte_chars, spec_decimal_chars, utf8_to_str};
use vstd::prelude::*;
use vstd::string::StringExecFns;
use vstd::utf8::{decode_utf8, valid_utf8};

verus! {

/// Why a byte buffer was rejected as a record.
#[derive(Debug, Clone, Copy, PartialEq, Eq)]
pub enum DecodeError {
    /// The buffer is shorter than its length and checksum fields require.
    Truncated,
    /// The embedded checksum disagrees with the checksum of the embedded tag
    /// and payload: the buffer is corrupted or not a record of this format.
    ChecksumMismatch,
}

/// Why a payload could not be interpreted as text.
#[derive(Debug, Clone, Copy, PartialEq, Eq)]
pub enum TextError {
    /// The payload is not valid UTF-8.
    InvalidEncoding,
}

/// The mathematical content of a [`Chunk`]: its four fields as plain values.
#[verifier::ext_equal]
pub ghost struct ChunkView {
    pub length: u32,
    pub tag: Seq<u8>,
    pub payload: Seq<u8>,
    pub crc: u32,
}

impl ChunkView {
    /// Well-formedness: the tag is 4 bytes, the length field counts the
    /// payload bytes, and the checksum is the CRC-32 of tag plus payload.
    /// Both constructors of [`Chunk`] establish it.
    pub open spec fn wf(self) -> bool {
        &&& self.tag.len() == 4
        &&& self.payload.len() == self.length as int
        &&& self.crc == crc32_of(self.tag + self.payload)
    }
}

/// The wire encoding of `v`: big-endian length, raw tag bytes, payload,
/// big-endian checksum.
pub open spec fn spec_encode(v: ChunkView) -> Seq<u8> {
    spec_u32_to_be_bytes(v.length) + v.tag + v.payload + spec_u32_to_be_bytes(v.crc)
}

/// What decoding a buffer yields: the embedded record, `Truncated` if the
/// buffer is shorter than the fixed fields plus the declared length require,
/// or `ChecksumMismatch` if the embedded checksum is not the CRC-32 of the
/// embedded tag and payload. Bytes past the record are ignored.
pub open spec fn spec_decode(buf: Seq<u8>) -> Result<ChunkView, DecodeError> {
    if buf.len() < 12 {
        Err(DecodeError::Truncated)
    } else {
        let length = spec_u32_from_be_bytes(buf.subrange(0, 4));
        if buf.len() < 12 + length {
            Err(DecodeError::Truncated)
        } else {
            let tag = buf.subrange(4, 8);
            let payload = buf.subrange(8, 8 + length);
            let crc = spec_u32_from_be_bytes(buf.subrange(8 + length, 12 + length));
            if crc == crc32_of(tag + payload) {
                Ok(ChunkView { length, tag, payload, crc })
            } else {
                Err(DecodeError::ChecksumMismatch)
            }
        }
    }
}

/// A length-prefixed, type-tagged, checksum-verified record. Immutable once
/// constructed; its length and checksum fields are derived, never set by the
/// caller.
#[derive(Debug)]
pub struct Chunk {
    length: u32,
    chunk_type: ChunkType,
    chunk_data: Vec<u8>,
    crc: u32,
}

impl View for Chunk {
    type V = ChunkView;

    closed spec fn view(&self) -> ChunkView {
        ChunkView {
            length: self.length,
            tag: self.chunk_type@,
            payload: self.chunk_data@,
            crc: self.crc,
        }
    }
}

impl Chunk {
    /// Builds a chunk from a tag and a payload, deriving the length and the
    /// checksum. The payload byte count must fit the 32-bit length field;
    /// larger payloads are a usage error to reject before construction.
    pub fn new(chunk_type: ChunkType, data: Vec<u8>) -> (c: Chunk)
        requires
            data@.len() <= u32::MAX,
        ensures
            c@ == (ChunkView {
                length: data@.len() as u32,
                tag: chunk_type@,
                payload: data@,
                crc: crc32_of(chunk_type@ + data@),
            }),
            c@.wf(),
    {
        let tag_bytes = chunk_type.bytes();
        let mut checked: Vec<u8> = Vec::new();
        checked.extend_from_slice(vstd::array::array_as_slice(&tag_bytes));
        checked.extend_from_slice(data.as_slice());
        proof {
            assert(checked@ =~= chunk_type@ + data@);
        }
        let crc = crc32_iso_hdlc(checked.as_slice());
        let length = data.len() as u32;
        Chunk { length, chunk_type, chunk_data: data, crc }
    }

    /// The payload byte count, as the record's length field carries it.
    pub fn length(&self) -> (r: u32)
        ensures
            r == self@.length,
    {
        self.length
    }

    /// The chunk's type tag.
    pub fn chunk_type(&self) -> (r: &ChunkType)
        ensures
            r@ == self@.tag,
    {
        &self.chunk_type
    }

    /// The payload bytes.
    pub fn data(&self) -> (r: &[u8])
        ensures
            r@ == self@.payload,
    {
        self.chunk_data.as_slice()
    }

    /// The CRC-32 (ISO-HDLC) checksum over the tag bytes followed by the
    /// payload.
    pub fn crc(&self) -> (r: u32)
        ensures
            r == self@.crc,
    {
        self.crc
    }

    /// The payload interpreted as UTF-8 text; fails exactly when the payload
    /// is not valid UTF-8.
    pub fn data_as_string(&self) -> (r: Result<String, TextError>)
        ensures
            r matches Ok(s) ==> valid_utf8(self@.payload) && s@ == decode_utf8(self@.payload),
            r matches Err(e) ==> e == TextError::InvalidEncoding && !valid_utf8(self@.payload),
    {
        match utf8_to_str(self.chunk_data.as_slice()) {
            Some(s) => Ok(s.to_owned()),
            None => Err(TextError::InvalidEncoding),
        }
    }

    /// Serializes the record: 4-byte big-endian length, the 4 raw tag bytes,
    /// the payload, and the 4-byte big-endian checksum, `12 + length` bytes
    /// in all.
    pub fn as_bytes(&self) -> (r: Vec<u8>)
        ensures
            r@ == spec_encode(self@),
    {
        let mut out: Vec<u8> = Vec::new();
        push_be_u32(&mut out, self.length);
        let tag_bytes = self.chunk_type.bytes();
        out.extend_from_slice(vstd::array::array_as_slice(&tag_bytes));
        out.extend_from_slice(self.chunk_data.as_slice());
        push_be_u32(&mut out, self.crc);
        proof {
            assert(out@ =~= spec_encode(self@));
        }
        out
    }

    /// Parses a record from a byte buffer, per [`spec_decode`]: the result is
    /// the embedded chunk, `Truncated` on a buffer shorter than `12` plus the
    /// declared length, and `ChecksumMismatch` when the embedded checksum
    /// disagrees with the recomputed one. The tag is taken unchecked: a
    /// structurally complete record whose tag would fail the validity flag is
    /// still accepted here.
    pub fn try_from(buf: &[u8]) -> (r: Result<Chunk, DecodeError>)
        ensures
            match r {
                Ok(c) => spec_decode(buf@) == Ok::<ChunkView, DecodeError>(c@) && c@.wf(),
                Err(e) => spec_decode(buf@) == Err::<ChunkView, DecodeError>(e),
            },
    {
        if buf.len() < 12 {
            return Err(DecodeError::Truncated);
        }
        let length = read_be_u32(buf, 0);
        let length_us = length as usize;
        if buf.len() - 12 < length_us {
            return Err(DecodeError::Truncated);
        }
        let tag = [buf[4], buf[5], buf[6], buf[7]];
        proof {
            assert(tag@ =~= buf@.subrange(4, 8));
        }
        let chunk_type = ChunkType::from_bytes(tag);
        let mut payload: Vec<u8> = Vec::new();
        let mut i: usize = 0;
        while i < length_us
            invariant
                length_us == length,
                buf@.len() >= 12 + length,
                buf@.len() <= usize::MAX,
                i <= length_us,
                payload@ == buf@.subrange(8, 8 + i as int),
            decreases length_us - i,
        {
            payload.push(buf[8 + i]);
            i += 1;
            proof {
                assert(payload@ =~= buf@.subrange(8, 8 + i as int));
            }
        }
        let declared_crc = read_be_u32(buf, 8 + length_us);
        let chunk = Chunk::new(chunk_type, payload);
        // The declared length always equals the payload length: exactly
        // `length` payload bytes were read. Only the checksum can still
        // disagree.
        if declared_crc == chunk.crc() {
            proof {
                assert(spec_decode(buf@) == Ok::<ChunkView, DecodeError>(chunk@));
            }
            Ok(chunk)
        } else {
            Err(DecodeError::ChecksumMismatch)
        }
    }

    /// The record rendered as text for debugging: the decimal length, the tag
    /// characters, the payload as UTF-8 text, and the decimal checksum, in
    /// that order with no separators. Fails exactly when the payload is not
    /// valid UTF-8.
    pub fn display_string(&self) -> (r: Result<String, TextError>)
        ensures
            r matches Ok(s) ==> valid_utf8(self@.payload) && s@ == spec_decimal_chars(
                self@.length as nat,
            ) + spec_byte_chars(self@.tag) + decode_utf8(self@.payload) + spec_decimal_chars(
                self@.crc as nat,
            ),
            r matches Err(e) ==> e == TextError::InvalidEncoding && !valid_utf8(self@.payload),
    {
        let mut s = String::new();
        push_decimal_u32(&mut s, self.length);
        let tag_text = self.chunk_type.to_ascii_string();
        s.append(tag_text.as_str());
        let payload_text = match utf8_to_str(self.chunk_data.as_slice()) {
            Some(t) => t,
            None => {
                return Err(TextError::InvalidEncoding);
            },
        };
        s.append(payload_text);
        push_decimal_u32(&mut s, self.crc);
        proof {
            assert(s@ =~= spec_decimal_chars(self@.length as nat) + spec_byte_chars(self@.tag)
                + decode_utf8(self@.payload) + spec_decimal_chars(self@.crc as nat));
        }
        Ok(s)
    }
}

/// Law (round trip): every well-formed chunk view decodes from its own
/// encoding, unchanged in length, tag, payload and checksum.
pub proof fn lemma_encode_decode_round_trip(v: ChunkView)
    requires
        v.wf(),
    ensures
        spec_decode(spec_encode(v)) == Ok::<ChunkView, DecodeError>(v),
{
    let buf = spec_encode(v);
    assert(buf.len() == 12 + v.length);
    assert(buf.subrange(0, 4) =~= spec_u32_to_be_bytes(v.length));
    lemma_u32_be_bytes_round_trip(v.length);
    assert(buf.subrange(4, 8) =~= v.tag);
    assert(buf.subrange(8, 8 + v.length as int) =~= v.payload);
    assert(buf.subrange(8 + v.length as int, 12 + v.length as int) =~= spec_u32_to_be_bytes(
        v.crc,
    ));
    lemma_u32_be_bytes_round_trip(v.crc);
    assert(spec_decode(buf) == Ok::<ChunkView, DecodeError>(v));
}

/// Law (re-encode identity): a buffer that decodes successfully and has no
/// bytes beyond its record is exactly the encoding of the decoded view; so
/// decoding an encoder's output and re-encoding it reproduces the bytes.
pub proof fn lemma_decode_encode_identity(buf: Seq<u8>, v: ChunkView)
    requires
        spec_decode(buf) == Ok::<ChunkView, DecodeError>(v),
        buf.len() == 12 + v.length,
    ensures
        spec_encode(v) == buf,
{
    lemma_u32_be_bytes_inverse(buf.subrange(0, 4));
    lemma_u32_be_bytes_inverse(buf.subrange(8 + v.length as int, 12 + v.length as int));
    assert(spec_encode(v) =~= buf);
}

/// Law (checksum sensitivity): changing any byte of the checksum field of a
/// buffer that decodes successfully — flipping any single bit of it does that
/// — makes decoding fail with `ChecksumMismatch`.
pub proof fn lemma_checksum_sensitivity(buf: Seq<u8>, v: ChunkView, j: int, b: u8)
    requires
        spec_decode(buf) == Ok::<ChunkView, DecodeError>(v),
        8 + v.length <= j < 12 + v.length,
        b != buf[j],
    ensures
        spec_decode(buf.update(j, b)) == Err::<ChunkView, DecodeError>(
            DecodeError::ChecksumMismatch,
        ),
{
    let buf2 = buf.update(j, b);
    assert(buf2.subrange(0, 4) =~= buf.subrange(0, 4));
    assert(buf2.subrange(4, 8) =~= buf.subrange(4, 8));
    assert(buf2.subrange(8, 8 + v.length as int) =~= buf.subrange(8, 8 + v.length as int));
    let c1 = buf.subrange(8 + v.length as int, 12 + v.length as int);
    let c2 = buf2.subrange(8 + v.length as int, 12 + v.length as int);
    assert(c2[j - (8 + v.length as int)] == b);
    assert(c1[j - (8 + v.length as int)] == buf[j]);
    lemma_u32_from_be_bytes_injective(c1, c2);
}

} // verus!
