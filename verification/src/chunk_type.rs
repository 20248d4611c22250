//! The 4-byte type tag of a chunk: an identifier whose bytes double as
//! bit-flag carriers. Bit `0x20` of each byte (the ASCII case bit) encodes one
//! property of the chunk.

use crate::text::{push_byte_char, spec_byte_chars};
use vstd::prelude::*;
use vstd::string::StringSliceAdditionalSpecFns;

verus! {

/// Why a textual tag was rejected.
#[derive(Debug, Clone, Copy, PartialEq, Eq)]
pub enum InvalidTag {
    /// The input was not exactly 4 bytes long.
    WrongLength,
    /// The input was 4 bytes long but held a byte that is not an ASCII letter.
    NonAlphabetic,
}

/// Whether `b` is an ASCII letter, `A`-`Z` or `a`-`z`.
pub open spec fn is_ascii_alphabetic_byte(b: u8) -> bool {
    (0x41 <= b && b <= 0x5a) || (0x61 <= b && b <= 0x7a)
}

/// The little-endian byte decomposition of `x`: the packing that
/// [`ChunkType::new`] inverts when reading a tag out of a 32-bit word.
pub open spec fn spec_u32_le_bytes(x: u32) -> Seq<u8> {
    seq![
        (x % 0x100) as u8,
        ((x / 0x100) % 0x100) as u8,
        ((x / 0x10000) % 0x100) as u8,
        (x / 0x1000000) as u8,
    ]
}

/// A 4-byte chunk type tag. Its view is the sequence of its 4 bytes; two tags
/// are equal exactly when their bytes are equal.
#[derive(Debug, Clone, Copy, PartialEq, Eq, Structural)]
pub struct ChunkType {
    b0: u8,
    b1: u8,
    b2: u8,
    b3: u8,
}

impl View for ChunkType {
    type V = Seq<u8>;

    closed spec fn view(&self) -> Seq<u8> {
        seq![self.b0, self.b1, self.b2, self.b3]
    }
}

impl ChunkType {
    /// Unpacks a tag from a 32-bit word, taking the word's little-endian byte
    /// decomposition as the 4 tag bytes; [`Self::bytes`] inverts it.
    pub fn new(value: u32) -> (t: ChunkType)
        ensures
            t@ == spec_u32_le_bytes(value),
    {
        let t = ChunkType {
            b0: (value % 0x100) as u8,
            b1: ((value / 0x100) % 0x100) as u8,
            b2: ((value / 0x10000) % 0x100) as u8,
            b3: (value / 0x1000000) as u8,
        };
        proof {
            assert(t@ =~= spec_u32_le_bytes(value));
        }
        t
    }

    /// The all-zero tag.
    pub fn default() -> (t: ChunkType)
        ensures
            t@ == seq![0u8, 0u8, 0u8, 0u8],
    {
        let t = ChunkType { b0: 0, b1: 0, b2: 0, b3: 0 };
        proof {
            assert(t@ =~= seq![0u8, 0u8, 0u8, 0u8]);
        }
        t
    }

    /// Unchecked construction from 4 raw bytes: always succeeds, even for
    /// bytes no textual tag could have.
    pub fn from_bytes(bytes: [u8; 4]) -> (t: ChunkType)
        ensures
            t@ == bytes@,
    {
        let t = ChunkType { b0: bytes[0], b1: bytes[1], b2: bytes[2], b3: bytes[3] };
        proof {
            assert(t@ =~= bytes@);
        }
        t
    }

    /// Construction from 4 raw bytes in `Result` form; it never fails, since
    /// raw-byte construction is unchecked.
    pub fn try_from(bytes: [u8; 4]) -> (r: Result<ChunkType, InvalidTag>)
        ensures
            r matches Ok(t) && t@ == bytes@,
    {
        Ok(ChunkType::from_bytes(bytes))
    }

    /// Checked construction from text: succeeds exactly when `s` is 4 bytes
    /// long and every byte is an ASCII letter. A wrong length is reported
    /// before the byte values are looked at.
    pub fn from_str(s: &str) -> (r: Result<ChunkType, InvalidTag>)
        ensures
            match r {
                Ok(t) => s.spec_bytes().len() == 4 && (forall|i: int|
                    0 <= i < 4 ==> is_ascii_alphabetic_byte(#[trigger] s.spec_bytes()[i]))
                    && t@ == s.spec_bytes(),
                Err(InvalidTag::WrongLength) => s.spec_bytes().len() != 4,
                Err(InvalidTag::NonAlphabetic) => s.spec_bytes().len() == 4 && (exists|i: int|
                    0 <= i < 4 && !is_ascii_alphabetic_byte(#[trigger] s.spec_bytes()[i])),
            },
    {
        let bytes = s.as_bytes();
        if bytes.len() != 4 {
            return Err(InvalidTag::WrongLength);
        }
        let mut i: usize = 0;
        while i < 4
            invariant
                bytes@ == s.spec_bytes(),
                bytes@.len() == 4,
                i <= 4,
                forall|j: int| 0 <= j < i ==> is_ascii_alphabetic_byte(#[trigger] bytes@[j]),
            decreases 4 - i,
        {
            let b = bytes[i];
            if !((0x41 <= b && b <= 0x5a) || (0x61 <= b && b <= 0x7a)) {
                return Err(InvalidTag::NonAlphabetic);
            }
            i += 1;
        }
        let t = ChunkType { b0: bytes[0], b1: bytes[1], b2: bytes[2], b3: bytes[3] };
        proof {
            assert(t@ =~= s.spec_bytes());
        }
        Ok(t)
    }

    /// The tag's 4 bytes, inverse of [`Self::from_bytes`].
    pub fn bytes(&self) -> (r: [u8; 4])
        ensures
            r@ == self@,
    {
        let r = [self.b0, self.b1, self.b2, self.b3];
        proof {
            assert(r@ =~= self@);
        }
        r
    }

    /// The tag's bytes each read as a character. Defined for every tag, also
    /// one built from non-alphabetic bytes; the output then holds whatever
    /// characters those bytes name.
    pub fn to_ascii_string(&self) -> (r: String)
        ensures
            r@ == spec_byte_chars(self@),
    {
        let mut r = String::new();
        push_byte_char(&mut r, self.b0);
        push_byte_char(&mut r, self.b1);
        push_byte_char(&mut r, self.b2);
        push_byte_char(&mut r, self.b3);
        proof {
            assert(r@ =~= spec_byte_chars(self@));
        }
        r
    }

    /// Whether the chunk is critical (a decoder must not ignore it): bit
    /// `0x20` of the first byte is clear. Set means ancillary.
    pub fn is_critical(&self) -> (r: bool)
        ensures
            r == (self@[0] & 0x20 == 0),
    {
        self.b0 & 0x20 == 0
    }

    /// Whether the chunk is public: bit `0x20` of the second byte is clear.
    /// Set means private.
    pub fn is_public(&self) -> (r: bool)
        ensures
            r == (self@[1] & 0x20 == 0),
    {
        self.b1 & 0x20 == 0
    }

    /// Whether the reserved bit is valid under the current version of the
    /// format: bit `0x20` of the third byte is clear.
    pub fn is_reserved_bit_valid(&self) -> (r: bool)
        ensures
            r == (self@[2] & 0x20 == 0),
    {
        self.b2 & 0x20 == 0
    }

    /// Whether the chunk is safe for editors to copy: bit `0x20` of the
    /// fourth byte is set. Clear means unsafe to copy.
    pub fn is_safe_to_copy(&self) -> (r: bool)
        ensures
            r == (self@[3] & 0x20 == 0x20),
    {
        self.b3 & 0x20 == 0x20
    }

    /// Overall validity of the tag: exactly the reserved-bit check.
    pub fn is_valid(&self) -> (r: bool)
        ensures
            r == (self@[2] & 0x20 == 0),
    {
        self.is_reserved_bit_valid()
    }
}

} // verus!
