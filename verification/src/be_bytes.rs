//! Big-endian encoding of 32-bit words, as the wire format's length and
//! checksum fields use it.

use vstd::prelude::*;

verus! {

/// The four big-endian bytes of `x`, most significant first.
pub open spec fn spec_u32_to_be_bytes(x: u32) -> Seq<u8> {
    seq![
        (x / 0x1000000) as u8,
        ((x / 0x10000) % 0x100) as u8,
        ((x / 0x100) % 0x100) as u8,
        (x % 0x100) as u8,
    ]
}

/// The word whose big-endian bytes are `s`, for a 4-byte `s`.
pub open spec fn spec_u32_from_be_bytes(s: Seq<u8>) -> u32
    recommends
        s.len() == 4,
{
    (s[0] * 0x1000000 + s[1] * 0x10000 + s[2] * 0x100 + s[3]) as u32
}

/// Decomposing a word into big-endian bytes and recombining them restores it.
pub proof fn lemma_u32_be_bytes_round_trip(x: u32)
    ensures
        spec_u32_from_be_bytes(spec_u32_to_be_bytes(x)) == x,
{
    assert(x / 0x1000000 < 0x100 && (x / 0x10000) % 0x100 < 0x100 && (x / 0x100) % 0x100 < 0x100
        && x % 0x100 < 0x100) by (bit_vector);
    assert(x / 0x1000000 * 0x1000000 + (x / 0x10000) % 0x100 * 0x10000 + (x / 0x100) % 0x100
        * 0x100 + x % 0x100 == x) by (bit_vector);
}

/// Recombining four bytes into a word and decomposing it again restores them.
pub proof fn lemma_u32_be_bytes_inverse(s: Seq<u8>)
    requires
        s.len() == 4,
    ensures
        spec_u32_to_be_bytes(spec_u32_from_be_bytes(s)) == s,
{
    let b0 = s[0];
    let b1 = s[1];
    let b2 = s[2];
    let b3 = s[3];
    let x = spec_u32_from_be_bytes(s);
    assert(x == b0 * 0x1000000 + b1 * 0x10000 + b2 * 0x100 + b3);
    assert((b0 as u32 * 0x1000000 + b1 as u32 * 0x10000 + b2 as u32 * 0x100 + b3 as u32)
        / 0x1000000 == b0) by (bit_vector);
    assert(((b0 as u32 * 0x1000000 + b1 as u32 * 0x10000 + b2 as u32 * 0x100 + b3 as u32)
        / 0x10000) % 0x100 == b1) by (bit_vector);
    assert(((b0 as u32 * 0x1000000 + b1 as u32 * 0x10000 + b2 as u32 * 0x100 + b3 as u32) / 0x100)
        % 0x100 == b2) by (bit_vector);
    assert((b0 as u32 * 0x1000000 + b1 as u32 * 0x10000 + b2 as u32 * 0x100 + b3 as u32) % 0x100
        == b3) by (bit_vector);
    assert(spec_u32_to_be_bytes(x) =~= s);
}

/// Two different 4-byte sequences recombine into two different words.
pub proof fn lemma_u32_from_be_bytes_injective(s1: Seq<u8>, s2: Seq<u8>)
    requires
        s1.len() == 4,
        s2.len() == 4,
        s1 != s2,
    ensures
        spec_u32_from_be_bytes(s1) != spec_u32_from_be_bytes(s2),
{
    if spec_u32_from_be_bytes(s1) == spec_u32_from_be_bytes(s2) {
        lemma_u32_be_bytes_inverse(s1);
        lemma_u32_be_bytes_inverse(s2);
    }
}

/// Reads the big-endian word at offset `i` of `buf`.
pub fn read_be_u32(buf: &[u8], i: usize) -> (x: u32)
    requires
        i + 4 <= buf@.len(),
    ensures
        x == spec_u32_from_be_bytes(buf@.subrange(i as int, i as int + 4)),
{
    let b0 = buf[i];
    let b1 = buf[i + 1];
    let b2 = buf[i + 2];
    let b3 = buf[i + 3];
    let x = (b0 as u32) * 0x1000000 + (b1 as u32) * 0x10000 + (b2 as u32) * 0x100 + (b3 as u32);
    proof {
        let s = buf@.subrange(i as int, i as int + 4);
        assert(s[0] == b0 && s[1] == b1 && s[2] == b2 && s[3] == b3);
    }
    x
}

/// Appends the four big-endian bytes of `x` to `out`.
pub fn push_be_u32(out: &mut Vec<u8>, x: u32)
    ensures
        final(out)@ == old(out)@ + spec_u32_to_be_bytes(x),
{
    assert(x / 0x1000000 < 0x100 && (x / 0x10000) % 0x100 < 0x100 && (x / 0x100) % 0x100 < 0x100
        && x % 0x100 < 0x100) by (bit_vector);
    out.push((x / 0x1000000) as u8);
    out.push(((x / 0x10000) % 0x100) as u8);
    out.push(((x / 0x100) % 0x100) as u8);
    out.push((x % 0x100) as u8);
    assert(out@ =~= old(out)@ + spec_u32_to_be_bytes(x));
}

} // verus!
