//! Byte-level plumbing for the wire format: big-endian multi-byte integers
//! read out of a buffer, their serialization back to bytes, and the
//! two's-complement view of signed fields, which the wire carries as the
//! unsigned bit pattern.

use vstd::prelude::*;

verus! {

/// The big-endian 16-bit integer stored at `s[i..i+2]`.
pub open spec fn be_u16(s: Seq<u8>, i: int) -> u16
    recommends
        0 <= i,
        i + 2 <= s.len(),
{
    ((s[i] as u16) << 8) | (s[i + 1] as u16)
}

/// The big-endian 32-bit integer stored at `s[i..i+4]`.
pub open spec fn be_u32(s: Seq<u8>, i: int) -> u32
    recommends
        0 <= i,
        i + 4 <= s.len(),
{
    ((s[i] as u32) << 24) | ((s[i + 1] as u32) << 16) | ((s[i + 2] as u32) << 8)
        | (s[i + 3] as u32)
}

/// The big-endian 64-bit integer stored at `s[i..i+8]`.
pub open spec fn be_u64(s: Seq<u8>, i: int) -> u64
    recommends
        0 <= i,
        i + 8 <= s.len(),
{
    ((s[i] as u64) << 56) | ((s[i + 1] as u64) << 48) | ((s[i + 2] as u64) << 40)
        | ((s[i + 3] as u64) << 32) | ((s[i + 4] as u64) << 24) | ((s[i + 5] as u64) << 16)
        | ((s[i + 6] as u64) << 8) | (s[i + 7] as u64)
}

/// The eight bytes of the big-endian serialization of `n`, most significant
/// first.
pub open spec fn be_bytes_u64(n: u64) -> Seq<u8> {
    seq![
        ((n >> 56u64) & 0xff) as u8,
        ((n >> 48u64) & 0xff) as u8,
        ((n >> 40u64) & 0xff) as u8,
        ((n >> 32u64) & 0xff) as u8,
        ((n >> 24u64) & 0xff) as u8,
        ((n >> 16u64) & 0xff) as u8,
        ((n >> 8u64) & 0xff) as u8,
        (n & 0xff) as u8,
    ]
}

/// The signed value whose two's-complement bit pattern is `n`.
pub open spec fn i64_from_bits(n: u64) -> i64 {
    if n < 0x8000_0000_0000_0000 {
        n as i64
    } else {
        (n - 0x1_0000_0000_0000_0000) as i64
    }
}

/// The two's-complement bit pattern of the signed value `x`.
pub open spec fn bits_from_i64(x: i64) -> u64 {
    if x >= 0 {
        x as u64
    } else {
        (x + 0x1_0000_0000_0000_0000) as u64
    }
}

/// Serializing a signed value and reading the bit pattern back is the identity.
pub proof fn lemma_i64_bits_roundtrip(n: u64)
    ensures
        bits_from_i64(i64_from_bits(n)) == n,
{
}

/// Reassembling a 64-bit integer out of its eight big-endian bytes, most
/// significant first, recovers each byte at its position.
pub proof fn lemma_be_u64_bytes(b0: u8, b1: u8, b2: u8, b3: u8, b4: u8, b5: u8, b6: u8, b7: u8)
    by (bit_vector)
    ensures
        ((((((b0 as u64) << 56) | ((b1 as u64) << 48) | ((b2 as u64) << 40)
            | ((b3 as u64) << 32) | ((b4 as u64) << 24) | ((b5 as u64) << 16)
            | ((b6 as u64) << 8) | (b7 as u64)) >> 56u64) & 0xff) as u8) == b0,
        ((((((b0 as u64) << 56) | ((b1 as u64) << 48) | ((b2 as u64) << 40)
            | ((b3 as u64) << 32) | ((b4 as u64) << 24) | ((b5 as u64) << 16)
            | ((b6 as u64) << 8) | (b7 as u64)) >> 48u64) & 0xff) as u8) == b1,
        ((((((b0 as u64) << 56) | ((b1 as u64) << 48) | ((b2 as u64) << 40)
            | ((b3 as u64) << 32) | ((b4 as u64) << 24) | ((b5 as u64) << 16)
            | ((b6 as u64) << 8) | (b7 as u64)) >> 40u64) & 0xff) as u8) == b2,
        ((((((b0 as u64) << 56) | ((b1 as u64) << 48) | ((b2 as u64) << 40)
            | ((b3 as u64) << 32) | ((b4 as u64) << 24) | ((b5 as u64) << 16)
            | ((b6 as u64) << 8) | (b7 as u64)) >> 32u64) & 0xff) as u8) == b3,
        ((((((b0 as u64) << 56) | ((b1 as u64) << 48) | ((b2 as u64) << 40)
            | ((b3 as u64) << 32) | ((b4 as u64) << 24) | ((b5 as u64) << 16)
            | ((b6 as u64) << 8) | (b7 as u64)) >> 24u64) & 0xff) as u8) == b4,
        ((((((b0 as u64) << 56) | ((b1 as u64) << 48) | ((b2 as u64) << 40)
            | ((b3 as u64) << 32) | ((b4 as u64) << 24) | ((b5 as u64) << 16)
            | ((b6 as u64) << 8) | (b7 as u64)) >> 16u64) & 0xff) as u8) == b5,
        ((((((b0 as u64) << 56) | ((b1 as u64) << 48) | ((b2 as u64) << 40)
            | ((b3 as u64) << 32) | ((b4 as u64) << 24) | ((b5 as u64) << 16)
            | ((b6 as u64) << 8) | (b7 as u64)) >> 8u64) & 0xff) as u8) == b6,
        (((((b0 as u64) << 56) | ((b1 as u64) << 48) | ((b2 as u64) << 40)
            | ((b3 as u64) << 32) | ((b4 as u64) << 24) | ((b5 as u64) << 16)
            | ((b6 as u64) << 8) | (b7 as u64)) & 0xff) as u8) == b7,
{
}

/// Serializing a 64-bit integer gives back the eight bytes it was read from.
pub proof fn lemma_be_bytes_u64_roundtrip(s: Seq<u8>, i: int)
    requires
        0 <= i,
        i + 8 <= s.len(),
    ensures
        be_bytes_u64(be_u64(s, i)) == s.subrange(i, i + 8),
{
    lemma_be_u64_bytes(
        s[i],
        s[i + 1],
        s[i + 2],
        s[i + 3],
        s[i + 4],
        s[i + 5],
        s[i + 6],
        s[i + 7],
    );
    assert(be_bytes_u64(be_u64(s, i)) =~= s.subrange(i, i + 8));
}

/// Read the big-endian 16-bit integer at `s[i..i+2]`.
pub fn read_be_u16(s: &Vec<u8>, i: usize) -> (r: u16)
    requires
        i + 2 <= s@.len(),
    ensures
        r == be_u16(s@, i as int),
{
    let end: usize = s.len();
    assert(i + 2 <= end);
    ((s[i] as u16) << 8) | (s[i + 1] as u16)
}

/// Read the big-endian 32-bit integer at `s[i..i+4]`.
pub fn read_be_u32(s: &Vec<u8>, i: usize) -> (r: u32)
    requires
        i + 4 <= s@.len(),
    ensures
        r == be_u32(s@, i as int),
{
    let end: usize = s.len();
    assert(i + 4 <= end);
    ((s[i] as u32) << 24) | ((s[i + 1] as u32) << 16) | ((s[i + 2] as u32) << 8)
        | (s[i + 3] as u32)
}

/// Read the big-endian 64-bit integer at `s[i..i+8]`.
pub fn read_be_u64(s: &Vec<u8>, i: usize) -> (r: u64)
    requires
        i + 8 <= s@.len(),
    ensures
        r == be_u64(s@, i as int),
{
    let end: usize = s.len();
    assert(i + 8 <= end);
    ((s[i] as u64) << 56) | ((s[i + 1] as u64) << 48) | ((s[i + 2] as u64) << 40)
        | ((s[i + 3] as u64) << 32) | ((s[i + 4] as u64) << 24) | ((s[i + 5] as u64) << 16)
        | ((s[i + 6] as u64) << 8) | (s[i + 7] as u64)
}

/// Reinterpret an unsigned 64-bit bit pattern as the signed value it encodes
/// in two's complement.
pub fn decode_i64(n: u64) -> (r: i64)
    ensures
        r == i64_from_bits(n),
{
    if n < 0x8000_0000_0000_0000 {
        n as i64
    } else {
        -((0xFFFF_FFFF_FFFF_FFFFu64 - n) as i64) - 1
    }
}

/// The two's-complement bit pattern of a signed 64-bit value.
pub fn encode_i64(x: i64) -> (r: u64)
    ensures
        r == bits_from_i64(x),
{
    if x >= 0 {
        x as u64
    } else {
        0xFFFF_FFFF_FFFF_FFFFu64 - ((-(x + 1)) as u64)
    }
}

/// The eight big-endian bytes of `n`, as a fresh buffer.
pub fn be_u64_vec(n: u64) -> (r: Vec<u8>)
    ensures
        r@ == be_bytes_u64(n),
{
    proof {
        lemma_byte_masks_bounded();
    }
    let mut out: Vec<u8> = Vec::new();
    out.push(((n >> 56u64) & 0xff) as u8);
    out.push(((n >> 48u64) & 0xff) as u8);
    out.push(((n >> 40u64) & 0xff) as u8);
    out.push(((n >> 32u64) & 0xff) as u8);
    out.push(((n >> 24u64) & 0xff) as u8);
    out.push(((n >> 16u64) & 0xff) as u8);
    out.push(((n >> 8u64) & 0xff) as u8);
    out.push((n & 0xff) as u8);
    assert(out@ =~= be_bytes_u64(n));
    out
}

/// Masking any 64-bit value down to its low byte leaves a value below 256.
proof fn lemma_byte_masks_bounded()
    by (bit_vector)
    ensures
        forall|x: u64| #[trigger] (x & 0xff) < 256,
{
}

} // verus!
