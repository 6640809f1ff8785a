//! Big-endian ("network order") integers on the wire, read and written
//! with `byteorder::NetworkEndian`.
use vstd::prelude::*;
use byteorder::{ByteOrder, NetworkEndian};

verus! {

/// The unsigned 16-bit integer whose big-endian bytes start `s`.
pub open spec fn be_u16(s: Seq<u8>) -> u16
    recommends
        s.len() >= 2,
{
    ((s[0] as u16) << 8u16) | (s[1] as u16)
}

/// The unsigned 32-bit integer whose big-endian bytes start `s`.
pub open spec fn be_u32(s: Seq<u8>) -> u32
    recommends
        s.len() >= 4,
{
    ((s[0] as u32) << 24u32) | ((s[1] as u32) << 16u32) | ((s[2] as u32) << 8u32) | (s[3] as u32)
}

/// The signed 32-bit integer (two's complement) whose big-endian bytes start `s`.
pub open spec fn be_i32(s: Seq<u8>) -> i32
    recommends
        s.len() >= 4,
{
    be_u32(s) as i32
}

/// The unsigned 64-bit integer whose big-endian bytes start `s`.
pub open spec fn be_u64(s: Seq<u8>) -> u64
    recommends
        s.len() >= 8,
{
    ((s[0] as u64) << 56u64) | ((s[1] as u64) << 48u64) | ((s[2] as u64) << 40u64) | ((s[3] as u64)
        << 32u64) | ((s[4] as u64) << 24u64) | ((s[5] as u64) << 16u64) | ((s[6] as u64) << 8u64)
        | (s[7] as u64)
}

/// The signed 64-bit integer (two's complement) whose big-endian bytes start `s`.
pub open spec fn be_i64(s: Seq<u8>) -> i64
    recommends
        s.len() >= 8,
{
    be_u64(s) as i64
}

/// The eight big-endian bytes of `n` (two's complement).
pub open spec fn i64_be_bytes(n: i64) -> Seq<u8> {
    let u = n as u64;
    seq![
        (u >> 56u64) as u8,
        (u >> 48u64) as u8,
        (u >> 40u64) as u8,
        (u >> 32u64) as u8,
        (u >> 24u64) as u8,
        (u >> 16u64) as u8,
        (u >> 8u64) as u8,
        u as u8,
    ]
}

/// Reading back the bytes that `i64_be_bytes` writes gives the number.
pub proof fn lemma_i64_be_roundtrip(n: i64)
    ensures
        i64_be_bytes(n).len() == 8,
        be_i64(i64_be_bytes(n)) == n,
{
    let u = n as u64;
    let b0 = (u >> 56u64) as u8;
    let b1 = (u >> 48u64) as u8;
    let b2 = (u >> 40u64) as u8;
    let b3 = (u >> 32u64) as u8;
    let b4 = (u >> 24u64) as u8;
    let b5 = (u >> 16u64) as u8;
    let b6 = (u >> 8u64) as u8;
    let b7 = u as u8;
    assert(((b0 as u64) << 56u64) | ((b1 as u64) << 48u64) | ((b2 as u64) << 40u64) | ((b3 as u64)
        << 32u64) | ((b4 as u64) << 24u64) | ((b5 as u64) << 16u64) | ((b6 as u64) << 8u64) | (
    b7 as u64) == u) by (bit_vector)
        requires
            b0 == (u >> 56u64) as u8,
            b1 == (u >> 48u64) as u8,
            b2 == (u >> 40u64) as u8,
            b3 == (u >> 32u64) as u8,
            b4 == (u >> 24u64) as u8,
            b5 == (u >> 16u64) as u8,
            b6 == (u >> 8u64) as u8,
            b7 == u as u8,
    ;
    assert((u as i64) == n) by (bit_vector)
        requires
            u == n as u64,
    ;
    let s = i64_be_bytes(n);
    assert(s[0] == b0 && s[1] == b1 && s[2] == b2 && s[3] == b3);
    assert(s[4] == b4 && s[5] == b5 && s[6] == b6 && s[7] == b7);
}

/// Writing the number that eight bytes encode gives back those bytes.
pub proof fn lemma_be_i64_bytes_roundtrip(s: Seq<u8>)
    requires
        s.len() == 8,
    ensures
        i64_be_bytes(be_i64(s)) == s,
{
    let b0 = s[0];
    let b1 = s[1];
    let b2 = s[2];
    let b3 = s[3];
    let b4 = s[4];
    let b5 = s[5];
    let b6 = s[6];
    let b7 = s[7];
    let u = be_u64(s);
    assert(u == ((b0 as u64) << 56u64) | ((b1 as u64) << 48u64) | ((b2 as u64) << 40u64) | ((
    b3 as u64) << 32u64) | ((b4 as u64) << 24u64) | ((b5 as u64) << 16u64) | ((b6 as u64)
        << 8u64) | (b7 as u64));
    assert({
        &&& (u >> 56u64) as u8 == b0
        &&& (u >> 48u64) as u8 == b1
        &&& (u >> 40u64) as u8 == b2
        &&& (u >> 32u64) as u8 == b3
        &&& (u >> 24u64) as u8 == b4
        &&& (u >> 16u64) as u8 == b5
        &&& (u >> 8u64) as u8 == b6
        &&& u as u8 == b7
    }) by (bit_vector)
        requires
            u == ((b0 as u64) << 56u64) | ((b1 as u64) << 48u64) | ((b2 as u64) << 40u64) | ((
            b3 as u64) << 32u64) | ((b4 as u64) << 24u64) | ((b5 as u64) << 16u64) | ((b6 as u64)
                << 8u64) | (b7 as u64),
    ;
    let n = be_i64(s);
    assert((n as u64) == u) by (bit_vector)
        requires
            n == u as i64,
    ;
    assert(i64_be_bytes(n) =~= s);
}

/// `NetworkEndian::read_u16`.  Claimed: the big-endian `u16` in the first
/// two bytes (it panics on fewer, which `requires` rules out).
#[verifier::external_body]
pub fn read_be_u16(buf: &[u8]) -> (n: u16)
    requires
        buf@.len() >= 2,
    ensures
        n == be_u16(buf@),
{
    NetworkEndian::read_u16(buf)
}

/// `NetworkEndian::read_i32`.  Claimed: the big-endian `i32` in the first
/// four bytes (it panics on fewer, which `requires` rules out).
#[verifier::external_body]
pub fn read_be_i32(buf: &[u8]) -> (n: i32)
    requires
        buf@.len() >= 4,
    ensures
        n == be_i32(buf@),
{
    NetworkEndian::read_i32(buf)
}

/// `NetworkEndian::read_i64`.  Claimed: the big-endian `i64` in the first
/// eight bytes (it panics on fewer, which `requires` rules out).
#[verifier::external_body]
pub fn read_be_i64(buf: &[u8]) -> (n: i64)
    requires
        buf@.len() >= 8,
    ensures
        n == be_i64(buf@),
{
    NetworkEndian::read_i64(buf)
}

/// `NetworkEndian::write_i64` into an eight-byte array.  Claimed: the array
/// holds the big-endian bytes of `n`.
#[verifier::external_body]
pub fn write_be_i64(n: i64) -> (bytes: [u8; 8])
    ensures
        bytes@ == i64_be_bytes(n),
{
    let mut bytes = [0u8; 8];
    NetworkEndian::write_i64(&mut bytes, n);
    bytes
}

} // verus!
