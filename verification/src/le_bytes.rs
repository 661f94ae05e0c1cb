//! Little-endian layouts of the integer widths that occur in a WAVE stream.
//!
//! Each width has a pair of spec functions, stated by division and remainder,
//! and a pair of executable functions that compute them. Signed values are laid
//! out in two's complement.

use vstd::prelude::*;

verus! {

/// The two bytes of `x`, least significant first.
pub open spec fn u16_le(x: u16) -> Seq<u8> {
    seq![(x % 256) as u8, (x / 256) as u8]
}

/// The value whose least significant byte is `b[0]`.
pub open spec fn u16_from_le(b: Seq<u8>) -> u16
    recommends
        b.len() == 2,
{
    (b[0] + 256 * b[1]) as u16
}

/// The four bytes of `x`, least significant first.
pub open spec fn u32_le(x: u32) -> Seq<u8> {
    seq![
        (x % 256) as u8,
        (x / 256 % 256) as u8,
        (x / 65536 % 256) as u8,
        (x / 16777216) as u8,
    ]
}

/// The value whose least significant byte is `b[0]`.
pub open spec fn u32_from_le(b: Seq<u8>) -> u32
    recommends
        b.len() == 4,
{
    (b[0] + 256 * b[1] + 65536 * b[2] + 16777216 * b[3]) as u32
}

/// The bit pattern of `x` in two's complement, read as an unsigned value.
pub open spec fn i16_bits(x: i16) -> u16 {
    if x < 0 {
        (x + 65536) as u16
    } else {
        x as u16
    }
}

/// The signed value that the bit pattern `u` stands for.
pub open spec fn i16_of_bits(u: u16) -> i16 {
    if u >= 32768 {
        (u - 65536) as i16
    } else {
        u as i16
    }
}

/// The bit pattern of `x` in two's complement, read as an unsigned value.
pub open spec fn i32_bits(x: i32) -> u32 {
    if x < 0 {
        (x + 4294967296) as u32
    } else {
        x as u32
    }
}

/// The signed value that the bit pattern `u` stands for.
pub open spec fn i32_of_bits(u: u32) -> i32 {
    if u >= 2147483648 {
        (u - 4294967296) as i32
    } else {
        u as i32
    }
}

/// The two bytes of `x` in two's complement, least significant first.
pub open spec fn i16_le(x: i16) -> Seq<u8> {
    u16_le(i16_bits(x))
}

/// The signed value of two little-endian bytes.
pub open spec fn i16_from_le(b: Seq<u8>) -> i16
    recommends
        b.len() == 2,
{
    i16_of_bits(u16_from_le(b))
}

/// The four bytes of `x` in two's complement, least significant first.
pub open spec fn i32_le(x: i32) -> Seq<u8> {
    u32_le(i32_bits(x))
}

/// The signed value of four little-endian bytes.
pub open spec fn i32_from_le(b: Seq<u8>) -> i32
    recommends
        b.len() == 4,
{
    i32_of_bits(u32_from_le(b))
}

/// Lays `x` out in two bytes.
pub fn u16_to_le_bytes(x: u16) -> (b: [u8; 2])
    ensures
        b@ == u16_le(x),
{
    let b: [u8; 2] = [(x % 256) as u8, (x / 256) as u8];
    assert(b@ =~= u16_le(x));
    b
}

/// Reads two bytes as an unsigned value.
pub fn u16_from_le_bytes(b: [u8; 2]) -> (x: u16)
    ensures
        x == u16_from_le(b@),
{
    b[0] as u16 + 256 * (b[1] as u16)
}

/// Lays `x` out in four bytes.
pub fn u32_to_le_bytes(x: u32) -> (b: [u8; 4])
    ensures
        b@ == u32_le(x),
{
    let b: [u8; 4] = [
        (x % 256) as u8,
        (x / 256 % 256) as u8,
        (x / 65536 % 256) as u8,
        (x / 16777216) as u8,
    ];
    assert(b@ =~= u32_le(x));
    b
}

/// Reads four bytes as an unsigned value.
pub fn u32_from_le_bytes(b: [u8; 4]) -> (x: u32)
    ensures
        x == u32_from_le(b@),
{
    b[0] as u32 + 256 * (b[1] as u32) + 65536 * (b[2] as u32) + 16777216 * (b[3] as u32)
}

/// Lays `x` out in two bytes, in two's complement.
pub fn i16_to_le_bytes(x: i16) -> (b: [u8; 2])
    ensures
        b@ == i16_le(x),
{
    let bits: u16 = if x < 0 {
        (x as i32 + 65536) as u16
    } else {
        x as u16
    };
    u16_to_le_bytes(bits)
}

/// Reads two bytes as a signed value in two's complement.
pub fn i16_from_le_bytes(b: [u8; 2]) -> (x: i16)
    ensures
        x == i16_from_le(b@),
{
    let bits: u16 = u16_from_le_bytes(b);
    if bits >= 32768 {
        (bits as i32 - 65536) as i16
    } else {
        bits as i16
    }
}

/// Lays `x` out in four bytes, in two's complement.
pub fn i32_to_le_bytes(x: i32) -> (b: [u8; 4])
    ensures
        b@ == i32_le(x),
{
    let bits: u32 = if x < 0 {
        (x as i64 + 4294967296) as u32
    } else {
        x as u32
    };
    u32_to_le_bytes(bits)
}

/// Reads four bytes as a signed value in two's complement.
pub fn i32_from_le_bytes(b: [u8; 4]) -> (x: i32)
    ensures
        x == i32_from_le(b@),
{
    let bits: u32 = u32_from_le_bytes(b);
    if bits >= 2147483648 {
        (bits as i64 - 4294967296) as i32
    } else {
        bits as i32
    }
}

/// Reading back what was laid out gives the value again.
pub proof fn lemma_u16_value_roundtrip(x: u16)
    ensures
        u16_le(x).len() == 2,
        u16_from_le(u16_le(x)) == x,
{
}

/// Laying out what was read gives the two bytes again.
pub proof fn lemma_u16_bytes_roundtrip(b: Seq<u8>)
    requires
        b.len() == 2,
    ensures
        u16_le(u16_from_le(b)) == b,
{
    assert(u16_le(u16_from_le(b)) =~= b);
}

/// Reading back what was laid out gives the value again.
pub proof fn lemma_u32_value_roundtrip(x: u32)
    ensures
        u32_le(x).len() == 4,
        u32_from_le(u32_le(x)) == x,
{
}

/// Laying out what was read gives the four bytes again.
pub proof fn lemma_u32_bytes_roundtrip(b: Seq<u8>)
    requires
        b.len() == 4,
    ensures
        u32_le(u32_from_le(b)) == b,
{
    let x = u32_from_le(b);
    let upper = b[1] + 256 * b[2] + 65536 * b[3];
    assert(x == 256 * upper + b[0]);
    assert(x % 256 == b[0] && x / 256 == upper);
    let top = b[2] + 256 * b[3];
    assert(upper == 256 * top + b[1]);
    assert(upper % 256 == b[1] && upper / 256 == top);
    assert(x / 65536 == top);
    assert(top % 256 == b[2] && top / 256 == b[3]);
    assert(x / 16777216 == b[3]);
    assert(u32_le(x) =~= b);
}

/// Reading back what was laid out gives the value again.
pub proof fn lemma_i16_value_roundtrip(x: i16)
    ensures
        i16_le(x).len() == 2,
        i16_from_le(i16_le(x)) == x,
{
    lemma_u16_value_roundtrip(i16_bits(x));
}

/// Laying out what was read gives the two bytes again.
pub proof fn lemma_i16_bytes_roundtrip(b: Seq<u8>)
    requires
        b.len() == 2,
    ensures
        i16_le(i16_from_le(b)) == b,
{
    lemma_u16_bytes_roundtrip(b);
}

/// Reading back what was laid out gives the value again.
pub proof fn lemma_i32_value_roundtrip(x: i32)
    ensures
        i32_le(x).len() == 4,
        i32_from_le(i32_le(x)) == x,
{
    lemma_u32_value_roundtrip(i32_bits(x));
}

/// Laying out what was read gives the four bytes again.
pub proof fn lemma_i32_bytes_roundtrip(b: Seq<u8>)
    requires
        b.len() == 4,
    ensures
        i32_le(i32_from_le(b)) == b,
{
    lemma_u32_bytes_roundtrip(b);
}

} // verus!
