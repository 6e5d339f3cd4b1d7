//! Little-endian unsigned integers stored in a byte sequence.
//!
//! The value of a field is defined arithmetically: the first byte is the
//! least significant one and each following byte weighs 256 times more.

use vstd::prelude::*;

verus! {

/// Value of the two-byte little-endian field that starts at `offset`.
pub open spec fn le_u16_at(bytes: Seq<u8>, offset: int) -> int
    recommends
        0 <= offset,
        offset + 2 <= bytes.len(),
{
    bytes[offset] + 0x100 * bytes[offset + 1]
}

/// Value of the four-byte little-endian field that starts at `offset`.
pub open spec fn le_u32_at(bytes: Seq<u8>, offset: int) -> int
    recommends
        0 <= offset,
        offset + 4 <= bytes.len(),
{
    bytes[offset] + 0x100 * bytes[offset + 1] + 0x1_0000 * bytes[offset + 2] + 0x100_0000
        * bytes[offset + 3]
}

/// Shifting the high byte into place and or-ing in the low byte is the same as
/// weighing the two bytes by powers of 256.
pub proof fn lemma_assemble_u16(b0: u8, b1: u8)
    ensures
        ((b0 as u16) | ((b1 as u16) << 8)) == b0 + 0x100 * b1,
{
    assert(((b0 as u16) | ((b1 as u16) << 8)) == b0 + 0x100 * b1) by (bit_vector);
}

/// The four-byte counterpart of [`lemma_assemble_u16`].
pub proof fn lemma_assemble_u32(b0: u8, b1: u8, b2: u8, b3: u8)
    ensures
        ((b0 as u32) | ((b1 as u32) << 8) | ((b2 as u32) << 16) | ((b3 as u32) << 24)) == b0
            + 0x100 * b1 + 0x1_0000 * b2 + 0x100_0000 * b3,
{
    assert(((b0 as u32) | ((b1 as u32) << 8) | ((b2 as u32) << 16) | ((b3 as u32) << 24)) == b0
        + 0x100 * b1 + 0x1_0000 * b2 + 0x100_0000 * b3) by (bit_vector);
}

/// A two-byte field fits in 16 bits, and its bytes are the base-256 digits of
/// its value, least significant first.
pub proof fn lemma_le_u16_digits(bytes: Seq<u8>, offset: int)
    requires
        0 <= offset,
        offset + 2 <= bytes.len(),
    ensures
        0 <= le_u16_at(bytes, offset) <= u16::MAX,
        le_u16_at(bytes, offset) % 0x100 == bytes[offset],
        le_u16_at(bytes, offset) / 0x100 == bytes[offset + 1],
{
    let b0 = bytes[offset];
    let b1 = bytes[offset + 1];
    let v: u16 = (b0 as u16) | ((b1 as u16) << 8);
    lemma_assemble_u16(b0, b1);
    assert(v % 0x100 == b0 && v / 0x100 == b1) by (bit_vector)
        requires
            v == (b0 as u16) | ((b1 as u16) << 8),
    ;
}

/// A four-byte field fits in 32 bits, and its bytes are the base-256 digits of
/// its value, least significant first.
pub proof fn lemma_le_u32_digits(bytes: Seq<u8>, offset: int)
    requires
        0 <= offset,
        offset + 4 <= bytes.len(),
    ensures
        0 <= le_u32_at(bytes, offset) <= u32::MAX,
        le_u32_at(bytes, offset) % 0x100 == bytes[offset],
        le_u32_at(bytes, offset) / 0x100 % 0x100 == bytes[offset + 1],
        le_u32_at(bytes, offset) / 0x1_0000 % 0x100 == bytes[offset + 2],
        le_u32_at(bytes, offset) / 0x100_0000 == bytes[offset + 3],
{
    let b0 = bytes[offset];
    let b1 = bytes[offset + 1];
    let b2 = bytes[offset + 2];
    let b3 = bytes[offset + 3];
    let v: u32 = (b0 as u32) | ((b1 as u32) << 8) | ((b2 as u32) << 16) | ((b3 as u32) << 24);
    lemma_assemble_u32(b0, b1, b2, b3);
    assert(v % 0x100 == b0 && v / 0x100 % 0x100 == b1 && v / 0x1_0000 % 0x100 == b2 && v
        / 0x100_0000 == b3) by (bit_vector)
        requires
            v == (b0 as u32) | ((b1 as u32) << 8) | ((b2 as u32) << 16) | ((b3 as u32) << 24),
    ;
}

/// Reads the two-byte little-endian integer at `offset`.
pub fn read_u16_le(data: &[u8], offset: usize) -> (value: u16)
    requires
        offset + 2 <= data@.len(),
    ensures
        value == le_u16_at(data@, offset as int),
{
    let b0: u8 = data[offset];
    let b1: u8 = data[offset + 1];
    proof {
        lemma_assemble_u16(b0, b1);
    }
    (b0 as u16) | ((b1 as u16) << 8)
}

/// Reads the four-byte little-endian integer at `offset`.
pub fn read_u32_le(data: &[u8], offset: usize) -> (value: u32)
    requires
        offset + 4 <= data@.len(),
    ensures
        value == le_u32_at(data@, offset as int),
{
    let b0: u8 = data[offset];
    let b1: u8 = data[offset + 1];
    let b2: u8 = data[offset + 2];
    let b3: u8 = data[offset + 3];
    proof {
        lemma_assemble_u32(b0, b1, b2, b3);
    }
    (b0 as u32) | ((b1 as u32) << 8) | ((b2 as u32) << 16) | ((b3 as u32) << 24)
}

} // verus!
