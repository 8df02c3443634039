use vstd::prelude::*;

verus! {

/// Bit `index` of `byte`, counted from the most significant bit: index 0 is
/// bit 7, index 7 is bit 0. The result is 0 or 1.
pub open spec fn bit_from_top(byte: u8, index: int) -> u8 {
    (byte >> ((7 - index) as u8)) & 1
}

/// Returns the bits of a `u8` as an array, most significant bit first.
pub fn get_as_bits(byte: u8) -> (bits: [u8; 8])
    ensures
        forall|i: int| 0 <= i < 8 ==> bits[i] == bit_from_top(byte, i),
        forall|i: int| 0 <= i < 8 ==> bits[i] <= 1,
{
    let mut bits: [u8; 8] = [0; 8];
    bits[0] = (byte & 0b1000_0000) >> 7;
    bits[1] = (byte & 0b0100_0000) >> 6;
    bits[2] = (byte & 0b0010_0000) >> 5;
    bits[3] = (byte & 0b0001_0000) >> 4;
    bits[4] = (byte & 0b0000_1000) >> 3;
    bits[5] = (byte & 0b0000_0100) >> 2;
    bits[6] = (byte & 0b0000_0010) >> 1;
    bits[7] = byte & 0b0000_0001;
    assert({
        &&& (byte & 0b1000_0000) >> 7 == (byte >> 7u8) & 1
        &&& (byte & 0b0100_0000) >> 6 == (byte >> 6u8) & 1
        &&& (byte & 0b0010_0000) >> 5 == (byte >> 5u8) & 1
        &&& (byte & 0b0001_0000) >> 4 == (byte >> 4u8) & 1
        &&& (byte & 0b0000_1000) >> 3 == (byte >> 3u8) & 1
        &&& (byte & 0b0000_0100) >> 2 == (byte >> 2u8) & 1
        &&& (byte & 0b0000_0010) >> 1 == (byte >> 1u8) & 1
        &&& byte & 0b0000_0001 == (byte >> 0u8) & 1
        &&& forall|k: u8| k < 8 ==> #[trigger] ((byte >> k) & 1) <= 1
    }) by (bit_vector);
    bits
}

/// The 16-bit word with `high` in its upper byte and `low` in its lower.
pub open spec fn word(high: u8, low: u8) -> u16 {
    (high * 256 + low) as u16
}

/// A byte taken as a signed offset and extended to sixteen bits.
pub open spec fn sign_extended(offset: u8) -> u16 {
    if offset < 128 {
        offset as u16
    } else {
        (0xFF00 + offset) as u16
    }
}

/// Returns the top 4 bits of a `u8`.
pub fn get_upper_bits(byte: u8) -> (r: u8)
    ensures
        r == byte >> 4,
        r == byte / 16,
{
    assert((byte & 0b1111_0000) >> 4 == byte >> 4 && byte >> 4 == byte / 16) by (bit_vector);
    (byte & 0b1111_0000) >> 4
}

/// Returns the lower 4 bits of a `u8`.
pub fn get_lower_bits(byte: u8) -> (r: u8)
    ensures
        r == byte & 0x0F,
        r == byte % 16,
{
    assert(byte & 0b0000_1111 == byte % 16) by (bit_vector);
    byte & 0b0000_1111
}

/// Returns the top 8 bits of a `u16`.
pub fn get_upper_byte(data: u16) -> (r: u8)
    ensures
        r == data / 256,
{
    assert(data >> 8 == data / 256) by (bit_vector);
    (data >> 8) as u8
}

/// Returns the lower 8 bits of a `u16`.
pub fn get_lower_byte(data: u16) -> (r: u8)
    ensures
        r == data % 256,
{
    assert(data & 0x00FF == data % 256) by (bit_vector);
    (data & 0x00FF) as u8
}

/// Combines two `u8`s to create a new `u16`, `high` in the upper byte.
pub fn combine_bytes(high: u8, low: u8) -> (r: u16)
    ensures
        r == word(high, low),
{
    assert((high as u16) << 8 == high * 256) by (bit_vector);
    ((high as u16) << 8) + low as u16
}

/// Extends a signed 8-bit offset to sixteen bits.
pub fn sign_extend(offset: u8) -> (r: u16)
    ensures
        r == sign_extended(offset),
{
    if offset < 128 {
        offset as u16
    } else {
        0xFF00 + offset as u16
    }
}

} // verus!
