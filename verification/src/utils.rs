//! Byte and double-byte helpers shared by the register operations and the
//! instruction catalog.

use vstd::prelude::*;

verus! {

/// The 16-bit value that a big-endian register pair holds.
pub open spec fn pair_value(high: u8, low: u8) -> int {
    high * 256 + low
}

/// The value of a byte read as a two's-complement displacement.
pub open spec fn sign_extended(value: u8) -> int {
    if value < 128 {
        value as int
    } else {
        value - 256
    }
}

/// Splits a byte into its high and low nibble.
pub fn nibbles(byte: u8) -> (r: (u8, u8))
    ensures
        r.0 == byte / 16,
        r.1 == byte % 16,
{
    let high = (byte & 0xF0) >> 4;
    let low = byte & 0x0F;
    proof {
        assert((byte & 0xF0) >> 4 == byte / 16 && byte & 0x0F == byte % 16) by (bit_vector);
    }
    (high, low)
}

/// Joins a high and a low byte into the 16-bit value they spell big-endian.
pub fn combine_to_double_byte(high_byte: u8, low_byte: u8) -> (r: u16)
    ensures
        r == pair_value(high_byte, low_byte),
{
    let high = (high_byte as u16) << 8;
    let r = high | low_byte as u16;
    proof {
        assert(((high_byte as u16) << 8) | low_byte as u16 == high_byte * 256 + low_byte)
            by (bit_vector);
    }
    r
}

/// Splits a 16-bit value into its high and low byte.
pub fn split_double_byte(value: u16) -> (r: (u8, u8))
    ensures
        r.0 == value / 256,
        r.1 == value % 256,
{
    let high = ((value & 0xFF00).wrapping_shr(8)) as u8;
    let low = (value & 0x00FF) as u8;
    proof {
        assert(((value & 0xFF00) >> (8u32 % 16)) as u8 == value / 256
            && (value & 0x00FF) as u8 == value % 256) by (bit_vector);
    }
    (high, low)
}

/// Reads a byte as a signed 8-bit displacement.
pub fn signed(value: u8) -> (r: i8)
    ensures
        r == sign_extended(value),
{
    let r = value as i8;
    proof {
        assert(value as i8 == if value < 128 {
            value as int
        } else {
            value - 256
        }) by (bit_vector);
    }
    r
}

} // verus!
