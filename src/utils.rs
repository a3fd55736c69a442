//! Byte and address helpers: little-endian address assembly and packed BCD.
use vstd::prelude::*;

verus! {

/// Reduces an integer to a 16-bit address, wrapping modulo 2^16.
pub open spec fn wrap16(v: int) -> u16 {
    (v % 0x10000) as u16
}

/// Reduces an integer to a byte, wrapping modulo 2^8.
pub open spec fn wrap8(v: int) -> u8 {
    (v % 0x100) as u8
}

/// The address `msb:lsb` advanced by `offset`, wrapping within 64 KiB.
pub open spec fn combine_spec(lsb: u8, msb: u8, offset: u8) -> u16 {
    wrap16(msb as int * 256 + lsb as int + offset as int)
}

/// The value of a byte read as two packed decimal digits (each nibble may
/// exceed 9, in which case it simply counts as that many units).
pub open spec fn from_bcd_spec(v: u8) -> int {
    (v as int / 16) * 10 + v as int % 16
}

/// The packed two-digit decimal form of a value below 100.
pub open spec fn to_bcd_spec(v: u8) -> u8
    recommends
        v < 100,
{
    ((v as int / 10) * 16 + v as int % 10) as u8
}

/// Forms the address `msb:lsb` and adds `offset` to it, wrapping at 2^16.
pub fn combine(lsb: u8, msb: u8, offset: u8) -> (r: u16)
    ensures
        r == combine_spec(lsb, msb, offset),
{
    let without_offset: u16 = (msb as u16) * 256 + (lsb as u16);
    without_offset.wrapping_add(offset as u16)
}

/// Reads a byte as two packed decimal digits.
pub fn from_bcd(value: u8) -> (r: u8)
    ensures
        r as int == from_bcd_spec(value),
        r <= 165,
{
    let lower: u8 = value % 16;
    let upper: u8 = value / 16;
    upper * 10 + lower
}

/// Packs a value below 100 as two decimal digits.
pub fn to_bcd(value: u8) -> (r: u8)
    requires
        value < 100,
    ensures
        r == to_bcd_spec(value),
        r / 16 == value / 10,
        r % 16 == value % 10,
{
    let lower: u8 = value % 10;
    let upper: u8 = value / 10;
    upper * 16 + lower
}

} // verus!
