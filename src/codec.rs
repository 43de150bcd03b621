//! Primitive decoders for the sensor's register payloads.
use vstd::prelude::*;

verus! {

/// The little-endian unsigned 16-bit integer at `at` in `b`.
pub open spec fn spec_u16_le(b: Seq<u8>, at: int) -> u16 {
    (b[at] + 256 * b[at + 1]) as u16
}

/// The little-endian unsigned 32-bit integer at `at` in `b`.
pub open spec fn spec_u32_le(b: Seq<u8>, at: int) -> u32 {
    (b[at] + 256 * b[at + 1] + 65536 * b[at + 2] + 16777216 * b[at + 3]) as u32
}

/// The two's complement signed value of a byte.
pub open spec fn spec_i8(byte: u8) -> int {
    if byte < 128 {
        byte as int
    } else {
        byte - 256
    }
}

/// Reads a little-endian unsigned 16-bit integer at `at`.
pub fn read_u16_le(bytes: &[u8], at: usize) -> (r: u16)
    requires
        at + 2 <= bytes@.len(),
    ensures
        r == spec_u16_le(bytes@, at as int),
        r as int == bytes@[at as int] + 256 * bytes@[at + 1],
{
    bytes[at] as u16 + (bytes[at + 1] as u16) * 256
}

/// Reads a little-endian unsigned 32-bit integer at `at`.
pub fn read_u32_le(bytes: &[u8], at: usize) -> (r: u32)
    requires
        at + 4 <= bytes@.len(),
    ensures
        r == spec_u32_le(bytes@, at as int),
        r as int == bytes@[at as int] + 256 * bytes@[at + 1] + 65536 * bytes@[at + 2]
            + 16777216 * bytes@[at + 3],
{
    bytes[at] as u32 + (bytes[at + 1] as u32) * 256 + (bytes[at + 2] as u32) * 65536 + (
    bytes[at + 3] as u32) * 16777216
}

/// Reads a byte as a two's complement signed integer.
pub fn read_i8(byte: u8) -> (r: i32)
    ensures
        r as int == spec_i8(byte),
{
    if byte < 128 {
        byte as i32
    } else {
        byte as i32 - 256
    }
}

/// A two-part fixed-point reading: an integer part and a fractional byte
/// counted in tenths. Its value is `integer + fraction / 10`.
#[derive(Debug, Clone, Copy, PartialEq, Eq, Structural)]
pub struct FixedPoint {
    pub integer: i32,
    pub fraction: u8,
}

impl FixedPoint {
    /// The value of the reading, counted in tenths.
    pub open spec fn tenths(self) -> int {
        self.integer * 10 + self.fraction
    }

    /// Recombines an integer part and a fractional byte.
    pub fn from_parts(integer: i32, fraction: u8) -> (r: FixedPoint)
        ensures
            r == (FixedPoint { integer, fraction }),
            r.tenths() == integer * 10 + fraction,
    {
        FixedPoint { integer, fraction }
    }

    /// The value of the reading, counted in tenths.
    pub fn to_tenths(&self) -> (r: i64)
        ensures
            r == self.tenths(),
    {
        self.integer as i64 * 10 + self.fraction as i64
    }
}

/// The fixed-point reading made of a signed integer byte and a fraction byte.
pub open spec fn spec_fixed_i8(int_byte: u8, fraction: u8) -> FixedPoint {
    FixedPoint { integer: spec_i8(int_byte) as i32, fraction }
}

/// The fixed-point reading made of an unsigned integer byte and a fraction byte.
pub open spec fn spec_fixed_u8(int_byte: u8, fraction: u8) -> FixedPoint {
    FixedPoint { integer: int_byte as i32, fraction }
}

/// The fixed-point reading made of a little-endian unsigned 16-bit integer
/// at `at` and the fraction byte after it.
pub open spec fn spec_fixed_u16(b: Seq<u8>, at: int) -> FixedPoint {
    FixedPoint { integer: spec_u16_le(b, at) as i32, fraction: b[at + 2] }
}

/// Decodes a signed integer byte followed by a fraction byte.
pub fn fixed_i8(bytes: &[u8], at: usize) -> (r: FixedPoint)
    requires
        at + 2 <= bytes@.len(),
    ensures
        r == spec_fixed_i8(bytes@[at as int], bytes@[at + 1]),
{
    FixedPoint::from_parts(read_i8(bytes[at]), bytes[at + 1])
}

/// Decodes an unsigned integer byte followed by a fraction byte.
pub fn fixed_u8(bytes: &[u8], at: usize) -> (r: FixedPoint)
    requires
        at + 2 <= bytes@.len(),
    ensures
        r == spec_fixed_u8(bytes@[at as int], bytes@[at + 1]),
{
    FixedPoint::from_parts(bytes[at] as i32, bytes[at + 1])
}

/// Decodes a little-endian unsigned 16-bit integer followed by a fraction byte.
pub fn fixed_u16(bytes: &[u8], at: usize) -> (r: FixedPoint)
    requires
        at + 3 <= bytes@.len(),
    ensures
        r == spec_fixed_u16(bytes@, at as int),
{
    let integer = read_u16_le(bytes, at);
    let end = bytes.len();
    assert(at + 2 < end);
    FixedPoint::from_parts(integer as i32, bytes[at + 2])
}

/// Every two-part fixed-point decode recombines to exactly
/// `integer_part + fraction / 10`, whatever the width and signedness of the
/// integer part: its value in tenths is ten times the integer part plus the
/// fraction byte.
pub proof fn lemma_fixed_point_value(b: Seq<u8>, at: int)
    requires
        0 <= at,
        at + 3 <= b.len(),
    ensures
        spec_fixed_i8(b[at], b[at + 1]).tenths() == spec_i8(b[at]) * 10 + b[at + 1],
        spec_fixed_u8(b[at], b[at + 1]).tenths() == b[at] * 10 + b[at + 1],
        spec_fixed_u16(b, at).tenths() == (b[at] + 256 * b[at + 1]) * 10 + b[at + 2],
{
}

} // verus!
