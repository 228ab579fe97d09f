use vstd::prelude::*;

verus! {

/// The unsigned integer denoted by four bytes in little-endian order.
pub open spec fn spec_le32(s: Seq<u8>) -> int
    recommends
        s.len() == 4,
{
    s[0] + s[1] * 0x100 + s[2] * 0x1_0000 + s[3] * 0x100_0000
}

/// The unsigned integer denoted by eight bytes in little-endian order.
pub open spec fn spec_le64(s: Seq<u8>) -> int
    recommends
        s.len() == 8,
{
    s[0] + s[1] * 0x100 + s[2] * 0x1_0000 + s[3] * 0x100_0000 + s[4] * 0x1_0000_0000 + s[5]
        * 0x100_0000_0000 + s[6] * 0x1_0000_0000_0000 + s[7] * 0x100_0000_0000_0000
}

/// Reads the four bytes at `off` as one little-endian 32-bit pattern.
pub fn bits32_from_le_bytes(data: &[u8], off: usize) -> (r: u32)
    requires
        off + 4 <= data@.len(),
    ensures
        r == spec_le32(data@.subrange(off as int, off as int + 4)),
{
    let b0 = data[off] as u32;
    let b1 = data[off + 1] as u32;
    let b2 = data[off + 2] as u32;
    let b3 = data[off + 3] as u32;
    b0 + b1 * 0x100 + b2 * 0x1_0000 + b3 * 0x100_0000
}

/// Reads the eight bytes at `off` as one little-endian 64-bit pattern.
pub fn bits64_from_le_bytes(data: &[u8], off: usize) -> (r: u64)
    requires
        off + 8 <= data@.len(),
    ensures
        r == spec_le64(data@.subrange(off as int, off as int + 8)),
{
    let b0 = data[off] as u64;
    let b1 = data[off + 1] as u64;
    let b2 = data[off + 2] as u64;
    let b3 = data[off + 3] as u64;
    let b4 = data[off + 4] as u64;
    let b5 = data[off + 5] as u64;
    let b6 = data[off + 6] as u64;
    let b7 = data[off + 7] as u64;
    b0 + b1 * 0x100 + b2 * 0x1_0000 + b3 * 0x100_0000 + b4 * 0x1_0000_0000 + b5 * 0x100_0000_0000
        + b6 * 0x1_0000_0000_0000 + b7 * 0x100_0000_0000_0000
}

/// True exactly when `b` is the bit pattern of an IEEE-754 single-precision
/// NaN: exponent field all ones and a non-zero significand field.
pub open spec fn spec_is_nan32(b: u32) -> bool {
    (b >> 23) & 0xff == 0xff && b & 0x7f_ffff != 0
}

/// True exactly when `b` is the bit pattern of an IEEE-754 double-precision
/// NaN: exponent field all ones and a non-zero significand field.
pub open spec fn spec_is_nan64(b: u64) -> bool {
    (b >> 52) & 0x7ff == 0x7ff && b & 0xf_ffff_ffff_ffff != 0
}

/// Whether a 32-bit pattern denotes a NaN.
pub fn is_nan32(b: u32) -> (r: bool)
    ensures
        r == spec_is_nan32(b),
{
    (b >> 23) & 0xff == 0xff && b & 0x7f_ffff != 0
}

/// Whether a 64-bit pattern denotes a NaN.
pub fn is_nan64(b: u64) -> (r: bool)
    ensures
        r == spec_is_nan64(b),
{
    (b >> 52) & 0x7ff == 0x7ff && b & 0xf_ffff_ffff_ffff != 0
}

} // verus!
