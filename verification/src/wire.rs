use vstd::prelude::*;

verus! {

/// The unsigned value of two little-endian bytes at `off`.
pub open spec fn spec_le16(b: Seq<u8>, off: int) -> int {
    b[off] + 0x100 * b[off + 1]
}

/// The unsigned value of four little-endian bytes at `off`.
pub open spec fn spec_le32(b: Seq<u8>, off: int) -> int {
    b[off] + 0x100 * b[off + 1] + 0x1_0000 * b[off + 2] + 0x100_0000 * b[off + 3]
}

/// Two's-complement reading of an unsigned 16-bit value.
pub open spec fn spec_signed16(v: int) -> int {
    if v < 0x8000 {
        v
    } else {
        v - 0x1_0000
    }
}

/// Two's-complement reading of an unsigned 32-bit value.
pub open spec fn spec_signed32(v: int) -> int {
    if v < 0x8000_0000 {
        v
    } else {
        v - 0x1_0000_0000
    }
}

/// The unsigned 32-bit pattern of a signed value.
pub open spec fn spec_unsigned32(v: int) -> int {
    if v >= 0 {
        v
    } else {
        v + 0x1_0000_0000
    }
}

/// Reads an unsigned 16-bit little-endian value.
pub fn le16_read(b: &[u8], off: usize) -> (r: u16)
    requires
        off + 2 <= b@.len(),
    ensures
        r == spec_le16(b@, off as int),
{
    let lo = b[off];
    let hi = b[off + 1];
    lo as u16 + 0x100 * hi as u16
}

/// Reads an unsigned 32-bit little-endian value.
pub fn le32_read(b: &[u8], off: usize) -> (r: u32)
    requires
        off + 4 <= b@.len(),
    ensures
        r == spec_le32(b@, off as int),
{
    let b0 = b[off] as u32;
    let b1 = b[off + 1] as u32;
    let b2 = b[off + 2] as u32;
    let b3 = b[off + 3] as u32;
    b0 + 0x100 * b1 + 0x1_0000 * b2 + 0x100_0000 * b3
}

/// Reads a signed 16-bit little-endian value.
pub fn i16_read(b: &[u8], off: usize) -> (r: i16)
    requires
        off + 2 <= b@.len(),
    ensures
        r == spec_signed16(spec_le16(b@, off as int)),
{
    let v = le16_read(b, off);
    if v < 0x8000 {
        v as i16
    } else {
        ((v as i32) - 0x1_0000) as i16
    }
}

/// Reads a signed 32-bit little-endian value.
pub fn i32_read(b: &[u8], off: usize) -> (r: i32)
    requires
        off + 4 <= b@.len(),
    ensures
        r == spec_signed32(spec_le32(b@, off as int)),
{
    let v = le32_read(b, off);
    if v < 0x8000_0000 {
        v as i32
    } else {
        ((v as i64) - 0x1_0000_0000) as i32
    }
}

/// Appends an unsigned 16-bit value in little-endian order.
pub fn le16_write(out: &mut Vec<u8>, x: u16)
    ensures
        final(out)@.len() == old(out)@.len() + 2,
        final(out)@.subrange(0, old(out)@.len() as int) == old(out)@,
        spec_le16(final(out)@, old(out)@.len() as int) == x,
{
    let lo = (x % 0x100) as u8;
    let hi = (x / 0x100) as u8;
    out.push(lo);
    out.push(hi);
    proof {
        assert(final(out)@.subrange(0, old(out)@.len() as int) =~= old(out)@);
    }
}

/// Appends an unsigned 32-bit value in little-endian order.
pub fn le32_write(out: &mut Vec<u8>, x: u32)
    ensures
        final(out)@.len() == old(out)@.len() + 4,
        final(out)@.subrange(0, old(out)@.len() as int) == old(out)@,
        spec_le32(final(out)@, old(out)@.len() as int) == x,
{
    let b0 = (x % 0x100) as u8;
    let b1 = ((x / 0x100) % 0x100) as u8;
    let b2 = ((x / 0x1_0000) % 0x100) as u8;
    let b3 = (x / 0x100_0000) as u8;
    out.push(b0);
    out.push(b1);
    out.push(b2);
    out.push(b3);
    proof {
        assert(final(out)@.subrange(0, old(out)@.len() as int) =~= old(out)@);
    }
}

/// Appends a signed 32-bit value in little-endian two's-complement order.
pub fn i32_write(out: &mut Vec<u8>, x: i32)
    ensures
        final(out)@.len() == old(out)@.len() + 4,
        final(out)@.subrange(0, old(out)@.len() as int) == old(out)@,
        spec_le32(final(out)@, old(out)@.len() as int) == spec_unsigned32(x as int),
{
    let u: u32 = if x >= 0 {
        x as u32
    } else {
        ((x as i64) + 0x1_0000_0000) as u32
    };
    le32_write(out, u);
}

} // verus!
