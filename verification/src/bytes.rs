//! Byte images of index and word data, as handed to GPU buffers.

use vstd::prelude::*;

verus! {

/// The two bytes of `value`: least significant first when `little`, most
/// significant first otherwise.
pub open spec fn u16_bytes(value: u16, little: bool) -> Seq<u8> {
    let lo = (value & 0xff) as u8;
    let hi = (value >> 8) as u8;
    if little {
        seq![lo, hi]
    } else {
        seq![hi, lo]
    }
}

/// The four bytes of `value`: least significant first when `little`, most
/// significant first otherwise.
pub open spec fn u32_bytes(value: u32, little: bool) -> Seq<u8> {
    let b0 = (value & 0xff) as u8;
    let b1 = ((value >> 8) & 0xff) as u8;
    let b2 = ((value >> 16) & 0xff) as u8;
    let b3 = (value >> 24) as u8;
    if little {
        seq![b0, b1, b2, b3]
    } else {
        seq![b3, b2, b1, b0]
    }
}

/// The bytes of every value in turn, all in one byte order.
pub open spec fn image_u16(values: Seq<u16>, little: bool) -> Seq<u8> {
    Seq::new(2 * values.len(), |i: int| u16_bytes(values[i / 2], little)[i % 2])
}

/// The bytes of every value in turn, all in one byte order.
pub open spec fn image_u32(values: Seq<u32>, little: bool) -> Seq<u8> {
    Seq::new(4 * values.len(), |i: int| u32_bytes(values[i / 4], little)[i % 4])
}

/// `bytes` is the in-memory image of `values` on a little-endian or on a
/// big-endian machine.
pub open spec fn is_image_u16(bytes: Seq<u8>, values: Seq<u16>) -> bool {
    bytes == image_u16(values, true) || bytes == image_u16(values, false)
}

/// `bytes` is the in-memory image of `values` on a little-endian or on a
/// big-endian machine.
pub open spec fn is_image_u32(bytes: Seq<u8>, values: Seq<u32>) -> bool {
    bytes == image_u32(values, true) || bytes == image_u32(values, false)
}

/// Calls `bytemuck::cast_slice` from `u16` to `u8` and copies the result.
///
/// Trusted: the cast reinterprets the slice's memory, so the result holds two
/// bytes per value, each value in the byte order of the machine. The cast
/// cannot fail, since bytes need no alignment and any length divides by one.
#[verifier::external_body]
pub(crate) fn cast_u16_slice(values: &[u16]) -> (bytes: Vec<u8>)
    ensures
        is_image_u16(bytes@, values@),
{
    bytemuck::cast_slice::<u16, u8>(values).to_vec()
}

/// Calls `bytemuck::cast_slice` from `u32` to `u8` and copies the result.
///
/// Trusted: the cast reinterprets the slice's memory, so the result holds four
/// bytes per value, each value in the byte order of the machine. The cast
/// cannot fail, since bytes need no alignment and any length divides by one.
#[verifier::external_body]
pub(crate) fn cast_u32_slice(values: &[u32]) -> (bytes: Vec<u8>)
    ensures
        is_image_u32(bytes@, values@),
{
    bytemuck::cast_slice::<u32, u8>(values).to_vec()
}

/// The 16-bit value that two bytes hold in the given byte order.
pub open spec fn u16_of(bytes: Seq<u8>, little: bool) -> u16 {
    if little {
        (bytes[0] as u16) | ((bytes[1] as u16) << 8)
    } else {
        (bytes[1] as u16) | ((bytes[0] as u16) << 8)
    }
}

/// The 32-bit value that four bytes hold in the given byte order.
pub open spec fn u32_of(bytes: Seq<u8>, little: bool) -> u32 {
    if little {
        (bytes[0] as u32) | ((bytes[1] as u32) << 8) | ((bytes[2] as u32) << 16) | ((bytes[3] as u32)
            << 24)
    } else {
        (bytes[3] as u32) | ((bytes[2] as u32) << 8) | ((bytes[1] as u32) << 16) | ((bytes[0] as u32)
            << 24)
    }
}

/// Reading an image back in the byte order it was written in gives the values
/// unchanged: value `i` is found in bytes `2 * i` and `2 * i + 1`.
pub proof fn image_u16_round_trip(values: Seq<u16>, little: bool, i: int)
    requires
        0 <= i < values.len(),
    ensures
        u16_of(image_u16(values, little).subrange(2 * i, 2 * i + 2), little) == values[i],
{
    let img = image_u16(values, little);
    let part = img.subrange(2 * i, 2 * i + 2);
    let v = values[i];
    assert((2 * i) / 2 == i && (2 * i) % 2 == 0 && (2 * i + 1) / 2 == i && (2 * i + 1) % 2 == 1);
    assert(part[0] == u16_bytes(v, little)[0]);
    assert(part[1] == u16_bytes(v, little)[1]);
    assert((((v & 0xff) as u8) as u16) | ((((v >> 8) as u8) as u16) << 8) == v) by (bit_vector);
}

/// Reading an image back in the byte order it was written in gives the values
/// unchanged: value `i` is found in bytes `4 * i` to `4 * i + 3`.
pub proof fn image_u32_round_trip(values: Seq<u32>, little: bool, i: int)
    requires
        0 <= i < values.len(),
    ensures
        u32_of(image_u32(values, little).subrange(4 * i, 4 * i + 4), little) == values[i],
{
    let img = image_u32(values, little);
    let part = img.subrange(4 * i, 4 * i + 4);
    let v = values[i];
    assert((4 * i) / 4 == i && (4 * i) % 4 == 0);
    assert((4 * i + 1) / 4 == i && (4 * i + 1) % 4 == 1);
    assert((4 * i + 2) / 4 == i && (4 * i + 2) % 4 == 2);
    assert((4 * i + 3) / 4 == i && (4 * i + 3) % 4 == 3);
    assert(part[0] == u32_bytes(v, little)[0]);
    assert(part[1] == u32_bytes(v, little)[1]);
    assert(part[2] == u32_bytes(v, little)[2]);
    assert(part[3] == u32_bytes(v, little)[3]);
    assert((((v & 0xff) as u8) as u32) | (((((v >> 8) & 0xff) as u8) as u32) << 8) | (((((v >> 16)
        & 0xff) as u8) as u32) << 16) | ((((v >> 24) as u8) as u32) << 24) == v) by (bit_vector);
}

} // verus!
