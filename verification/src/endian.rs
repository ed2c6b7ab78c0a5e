//! Little-endian access to byte buffers, done by the `byteorder` crate.
//!
//! The functions that call `byteorder` are believed, not proved: each states
//! next to it which call it makes and what it takes that call to do.

use vstd::prelude::*;
use vstd::slice::slice_subrange;
use byteorder::ByteOrder;
use byteorder::NativeEndian;
use byteorder::LE;

verus! {

/// Byte `k` (0 is the least significant) of `w`.
pub open spec fn byte_of(w: u32, k: u32) -> u8 {
    ((w >> (8 * k) as u32) & 0xFF) as u8
}

/// The 16-bit value whose little-endian bytes are `b0`, `b1`.
pub open spec fn le_u16(b0: u8, b1: u8) -> u16 {
    (b0 as u16) | (b1 as u16) << 8
}

/// The 32-bit value whose little-endian bytes are `b0` to `b3`.
pub open spec fn le_u32(b0: u8, b1: u8, b2: u8, b3: u8) -> u32 {
    (b0 as u32) | (b1 as u32) << 8 | (b2 as u32) << 16 | (b3 as u32) << 24
}

/// The little-endian 16-bit value stored at `at` in `bytes`.
pub open spec fn le_u16_at(bytes: Seq<u8>, at: int) -> u16 {
    le_u16(bytes[at], bytes[at + 1])
}

/// The little-endian 32-bit value stored at `at` in `bytes`.
pub open spec fn le_u32_at(bytes: Seq<u8>, at: int) -> u32 {
    le_u32(bytes[at], bytes[at + 1], bytes[at + 2], bytes[at + 3])
}

/// `bytes` with the little-endian bytes of `n` stored at `at`.
pub open spec fn with_le_u16(bytes: Seq<u8>, at: int, n: u16) -> Seq<u8> {
    bytes.update(at, byte_of(n as u32, 0)).update(at + 1, byte_of(n as u32, 1))
}

/// `bytes` with the little-endian bytes of `w` stored at `at`.
pub open spec fn with_le_u32(bytes: Seq<u8>, at: int, w: u32) -> Seq<u8> {
    bytes.update(at, byte_of(w, 0)).update(at + 1, byte_of(w, 1)).update(at + 2, byte_of(w, 2)).update(
        at + 3,
        byte_of(w, 3),
    )
}

/// Calls `byteorder::LittleEndian::read_u16`, which reads the first two
/// bytes of `buf` as a little-endian integer and panics on a shorter buffer.
#[verifier::external_body]
fn le_read_u16(buf: &[u8]) -> (r: u16)
    requires
        buf@.len() >= 2,
    ensures
        r == le_u16(buf@[0], buf@[1]),
{
    LE::read_u16(buf)
}

/// Calls `byteorder::LittleEndian::read_u32`, which reads the first four
/// bytes of `buf` as a little-endian integer and panics on a shorter buffer.
#[verifier::external_body]
fn le_read_u32(buf: &[u8]) -> (r: u32)
    requires
        buf@.len() >= 4,
    ensures
        r == le_u32(buf@[0], buf@[1], buf@[2], buf@[3]),
{
    LE::read_u32(buf)
}

/// Calls `byteorder::LittleEndian::write_u16`, which overwrites the first
/// two bytes of `buf` with `n`, low byte first, leaves the rest alone and
/// panics on a shorter buffer.
#[verifier::external_body]
fn le_write_u16(buf: &mut [u8], n: u16)
    requires
        old(buf)@.len() >= 2,
    ensures
        final(buf)@ == with_le_u16(old(buf)@, 0, n),
{
    LE::write_u16(buf, n)
}

/// Calls `byteorder::LittleEndian::write_u32`, which overwrites the first
/// four bytes of `buf` with `n`, low byte first, leaves the rest alone and
/// panics on a shorter buffer.
#[verifier::external_body]
fn le_write_u32(buf: &mut [u8], n: u32)
    requires
        old(buf)@.len() >= 4,
    ensures
        final(buf)@ == with_le_u32(old(buf)@, 0, n),
{
    LE::write_u32(buf, n)
}

/// Calls `byteorder::LittleEndian::read_u16_into`, which fills `dst` with
/// the little-endian integers stored back to back in `src` and panics unless
/// `src` is exactly twice as long as `dst`.
#[verifier::external_body]
fn le_read_u16_into(src: &[u8], dst: &mut [u16])
    requires
        src@.len() == 2 * old(dst)@.len(),
    ensures
        final(dst)@.len() == old(dst)@.len(),
        forall|i: int| 0 <= i < final(dst)@.len() ==> #[trigger] final(dst)@[i] == le_u16_at(src@, 2 * i),
{
    LE::read_u16_into(src, dst)
}

/// Calls `byteorder::NativeEndian::write_u16`, which overwrites the first
/// two bytes of `buf` with `n` in the byte order of the machine it runs on,
/// leaves the rest alone and panics on a shorter buffer. Which of the two
/// orders it is cannot be known here, so both are allowed for.
#[verifier::external_body]
fn ne_write_u16(buf: &mut [u8], n: u16)
    requires
        old(buf)@.len() >= 2,
    ensures
        final(buf)@ == with_le_u16(old(buf)@, 0, n) || final(buf)@ == old(buf)@.update(
            0,
            byte_of(n as u32, 1),
        ).update(1, byte_of(n as u32, 0)),
{
    NativeEndian::write_u16(buf, n)
}

/// Reads the little-endian 16-bit value at `offset`.
pub fn read_u16_at(memory: &[u8], offset: usize) -> (r: u16)
    requires
        offset + 2 <= memory@.len(),
    ensures
        r == le_u16_at(memory@, offset as int),
{
    le_read_u16(slice_subrange(memory, offset, memory.len()))
}

/// Reads the little-endian 32-bit value at `offset`.
pub fn read_u32_at(memory: &[u8], offset: usize) -> (r: u32)
    requires
        offset + 4 <= memory@.len(),
    ensures
        r == le_u32_at(memory@, offset as int),
{
    le_read_u32(slice_subrange(memory, offset, memory.len()))
}

/// Stores `n` at `offset`, low byte first.
pub fn write_u16_at(memory: &mut [u8], offset: usize, n: u16)
    requires
        offset + 2 <= old(memory)@.len(),
    ensures
        final(memory)@ == with_le_u16(old(memory)@, offset as int, n),
{
    let (_, tail) = memory.split_at_mut(offset);
    le_write_u16(tail, n);
}

/// Stores `w` at `offset`, low byte first.
pub fn write_u32_at(memory: &mut [u8], offset: usize, w: u32)
    requires
        offset + 4 <= old(memory)@.len(),
    ensures
        final(memory)@ == with_le_u32(old(memory)@, offset as int, w),
{
    let (_, tail) = memory.split_at_mut(offset);
    le_write_u32(tail, w);
}

/// Stores `n` at `offset` in the byte order of the machine: one of the two
/// orders, the same bytes either way.
pub fn write_native_u16_at(memory: &mut [u8], offset: usize, n: u16)
    requires
        offset + 2 <= old(memory)@.len(),
    ensures
        final(memory)@ == with_le_u16(old(memory)@, offset as int, n) || final(memory)@ == old(
            memory,
        )@.update(offset as int, byte_of(n as u32, 1)).update(offset + 1, byte_of(n as u32, 0)),
{
    let (_, tail) = memory.split_at_mut(offset);
    ne_write_u16(tail, n);
}

/// Decodes a buffer of little-endian 16-bit values.
pub fn convert_to_u16_vec(src: &[u8]) -> (r: Vec<u16>)
    requires
        src@.len() % 2 == 0,
    ensures
        r@.len() * 2 == src@.len(),
        forall|i: int| 0 <= i < r@.len() ==> #[trigger] r@[i] == le_u16_at(src@, 2 * i),
{
    let mut new_vec: Vec<u16> = vec![0u16; src.len() / 2];
    le_read_u16_into(src, new_vec.as_mut_slice());
    new_vec
}

} // verus!
