//! Bounds-checked reads and writes of little-endian scalars at a byte
//! offset inside a growable buffer.
//!
//! These are the single primitives for moving fixed-width values in and out
//! of a row's fixed region: every access is an explicit, checked-length copy,
//! and an out-of-range access is a recoverable [`DbError::Bounds`], never a
//! read or write past the end of the buffer.

use crate::DbError;
use vstd::bytes::{
    spec_u16_from_le_bytes, spec_u16_to_le_bytes, spec_u32_from_le_bytes, spec_u32_to_le_bytes,
    spec_u64_from_le_bytes, spec_u64_to_le_bytes, u16_from_le_bytes, u16_to_le_bytes,
    u32_from_le_bytes, u32_to_le_bytes, u64_from_le_bytes, u64_to_le_bytes,
};
use vstd::prelude::*;
use vstd::slice::{slice_subrange, slice_to_vec};

verus! {

/// Reads the byte at `offset`, or fails with a bounds error.
pub fn read_u8_at(buf: &Vec<u8>, offset: usize) -> (r: Result<u8, DbError>)
    ensures
        r == (if offset + 1 <= buf@.len() {
            Ok::<u8, DbError>(buf@[offset as int])
        } else {
            Err::<u8, DbError>(DbError::Bounds)
        }),
{
    if offset < buf.len() {
        Ok(buf[offset])
    } else {
        Err(DbError::Bounds)
    }
}

/// Reads the two bytes at `offset` as a little-endian `u16`, or fails with
/// a bounds error.
pub fn read_u16_at(buf: &Vec<u8>, offset: usize) -> (r: Result<u16, DbError>)
    ensures
        r == (if offset + 2 <= buf@.len() {
            Ok::<u16, DbError>(spec_u16_from_le_bytes(buf@.subrange(offset as int, offset + 2)))
        } else {
            Err::<u16, DbError>(DbError::Bounds)
        }),
{
    if buf.len() >= 2 && offset <= buf.len() - 2 {
        let s = slice_subrange(buf.as_slice(), offset, offset + 2);
        Ok(u16_from_le_bytes(s))
    } else {
        Err(DbError::Bounds)
    }
}

/// Reads the four bytes at `offset` as a little-endian `u32`, or fails with
/// a bounds error.
pub fn read_u32_at(buf: &Vec<u8>, offset: usize) -> (r: Result<u32, DbError>)
    ensures
        r == (if offset + 4 <= buf@.len() {
            Ok::<u32, DbError>(spec_u32_from_le_bytes(buf@.subrange(offset as int, offset + 4)))
        } else {
            Err::<u32, DbError>(DbError::Bounds)
        }),
{
    if buf.len() >= 4 && offset <= buf.len() - 4 {
        let s = slice_subrange(buf.as_slice(), offset, offset + 4);
        Ok(u32_from_le_bytes(s))
    } else {
        Err(DbError::Bounds)
    }
}

/// Reads the eight bytes at `offset` as a little-endian `u64`, or fails with
/// a bounds error.
pub fn read_u64_at(buf: &Vec<u8>, offset: usize) -> (r: Result<u64, DbError>)
    ensures
        r == (if offset + 8 <= buf@.len() {
            Ok::<u64, DbError>(spec_u64_from_le_bytes(buf@.subrange(offset as int, offset + 8)))
        } else {
            Err::<u64, DbError>(DbError::Bounds)
        }),
{
    if buf.len() >= 8 && offset <= buf.len() - 8 {
        let s = slice_subrange(buf.as_slice(), offset, offset + 8);
        Ok(u64_from_le_bytes(s))
    } else {
        Err(DbError::Bounds)
    }
}

/// Overwrites the byte at `offset`, or fails with a bounds error. No other
/// byte changes.
pub fn write_u8_at(buf: &mut Vec<u8>, offset: usize, val: u8) -> (r: Result<(), DbError>)
    ensures
        r == (if offset + 1 <= old(buf)@.len() {
            Ok::<(), DbError>(())
        } else {
            Err::<(), DbError>(DbError::Bounds)
        }),
        r is Ok ==> final(buf)@ == old(buf)@.update(offset as int, val),
        r is Err ==> final(buf)@ == old(buf)@,
{
    if offset < buf.len() {
        buf[offset] = val;
        Ok(())
    } else {
        Err(DbError::Bounds)
    }
}

/// Overwrites the two bytes at `offset` with `val` in little-endian order,
/// or fails with a bounds error. Bytes outside that range do not change.
pub fn write_u16_at(buf: &mut Vec<u8>, offset: usize, val: u16) -> (r: Result<(), DbError>)
    ensures
        r == (if offset + 2 <= old(buf)@.len() {
            Ok::<(), DbError>(())
        } else {
            Err::<(), DbError>(DbError::Bounds)
        }),
        r is Ok ==> final(buf)@ == old(buf)@.subrange(0, offset as int) + spec_u16_to_le_bytes(val)
            + old(buf)@.subrange(offset + 2, old(buf)@.len() as int),
        r is Err ==> final(buf)@ == old(buf)@,
{
    if buf.len() >= 2 && offset <= buf.len() - 2 {
        let mut out = slice_to_vec(slice_subrange(buf.as_slice(), 0, offset));
        let mut mid = u16_to_le_bytes(val);
        out.append(&mut mid);
        let mut tail = slice_to_vec(slice_subrange(buf.as_slice(), offset + 2, buf.len()));
        out.append(&mut tail);
        *buf = out;
        Ok(())
    } else {
        Err(DbError::Bounds)
    }
}

/// Overwrites the four bytes at `offset` with `val` in little-endian order,
/// or fails with a bounds error. Bytes outside that range do not change.
pub fn write_u32_at(buf: &mut Vec<u8>, offset: usize, val: u32) -> (r: Result<(), DbError>)
    ensures
        r == (if offset + 4 <= old(buf)@.len() {
            Ok::<(), DbError>(())
        } else {
            Err::<(), DbError>(DbError::Bounds)
        }),
        r is Ok ==> final(buf)@ == old(buf)@.subrange(0, offset as int) + spec_u32_to_le_bytes(val)
            + old(buf)@.subrange(offset + 4, old(buf)@.len() as int),
        r is Err ==> final(buf)@ == old(buf)@,
{
    if buf.len() >= 4 && offset <= buf.len() - 4 {
        let mut out = slice_to_vec(slice_subrange(buf.as_slice(), 0, offset));
        let mut mid = u32_to_le_bytes(val);
        out.append(&mut mid);
        let mut tail = slice_to_vec(slice_subrange(buf.as_slice(), offset + 4, buf.len()));
        out.append(&mut tail);
        *buf = out;
        Ok(())
    } else {
        Err(DbError::Bounds)
    }
}

/// Overwrites the eight bytes at `offset` with `val` in little-endian order,
/// or fails with a bounds error. Bytes outside that range do not change.
pub fn write_u64_at(buf: &mut Vec<u8>, offset: usize, val: u64) -> (r: Result<(), DbError>)
    ensures
        r == (if offset + 8 <= old(buf)@.len() {
            Ok::<(), DbError>(())
        } else {
            Err::<(), DbError>(DbError::Bounds)
        }),
        r is Ok ==> final(buf)@ == old(buf)@.subrange(0, offset as int) + spec_u64_to_le_bytes(val)
            + old(buf)@.subrange(offset + 8, old(buf)@.len() as int),
        r is Err ==> final(buf)@ == old(buf)@,
{
    if buf.len() >= 8 && offset <= buf.len() - 8 {
        let mut out = slice_to_vec(slice_subrange(buf.as_slice(), 0, offset));
        let mut mid = u64_to_le_bytes(val);
        out.append(&mut mid);
        let mut tail = slice_to_vec(slice_subrange(buf.as_slice(), offset + 8, buf.len()));
        out.append(&mut tail);
        *buf = out;
        Ok(())
    } else {
        Err(DbError::Bounds)
    }
}

/// Writing a little-endian `u16` and reading it back at the same offset
/// round-trips: the read yields the written value, for every value and every
/// in-range offset, and the buffer keeps its length.
pub proof fn lemma_write_read_round_trip_u16(buf: Seq<u8>, offset: int, val: u16)
    requires
        0 <= offset,
        offset + 2 <= buf.len(),
    ensures
        ({
            let written = buf.subrange(0, offset) + spec_u16_to_le_bytes(val) + buf.subrange(
                offset + 2,
                buf.len() as int,
            );
            &&& written.len() == buf.len()
            &&& spec_u16_from_le_bytes(written.subrange(offset, offset + 2)) == val
        }),
{
    vstd::bytes::lemma_auto_spec_u16_to_from_le_bytes();
    let written = buf.subrange(0, offset) + spec_u16_to_le_bytes(val) + buf.subrange(
        offset + 2,
        buf.len() as int,
    );
    assert(spec_u16_to_le_bytes(val).len() == 2);
    assert(written.subrange(offset, offset + 2) =~= spec_u16_to_le_bytes(val));
}

/// Writing a little-endian `u32` and reading it back at the same offset
/// round-trips: the read yields the written value, for every value and every
/// in-range offset, and the buffer keeps its length.
pub proof fn lemma_write_read_round_trip_u32(buf: Seq<u8>, offset: int, val: u32)
    requires
        0 <= offset,
        offset + 4 <= buf.len(),
    ensures
        ({
            let written = buf.subrange(0, offset) + spec_u32_to_le_bytes(val) + buf.subrange(
                offset + 4,
                buf.len() as int,
            );
            &&& written.len() == buf.len()
            &&& spec_u32_from_le_bytes(written.subrange(offset, offset + 4)) == val
        }),
{
    vstd::bytes::lemma_auto_spec_u32_to_from_le_bytes();
    let written = buf.subrange(0, offset) + spec_u32_to_le_bytes(val) + buf.subrange(
        offset + 4,
        buf.len() as int,
    );
    assert(spec_u32_to_le_bytes(val).len() == 4);
    assert(written.subrange(offset, offset + 4) =~= spec_u32_to_le_bytes(val));
}

/// Writing a little-endian `u64` and reading it back at the same offset
/// round-trips: the read yields the written value, for every value and every
/// in-range offset, and the buffer keeps its length.
pub proof fn lemma_write_read_round_trip_u64(buf: Seq<u8>, offset: int, val: u64)
    requires
        0 <= offset,
        offset + 8 <= buf.len(),
    ensures
        ({
            let written = buf.subrange(0, offset) + spec_u64_to_le_bytes(val) + buf.subrange(
                offset + 8,
                buf.len() as int,
            );
            &&& written.len() == buf.len()
            &&& spec_u64_from_le_bytes(written.subrange(offset, offset + 8)) == val
        }),
{
    vstd::bytes::lemma_auto_spec_u64_to_from_le_bytes();
    let written = buf.subrange(0, offset) + spec_u64_to_le_bytes(val) + buf.subrange(
        offset + 8,
        buf.len() as int,
    );
    assert(written.subrange(offset, offset + 8) =~= spec_u64_to_le_bytes(val));
}

} // verus!
