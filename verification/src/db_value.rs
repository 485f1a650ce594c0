//! The value codec family: one type per supported wire representation, each
//! able to report its in-row footprint, decode itself from a row slice, and
//! encode itself into one.
//!
//! Fixed-width scalars are little-endian. Short strings are stored inline,
//! length-prefixed by a single byte. Long strings are indirected through the
//! byte heap: the row slot holds only a little-endian offset, and the heap
//! record at that offset is an eight-byte little-endian length followed by
//! the raw payload.

use crate::heap::DbHeap;
use crate::text::{lossy_of, lossy_string};
use crate::DbError;
use vstd::bytes::{
    lemma_auto_spec_u32_to_from_le_bytes, lemma_auto_spec_u64_to_from_le_bytes,
    spec_u32_from_le_bytes, spec_u32_to_le_bytes, spec_u64_from_le_bytes, spec_u64_to_le_bytes,
    u32_from_le_bytes, u32_to_le_bytes, u64_from_le_bytes, u64_to_le_bytes,
};
use vstd::prelude::*;
use vstd::slice::{slice_index_get, slice_subrange, slice_to_vec};
use vstd::utf8::{decode_utf8, encode_utf8, encode_utf8_decode_utf8, encode_utf8_valid_utf8, valid_utf8};

verus! {

/// The single byte a boolean encodes to: `1` for true, `0` for false.
pub open spec fn bool_slot(b: bool) -> Seq<u8> {
    seq![if b { 1u8 } else { 0u8 }]
}

/// The boolean a one-byte slot decodes to: byte `1` is true, anything else
/// is false.
pub open spec fn bool_of_slot(slot: Seq<u8>) -> bool {
    slot[0] == 1u8
}

/// An inline string slot is readable when it holds its length byte and at
/// least as many payload bytes as that length byte announces.
pub open spec fn inline_slot_ok(slot: Seq<u8>) -> bool {
    &&& slot.len() >= 1
    &&& 1 + (slot[0] as int) <= slot.len()
}

/// The payload bytes of an inline string slot: the `slot[0]` bytes that
/// follow the length byte.
pub open spec fn inline_payload(slot: Seq<u8>) -> Seq<u8> {
    slot.subrange(1, 1 + (slot[0] as int))
}

/// The slot that encoding `chars` inline into a buffer holding `dst`
/// produces: a length byte, the UTF-8 payload, and `dst`'s untouched tail.
pub open spec fn inline_encoded(chars: Seq<char>, dst: Seq<u8>) -> Seq<u8> {
    seq![encode_utf8(chars).len() as u8] + encode_utf8(chars) + dst.skip(
        1 + encode_utf8(chars).len() as int,
    )
}

/// An external slot is readable against `heap` when it is exactly eight
/// bytes wide and the offset it holds points at a complete heap record: an
/// eight-byte length field followed by that many payload bytes.
pub open spec fn ext_slot_ok(slot: Seq<u8>, heap: Seq<u8>) -> bool {
    &&& slot.len() == 8
    &&& {
        let off = spec_u64_from_le_bytes(slot) as int;
        &&& off + 8 <= heap.len()
        &&& off + 8 + (spec_u64_from_le_bytes(heap.subrange(off, off + 8)) as int) <= heap.len()
    }
}

/// The length field of the heap record an external slot points at.
pub open spec fn ext_record_len(slot: Seq<u8>, heap: Seq<u8>) -> int {
    let off = spec_u64_from_le_bytes(slot) as int;
    spec_u64_from_le_bytes(heap.subrange(off, off + 8)) as int
}

/// The payload bytes of the heap record an external slot points at.
pub open spec fn ext_payload(slot: Seq<u8>, heap: Seq<u8>) -> Seq<u8> {
    let off = spec_u64_from_le_bytes(slot) as int;
    heap.subrange(off + 8, off + 8 + ext_record_len(slot, heap))
}

/// An unsigned 64-bit field value, eight bytes little-endian in the row.
#[derive(Debug, PartialEq, Eq, Structural)]
pub struct DBUInt64(pub u64);

impl DBUInt64 {
    /// The zero value, ready to be decoded into.
    pub fn new() -> (v: Self)
        ensures
            v.0 == 0,
    {
        DBUInt64(0)
    }

    /// The in-row footprint of this representation: eight bytes.
    pub fn size(&self) -> (n: usize)
        ensures
            n == 8,
    {
        8
    }

    /// Decodes an eight-byte little-endian slot. Fails with a bounds error,
    /// leaving `self` unchanged, when the slot is not exactly eight bytes.
    pub fn read_from_buffer(&mut self, buf: &[u8], heap: &DbHeap) -> (r: Result<(), DbError>)
        ensures
            r == (if buf@.len() == 8 {
                Ok::<(), DbError>(())
            } else {
                Err::<(), DbError>(DbError::Bounds)
            }),
            r is Ok ==> final(self).0 == spec_u64_from_le_bytes(buf@),
            r is Err ==> *final(self) == *old(self),
    {
        if buf.len() == 8 {
            self.0 = u64_from_le_bytes(buf);
            Ok(())
        } else {
            Err(DbError::Bounds)
        }
    }

    /// Encodes the value as eight little-endian bytes. Fails with a bounds
    /// error, changing nothing, when the slot is not exactly eight bytes.
    /// A successful encode decodes back to the value written.
    pub fn write_to_buffer(&self, buf: &mut Vec<u8>, heap: &mut DbHeap) -> (r: Result<
        (),
        DbError,
    >)
        ensures
            final(heap)@ == old(heap)@,
            r == (if old(buf)@.len() == 8 {
                Ok::<(), DbError>(())
            } else {
                Err::<(), DbError>(DbError::Bounds)
            }),
            r is Ok ==> final(buf)@ == spec_u64_to_le_bytes(self.0),
            r is Ok ==> final(buf)@.len() == 8,
            r is Ok ==> spec_u64_from_le_bytes(final(buf)@) == self.0,
            r is Err ==> final(buf)@ == old(buf)@,
    {
        if buf.len() == 8 {
            *buf = u64_to_le_bytes(self.0);
            proof {
                lemma_auto_spec_u64_to_from_le_bytes();
            }
            Ok(())
        } else {
            Err(DbError::Bounds)
        }
    }
}

/// An unsigned 32-bit field value, four bytes little-endian in the row.
#[derive(Debug, PartialEq, Eq, Structural)]
pub struct DBUInt32(pub u32);

impl DBUInt32 {
    /// The zero value, ready to be decoded into.
    pub fn new() -> (v: Self)
        ensures
            v.0 == 0,
    {
        DBUInt32(0)
    }

    /// The in-row footprint of this representation: four bytes.
    pub fn size(&self) -> (n: usize)
        ensures
            n == 4,
    {
        4
    }

    /// Decodes a four-byte little-endian slot. Fails with a bounds error,
    /// leaving `self` unchanged, when the slot is not exactly four bytes.
    pub fn read_from_buffer(&mut self, buf: &[u8], heap: &DbHeap) -> (r: Result<(), DbError>)
        ensures
            r == (if buf@.len() == 4 {
                Ok::<(), DbError>(())
            } else {
                Err::<(), DbError>(DbError::Bounds)
            }),
            r is Ok ==> final(self).0 == spec_u32_from_le_bytes(buf@),
            r is Err ==> *final(self) == *old(self),
    {
        if buf.len() == 4 {
            self.0 = u32_from_le_bytes(buf);
            Ok(())
        } else {
            Err(DbError::Bounds)
        }
    }

    /// Encodes the value as four little-endian bytes. Fails with a bounds
    /// error, changing nothing, when the slot is not exactly four bytes.
    /// A successful encode decodes back to the value written.
    pub fn write_to_buffer(&self, buf: &mut Vec<u8>, heap: &mut DbHeap) -> (r: Result<
        (),
        DbError,
    >)
        ensures
            final(heap)@ == old(heap)@,
            r == (if old(buf)@.len() == 4 {
                Ok::<(), DbError>(())
            } else {
                Err::<(), DbError>(DbError::Bounds)
            }),
            r is Ok ==> final(buf)@ == spec_u32_to_le_bytes(self.0),
            r is Ok ==> final(buf)@.len() == 4,
            r is Ok ==> spec_u32_from_le_bytes(final(buf)@) == self.0,
            r is Err ==> final(buf)@ == old(buf)@,
    {
        if buf.len() == 4 {
            *buf = u32_to_le_bytes(self.0);
            proof {
                lemma_auto_spec_u32_to_from_le_bytes();
            }
            Ok(())
        } else {
            Err(DbError::Bounds)
        }
    }
}

/// The eight little-endian bytes a signed 64-bit value encodes to: its
/// two's-complement bits, laid out as for the unsigned representation.
pub open spec fn spec_i64_to_le_bytes(x: i64) -> Seq<u8> {
    spec_u64_to_le_bytes(x as u64)
}

/// The signed 64-bit value an eight-byte little-endian slot decodes to.
pub open spec fn spec_i64_from_le_bytes(s: Seq<u8>) -> i64 {
    spec_u64_from_le_bytes(s) as i64
}

/// The four little-endian bytes a signed 32-bit value encodes to: its
/// two's-complement bits, laid out as for the unsigned representation.
pub open spec fn spec_i32_to_le_bytes(x: i32) -> Seq<u8> {
    spec_u32_to_le_bytes(x as u32)
}

/// The signed 32-bit value a four-byte little-endian slot decodes to.
pub open spec fn spec_i32_from_le_bytes(s: Seq<u8>) -> i32 {
    spec_u32_from_le_bytes(s) as i32
}

/// A signed 64-bit field value, eight bytes little-endian in the row.
#[derive(Debug, PartialEq, Eq, Structural)]
pub struct DBInt64(pub i64);

impl DBInt64 {
    /// The zero value, ready to be decoded into.
    pub fn new() -> (v: Self)
        ensures
            v.0 == 0,
    {
        DBInt64(0)
    }

    /// The in-row footprint of this representation: eight bytes.
    pub fn size(&self) -> (n: usize)
        ensures
            n == 8,
    {
        8
    }

    /// Decodes an eight-byte slot as a signed little-endian integer. Fails
    /// with a bounds error, leaving `self` unchanged, when the slot is not
    /// exactly eight bytes.
    pub fn read_from_buffer(&mut self, buf: &[u8], heap: &DbHeap) -> (r: Result<(), DbError>)
        ensures
            r == (if buf@.len() == 8 {
                Ok::<(), DbError>(())
            } else {
                Err::<(), DbError>(DbError::Bounds)
            }),
            r is Ok ==> final(self).0 == spec_i64_from_le_bytes(buf@),
            r is Err ==> *final(self) == *old(self),
    {
        if buf.len() == 8 {
            self.0 = u64_from_le_bytes(buf) as i64;
            Ok(())
        } else {
            Err(DbError::Bounds)
        }
    }

    /// Encodes the value as eight little-endian bytes. Fails with a bounds
    /// error, changing nothing, when the slot is not exactly eight bytes.
    /// A successful encode decodes back to the value written.
    pub fn write_to_buffer(&self, buf: &mut Vec<u8>, heap: &mut DbHeap) -> (r: Result<
        (),
        DbError,
    >)
        ensures
            final(heap)@ == old(heap)@,
            r == (if old(buf)@.len() == 8 {
                Ok::<(), DbError>(())
            } else {
                Err::<(), DbError>(DbError::Bounds)
            }),
            r is Ok ==> final(buf)@ == spec_i64_to_le_bytes(self.0),
            r is Ok ==> final(buf)@.len() == 8,
            r is Ok ==> spec_i64_from_le_bytes(final(buf)@) == self.0,
            r is Err ==> final(buf)@ == old(buf)@,
    {
        if buf.len() == 8 {
            *buf = u64_to_le_bytes(self.0 as u64);
            proof {
                lemma_auto_spec_u64_to_from_le_bytes();
                let x = self.0;
                assert(((x as u64) as i64) == x) by (bit_vector);
            }
            Ok(())
        } else {
            Err(DbError::Bounds)
        }
    }
}

/// A signed 32-bit field value, four bytes little-endian in the row.
#[derive(Debug, PartialEq, Eq, Structural)]
pub struct DBInt32(pub i32);

impl DBInt32 {
    /// The zero value, ready to be decoded into.
    pub fn new() -> (v: Self)
        ensures
            v.0 == 0,
    {
        DBInt32(0)
    }

    /// The in-row footprint of this representation: four bytes.
    pub fn size(&self) -> (n: usize)
        ensures
            n == 4,
    {
        4
    }

    /// Decodes a four-byte slot as a signed little-endian integer. Fails
    /// with a bounds error, leaving `self` unchanged, when the slot is not
    /// exactly four bytes.
    pub fn read_from_buffer(&mut self, buf: &[u8], heap: &DbHeap) -> (r: Result<(), DbError>)
        ensures
            r == (if buf@.len() == 4 {
                Ok::<(), DbError>(())
            } else {
                Err::<(), DbError>(DbError::Bounds)
            }),
            r is Ok ==> final(self).0 == spec_i32_from_le_bytes(buf@),
            r is Err ==> *final(self) == *old(self),
    {
        if buf.len() == 4 {
            self.0 = u32_from_le_bytes(buf) as i32;
            Ok(())
        } else {
            Err(DbError::Bounds)
        }
    }

    /// Encodes the value as four little-endian bytes. Fails with a bounds
    /// error, changing nothing, when the slot is not exactly four bytes.
    /// A successful encode decodes back to the value written.
    pub fn write_to_buffer(&self, buf: &mut Vec<u8>, heap: &mut DbHeap) -> (r: Result<
        (),
        DbError,
    >)
        ensures
            final(heap)@ == old(heap)@,
            r == (if old(buf)@.len() == 4 {
                Ok::<(), DbError>(())
            } else {
                Err::<(), DbError>(DbError::Bounds)
            }),
            r is Ok ==> final(buf)@ == spec_i32_to_le_bytes(self.0),
            r is Ok ==> final(buf)@.len() == 4,
            r is Ok ==> spec_i32_from_le_bytes(final(buf)@) == self.0,
            r is Err ==> final(buf)@ == old(buf)@,
    {
        if buf.len() == 4 {
            *buf = u32_to_le_bytes(self.0 as u32);
            proof {
                lemma_auto_spec_u32_to_from_le_bytes();
                assert(spec_u32_to_le_bytes(self.0 as u32).len() == 4);
                let x = self.0;
                assert(((x as u32) as i32) == x) by (bit_vector);
            }
            Ok(())
        } else {
            Err(DbError::Bounds)
        }
    }
}

/// A boolean field value, one byte in the row.
#[derive(Debug, PartialEq, Eq, Structural)]
pub struct DBBoolean(pub bool);

impl DBBoolean {
    /// The false value, ready to be decoded into.
    pub fn new() -> (v: Self)
        ensures
            v.0 == false,
    {
        DBBoolean(false)
    }

    /// The in-row footprint of this representation: one byte.
    pub fn size(&self) -> (n: usize)
        ensures
            n == 1,
    {
        1
    }

    /// Decodes a one-byte slot: byte `1` is true, any other byte is false.
    /// Fails with a bounds error, leaving `self` unchanged, when the slot is
    /// not exactly one byte.
    pub fn read_from_buffer(&mut self, buf: &[u8], heap: &DbHeap) -> (r: Result<(), DbError>)
        ensures
            r == (if buf@.len() == 1 {
                Ok::<(), DbError>(())
            } else {
                Err::<(), DbError>(DbError::Bounds)
            }),
            r is Ok ==> final(self).0 == bool_of_slot(buf@),
            r is Err ==> *final(self) == *old(self),
    {
        if buf.len() == 1 {
            self.0 = *slice_index_get(buf, 0) == 1;
            Ok(())
        } else {
            Err(DbError::Bounds)
        }
    }

    /// Encodes the value as one byte, `1` for true and `0` for false. Fails
    /// with a bounds error, changing nothing, when the slot is not exactly
    /// one byte. A successful encode decodes back to the value written.
    pub fn write_to_buffer(&self, buf: &mut Vec<u8>, heap: &mut DbHeap) -> (r: Result<
        (),
        DbError,
    >)
        ensures
            final(heap)@ == old(heap)@,
            r == (if old(buf)@.len() == 1 {
                Ok::<(), DbError>(())
            } else {
                Err::<(), DbError>(DbError::Bounds)
            }),
            r is Ok ==> final(buf)@ == bool_slot(self.0),
            r is Ok ==> bool_of_slot(final(buf)@) == self.0,
            r is Err ==> final(buf)@ == old(buf)@,
    {
        if buf.len() == 1 {
            let mut out: Vec<u8> = Vec::new();
            out.push(if self.0 { 1 } else { 0 });
            *buf = out;
            assert(buf@ =~= bool_slot(self.0));
            Ok(())
        } else {
            Err(DbError::Bounds)
        }
    }
}

/// A string field value stored inline: the slot holds one length byte and
/// then that many UTF-8 payload bytes, so the payload is capped at 255
/// bytes.
#[derive(Debug, PartialEq, Eq)]
pub struct DBInlineString(pub String);

impl DBInlineString {
    /// The empty string, ready to be decoded into.
    pub fn new() -> (v: Self)
        ensures
            v.0@ == Seq::<char>::empty(),
    {
        DBInlineString(String::new())
    }

    /// The in-row bytes this value occupies: the length byte plus the
    /// payload itself.
    pub fn size(&self) -> (n: usize)
        requires
            encode_utf8(self.0@).len() < usize::MAX,
        ensures
            n == 1 + encode_utf8(self.0@).len(),
    {
        1 + self.0.as_str().as_bytes().len()
    }

    /// Decodes an inline slot: reads the length byte, then that many payload
    /// bytes, leniently as UTF-8 (invalid sequences are substituted, never
    /// rejected; valid UTF-8 is decoded exactly). Fails with a bounds error,
    /// leaving `self` unchanged, when the slot is empty or announces more
    /// payload bytes than it holds.
    pub fn read_from_buffer(&mut self, buf: &[u8], heap: &DbHeap) -> (r: Result<(), DbError>)
        ensures
            r == (if inline_slot_ok(buf@) {
                Ok::<(), DbError>(())
            } else {
                Err::<(), DbError>(DbError::Bounds)
            }),
            r is Ok ==> final(self).0@ == lossy_of(inline_payload(buf@)),
            r is Ok && valid_utf8(inline_payload(buf@)) ==> final(self).0@ == decode_utf8(
                inline_payload(buf@),
            ),
            r is Err ==> *final(self) == *old(self),
    {
        if buf.len() < 1 {
            return Err(DbError::Bounds);
        }
        let n = *slice_index_get(buf, 0) as usize;
        if buf.len() < 1 + n {
            return Err(DbError::Bounds);
        }
        let data = slice_subrange(buf, 1, 1 + n);
        self.0 = lossy_string(data);
        Ok(())
    }

    /// Encodes the string inline: the payload's byte length as the leading
    /// byte, then the payload, leaving any remaining slot bytes untouched.
    /// Fails with a length-overflow error when the payload exceeds 255
    /// bytes (never truncating it), and with a bounds error when the slot is
    /// too small; either failure changes nothing. A successful encode
    /// decodes back to the string written.
    pub fn write_to_buffer(&self, buf: &mut Vec<u8>, heap: &mut DbHeap) -> (r: Result<
        (),
        DbError,
    >)
        ensures
            final(heap)@ == old(heap)@,
            r == (if encode_utf8(self.0@).len() > 255 {
                Err::<(), DbError>(DbError::LengthOverflow)
            } else if old(buf)@.len() < 1 + encode_utf8(self.0@).len() {
                Err::<(), DbError>(DbError::Bounds)
            } else {
                Ok::<(), DbError>(())
            }),
            r is Ok ==> final(buf)@ == inline_encoded(self.0@, old(buf)@),
            r is Ok ==> final(buf)@.len() == old(buf)@.len(),
            r is Ok ==> inline_slot_ok(final(buf)@) && inline_payload(final(buf)@) == encode_utf8(
                self.0@,
            ),
            r is Ok ==> valid_utf8(inline_payload(final(buf)@)) && decode_utf8(
                inline_payload(final(buf)@),
            ) == self.0@,
            r is Err ==> final(buf)@ == old(buf)@,
    {
        let bytes: &[u8] = self.0.as_str().as_bytes();
        let n = bytes.len();
        if n > 255 {
            return Err(DbError::LengthOverflow);
        }
        if buf.len() < 1 + n {
            return Err(DbError::Bounds);
        }
        let ghost dst = buf@;
        let mut out: Vec<u8> = Vec::new();
        out.push(n as u8);
        let mut payload = slice_to_vec(bytes);
        out.append(&mut payload);
        let mut tail = slice_to_vec(slice_subrange(buf.as_slice(), 1 + n, buf.len()));
        out.append(&mut tail);
        *buf = out;
        proof {
            encode_utf8_valid_utf8(self.0@);
            encode_utf8_decode_utf8(self.0@);
            assert(buf@ =~= inline_encoded(self.0@, dst));
            assert(inline_payload(buf@) =~= encode_utf8(self.0@));
        }
        Ok(())
    }
}

/// A string field value stored externally: the slot holds an eight-byte
/// little-endian offset into the byte heap, and the heap record there is an
/// eight-byte little-endian length followed by the raw UTF-8 payload.
#[derive(Debug, PartialEq, Eq)]
pub struct DBExternalString(pub String);

impl DBExternalString {
    /// The empty string, ready to be decoded into.
    pub fn new() -> (v: Self)
        ensures
            v.0@ == Seq::<char>::empty(),
    {
        DBExternalString(String::new())
    }

    /// The in-row footprint of this representation: the eight-byte offset,
    /// independent of the payload's length.
    pub fn size(&self) -> (n: usize)
        ensures
            n == 8,
    {
        8
    }

    /// Decodes an external slot: reads the offset, then the heap record's
    /// length field, then that many payload bytes, leniently as UTF-8
    /// (invalid sequences are substituted, never rejected; valid UTF-8 is
    /// decoded exactly). Fails with a bounds error, leaving `self`
    /// unchanged, when the slot is not exactly eight bytes or the record
    /// runs past the end of the heap.
    pub fn read_from_buffer(&mut self, buf: &[u8], heap: &DbHeap) -> (r: Result<(), DbError>)
        ensures
            r == (if ext_slot_ok(buf@, heap@) {
                Ok::<(), DbError>(())
            } else {
                Err::<(), DbError>(DbError::Bounds)
            }),
            r is Ok ==> final(self).0@ == lossy_of(ext_payload(buf@, heap@)),
            r is Ok && valid_utf8(ext_payload(buf@, heap@)) ==> final(self).0@ == decode_utf8(
                ext_payload(buf@, heap@),
            ),
            r is Err ==> *final(self) == *old(self),
    {
        if buf.len() != 8 {
            return Err(DbError::Bounds);
        }
        let hlen = heap.len();
        let off64 = u64_from_le_bytes(buf);
        if off64 > hlen as u64 {
            return Err(DbError::Bounds);
        }
        let off = off64 as usize;
        let len_slice = match heap.get_slice(off, 8) {
            Ok(s) => s,
            Err(e) => {
                return Err(e);
            },
        };
        let size64 = u64_from_le_bytes(len_slice);
        if size64 > hlen as u64 {
            return Err(DbError::Bounds);
        }
        let size = size64 as usize;
        let data = match heap.get_slice(off + 8, size) {
            Ok(s) => s,
            Err(e) => {
                return Err(e);
            },
        };
        self.0 = lossy_string(data);
        Ok(())
    }

    /// Encodes the string externally: appends a heap record holding the
    /// payload's byte length and the payload itself, and writes the record's
    /// offset into the slot. Fails with a bounds error, changing nothing,
    /// when the slot is not exactly eight bytes. A successful encode leaves
    /// earlier heap bytes untouched, makes the slot readable against the
    /// grown heap, and decodes back to the string written.
    pub fn write_to_buffer(&self, buf: &mut Vec<u8>, heap: &mut DbHeap) -> (r: Result<
        (),
        DbError,
    >)
        ensures
            r == (if old(buf)@.len() == 8 {
                Ok::<(), DbError>(())
            } else {
                Err::<(), DbError>(DbError::Bounds)
            }),
            r is Err ==> final(buf)@ == old(buf)@ && final(heap)@ == old(heap)@,
            r is Ok ==> final(heap)@ == old(heap)@ + spec_u64_to_le_bytes(
                encode_utf8(self.0@).len() as u64,
            ) + encode_utf8(self.0@),
            r is Ok ==> final(buf)@ == spec_u64_to_le_bytes(old(heap)@.len() as u64),
            r is Ok ==> final(buf)@.len() == 8,
            r is Ok ==> final(heap)@.len() == old(heap)@.len() + 8 + encode_utf8(self.0@).len(),
            r is Ok ==> final(heap)@.subrange(0, old(heap)@.len() as int) == old(heap)@,
            r is Ok ==> ext_slot_ok(final(buf)@, final(heap)@),
            r is Ok ==> ext_record_len(final(buf)@, final(heap)@) == encode_utf8(self.0@).len(),
            r is Ok ==> ext_payload(final(buf)@, final(heap)@) == encode_utf8(self.0@),
            r is Ok ==> valid_utf8(ext_payload(final(buf)@, final(heap)@)) && decode_utf8(
                ext_payload(final(buf)@, final(heap)@),
            ) == self.0@,
    {
        if buf.len() != 8 {
            return Err(DbError::Bounds);
        }
        let bytes: &[u8] = self.0.as_str().as_bytes();
        let n = bytes.len();
        let mut record = u64_to_le_bytes(n as u64);
        let mut payload = slice_to_vec(bytes);
        record.append(&mut payload);
        let offset = heap.append_data(&mut record);
        *buf = u64_to_le_bytes(offset as u64);
        proof {
            lemma_auto_spec_u64_to_from_le_bytes();
            encode_utf8_valid_utf8(self.0@);
            encode_utf8_decode_utf8(self.0@);
            let off = spec_u64_from_le_bytes(buf@) as int;
            assert(off == offset as int);
            assert(heap@.subrange(off, off + 8) =~= spec_u64_to_le_bytes(
                encode_utf8(self.0@).len() as u64,
            ));
            assert(ext_payload(buf@, heap@) =~= encode_utf8(self.0@));
            assert(heap@.subrange(0, off) =~= old(heap)@);
        }
        Ok(())
    }
}

/// Round-trip for unsigned 64-bit values: decoding the eight little-endian
/// bytes a value encodes to yields the value back, for every value.
pub proof fn lemma_u64_round_trip(x: u64)
    ensures
        spec_u64_to_le_bytes(x).len() == 8,
        spec_u64_from_le_bytes(spec_u64_to_le_bytes(x)) == x,
{
    lemma_auto_spec_u64_to_from_le_bytes();
}

/// Round-trip for unsigned 32-bit values: decoding the four little-endian
/// bytes a value encodes to yields the value back, for every value.
pub proof fn lemma_u32_round_trip(x: u32)
    ensures
        spec_u32_to_le_bytes(x).len() == 4,
        spec_u32_from_le_bytes(spec_u32_to_le_bytes(x)) == x,
{
    lemma_auto_spec_u32_to_from_le_bytes();
    assert(spec_u32_to_le_bytes(x).len() == 4);
}

/// Round-trip for signed 64-bit values: decoding the eight little-endian
/// bytes a value encodes to yields the value back, for every value.
pub proof fn lemma_i64_round_trip(x: i64)
    ensures
        spec_i64_to_le_bytes(x).len() == 8,
        spec_i64_from_le_bytes(spec_i64_to_le_bytes(x)) == x,
{
    lemma_auto_spec_u64_to_from_le_bytes();
    assert(((x as u64) as i64) == x) by (bit_vector);
}

/// Round-trip for signed 32-bit values: decoding the four little-endian
/// bytes a value encodes to yields the value back, for every value.
pub proof fn lemma_i32_round_trip(x: i32)
    ensures
        spec_i32_to_le_bytes(x).len() == 4,
        spec_i32_from_le_bytes(spec_i32_to_le_bytes(x)) == x,
{
    lemma_auto_spec_u32_to_from_le_bytes();
    assert(spec_u32_to_le_bytes(x as u32).len() == 4);
    assert(((x as u32) as i32) == x) by (bit_vector);
}

/// Round-trip for booleans: decoding the byte a boolean encodes to yields
/// the boolean back.
pub proof fn lemma_boolean_round_trip(b: bool)
    ensures
        bool_slot(b).len() == 1,
        bool_of_slot(bool_slot(b)) == b,
{
}

/// Round-trip for inline strings: for every character sequence whose UTF-8
/// payload fits the single-byte length budget, and every destination buffer
/// wide enough for it, the slot the encoder produces is readable, carries
/// exactly that payload, and decodes back to the original characters.
pub proof fn lemma_inline_round_trip(chars: Seq<char>, dst: Seq<u8>)
    requires
        encode_utf8(chars).len() <= 255,
        1 + encode_utf8(chars).len() <= dst.len(),
    ensures
        inline_encoded(chars, dst).len() == dst.len(),
        inline_slot_ok(inline_encoded(chars, dst)),
        inline_payload(inline_encoded(chars, dst)) == encode_utf8(chars),
        valid_utf8(inline_payload(inline_encoded(chars, dst))),
        decode_utf8(inline_payload(inline_encoded(chars, dst))) == chars,
{
    encode_utf8_valid_utf8(chars);
    encode_utf8_decode_utf8(chars);
    let slot = inline_encoded(chars, dst);
    assert(inline_payload(slot) =~= encode_utf8(chars));
}

/// Round-trip for external strings: appending a heap record for any
/// character sequence to any heap state and pointing a slot at it yields a
/// readable slot whose record length field equals the payload's byte
/// length, whose payload is exactly the UTF-8 encoding, and which decodes
/// back to the original characters.
pub proof fn lemma_external_round_trip(chars: Seq<char>, heap: Seq<u8>)
    requires
        heap.len() + 8 + encode_utf8(chars).len() <= u64::MAX,
    ensures
        ({
            let slot = spec_u64_to_le_bytes(heap.len() as u64);
            let grown = heap + spec_u64_to_le_bytes(encode_utf8(chars).len() as u64) + encode_utf8(
                chars,
            );
            &&& ext_slot_ok(slot, grown)
            &&& ext_record_len(slot, grown) == encode_utf8(chars).len()
            &&& ext_payload(slot, grown) == encode_utf8(chars)
            &&& valid_utf8(ext_payload(slot, grown))
            &&& decode_utf8(ext_payload(slot, grown)) == chars
        }),
{
    lemma_auto_spec_u64_to_from_le_bytes();
    encode_utf8_valid_utf8(chars);
    encode_utf8_decode_utf8(chars);
    let slot = spec_u64_to_le_bytes(heap.len() as u64);
    let grown = heap + spec_u64_to_le_bytes(encode_utf8(chars).len() as u64) + encode_utf8(chars);
    let off = spec_u64_from_le_bytes(slot) as int;
    assert(off == heap.len());
    assert(grown.subrange(off, off + 8) =~= spec_u64_to_le_bytes(encode_utf8(chars).len() as u64));
    assert(ext_payload(slot, grown) =~= encode_utf8(chars));
}

} // verus!
