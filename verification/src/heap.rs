//! The append-only byte heap backing externally indirected values.
//!
//! Offsets handed out by `append_data` stay valid for the heap's whole
//! lifetime: there is no deletion, shrinking or compaction (a deliberate
//! non-goal, not an oversight).

use crate::DbError;
use vstd::prelude::*;
use vstd::slice::slice_subrange;

verus! {

/// A growable byte arena. Data is only ever appended; the offset returned
/// for an append (the arena's length just before it) never moves.
#[derive(Debug)]
pub struct DbHeap {
    buf: Vec<u8>,
}

impl View for DbHeap {
    type V = Seq<u8>;

    closed spec fn view(&self) -> Seq<u8> {
        self.buf@
    }
}

impl DbHeap {
    /// An empty heap.
    pub fn new() -> (h: Self)
        ensures
            h@ =~= Seq::<u8>::empty(),
    {
        DbHeap { buf: Vec::new() }
    }

    /// An empty heap whose backing buffer starts out with room for `size`
    /// bytes. Capacity is invisible to callers: the heap is still empty.
    pub fn new_sized(size: usize) -> (h: Self)
        ensures
            h@ =~= Seq::<u8>::empty(),
    {
        DbHeap { buf: Vec::with_capacity(size) }
    }

    /// How many bytes the heap currently holds.
    pub fn len(&self) -> (n: usize)
        ensures
            n == self@.len(),
    {
        self.buf.len()
    }

    /// Moves `data` to the end of the arena and returns the byte offset at
    /// which it now starts: the arena's length before the append. `data` is
    /// drained. Appending never fails and never moves earlier bytes.
    pub fn append_data(&mut self, data: &mut Vec<u8>) -> (offset: usize)
        ensures
            offset == old(self)@.len(),
            final(self)@ == old(self)@ + old(data)@,
            final(data)@ =~= Seq::<u8>::empty(),
    {
        let prev_len = self.buf.len();
        self.buf.append(data);
        prev_len
    }

    /// A borrowed view of `len` bytes starting at `offset`, or a bounds
    /// error when `offset + len` runs past the end of the arena.
    pub fn get_slice(&self, offset: usize, len: usize) -> (r: Result<&[u8], DbError>)
        ensures
            r is Ok <==> offset + len <= self@.len(),
            r is Err ==> r == Err::<&[u8], DbError>(DbError::Bounds),
            r matches Ok(s) ==> s@ == self@.subrange(offset as int, offset + len),
    {
        if offset <= self.buf.len() && len <= self.buf.len() - offset {
            Ok(slice_subrange(self.buf.as_slice(), offset, offset + len))
        } else {
            Err(DbError::Bounds)
        }
    }
}

/// Heap offsets are stable: once a range of bytes stands below a heap's
/// length, any later heap state that extends the earlier one (which is all
/// appends can produce) still holds exactly those bytes in that range.
pub proof fn lemma_heap_offset_stable(h1: Seq<u8>, h2: Seq<u8>, offset: int, len: int)
    requires
        h1.len() <= h2.len(),
        h2.subrange(0, h1.len() as int) == h1,
        0 <= offset,
        0 <= len,
        offset + len <= h1.len(),
    ensures
        h2.subrange(offset, offset + len) == h1.subrange(offset, offset + len),
{
    assert(h2.subrange(offset, offset + len) =~= h2.subrange(0, h1.len() as int).subrange(
        offset,
        offset + len,
    ));
}

} // verus!
