//! A typed row-encoding engine: maps a declared field schema onto raw byte
//! buffers. Fixed-width scalar fields are stored little-endian inside the
//! fixed row region; variable-length fields are stored either inline (short
//! strings, length-prefixed) or indirected through an append-only byte heap
//! (long strings and blobs, referenced by a stable offset).

use vstd::prelude::*;

pub mod buffer;
pub mod db_value;
pub mod heap;
pub mod schema;
pub mod text;

verus! {

/// Every failure an encode or decode can report.
#[derive(Debug, Clone, Copy, PartialEq, Eq, Structural)]
pub enum DbError {
    /// A read or write was asked to touch bytes past the end of its buffer,
    /// or a target slice does not have the width the codec needs.
    Bounds,
    /// An inline string's byte length exceeds the single-byte length budget.
    LengthOverflow,
}

} // verus!
