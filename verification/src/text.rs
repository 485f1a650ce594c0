//! Lenient UTF-8 decoding for string payloads read back from a buffer.
//!
//! Decoding is deliberately lossy: invalid byte sequences are substituted
//! with replacement characters instead of being rejected. On valid UTF-8 the
//! result is pinned exactly by vstd's byte-level model ([`decode_utf8`]).

use vstd::prelude::*;
use vstd::utf8::{decode_utf8, valid_utf8};

verus! {

/// The character sequence that lenient UTF-8 decoding yields for `bytes`.
/// It depends on the bytes alone; on valid UTF-8 it agrees with
/// [`decode_utf8`] (see [`lossy_string`]).
pub uninterp spec fn lossy_of(bytes: Seq<u8>) -> Seq<char>;

/// Relies on `String::from_utf8_lossy`: the result is a function of the
/// bytes alone, and on valid UTF-8 input the bytes are decoded unchanged
/// (invalid sequences would be replaced, never rejected).
#[verifier::external_body]
pub fn lossy_string(bytes: &[u8]) -> (r: String)
    ensures
        r@ == lossy_of(bytes@),
        valid_utf8(bytes@) ==> r@ == decode_utf8(bytes@),
{
    String::from_utf8_lossy(bytes).into_owned()
}

} // verus!
