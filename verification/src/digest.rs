//! The content-addressable digest behind every identity: a 256-bit hash of a
//! byte message, rendered as 64 lowercase hexadecimal characters.

use vstd::prelude::*;

verus! {

/// The hex rendering of the 256-bit digest that the hashing crate computes
/// for `bytes`; a fixed function of the input bytes alone.
pub uninterp spec fn blake3_hex_of(bytes: Seq<u8>) -> Seq<char>;

/// Relies on `blake3::hash`, a 32-byte digest determined by the input bytes
/// alone, and on `blake3::Hash::to_hex`, its 64 lowercase hex characters.
#[verifier::external_body]
pub(crate) fn blake3_hex(bytes: &Vec<u8>) -> (r: String)
    ensures
        r@ == blake3_hex_of(bytes@),
        r@.len() == 64,
{
    blake3::hash(bytes.as_slice()).to_hex().as_str().to_string()
}

} // verus!
