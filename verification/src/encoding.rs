//! Base64 in the standard alphabet with padding, as the `base64` crate
//! computes it.

use vstd::prelude::*;
use base64::Engine;

verus! {

/// The base64 text of a byte string: what `STANDARD.encode` returns.
pub uninterp spec fn base64_encoding(bytes: Seq<u8>) -> Seq<char>;

/// The byte string that a base64 text stands for, where it is one: what
/// `STANDARD.decode` returns.
pub uninterp spec fn base64_decoding(text: Seq<char>) -> Option<Seq<u8>>;

/// The number of characters of the base64 text of `bytes` bytes: four for
/// every three bytes or part of three, since the text is padded.
pub open spec fn base64_length(bytes: nat) -> nat {
    4 * ((bytes + 2) / 3)
}

/// Calls `Engine::encode` on `base64::engine::general_purpose::STANDARD`.
/// The result is the base64 text of the bytes, padded to a whole number of
/// groups of four characters, and decoding it gives the bytes back. The size
/// computation inside cannot overflow, since a slice holds at most
/// `isize::MAX` bytes.
#[verifier::external_body]
pub(crate) fn base64_encode(bytes: &[u8]) -> (text: String)
    ensures
        text@ == base64_encoding(bytes@),
        text@.len() == base64_length(bytes@.len()),
        base64_decoding(text@) == Some(bytes@),
{
    base64::engine::general_purpose::STANDARD.encode(bytes)
}

/// Calls `Engine::decode` on `base64::engine::general_purpose::STANDARD`.
/// The result is the bytes that the text stands for, or nothing where the
/// text is not base64.
#[verifier::external_body]
pub(crate) fn base64_decode(text: &str) -> (bytes: Option<Vec<u8>>)
    ensures
        match base64_decoding(text@) {
            Some(b) => bytes matches Some(v) && v@ == b,
            None => bytes is None,
        },
{
    base64::engine::general_purpose::STANDARD.decode(text).ok()
}

} // verus!
