//! Base58 text, as account keys and instruction payloads arrive in it.
use vstd::prelude::*;

verus! {

/// What decoding `text` as Base58 (Bitcoin alphabet) gives: the bytes, or
/// the decoder's description of the first fault in the text.
pub uninterp spec fn base58_decoded(text: Seq<char>) -> Result<Seq<u8>, Seq<char>>;

/// The view of a decoding result.
pub open spec fn decoded_view(r: Result<Vec<u8>, String>) -> Result<Seq<u8>, Seq<char>> {
    match r {
        Ok(bytes) => Ok(bytes@),
        Err(description) => Err(description@),
    }
}

/// Decodes Base58 text with `bs58::decode(..).into_vec()`.
///
/// Trusted: the result is a function of the text alone. An error is handed
/// on as the text that the decoder's error displays.
#[verifier::external_body]
pub(crate) fn decode_base58(text: &str) -> (r: Result<Vec<u8>, String>)
    ensures
        decoded_view(r) == base58_decoded(text@),
{
    match bs58::decode(text).into_vec() {
        Ok(bytes) => Ok(bytes),
        Err(e) => Err(e.to_string()),
    }
}

} // verus!
