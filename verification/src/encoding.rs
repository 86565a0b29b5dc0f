//! Bytes as text: base64 and UTF-8.

use base64::Engine;
use vstd::prelude::*;
use vstd::utf8::{decode_utf8, valid_utf8};

verus! {

/// The bytes that a text denotes in standard base64, or how decoding complains.
pub uninterp spec fn base64_decoded(text: Seq<char>) -> Result<Seq<u8>, Seq<char>>;

/// The standard base64 notation of a message.
pub uninterp spec fn base64_encoded(message: Seq<u8>) -> Seq<char>;

/// A character of standard base64 notation.
pub open spec fn is_base64_char(c: char) -> bool {
    'A' <= c <= 'Z' || 'a' <= c <= 'z' || '0' <= c <= '9' || c == '+' || c == '/' || c == '='
}

/// Whether every character is one of base64 notation.
pub open spec fn in_base64_alphabet(s: Seq<char>) -> bool {
    forall|i: int| 0 <= i < s.len() ==> is_base64_char(#[trigger] s[i])
}

/// Whether decoding `text` gives `message`.
pub open spec fn decodes_to(text: Seq<char>, message: Seq<u8>) -> bool {
    base64_decoded(text) == Ok::<Seq<u8>, Seq<char>>(message)
}

/// `base64::Engine::encode` of the `STANDARD` engine: the notation of `message`, in
/// the standard alphabet with padding, and decoding gives `message` back. The
/// notation, four characters for every three bytes begun, fits in memory.
#[verifier::external_body]
pub(crate) fn encode_base64(message: &[u8]) -> (r: String)
    requires
        (message@.len() + 2) / 3 * 4 <= isize::MAX,
    ensures
        r@ == base64_encoded(message@),
        decodes_to(r@, message@),
        in_base64_alphabet(r@),
{
    base64::engine::general_purpose::STANDARD.encode(message)
}

/// The views of a decoding.
pub open spec fn bytes_result(r: Result<Vec<u8>, String>) -> Result<Seq<u8>, Seq<char>> {
    match r {
        Ok(b) => Ok(b@),
        Err(e) => Err(e@),
    }
}

/// `base64::Engine::decode` of the `STANDARD` engine, with its error as text.
#[verifier::external_body]
pub(crate) fn decode_base64(text: &str) -> (r: Result<Vec<u8>, String>)
    ensures
        bytes_result(r) == base64_decoded(text@),
{
    base64::engine::general_purpose::STANDARD.decode(text).map_err(|e| e.to_string())
}

/// How `String::from_utf8` complains of bytes that are not UTF-8.
pub uninterp spec fn utf8_complaint(bytes: Seq<u8>) -> Seq<char>;

/// `String::from_utf8`: the text that the bytes encode, where they are UTF-8.
#[verifier::external_body]
pub(crate) fn text_from_utf8(bytes: Vec<u8>) -> (r: Result<String, String>)
    ensures
        match r {
            Ok(s) => valid_utf8(bytes@) && s@ == decode_utf8(bytes@),
            Err(e) => !valid_utf8(bytes@) && e@ == utf8_complaint(bytes@),
        },
{
    String::from_utf8(bytes).map_err(|e| e.to_string())
}

} // verus!
