//! Base64url and UTF-8, the two encodings a token segment goes through.

use vstd::prelude::*;
use vstd::utf8::*;
use base64::Engine;

verus! {

/// The bytes that the unpadded URL-safe Base64 text `text` stands for, or
/// `None` where it is no such text.
pub uninterp spec fn base64url_decoded(text: Seq<char>) -> Option<Seq<u8>>;

/// The unpadded URL-safe Base64 text for `bytes`.
pub uninterp spec fn base64url_encoded(bytes: Seq<u8>) -> Seq<char>;

/// Whether `c` belongs to the URL-safe Base64 alphabet.
pub open spec fn is_base64url_char(c: char) -> bool {
    ('A' <= c && c <= 'Z') || ('a' <= c && c <= 'z') || ('0' <= c && c <= '9') || c == '-' || c
        == '_'
}

/// Whether the Base64 text for `len` bytes has a length within `usize`.
pub open spec fn base64_fits(len: nat) -> bool {
    (len / 3) * 4 + 3 <= usize::MAX
}

/// Decodes unpadded URL-safe Base64.
///
/// Trusted: calls `decode` of `base64::engine::general_purpose::URL_SAFE_NO_PAD`.
/// The contract claims that the bytes are those that [`base64url_decoded`]
/// names, and `None` exactly where the engine reports an error.
#[verifier::external_body]
pub(crate) fn base64url_decode(text: &str) -> (bytes: Option<Vec<u8>>)
    ensures
        match bytes {
            Some(b) => base64url_decoded(text@) == Some(b@),
            None => base64url_decoded(text@) is None,
        },
{
    base64::engine::general_purpose::URL_SAFE_NO_PAD.decode(text).ok()
}

/// Encodes as unpadded URL-safe Base64.
///
/// Trusted: calls `encode` of `base64::engine::general_purpose::URL_SAFE_NO_PAD`,
/// which panics where the length of the text overflows `usize`; `requires`
/// leaves those inputs out. The contract claims that the text is the one
/// [`base64url_encoded`] names, that it is made of the URL-safe alphabet,
/// and that decoding it gives the bytes back.
#[verifier::external_body]
pub(crate) fn base64url_encode(bytes: &[u8]) -> (text: String)
    requires
        base64_fits(bytes@.len()),
    ensures
        text@ == base64url_encoded(bytes@),
        forall|i: int| 0 <= i < text@.len() ==> is_base64url_char(#[trigger] text@[i]),
        base64url_decoded(text@) == Some(bytes@),
{
    base64::engine::general_purpose::URL_SAFE_NO_PAD.encode(bytes)
}

/// Reads bytes as UTF-8 text.
///
/// Trusted: calls `String::from_utf8`. The contract claims that it succeeds
/// exactly on valid UTF-8 and then holds the decoded characters.
#[verifier::external_body]
pub(crate) fn utf8_text(bytes: Vec<u8>) -> (text: Option<String>)
    ensures
        text is Some <==> valid_utf8(bytes@),
        text matches Some(s) ==> s@ == decode_utf8(bytes@),
{
    String::from_utf8(bytes).ok()
}

} // verus!
