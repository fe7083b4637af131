//! Universally unique identifiers: fresh random ones, which serve as
//! unguessable single-use strings, and reading one from text.

use vstd::prelude::*;

verus! {

/// Whether `c` is one of `0-9a-f`.
pub open spec fn is_lower_hex(c: char) -> bool {
    ('0' <= c && c <= '9') || ('a' <= c && c <= 'f')
}

/// The hyphenated form of a UUID: 36 characters, hyphens after the
/// groups of 8, 4, 4 and 4 hexadecimal digits.
pub open spec fn is_uuid_text(s: Seq<char>) -> bool {
    &&& s.len() == 36
    &&& forall|i: int|
        0 <= i < 36 ==> if i == 8 || i == 13 || i == 18 || i == 23 {
            s[i] == '-'
        } else {
            is_lower_hex(#[trigger] s[i])
        }
}

/// A fresh random identifier in hyphenated form.
///
/// Trusted: calls `uuid::Uuid::new_v4` and formats the result with its
/// `Display` impl. The contract claims only the shape of the text, which is
/// the same for every UUID; which one comes back is left open.
#[verifier::external_body]
pub(crate) fn random_uuid_text() -> (text: String)
    ensures
        is_uuid_text(text@),
{
    uuid::Uuid::new_v4().to_string()
}

/// The hyphenated form of the UUID that `text` spells in any of the
/// accepted forms, or `None` where it spells none.
pub uninterp spec fn uuid_parsed(text: Seq<char>) -> Option<Seq<char>>;

/// Reads a UUID and hands it out in hyphenated form.
///
/// Trusted: calls `uuid::Uuid::parse_str` and formats the result with its
/// `Display` impl. The contract claims that the outcome is the one
/// [`uuid_parsed`] names, and that the text has the shape of a hyphenated
/// UUID.
#[verifier::external_body]
pub(crate) fn parse_uuid(text: &str) -> (id: Option<String>)
    ensures
        id.deep_view() == uuid_parsed(text@),
        id matches Some(s) ==> is_uuid_text(s@),
{
    uuid::Uuid::parse_str(text).ok().map(|id| id.to_string())
}

} // verus!
