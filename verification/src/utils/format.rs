//! Formatting of addresses, names and phone numbers for display.

use vstd::prelude::*;
use vstd::string::*;
use vstd::utf8::{decode_utf8, encode_utf8, is_char_boundary};

verus! {

/// An address on one line, with or without a second street line.
pub open spec fn address_line(
    street1: Seq<char>,
    street2: Option<Seq<char>>,
    city: Seq<char>,
    state: Seq<char>,
    postal_code: Seq<char>,
) -> Seq<char> {
    match street2 {
        Some(second) => street1 + ", "@ + second + " "@ + city + ", "@ + state + " "@
            + postal_code,
        None => street1 + ", "@ + city + ", "@ + state + " "@ + postal_code,
    }
}

/// Format an address into a single line.
pub fn format_address_single_line(
    street1: &str,
    street2: Option<&str>,
    city: &str,
    state: &str,
    postal_code: &str,
) -> (line: String)
    ensures
        line@ == address_line(street1@, street2.deep_view(), city@, state@, postal_code@),
{
    let mut line = String::from_str(street1);
    line.append(", ");
    if let Some(second) = street2 {
        line.append(second);
        line.append(" ");
    }
    line.append(city);
    line.append(", ");
    line.append(state);
    line.append(" ");
    line.append(postal_code);
    line
}

/// Format a person's full name.
pub fn format_name(first_name: &str, last_name: &str) -> (name: String)
    ensures
        name@ == first_name@ + " "@ + last_name@,
{
    let mut name = String::from_str(first_name);
    name.append(" ");
    name.append(last_name);
    name
}

/// Whether a phone number can be formatted: where it is ten bytes
/// long, its fourth and its seventh byte must each begin a character.
pub open spec fn phone_splits(phone: Seq<char>) -> bool {
    let bytes = encode_utf8(phone);
    bytes.len() == 10 ==> is_char_boundary(bytes, 3) && is_char_boundary(bytes, 6)
}

/// A phone number of ten bytes as `(abc) def-ghij`; any other unchanged.
pub open spec fn phone_text(phone: Seq<char>) -> Seq<char> {
    let bytes = encode_utf8(phone);
    if bytes.len() == 10 {
        "("@ + decode_utf8(bytes.subrange(0, 3)) + ") "@ + decode_utf8(bytes.subrange(3, 6))
            + "-"@ + decode_utf8(bytes.subrange(6, 10))
    } else {
        phone
    }
}

/// Format a phone number.
pub fn format_phone(phone: &str) -> (text: String)
    requires
        phone_splits(phone@),
    ensures
        text@ == phone_text(phone@),
{
    if phone.as_bytes().len() == 10 {
        let (area, rest) = phone.split_at(3);
        proof {
            let bytes = encode_utf8(phone@);
            assert(rest.spec_bytes() =~= bytes.subrange(3, 10));
            vstd::utf8::encode_utf8_valid_utf8(phone@);
            vstd::utf8::encode_utf8_valid_utf8(rest@);
            vstd::utf8::is_char_boundary_iff_not_is_continuation_byte(bytes, 6);
            vstd::utf8::is_char_boundary_iff_not_is_continuation_byte(rest.spec_bytes(), 3);
            assert(bytes.subrange(3, 10)[3] == bytes[6]);
        }
        let (exchange, line) = rest.split_at(3);
        proof {
            let bytes = encode_utf8(phone@);
            vstd::utf8::encode_utf8_decode_utf8(area@);
            vstd::utf8::encode_utf8_decode_utf8(exchange@);
            vstd::utf8::encode_utf8_decode_utf8(line@);
            assert(area.spec_bytes() =~= bytes.subrange(0, 3));
            assert(exchange.spec_bytes() =~= bytes.subrange(3, 6));
            assert(line.spec_bytes() =~= bytes.subrange(6, 10));
        }
        let mut text = String::from_str("(");
        text.append(area);
        text.append(") ");
        text.append(exchange);
        text.append("-");
        text.append(line);
        text
    } else {
        String::from_str(phone)
    }
}

/// Whether a string can be cut to `max_len` bytes: where it is longer,
/// there must be room for the ellipsis, and the cut must not fall inside
/// a character.
pub open spec fn truncates(s: Seq<char>, max_len: usize) -> bool {
    let bytes = encode_utf8(s);
    bytes.len() > max_len ==> max_len >= 3 && is_char_boundary(bytes, max_len - 3)
}

/// A string of at most `max_len` bytes unchanged; of a longer one the
/// first `max_len - 3` bytes and an ellipsis.
pub open spec fn truncated(s: Seq<char>, max_len: usize) -> Seq<char> {
    let bytes = encode_utf8(s);
    if bytes.len() <= max_len {
        s
    } else {
        decode_utf8(bytes.subrange(0, max_len - 3)) + "..."@
    }
}

/// Truncate a long string to a given length with an ellipsis.
pub fn truncate_string(s: &str, max_len: usize) -> (text: String)
    requires
        truncates(s@, max_len),
    ensures
        text@ == truncated(s@, max_len),
{
    if s.as_bytes().len() <= max_len {
        String::from_str(s)
    } else {
        let (kept, _) = s.split_at(max_len - 3);
        proof {
            vstd::utf8::encode_utf8_decode_utf8(kept@);
        }
        let mut text = String::from_str(kept);
        text.append("...");
        text
    }
}

} // verus!
