//! Validation of what users type in: e-mail addresses, passwords, phone
//! numbers and URLs.

use vstd::prelude::*;
use vstd::string::*;
use crate::error::{AppError, AppResult, ErrorKind};
use crate::pattern::{regex_match, regex_matched};
use crate::text::{chars_of, join, joined};

verus! {

/// Why a value was turned down: a short code.
#[derive(Debug, Clone, Copy, PartialEq, Eq)]
pub struct ValidationError {
    pub code: &'static str,
}

/// Validation error response.
#[derive(Debug, Clone, PartialEq, Eq)]
pub struct ValidationErrorResponse {
    /// Error message.
    pub message: String,
    /// Field errors: for each field that failed, its messages.
    pub errors: Vec<(String, Vec<String>)>,
}

/// The message of one failed check, or `Invalid value` where it has none.
pub open spec fn message_or_default(message: Option<String>) -> Seq<char> {
    match message {
        Some(text) => text@,
        None => "Invalid value"@,
    }
}

/// One field with its messages, as `name: first, second`.
pub open spec fn field_text(field: (String, Vec<String>)) -> Seq<char> {
    field.0@ + ": "@ + joined(field.1.deep_view(), ", "@)
}

impl ValidationErrorResponse {
    /// The response in one line: the message, and behind `: ` the fields
    /// with their messages, separated by `; `.
    pub open spec fn summary(&self) -> Seq<char> {
        if self.errors@.len() == 0 {
            self.message@
        } else {
            self.message@ + ": "@ + joined(
                self.errors@.map_values(|field: (String, Vec<String>)| field_text(field)),
                "; "@,
            )
        }
    }

    /// The response in one line.
    pub fn to_text(&self) -> (text: String)
        ensures
            text@ == self.summary(),
    {
        let mut text = self.message.clone();
        if self.errors.len() == 0 {
            return text;
        }
        let mut fields: Vec<String> = Vec::new();
        let mut i: usize = 0;
        while i < self.errors.len()
            invariant
                i <= self.errors@.len(),
                fields@.len() == i,
                forall|k: int|
                    0 <= k < i ==> (#[trigger] fields@[k])@ == field_text(self.errors@[k]),
            decreases self.errors@.len() - i,
        {
            let mut field = self.errors[i].0.clone();
            field.append(": ");
            field.append(join(&self.errors[i].1, ", ").as_str());
            fields.push(field);
            i += 1;
        }
        proof {
            let wanted = self.errors@.map_values(
                |field: (String, Vec<String>)| field_text(field),
            );
            assert(fields.deep_view() =~= wanted);
        }
        text.append(": ");
        text.append(join(&fields, "; ").as_str());
        text
    }

    /// Whether this response reports the failed checks `fields`: the same
    /// fields in the same order, each with the messages of its checks.
    pub open spec fn reports(&self, fields: Seq<(String, Vec<Option<String>>)>) -> bool {
        &&& self.message@ == "Validation failed"@
        &&& self.errors@.len() == fields.len()
        &&& forall|i: int|
            0 <= i < fields.len() ==> {
                &&& (#[trigger] self.errors@[i]).0@ == fields[i].0@
                &&& self.errors@[i].1@.len() == fields[i].1@.len()
                &&& forall|j: int|
                    0 <= j < fields[i].1@.len() ==> (#[trigger] self.errors@[i].1@[j])@
                        == message_or_default(fields[i].1@[j])
            }
    }

    /// The response for the failed checks `fields`, each a field's name
    /// with the messages of the checks that failed on it.
    pub fn from(fields: &Vec<(String, Vec<Option<String>>)>) -> (response: ValidationErrorResponse)
        ensures
            response.reports(fields@),
    {
        let mut errors: Vec<(String, Vec<String>)> = Vec::new();
        let mut i: usize = 0;
        while i < fields.len()
            invariant
                i <= fields@.len(),
                errors@.len() == i,
                forall|k: int|
                    0 <= k < i ==> {
                        &&& (#[trigger] errors@[k]).0@ == fields@[k].0@
                        &&& errors@[k].1@.len() == fields@[k].1@.len()
                        &&& forall|j: int|
                            0 <= j < fields@[k].1@.len() ==> (#[trigger] errors@[k].1@[j])@
                                == message_or_default(fields@[k].1@[j])
                    },
            decreases fields@.len() - i,
        {
            let checks = &fields[i].1;
            let mut messages: Vec<String> = Vec::new();
            let mut j: usize = 0;
            while j < checks.len()
                invariant
                    j <= checks@.len(),
                    messages@.len() == j,
                    forall|m: int|
                        0 <= m < j ==> (#[trigger] messages@[m])@ == message_or_default(
                            checks@[m],
                        ),
                decreases checks@.len() - j,
            {
                let text = match &checks[j] {
                    Some(text) => text.clone(),
                    None => String::from_str("Invalid value"),
                };
                messages.push(text);
                j += 1;
            }
            errors.push((fields[i].0.clone(), messages));
            i += 1;
        }
        ValidationErrorResponse { message: String::from_str("Validation failed"), errors }
    }
}

/// Validate a struct and return a result: the outcome of its checks as
/// an application result, with the fields that failed and their
/// messages in the error.
pub fn validate_struct(outcome: Result<(), ValidationErrorResponse>) -> (result: AppResult<()>)
    ensures
        match outcome {
            Ok(_) => result is Ok,
            Err(response) => result matches Err(e) && e.kind() == ErrorKind::Validation
                && e.message_text() == response.summary(),
        },
{
    match outcome {
        Ok(_) => Ok(()),
        Err(response) => Err(AppError::Validation(response.to_text())),
    }
}

/// The pattern of an e-mail address.
pub open spec fn email_pattern() -> Seq<char> {
    "^[a-zA-Z0-9.!#$%&'*+/=?^_`{|}~-]+@[a-zA-Z0-9](?:[a-zA-Z0-9-]{0,61}[a-zA-Z0-9])?(?:\\.[a-zA-Z0-9](?:[a-zA-Z0-9-]{0,61}[a-zA-Z0-9])?)*$"@
}

/// The pattern of a phone number.
pub open spec fn phone_pattern() -> Seq<char> {
    "^\\+?[1-9]\\d{1,14}$"@
}

/// The pattern of a URL.
pub open spec fn url_pattern() -> Seq<char> {
    "^(https?://)?(www\\.)?[-a-zA-Z0-9@:%._\\+~#=]{1,256}\\.[a-zA-Z0-9()]{1,6}\\b([-a-zA-Z0-9()@:%_\\+.~#?&//=]*)"@
}

/// The pattern of the special characters of which a password needs one.
pub open spec fn special_pattern() -> Seq<char> {
    "[!@#$%^&*(),.?:{}|<>]"@
}

/// Validate an email address.
pub fn validate_email(email: &str) -> (checked: Result<(), ValidationError>)
    ensures
        checked is Ok <==> regex_matched(email_pattern(), email@) == Some(true),
        checked matches Err(e) ==> e.code@ == "invalid_email"@,
{
    let matched = regex_match(
        "^[a-zA-Z0-9.!#$%&'*+/=?^_`{|}~-]+@[a-zA-Z0-9](?:[a-zA-Z0-9-]{0,61}[a-zA-Z0-9])?(?:\\.[a-zA-Z0-9](?:[a-zA-Z0-9-]{0,61}[a-zA-Z0-9])?)*$",
        email,
    );
    match matched {
        Some(true) => Ok(()),
        _ => Err(ValidationError { code: "invalid_email" }),
    }
}

/// Whether `c` is one of `A-Z`.
pub open spec fn is_upper(c: char) -> bool {
    'A' <= c && c <= 'Z'
}

/// Whether `c` is one of `a-z`.
pub open spec fn is_lower(c: char) -> bool {
    'a' <= c && c <= 'z'
}

/// Whether `c` is one of `0-9`.
pub open spec fn is_digit(c: char) -> bool {
    '0' <= c && c <= '9'
}

/// The code of the first rule that a password breaks, if it breaks one:
/// at least eight bytes, an upper-case letter, a lower-case letter, a
/// digit, a special character.
pub open spec fn password_fault(password: Seq<char>) -> Option<Seq<char>> {
    if vstd::utf8::encode_utf8(password).len() < 8 {
        Some("password_too_short"@)
    } else if !(exists|i: int| 0 <= i < password.len() && is_upper(#[trigger] password[i])) {
        Some("password_no_uppercase"@)
    } else if !(exists|i: int| 0 <= i < password.len() && is_lower(#[trigger] password[i])) {
        Some("password_no_lowercase"@)
    } else if !(exists|i: int| 0 <= i < password.len() && is_digit(#[trigger] password[i])) {
        Some("password_no_digit"@)
    } else if regex_matched(special_pattern(), password) != Some(true) {
        Some("password_no_special_char"@)
    } else {
        None
    }
}

/// Which of the three classes of characters a password holds.
fn classes(password: &str) -> (found: (bool, bool, bool))
    ensures
        found.0 == (exists|i: int| 0 <= i < password@.len() && is_upper(#[trigger] password@[i])),
        found.1 == (exists|i: int| 0 <= i < password@.len() && is_lower(#[trigger] password@[i])),
        found.2 == (exists|i: int| 0 <= i < password@.len() && is_digit(#[trigger] password@[i])),
{
    let v = chars_of(password);
    let mut upper = false;
    let mut lower = false;
    let mut digit = false;
    let mut i: usize = 0;
    while i < v.len()
        invariant
            i <= v@.len(),
            upper == (exists|k: int| 0 <= k < i && is_upper(#[trigger] v@[k])),
            lower == (exists|k: int| 0 <= k < i && is_lower(#[trigger] v@[k])),
            digit == (exists|k: int| 0 <= k < i && is_digit(#[trigger] v@[k])),
        decreases v@.len() - i,
    {
        let c = v[i];
        if 'A' <= c && c <= 'Z' {
            upper = true;
        }
        if 'a' <= c && c <= 'z' {
            lower = true;
        }
        if '0' <= c && c <= '9' {
            digit = true;
        }
        proof {
            assert(is_upper(v@[i as int]) == ('A' <= c && c <= 'Z'));
        }
        i += 1;
    }
    (upper, lower, digit)
}

/// Validate a password.
pub fn validate_password(password: &str) -> (checked: Result<(), ValidationError>)
    ensures
        match checked {
            Ok(_) => password_fault(password@) is None,
            Err(e) => password_fault(password@) == Some(e.code@),
        },
{
    if password.as_bytes().len() < 8 {
        return Err(ValidationError { code: "password_too_short" });
    }
    let (upper, lower, digit) = classes(password);
    if !upper {
        return Err(ValidationError { code: "password_no_uppercase" });
    }
    if !lower {
        return Err(ValidationError { code: "password_no_lowercase" });
    }
    if !digit {
        return Err(ValidationError { code: "password_no_digit" });
    }
    match regex_match("[!@#$%^&*(),.?:{}|<>]", password) {
        Some(true) => Ok(()),
        _ => Err(ValidationError { code: "password_no_special_char" }),
    }
}

/// Validate a phone number.
pub fn validate_phone(phone: &str) -> (checked: Result<(), ValidationError>)
    ensures
        checked is Ok <==> regex_matched(phone_pattern(), phone@) == Some(true),
        checked matches Err(e) ==> e.code@ == "invalid_phone"@,
{
    match regex_match("^\\+?[1-9]\\d{1,14}$", phone) {
        Some(true) => Ok(()),
        _ => Err(ValidationError { code: "invalid_phone" }),
    }
}

/// Validate a URL.
pub fn validate_url(url: &str) -> (checked: Result<(), ValidationError>)
    ensures
        checked is Ok <==> regex_matched(url_pattern(), url@) == Some(true),
        checked matches Err(e) ==> e.code@ == "invalid_url"@,
{
    let matched = regex_match(
        "^(https?://)?(www\\.)?[-a-zA-Z0-9@:%._\\+~#=]{1,256}\\.[a-zA-Z0-9()]{1,6}\\b([-a-zA-Z0-9()@:%_\\+.~#?&//=]*)",
        url,
    );
    match matched {
        Some(true) => Ok(()),
        _ => Err(ValidationError { code: "invalid_url" }),
    }
}

} // verus!
