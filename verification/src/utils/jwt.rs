//! Unsigned stand-in tokens for users, for use where no signature is
//! needed: the claims travel as plain JSON behind a marker.

use vstd::prelude::*;
use vstd::string::*;
use crate::clock::{clamp_timestamp, seconds_after_unsigned, unix_now};
use crate::error::auth_failure;
use crate::error::{AppError, AppErrorView, AppResult};
use crate::json::{
    json_object_parsed, json_object_rendered, required_int, required_text, JsonFieldView,
    JsonObject,
};
use crate::models::user::UserRole;
use crate::nonce::{parse_uuid, uuid_parsed};
use crate::text::{has_prefix, skip_chars, split, split_at_char, starts_with};

verus! {

/// JWT Claims structure.
#[derive(Debug, Clone, PartialEq, Eq)]
pub struct Claims {
    /// Subject (user ID).
    pub sub: String,
    /// Issued at timestamp.
    pub iat: i64,
    /// Expiration timestamp.
    pub exp: i64,
    /// User role.
    pub role: String,
    /// Email.
    pub email: String,
    /// Name.
    pub name: String,
}

/// The mathematical value of [`Claims`].
pub struct ClaimsView {
    pub sub: Seq<char>,
    pub iat: i64,
    pub exp: i64,
    pub role: Seq<char>,
    pub email: Seq<char>,
    pub name: Seq<char>,
}

impl View for Claims {
    type V = ClaimsView;

    open spec fn view(&self) -> ClaimsView {
        ClaimsView {
            sub: self.sub@,
            iat: self.iat,
            exp: self.exp,
            role: self.role@,
            email: self.email@,
            name: self.name@,
        }
    }
}

/// The value of a result that holds claims.
pub open spec fn claims_outcome(r: AppResult<Claims>) -> Result<ClaimsView, AppErrorView> {
    match r {
        Ok(claims) => Ok(claims@),
        Err(e) => Err(e@),
    }
}

/// The marker that stands before an encoded segment.
pub open spec fn marker() -> Seq<char> {
    "encoded_"@
}

/// The members that stand for claims, in the order in which they are written.
pub open spec fn claims_entries(claims: ClaimsView) -> Seq<(Seq<char>, JsonFieldView)> {
    seq![
        ("sub"@, JsonFieldView::Text(claims.sub)),
        ("iat"@, JsonFieldView::Number(Some(claims.iat))),
        ("exp"@, JsonFieldView::Number(Some(claims.exp))),
        ("role"@, JsonFieldView::Text(claims.role)),
        ("email"@, JsonFieldView::Text(claims.email)),
        ("name"@, JsonFieldView::Text(claims.name)),
    ]
}

/// The claims that a JSON object holds: all six members must be there.
pub open spec fn claims_in(members: Map<Seq<char>, JsonFieldView>) -> Option<ClaimsView> {
    match (
        required_text(members, "sub"@),
        required_int(members, "iat"@),
        required_int(members, "exp"@),
        required_text(members, "role"@),
        required_text(members, "email"@),
        required_text(members, "name"@),
    ) {
        (Some(sub), Some(iat), Some(exp), Some(role), Some(email), Some(name)) => Some(
            ClaimsView { sub, iat, exp, role, email, name },
        ),
        _ => None,
    }
}

/// The token for claims: `header.`, the marker, the claims as JSON, and
/// `.signature`.
pub open spec fn token_text(claims: ClaimsView) -> Seq<char> {
    "header."@ + marker() + json_object_rendered(claims_entries(claims)) + ".signature"@
}

/// The claims that a token carries, whether expired or not: the token
/// must have three segments separated by dots, the second of them the
/// marker followed by a JSON object that holds the claims.
pub open spec fn carried_claims(token: Seq<char>) -> Result<ClaimsView, AppErrorView> {
    let segments = split(token, '.');
    if segments.len() != 3 {
        Err(auth_failure("Invalid token format"@))
    } else if !has_prefix(segments[1], marker()) {
        Err(auth_failure("Invalid token encoding"@))
    } else {
        match json_object_parsed(segments[1].skip(8)) {
            None => Err(auth_failure("Invalid token claims"@)),
            Some(members) => match claims_in(members) {
                None => Err(auth_failure("Invalid token claims"@)),
                Some(claims) => Ok(claims),
            },
        }
    }
}

/// What validating a token at the moment `now` comes to.
pub open spec fn validated(token: Seq<char>, now: i64) -> Result<ClaimsView, AppErrorView> {
    match carried_claims(token) {
        Ok(claims) => if claims.exp < now {
            Err(auth_failure("Token has expired"@))
        } else {
            Ok(claims)
        },
        Err(e) => Err(e),
    }
}

/// The user id that a token names, in hyphenated form.
pub open spec fn named_user(token: Seq<char>) -> Result<Seq<char>, AppErrorView> {
    match carried_claims(token) {
        Ok(claims) => match uuid_parsed(claims.sub) {
            Some(id) => Ok(id),
            None => Err(auth_failure("Invalid user ID in token"@)),
        },
        Err(e) => Err(e),
    }
}

/// Marks a text as encoded.
pub fn base64_encode(input: &str) -> (encoded: String)
    ensures
        encoded@ == marker() + input@,
{
    let mut encoded = String::from_str("encoded_");
    encoded.append(input);
    encoded
}

/// Takes the marker off an encoded text.
pub fn base64_decode(input: &str) -> (decoded: Result<String, &'static str>)
    ensures
        match decoded {
            Ok(text) => has_prefix(input@, marker()) && text@ == input@.skip(8),
            Err(why) => !has_prefix(input@, marker()) && why@ == "Invalid encoding"@,
        },
{
    if starts_with(input, "encoded_") {
        proof {
            reveal_strlit("encoded_");
        }
        Ok(skip_chars(input, 8))
    } else {
        Err("Invalid encoding")
    }
}

/// Reads the claims out of a JSON object.
pub fn claims_from_json(obj: &JsonObject) -> (claims: Option<Claims>)
    ensures
        match claims {
            Some(c) => claims_in(obj@) == Some(c@),
            None => claims_in(obj@) is None,
        },
{
    let sub = match obj.text_of("sub") {
        Some(sub) => sub,
        None => return None,
    };
    let iat = match obj.int_of("iat") {
        Some(iat) => iat,
        None => return None,
    };
    let exp = match obj.int_of("exp") {
        Some(exp) => exp,
        None => return None,
    };
    let role = match obj.text_of("role") {
        Some(role) => role,
        None => return None,
    };
    let email = match obj.text_of("email") {
        Some(email) => email,
        None => return None,
    };
    let name = match obj.text_of("name") {
        Some(name) => name,
        None => return None,
    };
    Some(Claims { sub, iat, exp, role, email, name })
}

/// The claims that a token carries, whether expired or not.
pub fn read_claims(token: &str) -> (claims: AppResult<Claims>)
    ensures
        claims_outcome(claims) == carried_claims(token@),
{
    let segments = split_at_char(token, '.');
    if segments.len() != 3 {
        return Err(AppError::Authentication(String::from_str("Invalid token format")));
    }
    assert(segments.deep_view()[1] == segments@[1]@);
    let payload = match base64_decode(segments[1].as_str()) {
        Ok(payload) => payload,
        Err(_) => return Err(AppError::Authentication(String::from_str("Invalid token encoding"))),
    };
    let claims = match JsonObject::parse(payload.as_str()) {
        Some(obj) => claims_from_json(&obj),
        None => None,
    };
    match claims {
        Some(claims) => Ok(claims),
        None => Err(AppError::Authentication(String::from_str("Invalid token claims"))),
    }
}

/// The claims of a token made at `now` for a user, to expire
/// `expiration_seconds` later.
pub open spec fn new_claims(
    user_id: Seq<char>,
    email: Seq<char>,
    name: Seq<char>,
    role: UserRole,
    expiration_seconds: u64,
    now: i64,
) -> ClaimsView {
    ClaimsView {
        sub: user_id,
        iat: now,
        exp: clamp_timestamp(now + expiration_seconds),
        role: role.name_text(),
        email,
        name,
    }
}

/// Create a JWT token at the moment `now`. The token is not signed, so
/// the secret plays no part.
pub fn create_token_at(
    user_id: &str,
    email: &str,
    name: &str,
    role: &UserRole,
    secret: &str,
    expiration_seconds: u64,
    now: i64,
) -> (token: String)
    ensures
        token@ == token_text(new_claims(user_id@, email@, name@, *role, expiration_seconds, now)),
{
    let exp = seconds_after_unsigned(now, expiration_seconds);
    let mut obj = JsonObject::new();
    obj.put_text("sub", user_id);
    obj.put_int("iat", now);
    obj.put_int("exp", exp);
    obj.put_text("role", role.name());
    obj.put_text("email", email);
    obj.put_text("name", name);
    assert(obj.entries() =~= claims_entries(
        new_claims(user_id@, email@, name@, *role, expiration_seconds, now),
    ));
    let payload = obj.render();
    let mut token = String::from_str("header.");
    token.append(base64_encode(payload.as_str()).as_str());
    token.append(".signature");
    assert(token@ =~= token_text(
        new_claims(user_id@, email@, name@, *role, expiration_seconds, now),
    ));
    token
}

/// Create a JWT token, by the clock of this machine.
pub fn create_token(
    user_id: &str,
    email: &str,
    name: &str,
    role: &UserRole,
    secret: &str,
    expiration_seconds: u64,
) -> (token: AppResult<String>)
    ensures
        token matches Ok(t) && exists|now: i64|
            t@ == token_text(
                #[trigger] new_claims(user_id@, email@, name@, *role, expiration_seconds, now),
            ),
{
    let now = unix_now();
    Ok(create_token_at(user_id, email, name, role, secret, expiration_seconds, now))
}

/// Validate a JWT token at the moment `now`. The token is not signed, so
/// the secret plays no part.
pub fn validate_token_at(token: &str, secret: &str, now: i64) -> (claims: AppResult<Claims>)
    ensures
        claims_outcome(claims) == validated(token@, now),
        claims matches Ok(c) ==> c.exp >= now,
{
    let claims = match read_claims(token) {
        Ok(claims) => claims,
        Err(e) => return Err(e),
    };
    if claims.exp < now {
        return Err(AppError::Authentication(String::from_str("Token has expired")));
    }
    Ok(claims)
}

/// Validate a JWT token, by the clock of this machine.
pub fn validate_token(token: &str, secret: &str) -> (claims: AppResult<Claims>)
    ensures
        exists|now: i64| claims_outcome(claims) == #[trigger] validated(token@, now),
{
    let now = unix_now();
    validate_token_at(token, secret, now)
}

/// Get the user ID from a token, in hyphenated form. Whether the token
/// has expired is not looked at.
pub fn get_user_id_from_token(token: &str) -> (id: AppResult<String>)
    ensures
        match id {
            Ok(text) => named_user(token@) == Ok::<Seq<char>, AppErrorView>(text@),
            Err(e) => named_user(token@) == Err::<Seq<char>, AppErrorView>(e@),
        },
{
    let claims = match read_claims(token) {
        Ok(claims) => claims,
        Err(e) => return Err(e),
    };
    match parse_uuid(claims.sub.as_str()) {
        Some(id) => Ok(id),
        None => Err(AppError::Authentication(String::from_str("Invalid user ID in token"))),
    }
}

} // verus!
