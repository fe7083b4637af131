//! Signed tokens: signing and opening JSON Web Tokens with `jsonwebtoken`.
//!
//! A token is opened without any check on its claims: whether it has
//! expired and for whom it was issued is decided by the callers, on the
//! payload that comes back.

use vstd::prelude::*;

verus! {

/// The views of a result that holds text either way.
pub open spec fn text_result(r: Result<String, String>) -> Result<Seq<char>, Seq<char>> {
    match r {
        Ok(s) => Ok(s@),
        Err(e) => Err(e@),
    }
}

/// The HS256 token for the JSON text `payload` under `secret`, or the
/// reason why none could be made.
pub uninterp spec fn hs256_signed(payload: Seq<char>, secret: Seq<u8>) -> Result<
    Seq<char>,
    Seq<char>,
>;

/// The JSON text of the claims of `token` where it is a well-formed HS256
/// token signed with `secret`, else the reason why it is not.
pub uninterp spec fn hs256_opened(token: Seq<char>, secret: Seq<u8>) -> Result<
    Seq<char>,
    Seq<char>,
>;

/// The JSON text of the claims of `token` where it is a well-formed RS256
/// token signed by the RSA key with this modulus and exponent (both in
/// Base64url), else the reason why it is not.
pub uninterp spec fn rs256_opened(
    token: Seq<char>,
    modulus: Seq<char>,
    exponent: Seq<char>,
) -> Result<Seq<char>, Seq<char>>;

/// Signs the JSON text `payload` as an HS256 token.
///
/// Trusted: reads the payload with `serde_json::from_str` and calls
/// `jsonwebtoken::encode` with the default header and a key made by
/// `EncodingKey::from_secret`. The contract claims that the outcome is the
/// one [`hs256_signed`] names: the token, or the text of the error.
#[verifier::external_body]
pub(crate) fn sign_hs256(payload: &str, secret: &[u8]) -> (token: Result<String, String>)
    ensures
        text_result(token) == hs256_signed(payload@, secret@),
{
    let claims: serde_json::Value = match serde_json::from_str(payload) {
        Ok(value) => value,
        Err(e) => return Err(e.to_string()),
    };
    let key = jsonwebtoken::EncodingKey::from_secret(secret);
    jsonwebtoken::encode(&jsonwebtoken::Header::default(), &claims, &key).map_err(|e| e.to_string())
}

/// Checks the HS256 signature of `token` and hands out its claims.
///
/// Trusted: calls `jsonwebtoken::decode` with a key made by
/// `DecodingKey::from_secret` and a validation for HS256 that requires no
/// claim and does not look at `exp`. The contract claims that the outcome is
/// the one [`hs256_opened`] names: the claims as JSON text, or the text of
/// the error.
#[verifier::external_body]
pub(crate) fn open_hs256(token: &str, secret: &[u8]) -> (claims: Result<String, String>)
    ensures
        text_result(claims) == hs256_opened(token@, secret@),
{
    let mut validation = jsonwebtoken::Validation::new(jsonwebtoken::Algorithm::HS256);
    validation.validate_exp = false;
    validation.required_spec_claims.clear();
    let key = jsonwebtoken::DecodingKey::from_secret(secret);
    match jsonwebtoken::decode::<serde_json::Value>(token, &key, &validation) {
        Ok(data) => Ok(data.claims.to_string()),
        Err(e) => Err(e.to_string()),
    }
}

/// Checks the RS256 signature of `token` and hands out its claims.
///
/// Trusted: calls `jsonwebtoken::decode` with a key made by
/// `DecodingKey::from_rsa_components` and a validation for RS256 that
/// requires no claim and does not look at `exp`. The contract claims that
/// the outcome is the one [`rs256_opened`] names: the claims as JSON text,
/// or the text of the error.
#[verifier::external_body]
pub(crate) fn open_rs256(token: &str, modulus: &str, exponent: &str) -> (claims: Result<
    String,
    String,
>)
    ensures
        text_result(claims) == rs256_opened(token@, modulus@, exponent@),
{
    let mut validation = jsonwebtoken::Validation::new(jsonwebtoken::Algorithm::RS256);
    validation.validate_exp = false;
    validation.required_spec_claims.clear();
    let key = jsonwebtoken::DecodingKey::from_rsa_components(modulus, exponent)
        .map_err(|e| e.to_string())?;
    match jsonwebtoken::decode::<serde_json::Value>(token, &key, &validation) {
        Ok(data) => Ok(data.claims.to_string()),
        Err(e) => Err(e.to_string()),
    }
}

} // verus!
