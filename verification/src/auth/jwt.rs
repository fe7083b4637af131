//! Tokens for calls between services: HS256 tokens that name the calling
//! service, the service called, and when they expire.

use vstd::prelude::*;
use vstd::string::*;
use crate::clock::{clamp_timestamp, seconds_after, unix_now};
use crate::error::auth_failure;
use crate::error::{AppError, AppErrorView, AppResult, ErrorKind};
use crate::jose::{hs256_opened, hs256_signed, open_hs256, sign_hs256};
use crate::json::{
    all_exact, json_object_parsed, json_object_rendered, optional_text, required_int,
    required_text, text_or_null, JsonFieldView, JsonObject,
};
use crate::text::clone_optional;
use crate::text::str_eq;

verus! {

/// JWT claims for service-to-service authentication.
#[derive(Debug, PartialEq, Eq)]
pub struct ServiceClaims {
    /// Subject (service name).
    pub sub: String,
    /// Issuer (service name).
    pub iss: String,
    /// Audience (target service).
    pub aud: Option<String>,
    /// Issued at timestamp.
    pub iat: i64,
    /// Expiration timestamp.
    pub exp: i64,
}

/// The mathematical value of [`ServiceClaims`].
pub struct ServiceClaimsView {
    pub sub: Seq<char>,
    pub iss: Seq<char>,
    pub aud: Option<Seq<char>>,
    pub iat: i64,
    pub exp: i64,
}

impl View for ServiceClaims {
    type V = ServiceClaimsView;

    open spec fn view(&self) -> ServiceClaimsView {
        ServiceClaimsView {
            sub: self.sub@,
            iss: self.iss@,
            aud: self.aud.deep_view(),
            iat: self.iat,
            exp: self.exp,
        }
    }
}

impl Clone for ServiceClaims {
    fn clone(&self) -> (copy: Self)
        ensures
            copy == *self,
    {
        ServiceClaims {
            sub: self.sub.clone(),
            iss: self.iss.clone(),
            aud: clone_optional(&self.aud),
            iat: self.iat,
            exp: self.exp,
        }
    }
}

/// The value of a result that holds service claims.
pub open spec fn service_result(r: AppResult<ServiceClaims>) -> Result<
    ServiceClaimsView,
    AppErrorView,
> {
    match r {
        Ok(claims) => Ok(claims@),
        Err(e) => Err(e@),
    }
}

/// The value of a result that holds a token.
pub open spec fn token_result(r: AppResult<String>) -> Result<Seq<char>, AppErrorView> {
    match r {
        Ok(token) => Ok(token@),
        Err(e) => Err(e@),
    }
}

/// The claims of a token that `service_name` issues at `now` for
/// `audience`, to expire `ttl_seconds` later.
pub open spec fn issued_claims(
    service_name: Seq<char>,
    audience: Option<Seq<char>>,
    now: i64,
    ttl_seconds: i64,
) -> ServiceClaimsView {
    ServiceClaimsView {
        sub: service_name,
        iss: service_name,
        aud: audience,
        iat: now,
        exp: clamp_timestamp(now + ttl_seconds),
    }
}

/// The members that stand for service claims, in the order in which they
/// are written.
pub open spec fn service_entries(claims: ServiceClaimsView) -> Seq<(Seq<char>, JsonFieldView)> {
    seq![
        ("sub"@, JsonFieldView::Text(claims.sub)),
        ("iss"@, JsonFieldView::Text(claims.iss)),
        ("aud"@, text_or_null(claims.aud)),
        ("iat"@, JsonFieldView::Number(Some(claims.iat))),
        ("exp"@, JsonFieldView::Number(Some(claims.exp))),
    ]
}

/// The service claims that a JSON object holds: all members but `aud`
/// must be there.
pub open spec fn service_claims_in(members: Map<Seq<char>, JsonFieldView>) -> Option<
    ServiceClaimsView,
> {
    match (
        required_text(members, "sub"@),
        required_text(members, "iss"@),
        optional_text(members, "aud"@),
        required_int(members, "iat"@),
        required_int(members, "exp"@),
    ) {
        (Some(sub), Some(iss), Some(aud), Some(iat), Some(exp)) => Some(
            ServiceClaimsView { sub, iss, aud, iat, exp },
        ),
        _ => None,
    }
}

/// Whether claims are meant for `audience`, and the failure where they
/// are not.
pub open spec fn for_audience(claims: ServiceClaimsView, audience: Seq<char>) -> Result<
    ServiceClaimsView,
    AppErrorView,
> {
    match claims.aud {
        Some(aud) => if aud == audience {
            Ok(claims)
        } else {
            Err(auth_failure("Invalid audience: expected "@ + audience + ", got "@ + aud))
        },
        None => Err(auth_failure("Missing audience claim"@)),
    }
}

/// Writes service claims as a JSON object.
pub fn service_claims_to_json(claims: &ServiceClaims) -> (obj: JsonObject)
    ensures
        obj.entries() == service_entries(claims@),
        all_exact(obj.entries()),
{
    let mut obj = JsonObject::new();
    obj.put_text("sub", claims.sub.as_str());
    obj.put_text("iss", claims.iss.as_str());
    obj.put_optional_text("aud", &claims.aud);
    obj.put_int("iat", claims.iat);
    obj.put_int("exp", claims.exp);
    assert(obj.entries() =~= service_entries(claims@));
    obj
}

/// Reads service claims out of a JSON object.
pub fn service_claims_from_json(obj: &JsonObject) -> (claims: Option<ServiceClaims>)
    ensures
        match claims {
            Some(c) => service_claims_in(obj@) == Some(c@),
            None => service_claims_in(obj@) is None,
        },
{
    let sub = match obj.text_of("sub") {
        Some(sub) => sub,
        None => return None,
    };
    let iss = match obj.text_of("iss") {
        Some(iss) => iss,
        None => return None,
    };
    let aud = match obj.optional_text_of("aud") {
        Ok(aud) => aud,
        Err(_) => return None,
    };
    let iat = match obj.int_of("iat") {
        Some(iat) => iat,
        None => return None,
    };
    let exp = match obj.int_of("exp") {
        Some(exp) => exp,
        None => return None,
    };
    Some(ServiceClaims { sub, iss, aud, iat, exp })
}

/// Checks that claims are meant for `audience`.
pub fn check_audience(claims: ServiceClaims, audience: &str) -> (checked: AppResult<ServiceClaims>)
    ensures
        service_result(checked) == for_audience(claims@, audience@),
{
    match &claims.aud {
        Some(aud) => {
            if str_eq(aud.as_str(), audience) {
                Ok(claims)
            } else {
                let mut message = String::from_str("Invalid audience: expected ");
                message.append(audience);
                message.append(", got ");
                message.append(aud.as_str());
                Err(AppError::Authentication(message))
            }
        },
        None => Err(AppError::Authentication(String::from_str("Missing audience claim"))),
    }
}

/// JWT utilities for service-to-service authentication.
#[derive(Debug, Clone, PartialEq, Eq)]
pub struct JwtUtil {
    /// The secret that tokens are signed and checked with.
    pub secret: Vec<u8>,
}

impl JwtUtil {
    /// Create a new JWT utility with a secret.
    pub fn new(secret: &[u8]) -> (util: JwtUtil)
        ensures
            util.secret@ == secret@,
    {
        JwtUtil { secret: vstd::slice::slice_to_vec(secret) }
    }

    /// What generating a token at `now` comes to.
    pub open spec fn generated(
        &self,
        service_name: Seq<char>,
        audience: Option<Seq<char>>,
        ttl_seconds: i64,
        now: i64,
    ) -> Result<Seq<char>, AppErrorView> {
        let claims = issued_claims(service_name, audience, now, ttl_seconds);
        match hs256_signed(json_object_rendered(service_entries(claims)), self.secret@) {
            Ok(token) => Ok(token),
            Err(reason) => Err(auth_failure("Failed to generate JWT token: "@ + reason)),
        }
    }

    /// What validating `token` at `now` comes to: its claims, where it
    /// is a well-formed token signed with the secret whose claims are
    /// complete and do not expire before `now`.
    pub open spec fn validated(&self, token: Seq<char>, now: i64) -> Result<
        ServiceClaimsView,
        AppErrorView,
    > {
        match hs256_opened(token, self.secret@) {
            Err(reason) => Err(auth_failure("Invalid JWT token: "@ + reason)),
            Ok(payload) => match json_object_parsed(payload) {
                None => Err(auth_failure("Invalid JWT token: claims are incomplete"@)),
                Some(members) => match service_claims_in(members) {
                    None => Err(auth_failure("Invalid JWT token: claims are incomplete"@)),
                    Some(claims) => if claims.exp < now {
                        Err(auth_failure("Invalid JWT token: ExpiredSignature"@))
                    } else {
                        Ok(claims)
                    },
                },
            },
        }
    }

    /// What validating `token` for `audience` at `now` comes to.
    pub open spec fn validated_for(
        &self,
        token: Seq<char>,
        audience: Seq<char>,
        now: i64,
    ) -> Result<ServiceClaimsView, AppErrorView> {
        match self.validated(token, now) {
            Ok(claims) => for_audience(claims, audience),
            Err(e) => Err(e),
        }
    }

    /// Generate a JWT token for a service at the moment `now`.
    pub fn generate_token_at(
        &self,
        service_name: &str,
        audience: Option<&str>,
        ttl_seconds: i64,
        now: i64,
    ) -> (token: AppResult<String>)
        ensures
            token_result(token) == self.generated(
                service_name@,
                audience.deep_view(),
                ttl_seconds,
                now,
            ),
    {
        let claims = ServiceClaims {
            sub: String::from_str(service_name),
            iss: String::from_str(service_name),
            aud: match audience {
                Some(a) => Some(String::from_str(a)),
                None => None,
            },
            iat: now,
            exp: seconds_after(now, ttl_seconds),
        };
        let payload = service_claims_to_json(&claims).render();
        match sign_hs256(payload.as_str(), self.secret.as_slice()) {
            Ok(token) => Ok(token),
            Err(reason) => {
                let mut message = String::from_str("Failed to generate JWT token: ");
                message.append(reason.as_str());
                Err(AppError::Authentication(message))
            },
        }
    }

    /// Generate a JWT token for a service, by the clock of this machine.
    pub fn generate_token(
        &self,
        service_name: &str,
        audience: Option<&str>,
        ttl_seconds: i64,
    ) -> (token: AppResult<String>)
        ensures
            exists|now: i64|
                token_result(token) == #[trigger] self.generated(
                    service_name@,
                    audience.deep_view(),
                    ttl_seconds,
                    now,
                ),
    {
        let now = unix_now();
        self.generate_token_at(service_name, audience, ttl_seconds, now)
    }

    /// Validate a JWT token at the moment `now`.
    pub fn validate_token_at(&self, token: &str, now: i64) -> (claims: AppResult<ServiceClaims>)
        ensures
            service_result(claims) == self.validated(token@, now),
            claims matches Ok(c) ==> c.exp >= now,
            claims matches Err(e) ==> e.kind() == ErrorKind::Authentication,
    {
        let payload = match open_hs256(token, self.secret.as_slice()) {
            Ok(payload) => payload,
            Err(reason) => {
                let mut message = String::from_str("Invalid JWT token: ");
                message.append(reason.as_str());
                return Err(AppError::Authentication(message));
            },
        };
        let claims = match JsonObject::parse(payload.as_str()) {
            Some(obj) => service_claims_from_json(&obj),
            None => None,
        };
        let claims = match claims {
            Some(claims) => claims,
            None => {
                return Err(
                    AppError::Authentication(
                        String::from_str("Invalid JWT token: claims are incomplete"),
                    ),
                );
            },
        };
        if claims.exp < now {
            return Err(
                AppError::Authentication(String::from_str("Invalid JWT token: ExpiredSignature")),
            );
        }
        Ok(claims)
    }

    /// Validate a JWT token, by the clock of this machine.
    pub fn validate_token(&self, token: &str) -> (claims: AppResult<ServiceClaims>)
        ensures
            exists|now: i64| service_result(claims) == #[trigger] self.validated(token@, now),
            claims matches Err(e) ==> e.kind() == ErrorKind::Authentication,
    {
        let now = unix_now();
        self.validate_token_at(token, now)
    }

    /// Validate a JWT token for a specific audience at the moment `now`.
    pub fn validate_token_for_audience_at(&self, token: &str, audience: &str, now: i64) -> (claims:
        AppResult<ServiceClaims>)
        ensures
            service_result(claims) == self.validated_for(token@, audience@, now),
            claims matches Ok(c) ==> c.exp >= now && c@.aud == Some(audience@),
            claims matches Err(e) ==> e.kind() == ErrorKind::Authentication,
    {
        match self.validate_token_at(token, now) {
            Ok(claims) => check_audience(claims, audience),
            Err(e) => Err(e),
        }
    }

    /// Validate a JWT token for a specific audience, by the clock of this
    /// machine.
    pub fn validate_token_for_audience(&self, token: &str, audience: &str) -> (claims: AppResult<
        ServiceClaims,
    >)
        ensures
            exists|now: i64|
                service_result(claims) == #[trigger] self.validated_for(token@, audience@, now),
            claims matches Ok(c) ==> c@.aud == Some(audience@),
            claims matches Err(e) ==> e.kind() == ErrorKind::Authentication,
    {
        let now = unix_now();
        self.validate_token_for_audience_at(token, audience, now)
    }
}

} // verus!
