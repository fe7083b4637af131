//! The guard in front of routes that other services call: a request passes
//! where it carries a bearer token that is valid for this service.

use vstd::prelude::*;
use vstd::string::*;
use crate::auth::jwt::{JwtUtil, ServiceClaims, ServiceClaimsView, service_result};
use crate::clock::unix_now;
use crate::error::auth_failure;
use crate::error::{AppError, AppErrorView, AppResult, ErrorKind};
use crate::text::{has_prefix, skip_chars, starts_with};

verus! {

/// The `Authorization` header of a request.
#[derive(Debug, Clone, PartialEq, Eq)]
pub enum AuthorizationHeader {
    /// The request has no such header.
    Missing,
    /// The header is there and is no text.
    Unreadable,
    /// The header's value.
    Value(String),
}

/// The scheme that a bearer token is introduced by.
pub open spec fn bearer_prefix() -> Seq<char> {
    "Bearer "@
}

/// Middleware for service-to-service authentication.
#[derive(Debug, Clone, PartialEq, Eq)]
pub struct ServiceAuthMiddleware {
    pub jwt_util: JwtUtil,
    pub service_name: String,
}

impl ServiceAuthMiddleware {
    /// Create a new service auth middleware.
    pub fn new(jwt_util: JwtUtil, service_name: String) -> (factory: ServiceAuthMiddleware)
        ensures
            factory.jwt_util == jwt_util,
            factory.service_name == service_name,
    {
        ServiceAuthMiddleware { jwt_util, service_name }
    }

    /// The guard for one service.
    pub fn new_transform(self) -> (guard: ServiceAuthMiddlewareService)
        ensures
            guard.jwt_util == self.jwt_util,
            guard.service_name == self.service_name,
    {
        ServiceAuthMiddlewareService { jwt_util: self.jwt_util, service_name: self.service_name }
    }
}

/// Service auth middleware service.
#[derive(Debug, Clone, PartialEq, Eq)]
pub struct ServiceAuthMiddlewareService {
    pub jwt_util: JwtUtil,
    pub service_name: String,
}

impl ServiceAuthMiddlewareService {
    /// What the guard makes of a request at the moment `now`: the claims
    /// to attach to it, or the reason to answer `401`.
    pub open spec fn admitted(&self, header: AuthorizationHeader, now: i64) -> Result<
        ServiceClaimsView,
        AppErrorView,
    > {
        match header {
            AuthorizationHeader::Missing => Err(auth_failure("Missing Authorization header"@)),
            AuthorizationHeader::Unreadable => Err(auth_failure("Invalid Authorization header"@)),
            AuthorizationHeader::Value(value) => if !has_prefix(value@, bearer_prefix()) {
                Err(auth_failure("Invalid Authorization scheme"@))
            } else {
                match self.jwt_util.validated_for(value@.skip(7), self.service_name@, now) {
                    Ok(claims) => Ok(claims),
                    Err(e) => Err(auth_failure("Invalid token: "@ + e.message)),
                }
            },
        }
    }

    /// Decides on a request at the moment `now`.
    ///
    /// The request passes where its header is `Bearer ` followed by a
    /// token that this service's secret signs, that has not expired before
    /// `now` and whose audience is this service. Every other request is
    /// to be answered `401` with the message of the error.
    pub fn check(&self, header: &AuthorizationHeader, now: i64) -> (claims: AppResult<
        ServiceClaims,
    >)
        ensures
            service_result(claims) == self.admitted(*header, now),
            claims matches Ok(c) ==> c.exp >= now && c@.aud == Some(self.service_name@),
            claims matches Err(e) ==> e.kind() == ErrorKind::Authentication && e.kind().status()
                == 401,
    {
        let value = match header {
            AuthorizationHeader::Missing => {
                return Err(
                    AppError::Authentication(String::from_str("Missing Authorization header")),
                );
            },
            AuthorizationHeader::Unreadable => {
                return Err(
                    AppError::Authentication(String::from_str("Invalid Authorization header")),
                );
            },
            AuthorizationHeader::Value(value) => value,
        };
        if !starts_with(value.as_str(), "Bearer ") {
            return Err(AppError::Authentication(String::from_str("Invalid Authorization scheme")));
        }
        proof {
            reveal_strlit("Bearer ");
        }
        let token = skip_chars(value.as_str(), 7);
        match self.jwt_util.validate_token_for_audience_at(
            token.as_str(),
            self.service_name.as_str(),
            now,
        ) {
            Ok(claims) => Ok(claims),
            Err(e) => {
                let mut message = String::from_str("Invalid token: ");
                message.append(e.message());
                Err(AppError::Authentication(message))
            },
        }
    }

    /// Decides on a request, by the clock of this machine.
    pub fn call(&self, header: &AuthorizationHeader) -> (claims: AppResult<ServiceClaims>)
        ensures
            exists|now: i64| service_result(claims) == #[trigger] self.admitted(*header, now),
            claims matches Ok(c) ==> c@.aud == Some(self.service_name@),
            claims matches Err(e) ==> e.kind() == ErrorKind::Authentication,
    {
        let now = unix_now();
        self.check(header, now)
    }
}

} // verus!
