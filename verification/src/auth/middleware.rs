//! The guard in front of protected routes.
//!
//! For every request the guard looks at the session and decides: pass the
//! request on, ask the provider for new tokens first, or send the browser
//! to log in. Asking the provider is left to the caller, who hands the
//! reply back to the guard.

use vstd::prelude::*;
use vstd::string::*;
use crate::auth::replit_auth::{
    tokens_of_reply, user_of_claims, Grant, ProviderReply, ReplitAuth, TokenResponseView,
    UserClaimsView, UserSession, UserSessionView,
};
use crate::auth::session::{SessionData, SessionDataView, SessionState};
use crate::clock::{clamp_timestamp, seconds_after, unix_now};
use crate::models::user::UpsertUser;
use crate::nonce::{is_uuid_text, random_uuid_text};
use crate::text::clone_optional;

verus! {

/// What the guard decides on a request.
#[derive(Debug, Clone, PartialEq, Eq)]
pub enum GuardDecision {
    /// Pass the request on with this identity attached; the session stays as it is.
    Proceed { identity: UserSession },
    /// The identity has expired: ask the provider for new tokens with this
    /// refresh token, then hand its reply to the guard.
    Refresh { refresh_token: String },
    /// Store `session` and answer `302` to `location`, the provider's login page.
    Login { session: SessionData, location: String },
}

/// What the guard decides once the provider has answered a refresh.
#[derive(Debug, Clone, PartialEq, Eq)]
pub enum RefreshDecision {
    /// Store `session`, write `user` to the record store (a failure there
    /// is logged and nothing more), and pass the request on with the new
    /// identity attached.
    Proceed { session: SessionData, identity: UserSession, user: UpsertUser },
    /// Store `session` and answer `302` to `location`, the provider's login page.
    Login { session: SessionData, location: String },
}

/// The identity that new tokens give: the claims of the identity token,
/// the new access token, the new refresh token or else the one held
/// before, and the moment `expires_in` seconds after `now`.
pub open spec fn renewed_identity(
    tokens: TokenResponseView,
    claims: UserClaimsView,
    previous_refresh_token: Option<Seq<char>>,
    now: i64,
) -> UserSessionView {
    UserSessionView {
        claims,
        access_token: tokens.access_token,
        refresh_token: match tokens.refresh_token {
            Some(token) => Some(token),
            None => previous_refresh_token,
        },
        expires_at: clamp_timestamp(now + tokens.expires_in),
    }
}

/// Authentication middleware to require login for protected routes.
#[derive(Debug, Clone, PartialEq, Eq)]
pub struct AuthenticationRequired {
    pub replit_auth: ReplitAuth,
}

impl AuthenticationRequired {
    pub fn new(replit_auth: ReplitAuth) -> (factory: AuthenticationRequired)
        ensures
            factory.replit_auth == replit_auth,
    {
        AuthenticationRequired { replit_auth }
    }

    /// The guard for one service.
    pub fn new_transform(self) -> (guard: AuthenticationMiddleware)
        ensures
            guard.replit_auth == self.replit_auth,
    {
        AuthenticationMiddleware { replit_auth: self.replit_auth }
    }
}

/// The guard itself.
#[derive(Debug, Clone, PartialEq, Eq)]
pub struct AuthenticationMiddleware {
    pub replit_auth: ReplitAuth,
}

impl AuthenticationMiddleware {
    /// Whether `decision` sends the browser to log in with `state`, to
    /// come back to `request_url`: the session holds nothing but those two.
    pub open spec fn sends_to_login(
        &self,
        session: SessionData,
        location: String,
        request_url: Seq<char>,
        state: Seq<char>,
    ) -> bool {
        &&& session@ == SessionDataView::awaiting(state, Some(request_url))
        &&& location@ == self.replit_auth.config.auth_url_text(state)
    }

    /// What the guard decides on a request for `request_url` at the
    /// moment `now`, where `state` is the state to use should a login begin.
    pub open spec fn decides(
        &self,
        session: SessionDataView,
        request_url: Seq<char>,
        now: i64,
        state: Seq<char>,
        decision: GuardDecision,
    ) -> bool {
        match session.user_session {
            None => decision matches GuardDecision::Login { session: next, location }
                && self.sends_to_login(next, location, request_url, state),
            Some(identity) => if identity.expires_at > now {
                decision matches GuardDecision::Proceed { identity: attached } && attached@
                    == identity
            } else {
                match identity.refresh_token {
                    Some(token) => decision matches GuardDecision::Refresh { refresh_token }
                        && refresh_token@ == token,
                    None => decision matches GuardDecision::Login { session: next, location }
                        && self.sends_to_login(next, location, request_url, state),
                }
            },
        }
    }

    /// What the guard decides once the provider has answered the refresh
    /// that was asked for on a request for `request_url`.
    pub open spec fn resumes(
        &self,
        session: SessionDataView,
        request_url: Seq<char>,
        reply: ProviderReply,
        now: i64,
        state: Seq<char>,
        decision: RefreshDecision,
    ) -> bool {
        let previous = match session.user_session {
            Some(identity) => identity.refresh_token,
            None => None,
        };
        match tokens_of_reply(Grant::RefreshToken, reply) {
            Ok(tokens) => match self.replit_auth.verified_claims(tokens.id_token, now) {
                Ok(claims) => {
                    let renewed = renewed_identity(tokens, claims, previous, now);
                    &&& decision matches RefreshDecision::Proceed { session: next, identity, user }
                    &&& next@ == (SessionDataView { user_session: Some(renewed), ..session })
                    &&& identity@ == renewed
                    &&& user@ == user_of_claims(claims)
                },
                Err(_) => decision matches RefreshDecision::Login { session: next, location }
                    && self.sends_to_login(next, location, request_url, state),
            },
            Err(_) => decision matches RefreshDecision::Login { session: next, location }
                && self.sends_to_login(next, location, request_url, state),
        }
    }

    /// What the guard does in each state of the session: a valid
    /// identity passes; an expired one is refreshed where it holds a
    /// refresh token; every other session is sent to log in.
    pub proof fn law_decision_by_state(
        &self,
        session: SessionDataView,
        request_url: Seq<char>,
        now: i64,
        state: Seq<char>,
        decision: GuardDecision,
    )
        requires
            self.decides(session, request_url, now, state, decision),
        ensures
            decision is Proceed <==> session.state_at(now) == SessionState::AuthenticatedValid,
            decision is Refresh <==> session.state_at(now) == SessionState::AuthenticatedExpired
                && session.user_session->0.refresh_token is Some,
            decision is Login <==> session.state_at(now) == SessionState::Unauthenticated
                || session.state_at(now) == SessionState::PendingCallback || (session.state_at(now)
                == SessionState::AuthenticatedExpired
                && session.user_session->0.refresh_token is None),
            decision matches GuardDecision::Login { session: next, .. } ==> next@.state_at(now)
                == SessionState::PendingCallback,
    {
    }

    /// The moment of expiry itself counts as expired: an identity passes
    /// exactly where it expires after `now`, so one that expires at `now`
    /// does not pass, and one that expires a second later does.
    pub proof fn law_expiry_is_inclusive(
        &self,
        session: SessionDataView,
        request_url: Seq<char>,
        now: i64,
        state: Seq<char>,
        decision: GuardDecision,
    )
        requires
            self.decides(session, request_url, now, state, decision),
            session.user_session is Some,
        ensures
            decision is Proceed <==> session.user_session->0.expires_at > now,
            session.user_session->0.expires_at == now ==> !(decision is Proceed),
            session.user_session->0.expires_at == now + 1 ==> decision is Proceed,
    {
    }

    /// The session and the redirect that begin a login.
    fn begin_login(&self, request_url: &str, state: String) -> (begun: (SessionData, String))
        ensures
            self.sends_to_login(begun.0, begun.1, request_url@, state@),
    {
        let location = self.replit_auth.config.auth_url(state.as_str());
        let session = SessionData {
            user_session: None,
            original_url: Some(String::from_str(request_url)),
            auth_state: Some(state),
        };
        (session, location)
    }

    /// Decides on a request at the moment `now`.
    ///
    /// An anonymous session is sent to log in. An identity that expires
    /// after `now` passes. One that expires at `now` or before is
    /// refreshed where it holds a refresh token, and sent to log in like
    /// an anonymous one where it holds none.
    pub fn decide(
        &self,
        session: &SessionData,
        request_url: &str,
        now: i64,
        state: String,
    ) -> (decision: GuardDecision)
        ensures
            self.decides(session@, request_url@, now, state@, decision),
            decision is Proceed <==> session.user_session is Some
                && session.user_session->0.expires_at > now,
    {
        match &session.user_session {
            None => {
                let (next, location) = self.begin_login(request_url, state);
                GuardDecision::Login { session: next, location }
            },
            Some(identity) => {
                if !identity.is_expired_at(now) {
                    GuardDecision::Proceed { identity: identity.clone() }
                } else {
                    match &identity.refresh_token {
                        Some(token) => GuardDecision::Refresh { refresh_token: token.clone() },
                        None => {
                            let (next, location) = self.begin_login(request_url, state);
                            GuardDecision::Login { session: next, location }
                        },
                    }
                }
            },
        }
    }

    /// Decides on a request, by the clock of this machine and with a
    /// fresh random state.
    pub fn call(&self, session: &SessionData, request_url: &str) -> (decision: GuardDecision)
        ensures
            exists|now: i64, state: Seq<char>|
                is_uuid_text(state) && #[trigger] self.decides(
                    session@,
                    request_url@,
                    now,
                    state,
                    decision,
                ),
            session.user_session is None ==> decision is Login,
    {
        let now = unix_now();
        let state = random_uuid_text();
        self.decide(session, request_url, now, state)
    }

    /// Decides on the provider's reply to a refresh at the moment `now`.
    ///
    /// Where the reply holds tokens whose identity token is signed by the
    /// provider and has not expired, the session takes the new identity
    /// and the request passes. Otherwise the session is cleared and the
    /// browser is sent to log in.
    pub fn complete_refresh(
        &self,
        session: &SessionData,
        request_url: &str,
        reply: &ProviderReply,
        now: i64,
        state: String,
    ) -> (decision: RefreshDecision)
        ensures
            self.resumes(session@, request_url@, *reply, now, state@, decision),
    {
        let tokens = match self.replit_auth.refresh_token(reply) {
            Ok(tokens) => tokens,
            Err(_) => {
                let (next, location) = self.begin_login(request_url, state);
                return RefreshDecision::Login { session: next, location };
            },
        };
        let claims = match self.replit_auth.verify_id_token_at(tokens.id_token.as_str(), now) {
            Ok(claims) => claims,
            Err(_) => {
                let (next, location) = self.begin_login(request_url, state);
                return RefreshDecision::Login { session: next, location };
            },
        };
        let user = self.replit_auth.claims_to_user(&claims);
        let refresh_token = match tokens.refresh_token {
            Some(token) => Some(token),
            None => match &session.user_session {
                Some(identity) => clone_optional(&identity.refresh_token),
                None => None,
            },
        };
        let identity = UserSession {
            claims,
            access_token: tokens.access_token,
            refresh_token,
            expires_at: seconds_after(now, tokens.expires_in),
        };
        let next = SessionData {
            user_session: Some(identity.clone()),
            original_url: clone_optional(&session.original_url),
            auth_state: clone_optional(&session.auth_state),
        };
        RefreshDecision::Proceed { session: next, identity, user }
    }

    /// Decides on the provider's reply to a refresh, by the clock of this
    /// machine and with a fresh random state.
    pub fn resume(
        &self,
        session: &SessionData,
        request_url: &str,
        reply: &ProviderReply,
    ) -> (decision: RefreshDecision)
        ensures
            exists|now: i64, state: Seq<char>|
                is_uuid_text(state) && #[trigger] self.resumes(
                    session@,
                    request_url@,
                    *reply,
                    now,
                    state,
                    decision,
                ),
    {
        let now = unix_now();
        let state = random_uuid_text();
        self.complete_refresh(session, request_url, reply, now, state)
    }
}

} // verus!
