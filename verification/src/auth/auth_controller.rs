//! The login routes: `/login`, `/callback`, `/logout`, `/user`, `/profile`.
//!
//! Each function takes the session and what the request carried, and
//! returns the session to store and the answer to send. Talking to the
//! provider and to the record store is left to the caller.

use vstd::prelude::*;
use vstd::string::*;
use crate::auth::middleware::renewed_identity;
use crate::auth::replit_auth::{
    tokens_of_reply, user_of_claims, Grant, ProviderReply, ReplitAuth, UserSession,
    UserSessionView,
};
use crate::auth::session::{SessionData, SessionDataView};
use crate::clock::{seconds_after, unix_now};
use crate::error::{AppError, AppResult, ErrorBody, ErrorKind};
use crate::models::user::{UpsertUser, User};
use crate::nonce::{is_uuid_text, random_uuid_text};
use crate::text::str_eq;

verus! {

/// Callback query parameters.
#[derive(Debug, Clone, PartialEq, Eq)]
pub struct CallbackQuery {
    pub code: Option<String>,
    pub state: String,
    pub error: Option<String>,
    pub error_description: Option<String>,
}

/// The mathematical value of a [`CallbackQuery`].
pub struct CallbackQueryView {
    pub code: Option<Seq<char>>,
    pub state: Seq<char>,
    pub error: Option<Seq<char>>,
    pub error_description: Option<Seq<char>>,
}

impl View for CallbackQuery {
    type V = CallbackQueryView;

    open spec fn view(&self) -> CallbackQueryView {
        CallbackQueryView {
            code: self.code.deep_view(),
            state: self.state@,
            error: self.error.deep_view(),
            error_description: self.error_description.deep_view(),
        }
    }
}

/// An answer that reports a failure: a status and a JSON body.
#[derive(Debug, Clone, PartialEq, Eq)]
pub struct Failure {
    pub status: u16,
    pub body: ErrorBody,
}

impl Failure {
    /// Whether this failure has the given status, message and class.
    pub open spec fn is(&self, status: u16, message: Seq<char>, kind: ErrorKind) -> bool {
        &&& self.status == status
        &&& self.body.error@ == message
        &&& self.body.error_type@ == kind.tag()
    }
}

/// A session to store together with a `302` to `location`.
#[derive(Debug, Clone, PartialEq, Eq)]
pub struct Redirect {
    pub session: SessionData,
    pub location: String,
}

/// What `/callback` does before any token is asked for.
#[derive(Debug, Clone, PartialEq, Eq)]
pub enum CallbackStep {
    /// Answer with this failure; the session stays as it is.
    Reject(Failure),
    /// Exchange `code` for tokens, then complete the callback with the reply.
    Exchange { code: String },
}

/// What `/callback` does once the provider has answered the exchange.
#[derive(Debug, Clone, PartialEq, Eq)]
pub enum CallbackOutcome {
    /// Answer with this failure; the session stays as it is.
    Reject(Failure),
    /// Store `session`, write `user` to the record store (a failure
    /// there is logged and nothing more), and answer `302` to `location`.
    Commit { session: SessionData, location: String, user: UpsertUser },
}

/// Whether a callback that carries `query` is let through to the exchange
/// of its code: the provider reports no error, a code is there, and the
/// state is the one that the session waits for.
pub open spec fn admits(session: SessionDataView, query: CallbackQueryView) -> bool {
    query.error is None && query.code is Some && session.expects(query.state)
}

/// The session in which a login has begun with `state`, to return to
/// `return_to` afterwards: whatever it held before, it now waits for
/// `state` and for no other.
pub open spec fn issued(
    session: SessionDataView,
    state: Seq<char>,
    return_to: Option<Seq<char>>,
) -> SessionDataView {
    SessionDataView { original_url: return_to, auth_state: Some(state), ..session }
}

/// The session that a completed login leaves: the identity, and neither
/// state nor URL to return to.
pub open spec fn committed(identity: UserSessionView) -> SessionDataView {
    SessionDataView { user_session: Some(identity), original_url: None, auth_state: None }
}

/// Whether `failure` is the one with which a callback that is not let
/// through is turned away: the provider's error where it reports one,
/// else the missing code, else the state.
pub open spec fn turned_away(query: CallbackQueryView, failure: Failure) -> bool {
    match query.error {
        Some(error) => failure.is(
            400,
            "Authentication error: "@ + error,
            ErrorKind::Authentication,
        ),
        None => if query.code is None {
            failure.is(400, "Missing authorization code"@, ErrorKind::Validation)
        } else {
            failure.is(400, "Invalid state parameter"@, ErrorKind::Authentication)
        },
    }
}

/// A failure with this status, message and class.
fn failure(status: u16, message: String, kind: &'static str) -> (f: Failure)
    ensures
        f.status == status,
        f.body.error == message,
        f.body.error_type@ == kind@,
{
    Failure { status, body: ErrorBody { error: message, error_type: String::from_str(kind) } }
}

/// Begins a login with `state`: the session keeps its identity, if it
/// has one, waits for `state` and will return to `return_to`.
pub fn login_with(
    replit_auth: &ReplitAuth,
    session: &SessionData,
    return_to: Option<String>,
    state: String,
) -> (redirect: Redirect)
    ensures
        redirect.session@ == issued(session@, state@, return_to.deep_view()),
        redirect.location@ == replit_auth.config.auth_url_text(state@),
{
    let location = replit_auth.config.auth_url(state.as_str());
    let next = SessionData {
        user_session: session.user(),
        original_url: return_to,
        auth_state: Some(state),
    };
    Redirect { session: next, location }
}

/// Login route: begins a login with a fresh random state.
pub fn login(
    replit_auth: &ReplitAuth,
    session: &SessionData,
    return_to: Option<String>,
) -> (redirect: Redirect)
    ensures
        exists|state: Seq<char>|
            is_uuid_text(state) && redirect.session@ == #[trigger] issued(
                session@,
                state,
                return_to.deep_view(),
            ) && redirect.location@ == replit_auth.config.auth_url_text(state),
{
    let state = random_uuid_text();
    login_with(replit_auth, session, return_to, state)
}

/// Callback route, first half: checks what the provider sent the browser
/// back with. A reported error, a missing code and a state other than the
/// one the session waits for are each turned away with `400`, in this order.
pub fn callback(session: &SessionData, query: &CallbackQuery) -> (step: CallbackStep)
    ensures
        match step {
            CallbackStep::Exchange { code } => admits(session@, query@) && Some(code@)
                == query@.code,
            CallbackStep::Reject(f) => !admits(session@, query@) && turned_away(query@, f),
        },
{
    if let Some(error) = &query.error {
        let mut message = String::from_str("Authentication error: ");
        message.append(error.as_str());
        return CallbackStep::Reject(failure(400, message, "authentication_error"));
    }
    let code = match &query.code {
        Some(code) => code,
        None => {
            return CallbackStep::Reject(
                failure(400, String::from_str("Missing authorization code"), "validation_error"),
            );
        },
    };
    let expected = match &session.auth_state {
        Some(expected) => str_eq(expected.as_str(), query.state.as_str()),
        None => false,
    };
    if !expected {
        return CallbackStep::Reject(
            failure(400, String::from_str("Invalid state parameter"), "authentication_error"),
        );
    }
    CallbackStep::Exchange { code: code.clone() }
}

/// What completing a callback at the moment `now` comes to, given the
/// provider's reply to the exchange.
pub open spec fn completes(
    replit_auth: &ReplitAuth,
    session: SessionDataView,
    query: CallbackQueryView,
    reply: ProviderReply,
    now: i64,
    outcome: CallbackOutcome,
) -> bool {
    if !admits(session, query) {
        outcome matches CallbackOutcome::Reject(f) && turned_away(query, f)
    } else {
        match tokens_of_reply(Grant::AuthorizationCode, reply) {
            Err(e) => outcome matches CallbackOutcome::Reject(f) && f.is(
                if e.kind == ErrorKind::ExternalService {
                    502
                } else {
                    500
                },
                "Token exchange error: "@ + e.message,
                e.kind,
            ),
            Ok(tokens) => match replit_auth.verified_claims(tokens.id_token, now) {
                Err(e) => outcome matches CallbackOutcome::Reject(f) && f.is(
                    500,
                    "ID token validation error: "@ + e.message,
                    e.kind,
                ),
                Ok(claims) => {
                    &&& outcome matches CallbackOutcome::Commit { session: next, location, user }
                    &&& next@ == committed(renewed_identity(tokens, claims, None, now))
                    &&& location@ == session.return_to()
                    &&& user@ == user_of_claims(claims)
                },
            },
        }
    }
}

/// Callback route, second half: completes the login at the moment `now`
/// with the provider's reply to the exchange of the code.
///
/// The checks of the first half are made again. A failed exchange is
/// answered with `502` where the provider could not be reached and with
/// `500` otherwise; an identity token that is not signed by the provider,
/// cannot be decoded or has expired is answered with `500`. In all these
/// cases the session stays as it is. Otherwise the session takes the
/// identity and gives up its state and the URL to return to, which the
/// browser is sent to.
pub fn complete_callback_at(
    replit_auth: &ReplitAuth,
    session: &SessionData,
    query: &CallbackQuery,
    reply: &ProviderReply,
    now: i64,
) -> (outcome: CallbackOutcome)
    ensures
        completes(replit_auth, session@, query@, *reply, now, outcome),
        outcome is Commit ==> session@.expects(query@.state),
        outcome matches CallbackOutcome::Commit { session: next, .. } ==> next@.auth_state is None
            && next@.user_session is Some,
{
    match callback(session, query) {
        CallbackStep::Reject(f) => {
            return CallbackOutcome::Reject(f);
        },
        CallbackStep::Exchange { .. } => {},
    }
    let tokens = match replit_auth.exchange_code(reply) {
        Ok(tokens) => tokens,
        Err(e) => {
            let status: u16 = match e {
                AppError::ExternalService(_) => 502,
                _ => 500,
            };
            let mut message = String::from_str("Token exchange error: ");
            message.append(e.message());
            return CallbackOutcome::Reject(failure(status, message, e.error_type()));
        },
    };
    let claims = match replit_auth.verify_id_token_at(tokens.id_token.as_str(), now) {
        Ok(claims) => claims,
        Err(e) => {
            let mut message = String::from_str("ID token validation error: ");
            message.append(e.message());
            return CallbackOutcome::Reject(failure(500, message, e.error_type()));
        },
    };
    let user = replit_auth.claims_to_user(&claims);
    let location = session.return_to();
    let identity = UserSession {
        claims,
        access_token: tokens.access_token,
        refresh_token: tokens.refresh_token,
        expires_at: seconds_after(now, tokens.expires_in),
    };
    let next = SessionData { user_session: Some(identity), original_url: None, auth_state: None };
    CallbackOutcome::Commit { session: next, location, user }
}

/// Callback route, second half, by the clock of this machine.
pub fn complete_callback(
    replit_auth: &ReplitAuth,
    session: &SessionData,
    query: &CallbackQuery,
    reply: &ProviderReply,
) -> (outcome: CallbackOutcome)
    ensures
        exists|now: i64| #[trigger] completes(replit_auth, session@, query@, *reply, now, outcome),
        outcome is Commit ==> session@.expects(query@.state),
{
    let now = unix_now();
    complete_callback_at(replit_auth, session, query, reply, now)
}

/// Logout route: the session is cleared whatever it held, and the browser
/// is sent to the provider's end-session page, to come back to this
/// service's domain.
pub fn logout(replit_auth: &ReplitAuth) -> (redirect: Redirect)
    ensures
        redirect.session@ == SessionDataView::anonymous(),
        redirect.location@ == replit_auth.config.end_session_url_text(
            "https://"@ + replit_auth.config.domain@,
        ),
{
    let mut redirect_uri = String::from_str("https://");
    redirect_uri.append(replit_auth.config.domain.as_str());
    let location = replit_auth.config.end_session_url(redirect_uri.as_str());
    Redirect { session: SessionData::new(), location }
}

/// Get the current user: the identity of the session, or `401`.
pub fn get_user(session: &SessionData) -> (answer: Result<UserSession, Failure>)
    ensures
        match answer {
            Ok(identity) => session.user_session == Some(identity),
            Err(f) => session.user_session is None && f.is(
                401,
                "Not authenticated"@,
                ErrorKind::Authentication,
            ),
        },
{
    match session.user() {
        Some(identity) => Ok(identity),
        None => Err(failure(401, String::from_str("Not authenticated"), "authentication_error")),
    }
}

/// Get the user profile, first half: the key of the record to look up,
/// or `401`.
pub fn get_user_profile(session: &SessionData) -> (answer: Result<String, Failure>)
    ensures
        match answer {
            Ok(id) => session@.user_session is Some && id@ == session@.user_session->0.claims.sub,
            Err(f) => session.user_session is None && f.is(
                401,
                "Not authenticated"@,
                ErrorKind::Authentication,
            ),
        },
{
    match session.user_id() {
        Some(id) => Ok(id),
        None => Err(failure(401, String::from_str("Not authenticated"), "authentication_error")),
    }
}

/// Get the user profile, second half: the record that the store found,
/// `404` where it has none, `500` where it failed.
pub fn user_profile_answer(found: AppResult<User>) -> (answer: Result<User, Failure>)
    ensures
        match (found, answer) {
            (Ok(user), Ok(shown)) => shown == user,
            (Err(e), Err(f)) => if e.kind() == ErrorKind::NotFound {
                f.is(404, "User not found"@, ErrorKind::NotFound)
            } else {
                f.is(500, "Database error: "@ + e.message_text(), e.kind())
            },
            _ => false,
        },
{
    match found {
        Ok(user) => Ok(user),
        Err(AppError::NotFound(_)) => Err(
            failure(404, String::from_str("User not found"), "not_found_error"),
        ),
        Err(e) => {
            let mut message = String::from_str("Database error: ");
            message.append(e.message());
            Err(failure(500, message, e.error_type()))
        },
    }
}

/// A callback is let through only with the state that was issued: of a
/// session in which a login was begun with `state`, a callback is let
/// through only where it carries `state`.
pub proof fn law_callback_needs_issued_state(
    session: SessionDataView,
    state: Seq<char>,
    return_to: Option<Seq<char>>,
    query: CallbackQueryView,
)
    ensures
        admits(issued(session, state, return_to), query) ==> query.state == state,
        query.state != state ==> !admits(issued(session, state, return_to), query),
{
}

/// Only the state issued last is good: of a session in which a login was
/// begun with `first` and then again with `second`, a callback is let
/// through only where it carries `second`.
pub proof fn law_latest_state_only(
    session: SessionDataView,
    first: Seq<char>,
    first_url: Option<Seq<char>>,
    second: Seq<char>,
    second_url: Option<Seq<char>>,
    query: CallbackQueryView,
)
    ensures
        admits(issued(issued(session, first, first_url), second, second_url), query)
            ==> query.state == second,
        first != second && query.state == first ==> !admits(
            issued(issued(session, first, first_url), second, second_url),
            query,
        ),
{
}

/// A state is good for one login: once a callback has been let through
/// and the login completed, the session waits for no state, and no
/// callback is let through, whatever it carries, the same state included.
pub proof fn law_state_is_single_use(
    session: SessionDataView,
    query: CallbackQueryView,
    identity: UserSessionView,
    replay: CallbackQueryView,
)
    requires
        admits(session, query),
    ensures
        session.expects(query.state),
        !admits(committed(identity), replay),
        !admits(committed(identity), query),
{
}

/// A session that waits for no state lets no callback through.
pub proof fn law_no_state_no_callback(session: SessionDataView, query: CallbackQueryView)
    requires
        session.auth_state is None,
    ensures
        !admits(session, query),
{
}

/// What can happen to a session in the course of logins.
pub enum LoginEvent {
    /// A login begins with this state, by the guard or by the login route.
    Begin { state: Seq<char>, return_to: Option<Seq<char>> },
    /// A callback arrives with `query`; `identity` is the identity that
    /// the exchange of its code gives, if it gives one.
    Callback { query: CallbackQueryView, identity: Option<UserSessionView> },
}

/// Whether `event` is a callback that completes a login of `session`.
pub open spec fn completes_login(session: SessionDataView, event: LoginEvent) -> bool {
    event matches LoginEvent::Callback { query, identity } && admits(session, query)
        && identity is Some
}

/// The session after `event`.
pub open spec fn after_event(session: SessionDataView, event: LoginEvent) -> SessionDataView {
    match event {
        LoginEvent::Begin { state, return_to } => issued(session, state, return_to),
        LoginEvent::Callback { query, identity } => if completes_login(session, event) {
            committed(identity->0)
        } else {
            session
        },
    }
}

/// How many of `events`, happening one after the other to `session`,
/// are callbacks that carry `state` and complete a login.
pub open spec fn logins_completed(
    session: SessionDataView,
    events: Seq<LoginEvent>,
    state: Seq<char>,
) -> nat
    decreases events.len(),
{
    if events.len() == 0 {
        0
    } else {
        let first: nat = if completes_login(session, events[0]) && events[0]->query.state
            == state {
            1
        } else {
            0
        };
        first + logins_completed(after_event(session, events[0]), events.drop_first(), state)
    }
}

/// How many of `events` begin a login with `state`.
pub open spec fn logins_begun(events: Seq<LoginEvent>, state: Seq<char>) -> nat
    decreases events.len(),
{
    if events.len() == 0 {
        0
    } else {
        let first: nat = if events[0] matches LoginEvent::Begin { state: s, .. } && s == state {
            1
        } else {
            0
        };
        first + logins_begun(events.drop_first(), state)
    }
}

/// A state is accepted at most once for each time it is issued: whatever
/// happens to a session, in whatever order, the callbacks that carry
/// `state` and complete a login are no more than the logins begun with
/// `state`, counting the one that the session may be waiting for at the
/// start.
pub proof fn law_state_accepted_at_most_once(
    session: SessionDataView,
    events: Seq<LoginEvent>,
    state: Seq<char>,
)
    ensures
        logins_completed(session, events, state) <= logins_begun(events, state) + (
        if session.expects(state) {
            1nat
        } else {
            0nat
        }),
    decreases events.len(),
{
    if events.len() > 0 {
        law_state_accepted_at_most_once(
            after_event(session, events[0]),
            events.drop_first(),
            state,
        );
    }
}

} // verus!
