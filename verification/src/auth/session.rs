//! The session: what a browser's cookie says of its login.
//!
//! A session is a plain value. It is read from the cookie at the start of a
//! request, changed by the functions of the gateway, and written back with
//! the response; nothing of it is kept between requests.

use vstd::prelude::*;
use vstd::string::*;
use crate::auth::replit_auth::{
    claims_entries, claims_from_json, claims_in, is_claim_name, put_claims, UserSession,
    UserSessionView,
};
use crate::json::{
    all_exact, json_object_parsed, json_object_rendered, optional_text, required_int,
    required_text, text_or_null, JsonFieldView, JsonObject,
};
use crate::text::clone_optional;

verus! {

/// Session data stored in the cookie.
#[derive(Debug, PartialEq, Eq)]
pub struct SessionData {
    /// The authenticated identity with its tokens, once login has completed.
    pub user_session: Option<UserSession>,
    /// The URL that was asked for when login began, to return to afterwards.
    pub original_url: Option<String>,
    /// The state that the login in progress was started with.
    pub auth_state: Option<String>,
}

/// The mathematical value of a [`SessionData`].
pub struct SessionDataView {
    pub user_session: Option<UserSessionView>,
    pub original_url: Option<Seq<char>>,
    pub auth_state: Option<Seq<char>>,
}

/// The state of a session at one moment.
#[derive(Debug, Clone, Copy, PartialEq, Eq, Structural)]
pub enum SessionState {
    /// No identity, and no login under way.
    Unauthenticated,
    /// No identity; the browser has been sent to the provider and its
    /// callback is awaited.
    PendingCallback,
    /// An identity that has not expired.
    AuthenticatedValid,
    /// An identity that has expired.
    AuthenticatedExpired,
}

/// The value of an identity that may be absent.
pub open spec fn identity_view(identity: Option<UserSession>) -> Option<UserSessionView> {
    match identity {
        Some(user) => Some(user@),
        None => None,
    }
}

impl SessionDataView {
    /// The session of a browser that has never logged in.
    pub open spec fn anonymous() -> SessionDataView {
        SessionDataView { user_session: None, original_url: None, auth_state: None }
    }

    /// The session of a browser that was sent to the provider with `state`
    /// and is to return to `original_url` afterwards.
    pub open spec fn awaiting(
        state: Seq<char>,
        original_url: Option<Seq<char>>,
    ) -> SessionDataView {
        SessionDataView { user_session: None, original_url, auth_state: Some(state) }
    }

    /// The state of the session at the moment `now`. An identity has
    /// expired from the moment of its expiry on.
    pub open spec fn state_at(self, now: i64) -> SessionState {
        match self.user_session {
            Some(identity) => if identity.expires_at <= now {
                SessionState::AuthenticatedExpired
            } else {
                SessionState::AuthenticatedValid
            },
            None => if self.auth_state is Some {
                SessionState::PendingCallback
            } else {
                SessionState::Unauthenticated
            },
        }
    }

    /// Whether a callback that carries `state` belongs to the login that
    /// this session is waiting for.
    pub open spec fn expects(self, state: Seq<char>) -> bool {
        self.auth_state == Some(state)
    }

    /// Where to send the browser once login has completed: the URL it
    /// first asked for, or the root.
    pub open spec fn return_to(self) -> Seq<char> {
        match self.original_url {
            Some(url) => url,
            None => "/"@,
        }
    }
}

/// The members that stand for a session, in the order in which they are
/// written: the URL to return to and the state, and behind them, for an
/// authenticated session, the tokens, the moment of expiry and the claims.
pub open spec fn session_entries(session: SessionDataView) -> Seq<(Seq<char>, JsonFieldView)> {
    let pending = seq![
        ("original_url"@, text_or_null(session.original_url)),
        ("auth_state"@, text_or_null(session.auth_state)),
    ];
    match session.user_session {
        None => pending,
        Some(identity) => pending + seq![
            ("access_token"@, JsonFieldView::Text(identity.access_token)),
            ("refresh_token"@, text_or_null(identity.refresh_token)),
            ("expires_at"@, JsonFieldView::Number(Some(identity.expires_at))),
        ] + claims_entries(identity.claims),
    }
}

/// The session that a JSON object holds, if it holds one. An object
/// without an access token holds an anonymous session; one with an access
/// token must hold the moment of expiry and the claims as well.
pub open spec fn session_in(members: Map<Seq<char>, JsonFieldView>) -> Option<SessionDataView> {
    match (optional_text(members, "original_url"@), optional_text(members, "auth_state"@)) {
        (Some(original_url), Some(auth_state)) => if !members.contains_key("access_token"@) {
            Some(SessionDataView { user_session: None, original_url, auth_state })
        } else {
            match (
                required_text(members, "access_token"@),
                optional_text(members, "refresh_token"@),
                required_int(members, "expires_at"@),
                claims_in(members),
            ) {
                (Some(access_token), Some(refresh_token), Some(expires_at), Some(claims)) => Some(
                    SessionDataView {
                        user_session: Some(
                            UserSessionView { claims, access_token, refresh_token, expires_at },
                        ),
                        original_url,
                        auth_state,
                    },
                ),
                _ => None,
            }
        },
        _ => None,
    }
}

/// The session that the text of a session cookie stands for: the session
/// it holds, and the session of an anonymous browser where there is no
/// cookie, where its text is no JSON object, or where the object holds
/// no session.
pub open spec fn stored_session(payload: Option<Seq<char>>) -> SessionDataView {
    match payload {
        None => SessionDataView::anonymous(),
        Some(text) => match json_object_parsed(text) {
            None => SessionDataView::anonymous(),
            Some(members) => match session_in(members) {
                Some(session) => session,
                None => SessionDataView::anonymous(),
            },
        },
    }
}

impl View for SessionData {
    type V = SessionDataView;

    open spec fn view(&self) -> SessionDataView {
        SessionDataView {
            user_session: identity_view(self.user_session),
            original_url: self.original_url.deep_view(),
            auth_state: self.auth_state.deep_view(),
        }
    }
}

impl Clone for SessionData {
    fn clone(&self) -> (copy: Self)
        ensures
            copy == *self,
    {
        SessionData {
            user_session: match &self.user_session {
                Some(user) => Some(user.clone()),
                None => None,
            },
            original_url: clone_optional(&self.original_url),
            auth_state: clone_optional(&self.auth_state),
        }
    }
}

impl SessionData {
    /// Create a new empty session data.
    pub fn new() -> (session: SessionData)
        ensures
            session@ == SessionDataView::anonymous(),
    {
        SessionData { user_session: None, original_url: None, auth_state: None }
    }

    /// Writes the session as a JSON object. An anonymous session has
    /// neither tokens nor claims.
    pub fn to_json(&self) -> (obj: JsonObject)
        ensures
            obj.entries() == session_entries(self@),
            all_exact(obj.entries()),
            session_in(obj@) == Some(self@),
    {
        let mut obj = JsonObject::new();
        obj.put_optional_text("original_url", &self.original_url);
        obj.put_optional_text("auth_state", &self.auth_state);
        proof {
            reveal_strlit("original_url");
            reveal_strlit("auth_state");
            reveal_strlit("access_token");
            reveal_strlit("refresh_token");
            reveal_strlit("expires_at");
            reveal_strlit("sub");
            reveal_strlit("email");
            reveal_strlit("first_name");
            reveal_strlit("last_name");
            reveal_strlit("profile_image_url");
            reveal_strlit("iat");
            reveal_strlit("exp");
            assert("original_url"@[0] == 'o');
            assert("auth_state"@[1] == 'u');
            assert("access_token"@[1] == 'c');
            assert("refresh_token"@[0] == 'r');
            assert("expires_at"@[1] == 'x');
            assert("expires_at"@.len() == 10);
            assert("exp"@.len() == 3);
            assert("sub"@[0] == 's');
            assert("email"@[1] == 'm');
            assert("first_name"@[0] == 'f');
            assert("last_name"@[0] == 'l');
            assert("profile_image_url"@[0] == 'p');
            assert("iat"@[0] == 'i');
            assert("exp"@[1] == 'x');
        }
        if let Some(identity) = &self.user_session {
            obj.put_text("access_token", identity.access_token.as_str());
            obj.put_optional_text("refresh_token", &identity.refresh_token);
            obj.put_int("expires_at", identity.expires_at);
            put_claims(&mut obj, &identity.claims);
            proof {
                assert(!is_claim_name("original_url"@));
                assert(!is_claim_name("auth_state"@));
                assert(!is_claim_name("access_token"@));
                assert(!is_claim_name("refresh_token"@));
                assert(!is_claim_name("expires_at"@));
            }
        }
        assert(obj.entries() =~= session_entries(self@));
        obj
    }

    /// Reads a session out of a JSON object; `None` where the object
    /// holds no session.
    pub fn from_json(obj: &JsonObject) -> (session: Option<SessionData>)
        ensures
            match session {
                Some(s) => session_in(obj@) == Some(s@),
                None => session_in(obj@) is None,
            },
    {
        let original_url = match obj.optional_text_of("original_url") {
            Ok(url) => url,
            Err(_) => return None,
        };
        let auth_state = match obj.optional_text_of("auth_state") {
            Ok(state) => state,
            Err(_) => return None,
        };
        if obj.get("access_token").is_none() {
            return Some(SessionData { user_session: None, original_url, auth_state });
        }
        let access_token = match obj.text_of("access_token") {
            Some(token) => token,
            None => return None,
        };
        let refresh_token = match obj.optional_text_of("refresh_token") {
            Ok(token) => token,
            Err(_) => return None,
        };
        let expires_at = match obj.int_of("expires_at") {
            Some(at) => at,
            None => return None,
        };
        let claims = match claims_from_json(obj) {
            Some(claims) => claims,
            None => return None,
        };
        Some(
            SessionData {
                user_session: Some(UserSession { claims, access_token, refresh_token, expires_at }),
                original_url,
                auth_state,
            },
        )
    }

    /// The text to keep in the session cookie. Loading it gives the
    /// session back.
    pub fn save(&self) -> (payload: String)
        ensures
            payload@ == json_object_rendered(session_entries(self@)),
            stored_session(Some(payload@)) == self@,
    {
        self.to_json().render()
    }

    /// The session to work with, given the text that the session cookie
    /// holds, if there is a cookie: the session that was saved, and the
    /// session of an anonymous browser where there is no cookie or its
    /// text holds no session.
    pub fn load(payload: Option<&str>) -> (session: SessionData)
        ensures
            session@ == stored_session(payload.deep_view()),
    {
        let found = match payload {
            Some(text) => match JsonObject::parse(text) {
                Some(obj) => SessionData::from_json(&obj),
                None => None,
            },
            None => None,
        };
        match found {
            Some(session) => session,
            None => SessionData::new(),
        }
    }

    /// The state of the session at the moment `now`.
    pub fn state_at(&self, now: i64) -> (state: SessionState)
        ensures
            state == self@.state_at(now),
    {
        match &self.user_session {
            Some(identity) => {
                if identity.is_expired_at(now) {
                    SessionState::AuthenticatedExpired
                } else {
                    SessionState::AuthenticatedValid
                }
            },
            None => {
                if self.auth_state.is_some() {
                    SessionState::PendingCallback
                } else {
                    SessionState::Unauthenticated
                }
            },
        }
    }

    /// Check if the user is authenticated.
    pub fn is_authenticated(&self) -> (yes: bool)
        ensures
            yes == self.user_session is Some,
    {
        self.user_session.is_some()
    }

    /// Get the user ID from the session.
    pub fn user_id(&self) -> (id: Option<String>)
        ensures
            id.deep_view() == (match self@.user_session {
                Some(user) => Some(user.claims.sub),
                None => None,
            }),
    {
        match &self.user_session {
            Some(user) => Some(user.claims.sub.clone()),
            None => None,
        }
    }

    /// Get user from session.
    pub fn user(&self) -> (user: Option<UserSession>)
        ensures
            user == self.user_session,
    {
        match &self.user_session {
            Some(user) => Some(user.clone()),
            None => None,
        }
    }

    /// Set user in session.
    pub fn set_user(&mut self, user: UserSession)
        ensures
            final(self)@ == (SessionDataView { user_session: Some(user@), ..old(self)@ }),
    {
        self.user_session = Some(user);
    }

    /// Remove user from session.
    pub fn remove_user(&mut self)
        ensures
            final(self)@ == (SessionDataView { user_session: None, ..old(self)@ }),
    {
        self.user_session = None;
    }

    /// Forget everything: the session of an anonymous browser is left.
    pub fn clear_session_data(&mut self)
        ensures
            final(self)@ == SessionDataView::anonymous(),
    {
        self.user_session = None;
        self.original_url = None;
        self.auth_state = None;
    }

    /// Where to send the browser once login has completed.
    pub fn return_to(&self) -> (url: String)
        ensures
            url@ == self@.return_to(),
    {
        match &self.original_url {
            Some(url) => url.clone(),
            None => String::from_str("/"),
        }
    }
}

} // verus!
