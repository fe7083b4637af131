use terra_fusion_pro::auth::auth_controller::{
    callback, complete_callback, complete_callback_at, get_user, get_user_profile, login,
    login_with, logout, user_profile_answer, CallbackOutcome, CallbackQuery, CallbackStep,
    Failure, Redirect,
};
use terra_fusion_pro::auth::replit_auth::{
    ProviderKey, ProviderReply, ReplitAuth, ReplitAuthConfig, UserClaims, UserSession,
};
use terra_fusion_pro::auth::session::SessionData;
use terra_fusion_pro::error::{AppError, ErrorBody};
use terra_fusion_pro::models::user::{UpsertUser, User};

const SECRET: &[u8] = b"provider-secret";

fn auth() -> ReplitAuth {
    ReplitAuth::with_keys(
        ReplitAuthConfig {
            issuer_url: "https://replit.com/oidc".to_string(),
            repl_id: "repl-1".to_string(),
            callback_url: "https://app.example/api/callback".to_string(),
            domain: "app.example".to_string(),
        },
        vec![ProviderKey::Secret(SECRET.to_vec())],
    )
}

fn awaiting(state: &str, url: Option<&str>) -> SessionData {
    SessionData {
        user_session: None,
        original_url: url.map(|u| u.to_string()),
        auth_state: Some(state.to_string()),
    }
}

fn query(code: Option<&str>, state: &str) -> CallbackQuery {
    CallbackQuery {
        code: code.map(|c| c.to_string()),
        state: state.to_string(),
        error: None,
        error_description: None,
    }
}

fn failure(status: u16, error: &str, error_type: &str) -> Failure {
    Failure {
        status,
        body: ErrorBody { error: error.to_string(), error_type: error_type.to_string() },
    }
}

fn signed(payload: &str, secret: &[u8]) -> String {
    let value: serde_json::Value = serde_json::from_str(payload).unwrap();
    jsonwebtoken::encode(
        &jsonwebtoken::Header::default(),
        &value,
        &jsonwebtoken::EncodingKey::from_secret(secret),
    )
    .unwrap()
}

fn token_reply(id_token: &str) -> ProviderReply {
    ProviderReply::Answered {
        status: 200,
        body: format!(
            "{{\"access_token\":\"access-1\",\"refresh_token\":\"refresh-1\",\"id_token\":\"{}\",\"expires_in\":3600,\"token_type\":\"Bearer\"}}",
            id_token
        ),
    }
}

fn good_reply() -> ProviderReply {
    token_reply(&signed(
        "{\"sub\":\"provider-sub-9\",\"email\":\"ada@example.com\",\"iat\":1000,\"exp\":5000}",
        SECRET,
    ))
}

#[test]
fn scenario_b_callback_with_correct_state_commits() {
    let session = awaiting("state-1", Some("/reports/7"));
    let q = query(Some("code-1"), "state-1");
    assert_eq!(callback(&session, &q), CallbackStep::Exchange { code: "code-1".to_string() });
    let outcome = complete_callback_at(&auth(), &session, &q, &good_reply(), 1000);
    assert_eq!(
        outcome,
        CallbackOutcome::Commit {
            session: SessionData {
                user_session: Some(UserSession {
                    claims: UserClaims {
                        sub: "provider-sub-9".to_string(),
                        email: Some("ada@example.com".to_string()),
                        first_name: None,
                        last_name: None,
                        profile_image_url: None,
                        iat: 1000,
                        exp: 5000,
                    },
                    access_token: "access-1".to_string(),
                    refresh_token: Some("refresh-1".to_string()),
                    expires_at: 4600,
                }),
                original_url: None,
                auth_state: None,
            },
            location: "/reports/7".to_string(),
            user: UpsertUser {
                id: "provider-sub-9".to_string(),
                email: Some("ada@example.com".to_string()),
                first_name: None,
                last_name: None,
                profile_image_url: None,
            },
        }
    );
}

#[test]
fn callback_without_a_pending_url_returns_to_the_root() {
    let session = awaiting("state-1", None);
    let q = query(Some("code-1"), "state-1");
    match complete_callback_at(&auth(), &session, &q, &good_reply(), 1000) {
        CallbackOutcome::Commit { location, .. } => assert_eq!(location, "/"),
        other => panic!("unexpected {:?}", other),
    }
}

#[test]
fn scenario_c_callback_with_wrong_state_is_rejected() {
    let session = awaiting("state-1", Some("/reports/7"));
    let q = query(Some("code-1"), "wrong");
    let expected = failure(400, "Invalid state parameter", "authentication_error");
    assert_eq!(callback(&session, &q), CallbackStep::Reject(expected.clone()));
    assert_eq!(
        complete_callback_at(&auth(), &session, &q, &good_reply(), 1000),
        CallbackOutcome::Reject(expected)
    );
}

#[test]
fn callback_on_a_session_without_state_is_rejected() {
    let q = query(Some("code-1"), "");
    let expected = failure(400, "Invalid state parameter", "authentication_error");
    assert_eq!(callback(&SessionData::new(), &q), CallbackStep::Reject(expected));
    let q = query(Some("code-1"), "state-1");
    assert!(matches!(callback(&SessionData::new(), &q), CallbackStep::Reject(_)));
}

#[test]
fn a_state_is_accepted_at_most_once() {
    let session = awaiting("state-1", Some("/a"));
    let q = query(Some("code-1"), "state-1");
    let committed = match complete_callback_at(&auth(), &session, &q, &good_reply(), 1000) {
        CallbackOutcome::Commit { session, .. } => session,
        other => panic!("unexpected {:?}", other),
    };
    assert_eq!(committed.auth_state, None);
    let expected = failure(400, "Invalid state parameter", "authentication_error");
    assert_eq!(callback(&committed, &q), CallbackStep::Reject(expected.clone()));
    assert_eq!(
        complete_callback_at(&auth(), &committed, &q, &good_reply(), 1000),
        CallbackOutcome::Reject(expected)
    );
}

#[test]
fn only_the_latest_state_is_accepted() {
    let first = login_with(&auth(), &SessionData::new(), None, "state-1".to_string());
    let second = login_with(&auth(), &first.session, None, "state-2".to_string());
    assert!(matches!(
        callback(&second.session, &query(Some("c"), "state-1")),
        CallbackStep::Reject(_)
    ));
    assert_eq!(
        callback(&second.session, &query(Some("c"), "state-2")),
        CallbackStep::Exchange { code: "c".to_string() }
    );
}

#[test]
fn provider_error_is_surfaced_before_anything_else() {
    let session = awaiting("state-1", None);
    let q = CallbackQuery {
        code: None,
        state: "wrong".to_string(),
        error: Some("access_denied".to_string()),
        error_description: Some("the user said no".to_string()),
    };
    let expected =
        failure(400, "Authentication error: access_denied", "authentication_error");
    assert_eq!(callback(&session, &q), CallbackStep::Reject(expected.clone()));
    assert_eq!(
        complete_callback_at(&auth(), &session, &q, &good_reply(), 1000),
        CallbackOutcome::Reject(expected)
    );
}

#[test]
fn missing_code_is_rejected() {
    let session = awaiting("state-1", None);
    let q = query(None, "state-1");
    assert_eq!(
        callback(&session, &q),
        CallbackStep::Reject(failure(400, "Missing authorization code", "validation_error"))
    );
}

#[test]
fn unreachable_provider_is_a_bad_gateway() {
    let session = awaiting("state-1", None);
    let q = query(Some("code-1"), "state-1");
    let reply = ProviderReply::Unreachable { reason: "connection refused".to_string() };
    assert_eq!(
        complete_callback_at(&auth(), &session, &q, &reply, 1000),
        CallbackOutcome::Reject(failure(
            502,
            "Token exchange error: Failed to exchange code: connection refused",
            "external_service_error"
        ))
    );
}

#[test]
fn refused_exchange_is_an_internal_error() {
    let session = awaiting("state-1", None);
    let q = query(Some("code-1"), "state-1");
    let reply = ProviderReply::Answered { status: 401, body: "bad code".to_string() };
    assert_eq!(
        complete_callback_at(&auth(), &session, &q, &reply, 1000),
        CallbackOutcome::Reject(failure(
            500,
            "Token exchange error: Token exchange failed: bad code",
            "authentication_error"
        ))
    );
}

#[test]
fn unreadable_exchange_reply_is_an_internal_error() {
    let session = awaiting("state-1", None);
    let q = query(Some("code-1"), "state-1");
    let reply = ProviderReply::Answered { status: 200, body: "<html>".to_string() };
    assert_eq!(
        complete_callback_at(&auth(), &session, &q, &reply, 1000),
        CallbackOutcome::Reject(failure(
            500,
            "Token exchange error: Invalid token response",
            "deserialization_error"
        ))
    );
}

#[test]
fn identity_token_failures_are_internal_errors() {
    let session = awaiting("state-1", None);
    let q = query(Some("code-1"), "state-1");
    let forged = token_reply(&signed("{\"sub\":\"x\",\"iat\":1,\"exp\":5000}", b"forger"));
    assert_eq!(
        complete_callback_at(&auth(), &session, &q, &forged, 1000),
        CallbackOutcome::Reject(failure(
            500,
            "ID token validation error: ID token signature could not be verified",
            "authentication_error"
        ))
    );
    let expired = token_reply(&signed("{\"sub\":\"x\",\"iat\":1,\"exp\":999}", SECRET));
    assert_eq!(
        complete_callback_at(&auth(), &session, &q, &expired, 1000),
        CallbackOutcome::Reject(failure(
            500,
            "ID token validation error: ID token has expired",
            "authentication_error"
        ))
    );
    let incomplete = token_reply(&signed("{\"iat\":1,\"exp\":5000}", SECRET));
    assert_eq!(
        complete_callback_at(&auth(), &session, &q, &incomplete, 1000),
        CallbackOutcome::Reject(failure(
            500,
            "ID token validation error: Invalid claims in ID token",
            "authentication_error"
        ))
    );
}

#[test]
fn complete_callback_by_the_clock() {
    let session = awaiting("state-1", Some("/home"));
    let q = query(Some("code-1"), "state-1");
    let reply = token_reply(&signed("{\"sub\":\"s\",\"iat\":1,\"exp\":9999999999}", SECRET));
    match complete_callback(&auth(), &session, &q, &reply) {
        CallbackOutcome::Commit { session, location, user } => {
            assert_eq!(location, "/home");
            assert_eq!(user.id, "s");
            assert!(session.user_session.unwrap().expires_at > 1_700_000_000);
        }
        other => panic!("unexpected {:?}", other),
    }
}

#[test]
fn login_sets_state_and_pending_url() {
    let redirect = login_with(
        &auth(),
        &SessionData::new(),
        Some("/back".to_string()),
        "state-9".to_string(),
    );
    assert_eq!(
        redirect,
        Redirect {
            session: awaiting("state-9", Some("/back")),
            location: "https://replit.com/oidc/auth?client_id=repl-1&redirect_uri=https://app.example/api/callback&response_type=code&scope=openid%20email%20profile%20offline_access&state=state-9".to_string(),
        }
    );
}

#[test]
fn login_draws_a_fresh_state() {
    let redirect = login(&auth(), &SessionData::new(), None);
    let state = redirect.session.auth_state.clone().unwrap();
    assert_eq!(state.len(), 36);
    assert!(redirect.location.ends_with(&format!("&state={}", state)));
    assert_eq!(redirect.session.original_url, None);
}

#[test]
fn logout_clears_the_session() {
    let redirect = logout(&auth());
    assert_eq!(
        redirect,
        Redirect {
            session: SessionData::new(),
            location: "https://replit.com/oidc/logout?client_id=repl-1&post_logout_redirect_uri=https://app.example".to_string(),
        }
    );
}

fn some_identity() -> UserSession {
    UserSession {
        claims: UserClaims {
            sub: "user-1".to_string(),
            email: None,
            first_name: None,
            last_name: None,
            profile_image_url: None,
            iat: 1,
            exp: 2,
        },
        access_token: "a".to_string(),
        refresh_token: None,
        expires_at: 3,
    }
}

#[test]
fn current_user_needs_an_identity() {
    let unauthenticated = failure(401, "Not authenticated", "authentication_error");
    assert_eq!(get_user(&SessionData::new()), Err(unauthenticated.clone()));
    assert_eq!(get_user_profile(&SessionData::new()), Err(unauthenticated));
    let session = SessionData {
        user_session: Some(some_identity()),
        original_url: None,
        auth_state: None,
    };
    assert_eq!(get_user(&session), Ok(some_identity()));
    assert_eq!(get_user_profile(&session), Ok("user-1".to_string()));
}

#[test]
fn profile_answers() {
    let user = User {
        id: "user-1".to_string(),
        email: None,
        first_name: None,
        last_name: None,
        profile_image_url: None,
        created_at: 1,
        updated_at: 2,
    };
    assert_eq!(user_profile_answer(Ok(user.clone())), Ok(user));
    assert_eq!(
        user_profile_answer(Err(AppError::NotFound("nobody".to_string()))),
        Err(failure(404, "User not found", "not_found_error"))
    );
    assert_eq!(
        user_profile_answer(Err(AppError::Database("pool closed".to_string()))),
        Err(failure(500, "Database error: pool closed", "database_error"))
    );
}
