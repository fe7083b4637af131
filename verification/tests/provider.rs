use terra_fusion_pro::auth::replit_auth::{
    read_token_reply, tokens_from_json, Grant, ProviderReply, ReplitAuth, ReplitAuthConfig,
    TokenRequest, TokenResponse,
};
use terra_fusion_pro::auth::session::{SessionData, SessionState};
use terra_fusion_pro::error::AppError;
use terra_fusion_pro::json::JsonObject;

fn config() -> ReplitAuthConfig {
    ReplitAuthConfig {
        issuer_url: "https://replit.com/oidc".to_string(),
        repl_id: "repl-1".to_string(),
        callback_url: "https://app.example/api/callback".to_string(),
        domain: "app.example".to_string(),
    }
}

fn vars(pairs: &[(&str, &str)]) -> Vec<(String, String)> {
    pairs.iter().map(|(k, v)| (k.to_string(), v.to_string())).collect()
}

fn pair(name: &str, value: &str) -> (String, String) {
    (name.to_string(), value.to_string())
}

#[test]
fn urls() {
    let c = config();
    assert_eq!(c.discovery_url(), "https://replit.com/oidc");
    assert_eq!(c.token_url(), "https://replit.com/oidc/token");
    assert_eq!(
        c.auth_url("abc"),
        "https://replit.com/oidc/auth?client_id=repl-1&redirect_uri=https://app.example/api/callback&response_type=code&scope=openid%20email%20profile%20offline_access&state=abc"
    );
    assert_eq!(
        c.end_session_url("https://app.example"),
        "https://replit.com/oidc/logout?client_id=repl-1&post_logout_redirect_uri=https://app.example"
    );
    assert_eq!(c.clone(), c);
}

#[test]
fn config_from_variables() {
    let c = ReplitAuthConfig::from_env(&vars(&[
        ("REPL_ID", "repl-9"),
        ("REPLIT_DOMAINS", "one.example,two.example"),
    ]))
    .unwrap();
    assert_eq!(
        c,
        ReplitAuthConfig {
            issuer_url: "https://replit.com/oidc".to_string(),
            repl_id: "repl-9".to_string(),
            callback_url: "https://one.example/api/callback".to_string(),
            domain: "one.example".to_string(),
        }
    );
    let d = ReplitAuthConfig::from_env(&vars(&[
        ("ISSUER_URL", "https://id.example"),
        ("REPLIT_DOMAINS", "solo.example"),
        ("REPL_ID", "r"),
    ]))
    .unwrap();
    assert_eq!(d.issuer_url, "https://id.example");
    assert_eq!(d.domain, "solo.example");
    assert_eq!(d.callback_url, "https://solo.example/api/callback");
}

#[test]
fn config_needs_its_variables() {
    assert_eq!(
        ReplitAuthConfig::from_env(&vars(&[("REPLIT_DOMAINS", "a")])),
        Err(AppError::Configuration("REPL_ID environment variable not found".to_string()))
    );
    assert_eq!(
        ReplitAuthConfig::from_env(&vars(&[("REPL_ID", "a")])),
        Err(AppError::Configuration("REPLIT_DOMAINS environment variable not found".to_string()))
    );
}

#[test]
fn exchange_request() {
    let auth = ReplitAuth::new(config());
    assert_eq!(
        auth.exchange_code_request("code-1"),
        TokenRequest {
            url: "https://replit.com/oidc/token".to_string(),
            form: vec![
                pair("grant_type", "authorization_code"),
                pair("code", "code-1"),
                pair("redirect_uri", "https://app.example/api/callback"),
                pair("client_id", "repl-1"),
            ],
        }
    );
}

#[test]
fn refresh_request() {
    let auth = ReplitAuth::new(config());
    assert_eq!(
        auth.refresh_token_request("refresh-1"),
        TokenRequest {
            url: "https://replit.com/oidc/token".to_string(),
            form: vec![
                pair("grant_type", "refresh_token"),
                pair("refresh_token", "refresh-1"),
                pair("client_id", "repl-1"),
            ],
        }
    );
}

fn tokens() -> TokenResponse {
    TokenResponse {
        access_token: "a".to_string(),
        refresh_token: Some("r".to_string()),
        id_token: "i".to_string(),
        expires_in: 3600,
        token_type: "Bearer".to_string(),
    }
}

const BODY: &str =
    "{\"access_token\":\"a\",\"refresh_token\":\"r\",\"id_token\":\"i\",\"expires_in\":3600,\"token_type\":\"Bearer\",\"scope\":\"openid\"}";

#[test]
fn successful_reply_is_read() {
    let auth = ReplitAuth::new(config());
    let reply = ProviderReply::Answered { status: 200, body: BODY.to_string() };
    assert_eq!(auth.exchange_code(&reply), Ok(tokens()));
    assert_eq!(auth.refresh_token(&reply), Ok(tokens()));
    let created = ProviderReply::Answered { status: 299, body: BODY.to_string() };
    assert_eq!(auth.exchange_code(&created), Ok(tokens()));
}

#[test]
fn reply_without_refresh_token_is_read() {
    let body =
        "{\"access_token\":\"a\",\"id_token\":\"i\",\"expires_in\":-5,\"token_type\":\"Bearer\"}";
    let reply = ProviderReply::Answered { status: 200, body: body.to_string() };
    let read = read_token_reply(Grant::RefreshToken, &reply).unwrap();
    assert_eq!(read.refresh_token, None);
    assert_eq!(read.expires_in, -5);
    let null =
        "{\"access_token\":\"a\",\"refresh_token\":null,\"id_token\":\"i\",\"expires_in\":1,\"token_type\":\"Bearer\"}";
    let reply = ProviderReply::Answered { status: 200, body: null.to_string() };
    assert_eq!(read_token_reply(Grant::RefreshToken, &reply).unwrap().refresh_token, None);
}

#[test]
fn failures_of_the_provider() {
    let auth = ReplitAuth::new(config());
    let down = ProviderReply::Unreachable { reason: "dns".to_string() };
    assert_eq!(
        auth.exchange_code(&down),
        Err(AppError::ExternalService("Failed to exchange code: dns".to_string()))
    );
    assert_eq!(
        auth.refresh_token(&down),
        Err(AppError::ExternalService("Failed to refresh token: dns".to_string()))
    );
    for status in [199u16, 300, 400, 401, 500] {
        let refused = ProviderReply::Answered { status, body: "nope".to_string() };
        assert_eq!(
            auth.exchange_code(&refused),
            Err(AppError::Authentication("Token exchange failed: nope".to_string()))
        );
        assert_eq!(
            auth.refresh_token(&refused),
            Err(AppError::Authentication("Token refresh failed: nope".to_string()))
        );
    }
}

#[test]
fn unreadable_bodies() {
    let auth = ReplitAuth::new(config());
    for body in [
        "",
        "[]",
        "{\"access_token\":\"a\"}",
        "{\"access_token\":1,\"id_token\":\"i\",\"expires_in\":1,\"token_type\":\"Bearer\"}",
        "{\"access_token\":\"a\",\"id_token\":\"i\",\"expires_in\":\"1\",\"token_type\":\"Bearer\"}",
        "{\"access_token\":\"a\",\"refresh_token\":5,\"id_token\":\"i\",\"expires_in\":1,\"token_type\":\"Bearer\"}",
    ] {
        let reply = ProviderReply::Answered { status: 200, body: body.to_string() };
        assert_eq!(
            auth.exchange_code(&reply),
            Err(AppError::Deserialization("Invalid token response".to_string())),
            "body {}",
            body
        );
    }
}

#[test]
fn tokens_from_an_object() {
    let mut obj = JsonObject::new();
    assert_eq!(tokens_from_json(&obj), None);
    obj.put_text("access_token", "a");
    obj.put_text("refresh_token", "r");
    obj.put_text("id_token", "i");
    obj.put_int("expires_in", 3600);
    obj.put_text("token_type", "Bearer");
    assert_eq!(tokens_from_json(&obj), Some(tokens()));
    assert_eq!(tokens().clone(), tokens());
}

#[test]
fn sessions() {
    let mut session = SessionData::new();
    assert_eq!(session.state_at(0), SessionState::Unauthenticated);
    assert!(!session.is_authenticated());
    assert_eq!(session.user_id(), None);
    assert_eq!(session.user(), None);
    assert_eq!(session.return_to(), "/");
    assert_eq!(SessionData::load(None), SessionData::new());
    assert_eq!(SessionData::load(Some(&SessionData::new().save())), SessionData::new());
    let identity = terra_fusion_pro::auth::replit_auth::UserSession {
        claims: terra_fusion_pro::auth::replit_auth::UserClaims {
            sub: "user-1".to_string(),
            email: None,
            first_name: None,
            last_name: None,
            profile_image_url: None,
            iat: 1,
            exp: 2,
        },
        access_token: "a".to_string(),
        refresh_token: None,
        expires_at: 3,
    };
    session.original_url = Some("/x".to_string());
    session.auth_state = Some("s".to_string());
    assert_eq!(session.state_at(0), SessionState::PendingCallback);
    session.set_user(identity.clone());
    assert_eq!(session.state_at(2), SessionState::AuthenticatedValid);
    assert_eq!(session.state_at(3), SessionState::AuthenticatedExpired);
    assert_eq!(session.state_at(4), SessionState::AuthenticatedExpired);
    assert!(session.is_authenticated());
    assert_eq!(session.user_id(), Some("user-1".to_string()));
    assert_eq!(session.user(), Some(identity));
    assert_eq!(session.return_to(), "/x");
    assert_eq!(SessionData::load(Some(&session.save())), session);
    assert_eq!(SessionData::from_json(&session.to_json()), Some(session.clone()));
    session.remove_user();
    assert!(!session.is_authenticated());
    assert_eq!(session.original_url, Some("/x".to_string()));
    assert_eq!(session.auth_state, Some("s".to_string()));
    session.clear_session_data();
    assert_eq!(session, SessionData::new());
}

#[test]
fn session_cookie_round_trip() {
    let identity = terra_fusion_pro::auth::replit_auth::UserSession {
        claims: terra_fusion_pro::auth::replit_auth::UserClaims {
            sub: "user \"1\"".to_string(),
            email: Some("a@b.c".to_string()),
            first_name: None,
            last_name: Some("L\u{e9}".to_string()),
            profile_image_url: None,
            iat: -5,
            exp: i64::MAX,
        },
        access_token: "a.b.c".to_string(),
        refresh_token: Some("r".to_string()),
        expires_at: i64::MIN,
    };
    for session in [
        SessionData::new(),
        SessionData {
            user_session: None,
            original_url: Some("/x?y=1".to_string()),
            auth_state: Some("s".to_string()),
        },
        SessionData { user_session: Some(identity.clone()), original_url: None, auth_state: None },
        SessionData {
            user_session: Some(identity),
            original_url: Some("/".to_string()),
            auth_state: Some(String::new()),
        },
    ] {
        let payload = session.save();
        assert_eq!(SessionData::load(Some(&payload)), session);
    }
}

#[test]
fn corrupted_session_cookies_are_anonymous() {
    for payload in [
        "",
        "not json",
        "[]",
        "{\"original_url\":5}",
        "{\"auth_state\":[]}",
        "{\"access_token\":\"a\"}",
        "{\"access_token\":\"a\",\"expires_at\":1,\"sub\":\"s\",\"iat\":1}",
        "{\"access_token\":7,\"expires_at\":1,\"sub\":\"s\",\"iat\":1,\"exp\":2}",
        "{\"access_token\":\"a\",\"expires_at\":\"1\",\"sub\":\"s\",\"iat\":1,\"exp\":2}",
        "{\"access_token\":\"a\",\"refresh_token\":1,\"expires_at\":1,\"sub\":\"s\",\"iat\":1,\"exp\":2}",
    ] {
        assert_eq!(SessionData::load(Some(payload)), SessionData::new(), "payload {}", payload);
    }
    let kept = SessionData::load(Some(
        "{\"access_token\":\"a\",\"expires_at\":9,\"sub\":\"s\",\"iat\":1,\"exp\":2,\"more\":{}}",
    ));
    assert_eq!(kept.user_id(), Some("s".to_string()));
    assert_eq!(kept.user_session.unwrap().expires_at, 9);
    let pending = SessionData::load(Some("{\"auth_state\":\"s\"}"));
    assert_eq!(pending.auth_state, Some("s".to_string()));
    assert_eq!(pending.original_url, None);
}
