use terra_fusion_pro::auth::replit_auth::{UserClaims, UserSession};
use terra_fusion_pro::auth::session::SessionData;
use terra_fusion_pro::error::AppError;
use terra_fusion_pro::graphql::property_types::{graphql_error, GraphqlError};
use terra_fusion_pro::graphql::user_types::{MutationRoot, QueryRoot, UpdateUserInput};
use terra_fusion_pro::models::user::{UpdateUserRequest, UpsertUser, User};
use terra_fusion_pro::repository::user_repository::UserRepository;
use terra_fusion_pro::service::user_service::UserService;

fn store() -> UserRepository {
    let mut store = UserRepository::new();
    for (id, email, at) in [("u1", "a@b.c", 100), ("u2", "x@y.z", 200)] {
        store
            .upsert_user_at(
                &UpsertUser {
                    id: id.to_string(),
                    email: Some(email.to_string()),
                    first_name: Some("Ada".to_string()),
                    last_name: Some("Byron".to_string()),
                    profile_image_url: None,
                },
                at,
            )
            .unwrap();
    }
    store
}

fn record(id: &str, email: &str, first: &str, last: &str, created: i64, updated: i64) -> User {
    User {
        id: id.to_string(),
        email: Some(email.to_string()),
        first_name: Some(first.to_string()),
        last_name: Some(last.to_string()),
        profile_image_url: None,
        created_at: created,
        updated_at: updated,
    }
}

fn session_of(sub: &str) -> SessionData {
    SessionData {
        user_session: Some(UserSession {
            claims: UserClaims {
                sub: sub.to_string(),
                email: None,
                first_name: None,
                last_name: None,
                profile_image_url: None,
                iat: 1,
                exp: 2,
            },
            access_token: "a".to_string(),
            refresh_token: None,
            expires_at: 3,
        }),
        original_url: None,
        auth_state: None,
    }
}

fn names(first: Option<&str>, last: Option<&str>) -> UpdateUserRequest {
    UpdateUserRequest {
        first_name: first.map(|n| n.to_string()),
        last_name: last.map(|n| n.to_string()),
        phone: None,
        role: None,
        is_active: None,
    }
}

#[test]
fn user_service_finds_users() {
    let service = UserService::new(store());
    assert_eq!(
        service.find_user_by_id("u1".to_string()),
        Ok(record("u1", "a@b.c", "Ada", "Byron", 100, 100))
    );
    assert_eq!(
        service.find_user_by_id("u9".to_string()),
        Err(AppError::NotFound("User not found with ID: u9".to_string()))
    );
    assert_eq!(
        service.find_user_by_email("x@y.z"),
        Ok(Some(record("u2", "x@y.z", "Ada", "Byron", 200, 200)))
    );
    assert_eq!(service.find_user_by_email("q@y.z"), Ok(None));
    let all = service.get_all_users().unwrap();
    assert_eq!(all.len(), 2);
    assert_eq!(all[0].id, "u2");
    assert_eq!(all[1].id, "u1");
}

#[test]
fn user_service_updates_users() {
    let mut service = UserService::new(store());
    assert_eq!(
        service.update_user_at("u1".to_string(), names(None, Some("Lovelace")), 300),
        Ok(record("u1", "a@b.c", "Ada", "Lovelace", 100, 300))
    );
    assert_eq!(
        service.find_user_by_id("u1".to_string()),
        Ok(record("u1", "a@b.c", "Ada", "Lovelace", 100, 300))
    );
    assert_eq!(
        service.update_user_at("u9".to_string(), names(None, None), 300),
        Err(AppError::NotFound("User not found with ID: u9".to_string()))
    );
    let later = service.update_user("u2".to_string(), names(Some("Grace"), None)).unwrap();
    assert_eq!(later.first_name, Some("Grace".to_string()));
    assert_eq!(later.last_name, Some("Byron".to_string()));
    assert_eq!(later.created_at, 200);
    assert!(later.updated_at > 1_700_000_000);
    assert!(matches!(
        service.update_user("u9".to_string(), names(None, None)),
        Err(AppError::NotFound(_))
    ));
}

#[test]
fn graphql_queries() {
    let store = store();
    assert_eq!(
        QueryRoot.user(&store, "u1"),
        Ok(record("u1", "a@b.c", "Ada", "Byron", 100, 100))
    );
    assert_eq!(QueryRoot.user(&store, "u9"), Err("User not found".to_string()));
    assert_eq!(QueryRoot.users(&store).unwrap().len(), 2);
    assert_eq!(
        QueryRoot.me(&store, &session_of("u2")),
        Some(record("u2", "x@y.z", "Ada", "Byron", 200, 200))
    );
    assert_eq!(QueryRoot.me(&store, &session_of("u9")), None);
    assert_eq!(QueryRoot.me(&store, &SessionData::new()), None);
}

#[test]
fn graphql_mutations() {
    let mut store = store();
    let input = UpdateUserInput { first_name: Some("Grace".to_string()), last_name: None };
    assert_eq!(
        MutationRoot.update_user(&mut store, "u1", input.clone(), 500),
        Ok(record("u1", "a@b.c", "Grace", "Byron", 100, 500))
    );
    assert_eq!(
        store.get_by_id("u1".to_string()),
        Ok(record("u1", "a@b.c", "Grace", "Byron", 100, 500))
    );
    assert_eq!(
        MutationRoot.update_user(&mut store, "u9", input, 500),
        Err("User not found".to_string())
    );
    assert_eq!(store.get_all().unwrap().len(), 2);
}

#[test]
fn graphql_errors() {
    assert_eq!(
        graphql_error(&AppError::NotFound("no such property".to_string())),
        GraphqlError {
            message: "no such property".to_string(),
            error_type: "not_found_error".to_string(),
            status: 404,
        }
    );
    assert_eq!(
        graphql_error(&AppError::ExternalService("down".to_string())),
        GraphqlError {
            message: "down".to_string(),
            error_type: "external_service_error".to_string(),
            status: 502,
        }
    );
}
