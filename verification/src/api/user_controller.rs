//! The routes under `/users`: a user may read and change the own record,
//! and nobody else's.

use vstd::prelude::*;
use vstd::string::*;
use crate::auth::auth_controller::Failure;
use crate::auth::session::{SessionData, SessionDataView};
use crate::error::{AppError, ErrorBody, ErrorKind};
use crate::models::user::{profile_updated, UpdateUserRequest, User};
use crate::repository::user_repository::{place_of, record_of, UserRepository};
use crate::text::str_eq;

verus! {

/// Whether the session may touch the record under `user_id`, and the
/// failure where it may not: `401` without an identity, `403` with the
/// identity of somebody else.
pub open spec fn refusal(session: SessionDataView, user_id: Seq<char>, f: Failure) -> bool {
    match session.user_session {
        None => f.is(401, "Not authenticated"@, ErrorKind::Authentication),
        Some(identity) => identity.claims.sub != user_id && f.is(
            403,
            "Permission denied"@,
            ErrorKind::Authorization,
        ),
    }
}

/// Whether the session belongs to the user with the key `user_id`.
pub open spec fn owns(session: SessionDataView, user_id: Seq<char>) -> bool {
    session.user_session matches Some(identity) && identity.claims.sub == user_id
}

/// How a failure to find a record is answered: `404` where the store
/// has no such record, `500` for any other failure; the body carries the
/// error's message and tag.
pub open spec fn answers(e: AppError, f: Failure) -> bool {
    f.is(
        if e.kind() == ErrorKind::NotFound {
            404
        } else {
            500
        },
        e.message_text(),
        e.kind(),
    )
}

/// Checks that the session belongs to the user with the key `user_id`.
pub fn authorize_own(session: &SessionData, user_id: &str) -> (allowed: Result<(), Failure>)
    ensures
        match allowed {
            Ok(_) => owns(session@, user_id@),
            Err(f) => !owns(session@, user_id@) && refusal(session@, user_id@, f),
        },
{
    match &session.user_session {
        None => Err(
            Failure {
                status: 401,
                body: ErrorBody {
                    error: String::from_str("Not authenticated"),
                    error_type: String::from_str("authentication_error"),
                },
            },
        ),
        Some(identity) => {
            if str_eq(identity.claims.sub.as_str(), user_id) {
                Ok(())
            } else {
                Err(
                    Failure {
                        status: 403,
                        body: ErrorBody {
                            error: String::from_str("Permission denied"),
                            error_type: String::from_str("authorization_error"),
                        },
                    },
                )
            }
        },
    }
}

/// The answer to a failure of the record store while looking for one
/// record: `404` where there is none, `500` for anything else.
pub fn lookup_failure(e: &AppError) -> (f: Failure)
    ensures
        answers(*e, f),
{
    let status: u16 = match e {
        AppError::NotFound(_) => 404,
        _ => 500,
    };
    Failure { status, body: e.error_response() }
}

/// The answer to any other failure of the record store: `500`.
pub fn store_failure(e: &AppError) -> (f: Failure)
    ensures
        f.is(500, e.message_text(), e.kind()),
{
    Failure { status: 500, body: e.error_response() }
}

/// Get a list of users.
pub fn get_users(repository: &UserRepository) -> (answer: Result<Vec<User>, Failure>)
    ensures
        answer matches Ok(users) && users@.len() == repository@.len() && forall|i: int|
            0 <= i < users@.len() ==> (#[trigger] users@[i])@ == repository@[i],
{
    match repository.get_all() {
        Ok(users) => Ok(users),
        Err(e) => Err(store_failure(&e)),
    }
}

/// Get a user by ID: the record, for the user it belongs to.
pub fn get_user_by_id(repository: &UserRepository, session: &SessionData, user_id: &str) -> (answer:
    Result<User, Failure>)
    requires
        repository.wf(),
    ensures
        match answer {
            Ok(user) => owns(session@, user_id@) && record_of(repository@, user_id@) == Some(
                user@,
            ),
            Err(f) => if !owns(session@, user_id@) {
                refusal(session@, user_id@, f)
            } else {
                record_of(repository@, user_id@) is None && f.is(
                    404,
                    "User not found with ID: "@ + user_id@,
                    ErrorKind::NotFound,
                )
            },
        },
{
    match authorize_own(session, user_id) {
        Err(f) => return Err(f),
        Ok(_) => {},
    }
    match repository.get_by_id(String::from_str(user_id)) {
        Ok(user) => Ok(user),
        Err(e) => Err(lookup_failure(&e)),
    }
}

/// Update a user at the moment `now`: the names that the request gives
/// replace those of the record, for the user it belongs to.
pub fn update_user(
    repository: &mut UserRepository,
    session: &SessionData,
    user_id: &str,
    request: &UpdateUserRequest,
    now: i64,
) -> (answer: Result<User, Failure>)
    requires
        old(repository).wf(),
    ensures
        final(repository).wf(),
        match answer {
            Ok(user) => {
                &&& owns(session@, user_id@)
                &&& record_of(old(repository)@, user_id@) matches Some(before)
                &&& user@ == profile_updated(before, request@, now)
                &&& final(repository)@ == old(repository)@.update(
                    place_of(old(repository)@, user_id@),
                    user@,
                )
            },
            Err(f) => final(repository)@ == old(repository)@ && (if !owns(session@, user_id@) {
                refusal(session@, user_id@, f)
            } else {
                record_of(old(repository)@, user_id@) is None && f.is(
                    404,
                    "User not found with ID: "@ + user_id@,
                    ErrorKind::NotFound,
                )
            }),
        },
{
    match authorize_own(session, user_id) {
        Err(f) => return Err(f),
        Ok(_) => {},
    }
    let existing = match repository.get_by_id(String::from_str(user_id)) {
        Ok(user) => user,
        Err(e) => return Err(lookup_failure(&e)),
    };
    let changed = existing.updated(request, now);
    match repository.update_at(user_id, &changed, now) {
        Ok(user) => Ok(user),
        Err(e) => Err(store_failure(&e)),
    }
}

} // verus!
