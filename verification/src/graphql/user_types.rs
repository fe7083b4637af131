//! Users as the GraphQL interface of the user service shows them.

use vstd::prelude::*;
use vstd::std_specs::convert::FromSpecImpl;
use vstd::string::*;
use crate::auth::session::SessionData;
use crate::error::{AppError, ErrorKind};
use crate::models::user::{profile_updated, UpdateUserRequest, User};
use crate::repository::user_repository::{place_of, record_of, UserRepository};

verus! {

/// GraphQL mutation root of the user service.
#[derive(Debug, Clone, Copy, PartialEq, Eq)]
pub struct MutationRoot;

/// GraphQL query root of the user service.
#[derive(Debug, Clone, Copy, PartialEq, Eq)]
pub struct QueryRoot;

/// Input type for updating a user.
#[derive(Debug, Clone, PartialEq, Eq)]
pub struct UpdateUserInput {
    pub first_name: Option<String>,
    pub last_name: Option<String>,
}

/// The update that an input asks for: the two names and nothing else.
pub open spec fn request_of(input: UpdateUserInput) -> UpdateUserRequest {
    UpdateUserRequest {
        first_name: input.first_name,
        last_name: input.last_name,
        phone: None,
        role: None,
        is_active: None,
    }
}

impl From<UpdateUserInput> for UpdateUserRequest {
    fn from(input: UpdateUserInput) -> (request: UpdateUserRequest) {
        UpdateUserRequest {
            first_name: input.first_name,
            last_name: input.last_name,
            phone: None,
            role: None,
            is_active: None,
        }
    }
}

impl FromSpecImpl<UpdateUserInput> for UpdateUserRequest {
    open spec fn obeys_from_spec() -> bool {
        true
    }

    open spec fn from_spec(input: UpdateUserInput) -> UpdateUserRequest {
        request_of(input)
    }
}

/// What a failed lookup of a user is reported as.
pub open spec fn lookup_failure_text(action: Seq<char>, kind: ErrorKind, message: Seq<char>) -> Seq<
    char,
> {
    if kind == ErrorKind::NotFound {
        "User not found"@
    } else {
        "Error "@ + action + " user: "@ + message
    }
}

impl QueryRoot {
    /// The message for a lookup that failed: a missing user is reported as
    /// such, any other failure with the error's message.
    pub fn user_failure(&self, e: &AppError) -> (text: String)
        ensures
            text@ == lookup_failure_text("fetching"@, e.kind(), e.message_text()),
    {
        match e {
            AppError::NotFound(_) => String::from_str("User not found"),
            _ => {
                let mut text = String::from_str("Error fetching user: ");
                text.append(e.message());
                proof {
                    reveal_strlit("Error fetching user: ");
                    reveal_strlit("Error ");
                    reveal_strlit("fetching");
                    reveal_strlit(" user: ");
                    assert("Error fetching user: "@ =~= "Error "@ + "fetching"@ + " user: "@);
                }
                text
            },
        }
    }
}

impl QueryRoot {
    /// Get the current user from session: the record of the user that
    /// the session belongs to, if it belongs to one who has a record.
    pub fn me(&self, repository: &UserRepository, session: &SessionData) -> (user: Option<User>)
        requires
            repository.wf(),
        ensures
            match user {
                Some(found) => session@.user_session matches Some(identity) && record_of(
                    repository@,
                    identity.claims.sub,
                ) == Some(found@),
                None => session@.user_session matches Some(identity) ==> record_of(
                    repository@,
                    identity.claims.sub,
                ) is None,
            },
    {
        match &session.user_session {
            None => None,
            Some(identity) => match repository.get_by_id(identity.claims.sub.clone()) {
                Ok(user) => Some(user),
                Err(_) => None,
            },
        }
    }

    /// Get a user by ID.
    pub fn user(&self, repository: &UserRepository, id: &str) -> (user: Result<User, String>)
        requires
            repository.wf(),
        ensures
            match user {
                Ok(found) => record_of(repository@, id@) == Some(found@),
                Err(text) => record_of(repository@, id@) is None && text@ == "User not found"@,
            },
    {
        match repository.get_by_id(String::from_str(id)) {
            Ok(user) => Ok(user),
            Err(e) => Err(self.user_failure(&e)),
        }
    }

    /// Get all users.
    pub fn users(&self, repository: &UserRepository) -> (users: Result<Vec<User>, String>)
        ensures
            users matches Ok(all) && all@.len() == repository@.len() && forall|i: int|
                0 <= i < all@.len() ==> (#[trigger] all@[i])@ == repository@[i],
    {
        match repository.get_all() {
            Ok(all) => Ok(all),
            Err(e) => {
                let mut text = String::from_str("Error fetching users: ");
                text.append(e.message());
                Err(text)
            },
        }
    }
}

impl MutationRoot {
    /// Update a user's profile at the moment `now`: the names that the
    /// input gives replace those of the record.
    pub fn update_user(
        &self,
        repository: &mut UserRepository,
        id: &str,
        input: UpdateUserInput,
        now: i64,
    ) -> (user: Result<User, String>)
        requires
            old(repository).wf(),
        ensures
            final(repository).wf(),
            match user {
                Ok(changed) => {
                    &&& record_of(old(repository)@, id@) matches Some(before)
                    &&& changed@ == profile_updated(
                        before,
                        request_of(input)@,
                        now,
                    )
                    &&& final(repository)@ == old(repository)@.update(
                        place_of(old(repository)@, id@),
                        changed@,
                    )
                },
                Err(text) => record_of(old(repository)@, id@) is None && text@
                    == "User not found"@ && final(repository)@ == old(repository)@,
            },
    {
        let existing = match repository.get_by_id(String::from_str(id)) {
            Ok(user) => user,
            Err(e) => return Err(self.update_user_failure(&e)),
        };
        let request = UpdateUserRequest::from(input);
        let changed = existing.updated(&request, now);
        match repository.update_at(id, &changed, now) {
            Ok(user) => Ok(user),
            Err(e) => {
                let mut text = String::from_str("Error updating user: ");
                text.append(e.message());
                Err(text)
            },
        }
    }

    /// The message for an update whose lookup failed.
    pub fn update_user_failure(&self, e: &AppError) -> (text: String)
        ensures
            text@ == lookup_failure_text("finding"@, e.kind(), e.message_text()),
    {
        match e {
            AppError::NotFound(_) => String::from_str("User not found"),
            _ => {
                let mut text = String::from_str("Error finding user: ");
                text.append(e.message());
                proof {
                    reveal_strlit("Error finding user: ");
                    reveal_strlit("Error ");
                    reveal_strlit("finding");
                    reveal_strlit(" user: ");
                    assert("Error finding user: "@ =~= "Error "@ + "finding"@ + " user: "@);
                }
                text
            },
        }
    }
}

} // verus!
