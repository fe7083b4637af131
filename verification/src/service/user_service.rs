//! What the user service does with its records.

use vstd::prelude::*;
use vstd::string::*;
use crate::clock::unix_now;
use crate::error::{AppResult, ErrorKind};
use crate::models::user::{profile_updated, UpdateUserRequest, User};
use crate::repository::user_repository::{holds, place_of, record_of, UserRepository};

verus! {

/// User service for handling business logic.
#[derive(Debug, Clone, PartialEq, Eq)]
pub struct UserService {
    pub repository: UserRepository,
}

impl UserService {
    /// The store keeps its records in order.
    pub open spec fn wf(&self) -> bool {
        self.repository.wf()
    }

    /// Create a new user service.
    pub fn new(repository: UserRepository) -> (service: UserService)
        ensures
            service.repository == repository,
    {
        UserService { repository }
    }

    /// Find a user by ID.
    pub fn find_user_by_id(&self, id: String) -> (found: AppResult<User>)
        requires
            self.wf(),
        ensures
            match found {
                Ok(user) => record_of(self.repository@, id@) == Some(user@),
                Err(e) => record_of(self.repository@, id@) is None && e.kind()
                    == ErrorKind::NotFound,
            },
    {
        self.repository.get_by_id(id)
    }

    /// Find a user by email.
    pub fn find_user_by_email(&self, email: &str) -> (found: AppResult<Option<User>>)
        ensures
            found matches Ok(answer) && (match answer {
                Some(user) => exists|i: int|
                    0 <= i < self.repository@.len() && #[trigger] self.repository@[i] == user@
                        && user@.email == Some(email@),
                None => forall|k: int|
                    0 <= k < self.repository@.len() ==> (#[trigger] self.repository@[k]).email
                        != Some(email@),
            }),
    {
        self.repository.find_by_email(email)
    }

    /// Update an existing user at the moment `now`.
    pub fn update_user_at(&mut self, id: String, request: UpdateUserRequest, now: i64) -> (updated:
        AppResult<User>)
        requires
            old(self).wf(),
        ensures
            final(self).wf(),
            match updated {
                Ok(user) => {
                    &&& record_of(old(self).repository@, id@) matches Some(before)
                    &&& user@ == profile_updated(before, request@, now)
                    &&& final(self).repository@ == old(self).repository@.update(
                        place_of(old(self).repository@, id@),
                        user@,
                    )
                },
                Err(e) => !holds(old(self).repository@, id@) && e.kind() == ErrorKind::NotFound
                    && final(self).repository@ == old(self).repository@,
            },
    {
        let existing = match self.repository.get_by_id(id.clone()) {
            Ok(user) => user,
            Err(e) => return Err(e),
        };
        let user = existing.updated(&request, now);
        self.repository.update_at(id.as_str(), &user, now)
    }

    /// Update an existing user, by the clock of this machine.
    pub fn update_user(&mut self, id: String, request: UpdateUserRequest) -> (updated: AppResult<
        User,
    >)
        requires
            old(self).wf(),
        ensures
            final(self).wf(),
            match updated {
                Ok(user) => record_of(old(self).repository@, id@) matches Some(before)
                    && exists|now: i64| user@ == #[trigger] profile_updated(before, request@, now),
                Err(e) => !holds(old(self).repository@, id@) && e.kind() == ErrorKind::NotFound
                    && final(self).repository@ == old(self).repository@,
            },
    {
        let now = unix_now();
        self.update_user_at(id, request, now)
    }

    /// Get all users.
    pub fn get_all_users(&self) -> (all: AppResult<Vec<User>>)
        ensures
            all matches Ok(users) && users@.len() == self.repository@.len() && forall|i: int|
                0 <= i < users@.len() ==> (#[trigger] users@[i])@ == self.repository@[i],
    {
        self.repository.get_all()
    }
}

} // verus!
