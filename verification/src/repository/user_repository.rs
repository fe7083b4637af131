//! The store of user records, kept in memory.
//!
//! Records are keyed by the subject of the identity they were made from.
//! The store holds at most one record per key and lists its records from
//! the one created last to the one created first.

use vstd::prelude::*;
use vstd::string::*;
use crate::clock::unix_now;
use crate::db::Repository;
use crate::error::{AppError, AppResult, ErrorKind};
use crate::models::user::{upserted, UpsertUser, UpsertUserView, User, UserView};
use crate::text::str_eq;

verus! {

/// Whether a record with the key `id` is among `rows`.
pub open spec fn holds(rows: Seq<UserView>, id: Seq<char>) -> bool {
    exists|i: int| 0 <= i < rows.len() && (#[trigger] rows[i]).id == id
}

/// The place of the record with the key `id` among `rows`.
pub open spec fn place_of(rows: Seq<UserView>, id: Seq<char>) -> int {
    choose|i: int| 0 <= i < rows.len() && (#[trigger] rows[i]).id == id
}

/// The record with the key `id`, if there is one.
pub open spec fn record_of(rows: Seq<UserView>, id: Seq<char>) -> Option<UserView> {
    if holds(rows, id) {
        Some(rows[place_of(rows, id)])
    } else {
        None
    }
}

/// No two records have the same key.
pub open spec fn distinct_keys(rows: Seq<UserView>) -> bool {
    forall|i: int, j: int|
        0 <= i < j < rows.len() ==> (#[trigger] rows[i]).id != (#[trigger] rows[j]).id
}

/// A record created later stands before one created earlier.
pub open spec fn newest_first(rows: Seq<UserView>) -> bool {
    forall|i: int, j: int|
        0 <= i < j < rows.len() ==> (#[trigger] rows[i]).created_at >= (
        #[trigger] rows[j]).created_at
}

/// The place at which a record created at `created_at` is put: behind
/// the records that are not older, before those that are.
pub open spec fn place_for(rows: Seq<UserView>, created_at: i64) -> int
    decreases rows.len(),
{
    if rows.len() == 0 {
        0
    } else if rows[0].created_at >= created_at {
        1 + place_for(rows.drop_first(), created_at)
    } else {
        0
    }
}

/// The rows after an upsert of `input` at the moment `now`: the record
/// under the input's key is replaced where there is one, and a new
/// record is put in where there is none.
pub open spec fn rows_upserted(rows: Seq<UserView>, input: UpsertUserView, now: i64) -> Seq<
    UserView,
> {
    if holds(rows, input.id) {
        rows.update(place_of(rows, input.id), upserted(record_of(rows, input.id), input, now))
    } else {
        rows.insert(place_for(rows, now), upserted(None, input, now))
    }
}

/// The record under `id` after an update with `user` at the moment
/// `now`: it takes the address, the names and the picture of `user`; its
/// key and the moment of its creation stay.
pub open spec fn record_updated(
    rows: Seq<UserView>,
    id: Seq<char>,
    user: UserView,
    now: i64,
) -> UserView {
    UserView { id, created_at: rows[place_of(rows, id)].created_at, updated_at: now, ..user }
}

/// Repository for user operations.
#[derive(Debug, Clone, PartialEq, Eq)]
pub struct UserRepository {
    users: Vec<User>,
}

impl View for UserRepository {
    type V = Seq<UserView>;

    closed spec fn view(&self) -> Seq<UserView> {
        Seq::new(self.users@.len(), |i: int| self.users@[i]@)
    }
}

impl UserRepository {
    /// At most one record per key, the newest first.
    pub open spec fn wf(&self) -> bool {
        distinct_keys(self@) && newest_first(self@)
    }

    /// Create a new user repository, without records.
    pub fn new() -> (repository: UserRepository)
        ensures
            repository.wf(),
            repository@.len() == 0,
    {
        UserRepository { users: Vec::new() }
    }

    /// The place of the record with the key `id`.
    fn find(&self, id: &str) -> (place: Option<usize>)
        ensures
            match place {
                Some(i) => i < self@.len() && self@[i as int].id == id@ && holds(self@, id@),
                None => !holds(self@, id@),
            },
    {
        let mut i: usize = 0;
        while i < self.users.len()
            invariant
                i <= self.users@.len(),
                forall|k: int| 0 <= k < i ==> (#[trigger] self@[k]).id != id@,
            decreases self.users@.len() - i,
        {
            if str_eq(self.users[i].id.as_str(), id) {
                assert(self@[i as int].id == id@);
                return Some(i);
            }
            i += 1;
        }
        None
    }

    /// Get a user by ID.
    pub fn get_by_id(&self, id: String) -> (found: AppResult<User>)
        requires
            self.wf(),
        ensures
            match found {
                Ok(user) => record_of(self@, id@) == Some(user@),
                Err(e) => record_of(self@, id@) is None && e.kind() == ErrorKind::NotFound
                    && e.message_text() == "User not found with ID: "@ + id@,
            },
    {
        match self.find(id.as_str()) {
            Some(i) => Ok(self.users[i].clone()),
            None => {
                let mut message = String::from_str("User not found with ID: ");
                message.append(id.as_str());
                Err(AppError::NotFound(message))
            },
        }
    }

    /// Find a user by email: the first record, in the order of the store,
    /// that has this address.
    pub fn find_by_email(&self, email: &str) -> (found: AppResult<Option<User>>)
        ensures
            found matches Ok(answer) && (match answer {
                Some(user) => exists|i: int|
                    0 <= i < self@.len() && #[trigger] self@[i] == user@ && user@.email == Some(
                        email@,
                    ) && forall|k: int| 0 <= k < i ==> (#[trigger] self@[k]).email != Some(email@),
                None => forall|k: int|
                    0 <= k < self@.len() ==> (#[trigger] self@[k]).email != Some(email@),
            }),
    {
        let mut i: usize = 0;
        while i < self.users.len()
            invariant
                i <= self.users@.len(),
                forall|k: int| 0 <= k < i ==> (#[trigger] self@[k]).email != Some(email@),
            decreases self.users@.len() - i,
        {
            let matches = match &self.users[i].email {
                Some(address) => str_eq(address.as_str(), email),
                None => false,
            };
            if matches {
                let user = self.users[i].clone();
                assert(self@[i as int] == user@);
                return Ok(Some(user));
            }
            i += 1;
        }
        Ok(None)
    }

    /// Get all users, the one created last first.
    pub fn get_all(&self) -> (all: AppResult<Vec<User>>)
        ensures
            all matches Ok(users) && users@.len() == self@.len() && forall|i: int|
                0 <= i < users@.len() ==> (#[trigger] users@[i])@ == self@[i],
    {
        let mut users: Vec<User> = Vec::new();
        let mut i: usize = 0;
        while i < self.users.len()
            invariant
                i <= self.users@.len(),
                users@.len() == i,
                forall|k: int| 0 <= k < i ==> (#[trigger] users@[k])@ == self@[k],
            decreases self.users@.len() - i,
        {
            users.push(self.users[i].clone());
            i += 1;
        }
        Ok(users)
    }

    /// The place at which a record created at `created_at` is put.
    fn place(&self, created_at: i64) -> (at: usize)
        ensures
            at == place_for(self@, created_at),
            at <= self@.len(),
            forall|k: int| 0 <= k < at ==> (#[trigger] self@[k]).created_at >= created_at,
            at < self@.len() ==> self@[at as int].created_at < created_at,
    {
        let mut i: usize = 0;
        assert(self@.skip(0) =~= self@);
        while i < self.users.len() && self.users[i].created_at >= created_at
            invariant
                i <= self.users@.len(),
                place_for(self@, created_at) == i + place_for(self@.skip(i as int), created_at),
                forall|k: int| 0 <= k < i ==> (#[trigger] self@[k]).created_at >= created_at,
            decreases self.users@.len() - i,
        {
            proof {
                let rest = self@.skip(i as int);
                assert(rest[0] == self@[i as int]);
                assert(rest.drop_first() =~= self@.skip(i + 1));
            }
            i += 1;
        }
        proof {
            let rest = self@.skip(i as int);
            if i < self@.len() {
                assert(rest[0] == self@[i as int]);
            }
        }
        i
    }

    /// Puts a record under a new key.
    fn put_new(&mut self, user: User)
        requires
            old(self).wf(),
            !holds(old(self)@, user@.id),
        ensures
            final(self).wf(),
            final(self)@ == old(self)@.insert(place_for(old(self)@, user.created_at), user@),
    {
        let at = self.place(user.created_at);
        let ghost before = self@;
        let ghost row = user@;
        self.users.insert(at, user);
        proof {
            let after = self@;
            assert(after =~= before.insert(at as int, row));
            assert forall|i: int, j: int| 0 <= i < j < after.len() implies (#[trigger] after[i]).id
                != (#[trigger] after[j]).id by {
                if i != at && j != at {
                    let a = if i < at {
                        i
                    } else {
                        i - 1
                    };
                    let b = if j < at {
                        j
                    } else {
                        j - 1
                    };
                    assert(after[i] == before[a]);
                    assert(after[j] == before[b]);
                } else if i == at {
                    assert(after[j] == before[j - 1]);
                } else {
                    assert(after[i] == before[i]);
                }
            }
            assert forall|i: int, j: int| 0 <= i < j < after.len() implies (
            #[trigger] after[i]).created_at >= (#[trigger] after[j]).created_at by {
                if i != at && j != at {
                    let a = if i < at {
                        i
                    } else {
                        i - 1
                    };
                    let b = if j < at {
                        j
                    } else {
                        j - 1
                    };
                    assert(after[i] == before[a]);
                    assert(after[j] == before[b]);
                } else if i == at {
                    assert(after[j] == before[j - 1]);
                    if at < before.len() {
                        assert(before[at as int].created_at >= before[j - 1].created_at || j - 1
                            == at);
                    }
                } else {
                    assert(after[i] == before[i]);
                }
            }
        }
    }

    /// Puts a record in the place of the one at `at`, which has the same
    /// key and was created at the same moment.
    fn replace(&mut self, at: usize, user: User)
        requires
            old(self).wf(),
            at < old(self)@.len(),
            old(self)@[at as int].id == user@.id,
            old(self)@[at as int].created_at == user.created_at,
        ensures
            final(self).wf(),
            final(self)@ == old(self)@.update(at as int, user@),
    {
        let ghost before = self@;
        let ghost row = user@;
        self.users.set(at, user);
        proof {
            let after = self@;
            assert(after =~= before.update(at as int, row));
            assert forall|i: int, j: int| 0 <= i < j < after.len() implies (#[trigger] after[i]).id
                != (#[trigger] after[j]).id by {
                assert(after[i].id == before[i].id);
                assert(after[j].id == before[j].id);
            }
            assert forall|i: int, j: int| 0 <= i < j < after.len() implies (
            #[trigger] after[i]).created_at >= (#[trigger] after[j]).created_at by {
                assert(after[i].created_at == before[i].created_at);
                assert(after[j].created_at == before[j].created_at);
            }
        }
    }

    /// Create a new user. A record under the same key is an error.
    pub fn create(&mut self, user: &User) -> (created: AppResult<User>)
        requires
            old(self).wf(),
        ensures
            final(self).wf(),
            match created {
                Ok(record) => !holds(old(self)@, user@.id) && record == *user && final(self)@
                    == old(self)@.insert(place_for(old(self)@, user.created_at), user@),
                Err(e) => holds(old(self)@, user@.id) && e.kind() == ErrorKind::Database
                    && final(self)@ == old(self)@,
            },
    {
        match self.find(user.id.as_str()) {
            Some(_) => Err(
                AppError::Database(String::from_str("Failed to create user: the ID is taken")),
            ),
            None => {
                self.put_new(user.clone());
                Ok(user.clone())
            },
        }
    }

    /// Update an existing user at the moment `now`: the record under `id`
    /// takes the address, the names and the picture of `user`; its key and
    /// the moment of its creation stay. No record under `id` is an error.
    pub fn update_at(&mut self, id: &str, user: &User, now: i64) -> (updated: AppResult<User>)
        requires
            old(self).wf(),
        ensures
            final(self).wf(),
            match updated {
                Ok(record) => holds(old(self)@, id@) && record@ == record_updated(
                    old(self)@,
                    id@,
                    user@,
                    now,
                ) && final(self)@ == old(self)@.update(place_of(old(self)@, id@), record@),
                Err(e) => !holds(old(self)@, id@) && e.kind() == ErrorKind::Database
                    && final(self)@ == old(self)@,
            },
    {
        match self.find(id) {
            None => Err(
                AppError::Database(String::from_str("Failed to update user: no such user")),
            ),
            Some(at) => {
                let record = User {
                    id: self.users[at].id.clone(),
                    email: crate::text::clone_optional(&user.email),
                    first_name: crate::text::clone_optional(&user.first_name),
                    last_name: crate::text::clone_optional(&user.last_name),
                    profile_image_url: crate::text::clone_optional(
                        &user.profile_image_url,
                    ),
                    created_at: self.users[at].created_at,
                    updated_at: now,
                };
                proof {
                    lemma_place_is_unique(self@, id@, at as int);
                }
                self.replace(at, record.clone());
                Ok(record)
            },
        }
    }

    /// Update an existing user, by the clock of this machine.
    pub fn update(&mut self, id: String, user: &User) -> (updated: AppResult<User>)
        requires
            old(self).wf(),
        ensures
            final(self).wf(),
            match updated {
                Ok(record) => holds(old(self)@, id@) && exists|now: i64|
                    #[trigger] record_updated(old(self)@, id@, user@, now) == record@
                        && final(self)@ == old(self)@.update(place_of(old(self)@, id@), record@),
                Err(e) => !holds(old(self)@, id@) && e.kind() == ErrorKind::Database
                    && final(self)@ == old(self)@,
            },
    {
        let now = unix_now();
        self.update_at(id.as_str(), user, now)
    }

    /// Upsert a user (insert or update) at the moment `now`.
    ///
    /// Keyed by the user's id: where the store has a record under it, the
    /// record takes the user's fields and keeps the moment of its creation;
    /// where it has none, a record created at `now` is put in. Either way
    /// the record was last written at `now`, and it is the only one under
    /// its key.
    pub fn upsert_user_at(&mut self, user: &UpsertUser, now: i64) -> (written: AppResult<User>)
        requires
            old(self).wf(),
        ensures
            final(self).wf(),
            written matches Ok(record) && record@ == upserted(
                record_of(old(self)@, user@.id),
                user@,
                now,
            ),
            final(self)@ == rows_upserted(old(self)@, user@, now),
            record_of(final(self)@, user@.id) == Some(
                upserted(record_of(old(self)@, user@.id), user@, now),
            ),
    {
        match self.find(user.id.as_str()) {
            Some(at) => {
                proof {
                    lemma_place_is_unique(self@, user@.id, at as int);
                }
                let record = User::upsert(Some(&self.users[at]), user, now);
                self.replace(at, record.clone());
                proof {
                    assert(self@[at as int] == record@);
                    lemma_place_is_unique(self@, user@.id, at as int);
                }
                Ok(record)
            },
            None => {
                let record = User::upsert(None, user, now);
                let ghost at = place_for(self@, now);
                let ghost before = self@;
                self.put_new(record.clone());
                proof {
                    lemma_place_for_bounds(before, now);
                    assert(self@[at] == record@);
                    lemma_place_is_unique(self@, user@.id, at);
                }
                Ok(record)
            },
        }
    }

    /// Upsert a user (insert or update), by the clock of this machine.
    pub fn upsert_user(&mut self, user: &UpsertUser) -> (written: AppResult<User>)
        requires
            old(self).wf(),
        ensures
            final(self).wf(),
            exists|now: i64| final(self)@ == #[trigger] rows_upserted(old(self)@, user@, now),
            written matches Ok(record) && record_of(final(self)@, user@.id) == Some(record@),
    {
        let now = unix_now();
        self.upsert_user_at(user, now)
    }

    /// Takes the record under `id` out of the store.
    pub fn remove(&mut self, id: &str) -> (removed: AppResult<()>)
        requires
            old(self).wf(),
        ensures
            final(self).wf(),
            match removed {
                Ok(_) => holds(old(self)@, id@) && final(self)@ == old(self)@.remove(
                    place_of(old(self)@, id@),
                ),
                Err(e) => !holds(old(self)@, id@) && e.kind() == ErrorKind::NotFound
                    && final(self)@ == old(self)@,
            },
    {
        match self.find(id) {
            None => {
                let mut message = String::from_str("User not found with ID: ");
                message.append(id);
                Err(AppError::NotFound(message))
            },
            Some(at) => {
                let ghost before = self@;
                proof {
                    lemma_place_is_unique(self@, id@, at as int);
                }
                self.users.remove(at);
                proof {
                    let after = self@;
                    assert(after =~= before.remove(at as int));
                    assert forall|i: int, j: int| 0 <= i < j < after.len() implies (
                    #[trigger] after[i]).id != (#[trigger] after[j]).id by {
                        let a = if i < at {
                            i
                        } else {
                            i + 1
                        };
                        let b = if j < at {
                            j
                        } else {
                            j + 1
                        };
                        assert(after[i] == before[a]);
                        assert(after[j] == before[b]);
                    }
                    assert forall|i: int, j: int| 0 <= i < j < after.len() implies (
                    #[trigger] after[i]).created_at >= (#[trigger] after[j]).created_at by {
                        let a = if i < at {
                            i
                        } else {
                            i + 1
                        };
                        let b = if j < at {
                            j
                        } else {
                            j + 1
                        };
                        assert(after[i] == before[a]);
                        assert(after[j] == before[b]);
                    }
                }
                Ok(())
            },
        }
    }
}

/// Where keys are distinct, a record with the key `id` stands at one
/// place only.
pub proof fn lemma_place_is_unique(rows: Seq<UserView>, id: Seq<char>, at: int)
    requires
        distinct_keys(rows),
        0 <= at < rows.len(),
        rows[at].id == id,
    ensures
        holds(rows, id),
        place_of(rows, id) == at,
        record_of(rows, id) == Some(rows[at]),
{
    let p = place_of(rows, id);
    assert(0 <= p < rows.len() && rows[p].id == id);
    if p < at {
        assert(rows[p].id != rows[at].id);
    } else if at < p {
        assert(rows[at].id != rows[p].id);
    }
}

/// The place for a new record lies within the rows.
pub proof fn lemma_place_for_bounds(rows: Seq<UserView>, created_at: i64)
    ensures
        0 <= place_for(rows, created_at) <= rows.len(),
    decreases rows.len(),
{
    if rows.len() > 0 && rows[0].created_at >= created_at {
        lemma_place_for_bounds(rows.drop_first(), created_at);
    }
}

/// Upserting the same user twice leaves one record under its key: the
/// second upsert adds no record and leaves the moment of creation and
/// every field of the user as the first upsert left them. Where the clock
/// has not gone back between the two, the moment of the last write has
/// not gone back either.
pub proof fn law_upsert_twice(rows: Seq<UserView>, input: UpsertUserView, first: i64, second: i64)
    requires
        distinct_keys(rows),
    ensures
        ({
            let once = rows_upserted(rows, input, first);
            let twice = rows_upserted(once, input, second);
            &&& distinct_keys(once)
            &&& distinct_keys(twice)
            &&& twice.len() == once.len()
            &&& record_of(once, input.id) is Some
            &&& record_of(twice, input.id) == Some(
                UserView { updated_at: second, ..record_of(once, input.id)->0 },
            )
            &&& record_of(twice, input.id)->0.created_at == record_of(once, input.id)->0.created_at
            &&& first <= second ==> record_of(twice, input.id)->0.updated_at >= record_of(
                once,
                input.id,
            )->0.updated_at
        }),
{
    let once = rows_upserted(rows, input, first);
    lemma_upsert_keeps_keys_distinct(rows, input, first);
    let written = if holds(rows, input.id) {
        place_of(rows, input.id)
    } else {
        lemma_place_for_bounds(rows, first);
        place_for(rows, first)
    };
    assert(once[written] == upserted(record_of(rows, input.id), input, first));
    lemma_place_is_unique(once, input.id, written);
    let at = place_of(once, input.id);
    let twice = rows_upserted(once, input, second);
    lemma_upsert_keeps_keys_distinct(once, input, second);
    assert(twice == once.update(at, upserted(Some(once[at]), input, second)));
    assert(twice[at].id == input.id);
    lemma_place_is_unique(twice, input.id, at);
}

/// An upsert keeps the keys distinct and leaves a record under the
/// input's key.
pub proof fn lemma_upsert_keeps_keys_distinct(rows: Seq<UserView>, input: UpsertUserView, now: i64)
    requires
        distinct_keys(rows),
    ensures
        distinct_keys(rows_upserted(rows, input, now)),
        holds(rows_upserted(rows, input, now), input.id),
{
    let after = rows_upserted(rows, input, now);
    if holds(rows, input.id) {
        let at = place_of(rows, input.id);
        assert(after[at].id == input.id);
        assert forall|i: int, j: int| 0 <= i < j < after.len() implies (#[trigger] after[i]).id != (
        #[trigger] after[j]).id by {
            assert(after[i].id == rows[i].id);
            assert(after[j].id == rows[j].id);
        }
    } else {
        lemma_place_for_bounds(rows, now);
        let at = place_for(rows, now);
        assert(after[at].id == input.id);
        assert forall|i: int, j: int| 0 <= i < j < after.len() implies (#[trigger] after[i]).id != (
        #[trigger] after[j]).id by {
            if i != at && j != at {
                let a = if i < at {
                    i
                } else {
                    i - 1
                };
                let b = if j < at {
                    j
                } else {
                    j - 1
                };
                assert(after[i] == rows[a]);
                assert(after[j] == rows[b]);
            } else if i == at {
                assert(after[j] == rows[j - 1]);
            } else {
                assert(after[i] == rows[i]);
            }
        }
    }
}

impl Repository<User, String> for UserRepository {
    open spec fn wf(&self) -> bool {
        UserRepository::wf(self)
    }

    fn create(&mut self, item: &User) -> (created: AppResult<User>)
        ensures
            match created {
                Ok(record) => !holds(old(self)@, item@.id) && record == *item && final(self)@
                    == old(self)@.insert(place_for(old(self)@, item.created_at), item@),
                Err(e) => holds(old(self)@, item@.id) && e.kind() == ErrorKind::Database
                    && final(self)@ == old(self)@,
            },
    {
        UserRepository::create(self, item)
    }

    fn get_by_id(&self, id: String) -> (found: AppResult<User>)
        ensures
            match found {
                Ok(user) => record_of(self@, id@) == Some(user@),
                Err(e) => record_of(self@, id@) is None && e.kind() == ErrorKind::NotFound,
            },
    {
        UserRepository::get_by_id(self, id)
    }

    fn update(&mut self, id: String, item: &User) -> (updated: AppResult<User>)
        ensures
            match updated {
                Ok(record) => holds(old(self)@, id@) && final(self)@ == old(self)@.update(
                    place_of(old(self)@, id@),
                    record@,
                ),
                Err(e) => !holds(old(self)@, id@) && final(self)@ == old(self)@,
            },
    {
        UserRepository::update(self, id, item)
    }

    fn delete(&mut self, id: String) -> (removed: AppResult<()>)
        ensures
            match removed {
                Ok(_) => holds(old(self)@, id@) && final(self)@ == old(self)@.remove(
                    place_of(old(self)@, id@),
                ),
                Err(e) => !holds(old(self)@, id@) && final(self)@ == old(self)@,
            },
    {
        UserRepository::remove(self, id.as_str())
    }

    fn get_all(&self) -> (all: AppResult<Vec<User>>)
        ensures
            all matches Ok(users) && users@.len() == self@.len() && forall|i: int|
                0 <= i < users@.len() ==> (#[trigger] users@[i])@ == self@[i],
    {
        UserRepository::get_all(self)
    }
}

} // verus!
