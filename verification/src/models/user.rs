//! Users as the record store keeps them.

use vstd::prelude::*;
use vstd::string::*;
use crate::text::clone_optional;

verus! {

/// A user record, keyed by the subject of the identity it was made from.
#[derive(Debug, PartialEq, Eq)]
pub struct User {
    /// The subject of the identity.
    pub id: String,
    pub email: Option<String>,
    pub first_name: Option<String>,
    pub last_name: Option<String>,
    pub profile_image_url: Option<String>,
    /// When the record was first written, in seconds since the Unix epoch.
    pub created_at: i64,
    /// When the record was last written, in seconds since the Unix epoch.
    pub updated_at: i64,
}

/// The mathematical value of a [`User`].
pub struct UserView {
    pub id: Seq<char>,
    pub email: Option<Seq<char>>,
    pub first_name: Option<Seq<char>>,
    pub last_name: Option<Seq<char>>,
    pub profile_image_url: Option<Seq<char>>,
    pub created_at: i64,
    pub updated_at: i64,
}

impl View for User {
    type V = UserView;

    open spec fn view(&self) -> UserView {
        UserView {
            id: self.id@,
            email: self.email.deep_view(),
            first_name: self.first_name.deep_view(),
            last_name: self.last_name.deep_view(),
            profile_image_url: self.profile_image_url.deep_view(),
            created_at: self.created_at,
            updated_at: self.updated_at,
        }
    }
}

impl Clone for User {
    fn clone(&self) -> (copy: Self)
        ensures
            copy == *self,
    {
        User {
            id: self.id.clone(),
            email: clone_optional(&self.email),
            first_name: clone_optional(&self.first_name),
            last_name: clone_optional(&self.last_name),
            profile_image_url: clone_optional(&self.profile_image_url),
            created_at: self.created_at,
            updated_at: self.updated_at,
        }
    }
}

/// What an authenticated identity says of its user: the input of an upsert.
#[derive(Debug, PartialEq, Eq)]
pub struct UpsertUser {
    /// The subject of the identity.
    pub id: String,
    pub email: Option<String>,
    pub first_name: Option<String>,
    pub last_name: Option<String>,
    pub profile_image_url: Option<String>,
}

/// The mathematical value of an [`UpsertUser`].
pub struct UpsertUserView {
    pub id: Seq<char>,
    pub email: Option<Seq<char>>,
    pub first_name: Option<Seq<char>>,
    pub last_name: Option<Seq<char>>,
    pub profile_image_url: Option<Seq<char>>,
}

impl View for UpsertUser {
    type V = UpsertUserView;

    open spec fn view(&self) -> UpsertUserView {
        UpsertUserView {
            id: self.id@,
            email: self.email.deep_view(),
            first_name: self.first_name.deep_view(),
            last_name: self.last_name.deep_view(),
            profile_image_url: self.profile_image_url.deep_view(),
        }
    }
}

impl Clone for UpsertUser {
    fn clone(&self) -> (copy: Self)
        ensures
            copy == *self,
    {
        UpsertUser {
            id: self.id.clone(),
            email: clone_optional(&self.email),
            first_name: clone_optional(&self.first_name),
            last_name: clone_optional(&self.last_name),
            profile_image_url: clone_optional(&self.profile_image_url),
        }
    }
}

/// The record that an upsert of `input` at the moment `now` leaves, given
/// the record that was there under the same key, if any: a new record is
/// created at `now`; an old one keeps its creation time and takes the
/// input's fields. Either way it was last written at `now`.
pub open spec fn upserted(existing: Option<UserView>, input: UpsertUserView, now: i64) -> UserView {
    UserView {
        id: input.id,
        email: input.email,
        first_name: input.first_name,
        last_name: input.last_name,
        profile_image_url: input.profile_image_url,
        created_at: match existing {
            Some(old) => old.created_at,
            None => now,
        },
        updated_at: now,
    }
}

/// Enumeration of user roles.
#[derive(Debug, Clone, Copy, PartialEq, Eq, Structural)]
pub enum UserRole {
    Admin,
    Appraiser,
    Analyst,
    Agent,
    Customer,
}

impl UserRole {
    /// The name of the role in lower case.
    pub open spec fn name_text(self) -> Seq<char> {
        match self {
            UserRole::Admin => "admin"@,
            UserRole::Appraiser => "appraiser"@,
            UserRole::Analyst => "analyst"@,
            UserRole::Agent => "agent"@,
            UserRole::Customer => "customer"@,
        }
    }

    /// The name of the role in lower case.
    pub fn name(&self) -> (name: &'static str)
        ensures
            name@ == self.name_text(),
    {
        match self {
            UserRole::Admin => "admin",
            UserRole::Appraiser => "appraiser",
            UserRole::Analyst => "analyst",
            UserRole::Agent => "agent",
            UserRole::Customer => "customer",
        }
    }
}

/// User credentials for authentication.
#[derive(Debug, Clone, PartialEq, Eq)]
pub struct UserCredentials {
    /// User's email address.
    pub email: String,
    /// User's password.
    pub password: String,
}

/// User registration request.
#[derive(Debug, Clone, PartialEq, Eq)]
pub struct RegisterUserRequest {
    pub first_name: String,
    pub last_name: String,
    pub email: String,
    pub phone: Option<String>,
    pub password: String,
    pub role: Option<UserRole>,
}

/// Represents the authentication result.
#[derive(Debug, Clone, PartialEq, Eq)]
pub struct AuthResult {
    pub access_token: String,
    pub refresh_token: String,
    pub user: User,
    /// Token lifetime in seconds.
    pub expires_in: i64,
}

/// Request to update a user's profile.
#[derive(Debug, Clone, PartialEq, Eq)]
pub struct UpdateUserRequest {
    pub first_name: Option<String>,
    pub last_name: Option<String>,
    pub phone: Option<String>,
    pub role: Option<UserRole>,
    pub is_active: Option<bool>,
}

/// The mathematical value of an [`UpdateUserRequest`].
pub struct UpdateUserRequestView {
    pub first_name: Option<Seq<char>>,
    pub last_name: Option<Seq<char>>,
    pub phone: Option<Seq<char>>,
    pub role: Option<UserRole>,
    pub is_active: Option<bool>,
}

impl View for UpdateUserRequest {
    type V = UpdateUserRequestView;

    open spec fn view(&self) -> UpdateUserRequestView {
        UpdateUserRequestView {
            first_name: self.first_name.deep_view(),
            last_name: self.last_name.deep_view(),
            phone: self.phone.deep_view(),
            role: self.role,
            is_active: self.is_active,
        }
    }
}

/// The record after a profile update at `now`: names that the request
/// gives replace the old ones, everything else stays.
pub open spec fn profile_updated(
    before: UserView,
    request: UpdateUserRequestView,
    now: i64,
) -> UserView {
    UserView {
        first_name: if request.first_name is Some {
            request.first_name
        } else {
            before.first_name
        },
        last_name: if request.last_name is Some {
            request.last_name
        } else {
            before.last_name
        },
        updated_at: now,
        ..before
    }
}

impl User {
    /// The record that an upsert of `input` at `now` leaves.
    pub fn upsert(existing: Option<&User>, input: &UpsertUser, now: i64) -> (record: User)
        ensures
            record@ == upserted(
                match existing {
                    Some(old) => Some(old@),
                    None => None,
                },
                input@,
                now,
            ),
    {
        let created_at = match existing {
            Some(old) => old.created_at,
            None => now,
        };
        User {
            id: input.id.clone(),
            email: clone_optional(&input.email),
            first_name: clone_optional(&input.first_name),
            last_name: clone_optional(&input.last_name),
            profile_image_url: clone_optional(&input.profile_image_url),
            created_at,
            updated_at: now,
        }
    }

    /// The record after a profile update at `now`: names that the request
    /// gives replace the old ones, everything else stays.
    pub fn updated(&self, request: &UpdateUserRequest, now: i64) -> (record: User)
        ensures
            record@ == profile_updated(self@, request@, now),
    {
        User {
            id: self.id.clone(),
            email: clone_optional(&self.email),
            first_name: match &request.first_name {
                Some(name) => Some(name.clone()),
                None => clone_optional(&self.first_name),
            },
            last_name: match &request.last_name {
                Some(name) => Some(name.clone()),
                None => clone_optional(&self.last_name),
            },
            profile_image_url: clone_optional(&self.profile_image_url),
            created_at: self.created_at,
            updated_at: now,
        }
    }
}

} // verus!
