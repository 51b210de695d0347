//! The shapes in which user data moves between the service, the repository
//! and the HTTP routes.

use vstd::prelude::*;

verus! {

/// A point in time, as microseconds since the Unix epoch (UTC).
#[derive(Debug, Clone, Copy, PartialEq, Eq, Structural)]
pub struct Timestamp {
    pub micros: i64,
}

/// Microseconds in one second.
pub const MICROS_PER_SECOND: i64 = 1_000_000;

impl Timestamp {
    /// Whole seconds since the epoch, for a point not before the epoch.
    pub open spec fn seconds(self) -> int {
        (self.micros as int) / (MICROS_PER_SECOND as int)
    }

    /// Whole seconds since the epoch; `None` before the epoch.
    pub fn unix_seconds(&self) -> (r: Option<u64>)
        ensures
            r is Some <==> self.micros >= 0,
            r matches Some(s) ==> s == self.seconds(),
    {
        if self.micros < 0 {
            None
        } else {
            Some((self.micros / MICROS_PER_SECOND) as u64)
        }
    }
}

/// What the repository stores for a new user: the password is already hashed.
#[derive(Debug, Clone, PartialEq)]
pub struct UserCreateDTO {
    pub username: String,
    pub hashed_pwd: String,
    pub registration_date: Timestamp,
    pub interests: String,
}

/// A stored user, with the id the store assigned.
#[derive(Debug, Clone, PartialEq)]
pub struct UserDBDTO {
    pub id: i32,
    pub username: String,
    pub hashed_pwd: String,
    pub registration_date: Timestamp,
    pub interests: String,
}

/// A registration request as it arrives: the password is in plain text.
#[derive(Debug, Clone, PartialEq)]
pub struct UserCreateInDTO {
    pub username: String,
    pub password: String,
    pub interests: String,
}

/// What the routes disclose about a user: no password material.
#[derive(Debug, Clone, PartialEq)]
pub struct UserOutDTO {
    pub id: i32,
    pub username: String,
    pub interests: String,
}

/// The credentials of a login request.
#[derive(Debug, Clone, PartialEq)]
pub struct SignInData {
    pub username: String,
    pub password: String,
}

impl UserDBDTO {
    /// The public projection of a stored user.
    pub open spec fn public_view(self) -> UserOutDTO {
        UserOutDTO { id: self.id, username: self.username, interests: self.interests }
    }

    /// Drops the password hash and the registration date.
    pub fn to_public(self) -> (r: UserOutDTO)
        ensures
            r == self.public_view(),
    {
        UserOutDTO { id: self.id, username: self.username, interests: self.interests }
    }
}

} // verus!
