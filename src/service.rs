//! The users service: what registration, lookup and authentication compute
//! around the store's work.

use vstd::prelude::*;

use crate::clock;
use crate::dtos::{Timestamp, UserCreateDTO, UserCreateInDTO, UserDBDTO};
use crate::passwords::{bcrypt_matches, hash_password, printable_ascii, verify_password};
use crate::repository::{lookup_result, StoreError};
use crate::specifications::{CompType, UserQuery, UsersSpecification};

verus! {

/// Why a registration did not store a user.
#[derive(Debug, Clone, Copy, PartialEq, Eq, Structural)]
pub enum RegisterError {
    /// A user with this username exists already.
    UsernameTaken,
    /// The password could not be hashed.
    Hashing,
    /// The store could not be reached.
    StoreUnavailable,
    /// The store rejected the insert for another reason.
    Store,
}

/// `created` is what the store is asked to keep for the request `input`: the
/// username and interests as given, and a printable hash that bcrypt accepts
/// for the password.
pub open spec fn registered_from(input: UserCreateInDTO, created: UserCreateDTO) -> bool {
    &&& created.username == input.username
    &&& created.interests == input.interests
    &&& bcrypt_matches(input.password@, created.hashed_pwd@)
    &&& printable_ascii(created.hashed_pwd@)
}

/// What a registration yields for the store's answer to the insert.
pub open spec fn registration_result(stored: Result<UserDBDTO, StoreError>) -> Result<UserDBDTO, RegisterError> {
    match stored {
        Ok(user) => Ok(user),
        Err(StoreError::UniqueViolation) => Err(RegisterError::UsernameTaken),
        Err(StoreError::Unavailable) => Err(RegisterError::StoreUnavailable),
        Err(StoreError::Other) => Err(RegisterError::Store),
    }
}

/// What authentication yields for the user found under the username, if
/// any: that user when the password matches the stored hash, else nothing.
pub open spec fn authenticated(found: Option<UserDBDTO>, password: Seq<char>) -> Option<UserDBDTO> {
    match found {
        Some(user) => if printable_ascii(user.hashed_pwd@) && bcrypt_matches(password, user.hashed_pwd@) {
            Some(user)
        } else {
            None
        },
        None => None,
    }
}

/// The record to insert for a registration request, given the hash of its
/// password and the time of registration.
pub fn registration_from(input: &UserCreateInDTO, hashed_pwd: String, registration_date: Timestamp) -> (r: UserCreateDTO)
    ensures
        r.username == input.username,
        r.hashed_pwd == hashed_pwd,
        r.registration_date == registration_date,
        r.interests == input.interests,
{
    UserCreateDTO {
        username: input.username.clone(),
        hashed_pwd,
        registration_date,
        interests: input.interests.clone(),
    }
}

/// Hashes the password of a registration request under a fresh salt and
/// stamps the current time: the record that `create_user` inserts.
pub fn registration_record(input: &UserCreateInDTO) -> (r: Result<UserCreateDTO, RegisterError>)
    ensures
        r is Ok,
        r matches Ok(created) ==> registered_from(*input, created) && created.registration_date.micros >= 0,
{
    match hash_password(input.password.as_str()) {
        Some(hashed_pwd) => {
            let now = clock::now();
            Ok(registration_from(input, hashed_pwd, now))
        },
        None => Err(RegisterError::Hashing),
    }
}

/// The outcome of a registration for the store's answer to the insert: a
/// duplicate username is reported as such, not as a crash.
pub fn registration_outcome(stored: Result<UserDBDTO, StoreError>) -> (r: Result<UserDBDTO, RegisterError>)
    ensures
        r == registration_result(stored),
{
    match stored {
        Ok(user) => Ok(user),
        Err(StoreError::UniqueViolation) => Err(RegisterError::UsernameTaken),
        Err(StoreError::Unavailable) => Err(RegisterError::StoreUnavailable),
        Err(StoreError::Other) => Err(RegisterError::Store),
    }
}

/// The predicate under which `find_by_username` looks a user up.
pub fn username_lookup(username: String) -> (r: UsersSpecification)
    ensures
        r == UsersSpecification::Username(CompType::Equals(username)),
        r.is_supported(),
        r.query() == UserQuery::ByUsername(username),
{
    UsersSpecification::Username(CompType::Equals(username))
}

/// The user if the password check passed, else nothing.
pub fn grant_if(user: UserDBDTO, password_matches: bool) -> (r: Option<UserDBDTO>)
    ensures
        r == if password_matches { Some(user) } else { None },
{
    if password_matches {
        Some(user)
    } else {
        None
    }
}

/// Authentication of `password` against the user found under the username:
/// a missing user and a wrong password both give nothing.
pub fn authenticate(found: Option<UserDBDTO>, password: &str) -> (r: Option<UserDBDTO>)
    ensures
        r == authenticated(found, password@),
{
    match found {
        Some(user) => {
            let matches = verify_password(password, user.hashed_pwd.as_str());
            grant_if(user, matches)
        },
        None => None,
    }
}

/// A login with a wrong password and a login under an unknown username give
/// the same result: nothing tells the two apart.
pub proof fn lemma_failed_logins_look_alike(user: UserDBDTO, password: Seq<char>)
    requires
        !bcrypt_matches(password, user.hashed_pwd@),
    ensures
        authenticated(Some(user), password) == authenticated(None, password),
        authenticated(None, password) is None,
{
}

/// The password given at registration authenticates the user that the store
/// kept for that registration.
pub proof fn lemma_registered_password_authenticates(input: UserCreateInDTO, created: UserCreateDTO, stored: UserDBDTO)
    requires
        registered_from(input, created),
        stored.username == created.username,
        stored.hashed_pwd == created.hashed_pwd,
    ensures
        authenticated(Some(stored), input.password@) == Some(stored),
{
}

/// Two lookups of one username, with no write in between so that the store
/// answers both alike, run the same query and give the same result.
pub proof fn lemma_repeated_lookup_agrees(
    username: String,
    first: Result<Option<crate::models::UserModel>, StoreError>,
    second: Result<Option<crate::models::UserModel>, StoreError>,
)
    requires
        first == second,
    ensures
        UsersSpecification::Username(CompType::Equals(username)).query() == UserQuery::ByUsername(username),
        lookup_result(first) == lookup_result(second),
{
}

} // verus!
