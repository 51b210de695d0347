//! The users repository: which query a predicate runs, which columns an
//! insert writes, and what the store's answers become.

use vstd::prelude::*;

use crate::dtos::{UserCreateDTO, UserDBDTO};
use crate::models::{NewUserModel, UserModel};
use crate::specifications::{CompType, UserQuery, UsersSpecification};

verus! {

/// Why the store did not carry out a statement.
#[derive(Debug, Clone, Copy, PartialEq, Eq, Structural)]
pub enum StoreError {
    /// An insert broke the uniqueness of the username.
    UniqueViolation,
    /// No connection could be checked out of the pool.
    Unavailable,
    /// Any other failure of the store.
    Other,
}

/// The repository of the users table.
#[derive(Debug, Clone, Copy, PartialEq, Eq, Structural)]
pub struct UsersRepo {}

/// What a lookup yields for the store's answer: a query error reads as "no
/// such user", as a missing row does.
pub open spec fn lookup_result(answer: Result<Option<UserModel>, StoreError>) -> Option<UserDBDTO> {
    match answer {
        Ok(Some(row)) => Some(row.dto()),
        _ => None,
    }
}

/// What an insert yields for the store's answer.
pub open spec fn insert_result(answer: Result<UserModel, StoreError>) -> Result<UserDBDTO, StoreError> {
    match answer {
        Ok(row) => Ok(row.dto()),
        Err(e) => Err(e),
    }
}

impl UsersRepo {
    /// The query that `get_one_by` runs for a predicate. An order comparison
    /// is a caller's error: `get_one_by` must fail loudly on it, before any
    /// query is run.
    pub fn query_for(specification: UsersSpecification) -> (r: UserQuery)
        requires
            specification.is_supported(),
        ensures
            r == specification.query(),
    {
        match specification {
            UsersSpecification::Id(CompType::Equals(id)) => UserQuery::ById(id),
            UsersSpecification::Username(CompType::Equals(name)) => UserQuery::ByUsername(name),
            _ => unreached(),
        }
    }

    /// The result of `get_one_by` for the row the store returned, if any.
    pub fn found_user(answer: Result<Option<UserModel>, StoreError>) -> (r: Option<UserDBDTO>)
        ensures
            r == lookup_result(answer),
    {
        match answer {
            Ok(Some(row)) => Some(row.into_dto()),
            Ok(None) => None,
            Err(_) => None,
        }
    }

    /// The columns that `create_from_dto` inserts.
    pub fn new_row<'a>(create: &'a UserCreateDTO) -> (r: NewUserModel<'a>)
        ensures
            r.username@ == create.username@,
            r.hashed_pwd@ == create.hashed_pwd@,
            *r.registration_date == create.registration_date,
            r.interests@ == create.interests@,
    {
        NewUserModel::from_create(create)
    }

    /// The result of `create_from_dto` for the store's answer to the insert.
    pub fn created_user(answer: Result<UserModel, StoreError>) -> (r: Result<UserDBDTO, StoreError>)
        ensures
            r == insert_result(answer),
    {
        match answer {
            Ok(row) => Ok(row.into_dto()),
            Err(e) => Err(e),
        }
    }
}

} // verus!
