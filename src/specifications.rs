//! Predicates that select rows of the users table.

use vstd::prelude::*;

verus! {

/// A comparison against a value of one column.
#[derive(Debug, Clone, PartialEq)]
pub enum CompType<T> {
    Equals(T),
    Gte(T),
    Lte(T),
    Lt(T),
    Gt(T),
}

/// A predicate on one column of the users table.
#[derive(Debug, Clone, PartialEq)]
pub enum UsersSpecification {
    Id(CompType<i32>),
    Username(CompType<String>),
}

/// Marks the predicate types that a repository accepts.
pub trait Specification {}

impl Specification for UsersSpecification {}

/// A lookup the users repository can answer: equality on the id or on the
/// username.
#[derive(Debug, Clone, PartialEq)]
pub enum UserQuery {
    ById(i32),
    ByUsername(String),
}

/// The predicate is of a shape that the repository does not implement.
#[derive(Debug, Clone, Copy, PartialEq, Eq, Structural)]
pub struct UnsupportedSpecification;

impl UsersSpecification {
    /// Only equality on the id or on the username is supported.
    pub open spec fn is_supported(self) -> bool {
        ||| self matches UsersSpecification::Id(CompType::Equals(_))
        ||| self matches UsersSpecification::Username(CompType::Equals(_))
    }

    /// The query that a supported predicate stands for.
    pub open spec fn query(self) -> UserQuery
        recommends
            self.is_supported(),
    {
        match self {
            UsersSpecification::Id(CompType::Equals(id)) => UserQuery::ById(id),
            UsersSpecification::Username(CompType::Equals(name)) => UserQuery::ByUsername(name),
            _ => arbitrary(),
        }
    }

    /// Whether the repository implements this predicate.
    pub fn supported(&self) -> (r: bool)
        ensures
            r == self.is_supported(),
    {
        match self {
            UsersSpecification::Id(CompType::Equals(_)) => true,
            UsersSpecification::Username(CompType::Equals(_)) => true,
            _ => false,
        }
    }

    /// Turns the predicate into a query, or rejects a shape that is not
    /// supported (an order comparison).
    pub fn to_query(self) -> (r: Result<UserQuery, UnsupportedSpecification>)
        ensures
            r is Ok <==> self.is_supported(),
            r matches Ok(q) ==> q == self.query(),
    {
        match self {
            UsersSpecification::Id(CompType::Equals(id)) => Ok(UserQuery::ById(id)),
            UsersSpecification::Username(CompType::Equals(name)) => Ok(UserQuery::ByUsername(name)),
            _ => Err(UnsupportedSpecification),
        }
    }
}

} // verus!
