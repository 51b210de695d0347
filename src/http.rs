//! What the two routes answer: `POST /register` and `POST /login`.

use vstd::prelude::*;

use crate::dtos::{UserDBDTO, UserOutDTO};
use crate::repository::StoreError;
use crate::service::{registered_from, registration_result, RegisterError};
use crate::dtos::{UserCreateDTO, UserCreateInDTO};
use crate::token::{encode_jwt, issued_token, TokenError};

verus! {

/// The HTTP statuses the routes answer with.
#[derive(Debug, Clone, Copy, PartialEq, Eq, Structural)]
pub enum Status {
    Success,
    Unauthorized,
    Conflict,
    InternalError,
    ServiceUnavailable,
}

impl Status {
    pub open spec fn code_of(self) -> u16 {
        match self {
            Status::Success => 200,
            Status::Unauthorized => 401,
            Status::Conflict => 409,
            Status::InternalError => 500,
            Status::ServiceUnavailable => 503,
        }
    }

    /// The numeric status code.
    pub fn code(&self) -> (r: u16)
        ensures
            r == self.code_of(),
    {
        match self {
            Status::Success => 200,
            Status::Unauthorized => 401,
            Status::Conflict => 409,
            Status::InternalError => 500,
            Status::ServiceUnavailable => 503,
        }
    }
}

/// The answer of `POST /register` for the outcome of the registration.
pub open spec fn register_response(outcome: Result<UserDBDTO, RegisterError>) -> Result<UserOutDTO, Status> {
    match outcome {
        Ok(user) => Ok(user.public_view()),
        Err(RegisterError::UsernameTaken) => Err(Status::Conflict),
        Err(RegisterError::StoreUnavailable) => Err(Status::ServiceUnavailable),
        Err(RegisterError::Hashing) => Err(Status::InternalError),
        Err(RegisterError::Store) => Err(Status::InternalError),
    }
}

/// `POST /register`: the public view of the stored user, 409 for a taken
/// username, 503 when the store cannot be reached, 500 otherwise.
pub fn create_user(outcome: Result<UserDBDTO, RegisterError>) -> (r: Result<UserOutDTO, Status>)
    ensures
        r == register_response(outcome),
{
    match outcome {
        Ok(user) => Ok(user.to_public()),
        Err(RegisterError::UsernameTaken) => Err(Status::Conflict),
        Err(RegisterError::StoreUnavailable) => Err(Status::ServiceUnavailable),
        Err(RegisterError::Hashing) => Err(Status::InternalError),
        Err(RegisterError::Store) => Err(Status::InternalError),
    }
}

/// The status for a store that could not serve a request.
pub open spec fn store_status(e: StoreError) -> Status {
    match e {
        StoreError::Unavailable => Status::ServiceUnavailable,
        _ => Status::InternalError,
    }
}

/// `POST /login`, given the outcome of authentication: the user it granted,
/// if any, or the store's failure to serve the lookup. A granted user gets a
/// token signed with `secret`; failed authentication answers 401; a store
/// that could not be reached answers 503.
pub fn sign_in(granted: Result<Option<UserDBDTO>, StoreError>, secret: &str) -> (r: Result<String, Status>)
    ensures
        granted matches Ok(Some(user)) ==> (r matches Ok(t) && issued_token(t@, user.username@, secret@)),
        granted == Ok::<Option<UserDBDTO>, StoreError>(None) <==> r == Err::<String, Status>(Status::Unauthorized),
        granted matches Err(e) ==> r == Err::<String, Status>(store_status(e)),
{
    match granted {
        Ok(Some(user)) => match encode_jwt(user.username.as_str(), secret) {
            Ok(token) => Ok(token),
            Err(TokenError::Signing) => Err(Status::InternalError),
        },
        Ok(None) => Err(Status::Unauthorized),
        Err(StoreError::Unavailable) => Err(Status::ServiceUnavailable),
        Err(_) => Err(Status::InternalError),
    }
}

/// A registration answers 409, a client error, exactly when the store
/// refused the insert for a duplicate username: a second registration of one
/// username fails visibly and apart from every other outcome.
pub proof fn lemma_duplicate_registration_conflicts(stored: Result<UserDBDTO, StoreError>)
    ensures
        register_response(registration_result(stored)) == Err::<UserOutDTO, Status>(Status::Conflict)
            <==> stored == Err::<UserDBDTO, StoreError>(StoreError::UniqueViolation),
        400 <= Status::Conflict.code_of() < 500,
{
}

/// A registration whose insert the store accepted answers with the id the
/// store assigned, the username and interests of the request, and nothing
/// else: no password material.
pub proof fn lemma_registration_answers_public_fields(
    input: UserCreateInDTO,
    created: UserCreateDTO,
    stored: UserDBDTO,
)
    requires
        registered_from(input, created),
        stored.username == created.username,
        stored.interests == created.interests,
    ensures
        register_response(registration_result(Ok(stored))) == Ok::<UserOutDTO, Status>(
            UserOutDTO { id: stored.id, username: input.username, interests: input.interests },
        ),
{
}

} // verus!
