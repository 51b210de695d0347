//! Rows of the users table, as the store reads and writes them.

use vstd::prelude::*;

use crate::dtos::{Timestamp, UserCreateDTO, UserDBDTO};

verus! {

/// A full row of the users table.
#[derive(Debug, Clone, PartialEq)]
pub struct UserModel {
    pub id: i32,
    pub username: String,
    pub hashed_pwd: String,
    pub registration_date: Timestamp,
    pub interests: String,
}

/// The columns written when a user is inserted; the store assigns the id.
#[derive(Debug, Clone, PartialEq)]
pub struct NewUserModel<'a> {
    pub username: &'a str,
    pub hashed_pwd: &'a str,
    pub registration_date: &'a Timestamp,
    pub interests: &'a str,
}

impl UserModel {
    /// The row that holds exactly the fields of a stored user.
    pub open spec fn of_dto(dto: UserDBDTO) -> UserModel {
        UserModel {
            id: dto.id,
            username: dto.username,
            hashed_pwd: dto.hashed_pwd,
            registration_date: dto.registration_date,
            interests: dto.interests,
        }
    }

    /// The stored user that a row holds.
    pub open spec fn dto(self) -> UserDBDTO {
        UserDBDTO {
            id: self.id,
            username: self.username,
            hashed_pwd: self.hashed_pwd,
            registration_date: self.registration_date,
            interests: self.interests,
        }
    }

    pub fn from_dto(dto: &UserDBDTO) -> (r: Self)
        ensures
            r == UserModel::of_dto(*dto),
    {
        UserModel {
            id: dto.id,
            username: dto.username.clone(),
            hashed_pwd: dto.hashed_pwd.clone(),
            registration_date: dto.registration_date,
            interests: dto.interests.clone(),
        }
    }

    pub fn into_dto(self) -> (r: UserDBDTO)
        ensures
            r == self.dto(),
    {
        UserDBDTO {
            id: self.id,
            username: self.username,
            hashed_pwd: self.hashed_pwd,
            registration_date: self.registration_date,
            interests: self.interests,
        }
    }
}

impl<'a> NewUserModel<'a> {
    /// The columns to insert for a new user.
    pub fn from_create(create: &'a UserCreateDTO) -> (r: NewUserModel<'a>)
        ensures
            r.username@ == create.username@,
            r.hashed_pwd@ == create.hashed_pwd@,
            *r.registration_date == create.registration_date,
            r.interests@ == create.interests@,
    {
        NewUserModel {
            username: create.username.as_str(),
            hashed_pwd: create.hashed_pwd.as_str(),
            registration_date: &create.registration_date,
            interests: create.interests.as_str(),
        }
    }
}

} // verus!
