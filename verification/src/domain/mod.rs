//! What travels between the HTTP layer and the services.

pub mod req_res;
pub mod requests;

use crate::repositories::user_repository::UserEntity;
use vstd::prelude::*;
use vstd::std_specs::convert::FromSpecImpl;

verus! {

/// A user as the API shows it. It has no field for the password or its hash.
#[derive(Debug, Clone)]
pub struct UserDto {
    pub id: String,
    pub name: String,
    pub email: String,
    /// Creation time, in seconds since the epoch.
    pub created_at: Option<i64>,
    /// Time of the last change, in seconds since the epoch.
    pub updated_at: Option<i64>,
    pub access_token: Option<String>,
    pub refresh_token: Option<String>,
}

impl From<UserEntity> for UserDto {
    fn from(entity: UserEntity) -> (user: Self) {
        Self {
            id: entity.id,
            name: entity.name,
            email: entity.email,
            created_at: entity.created_at,
            updated_at: entity.updated_at,
            access_token: None,
            refresh_token: None,
        }
    }
}

impl FromSpecImpl<UserEntity> for UserDto {
    open spec fn obeys_from_spec() -> bool {
        true
    }

    open spec fn from_spec(entity: UserEntity) -> Self {
        UserDto {
            id: entity.id,
            name: entity.name,
            email: entity.email,
            created_at: entity.created_at,
            updated_at: entity.updated_at,
            access_token: None,
            refresh_token: None,
        }
    }
}

/// What a new user sends to register.
#[derive(Debug, Clone)]
pub struct RegisterUserDto {
    pub name: String,
    pub email: String,
    pub password: String,
}

/// What a user sends to log in.
#[derive(Debug, Clone)]
pub struct LoginUserDto {
    pub email: String,
    pub password: String,
}

} // verus!
