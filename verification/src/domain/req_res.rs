//! The bodies of the login request and of its answer.

use crate::domain::{LoginUserDto, UserDto};
use std::collections::HashMap;
use vstd::prelude::*;

verus! {

#[derive(Debug, Clone)]
pub struct LoginUserRequest {
    pub user: LoginUserDto,
}

#[derive(Debug, Clone)]
pub struct LoginUserResponse {
    pub user: UserDto,
}

/// Rows of a data extract, each a map from column name to value.
pub type DataResponse = Vec<HashMap<String, String>>;

} // verus!
