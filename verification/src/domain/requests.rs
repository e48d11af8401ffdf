//! The login bodies under their older path.

pub use crate::domain::req_res::{LoginUserRequest, LoginUserResponse};
