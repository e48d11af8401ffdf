//! The services: password hashing, token issuance and verification, and the
//! register / login decisions.

pub mod security_service;
pub mod token_service;
pub mod user_service;
