//! Credential issuance and validation: password hashing, signed session
//! tokens, the revocation records that accompany them, the admission of
//! bearer tokens, and the register / login decisions built on top of these.

pub mod auth;
pub mod clock;
pub mod config;
pub mod domain;
pub mod errors;
pub mod identifiers;
pub mod jwt;
pub mod repositories;
pub mod services;

use crate::config::AppConfig;
use vstd::prelude::*;

verus! {

/// What every request handler is given: the configuration, fixed at start-up.
#[derive(Debug, Clone)]
pub struct AppState {
    pub config: AppConfig,
}

impl AppState {
    pub fn new(config: AppConfig) -> (state: Self)
        ensures
            state.config == config,
    {
        Self { config }
    }
}

} // verus!
