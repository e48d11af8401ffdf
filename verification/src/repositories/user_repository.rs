//! Records of the user directory, and what a lookup in it may answer.

use vstd::prelude::*;

verus! {

/// A user as the directory stores it.
#[derive(Debug, Clone)]
pub struct UserEntity {
    pub id: String,
    pub name: String,
    pub email: String,
    /// The encoded hash of the password; empty where it was not fetched.
    pub password: String,
    /// Creation time, in seconds since the epoch.
    pub created_at: Option<i64>,
    /// Time of the last change, in seconds since the epoch.
    pub updated_at: Option<i64>,
}

/// The answer of the directory to one request.
#[derive(Debug)]
pub enum DirectoryReply<T> {
    /// The directory answered.
    Answered(T),
    /// The directory could not be reached, or failed; the text says how.
    Unavailable(String),
}

} // verus!
