//! Password hashing: a salted, deliberately slow one-way hash whose output
//! describes itself, so that verification needs no salt from elsewhere.

use crate::config::ApiConfig;
use crate::errors::{ApiError, ApiResult};
use vstd::prelude::*;
use vstd::utf8::encode_utf8;

verus! {

/// Why a password was not hashed or not checked.
#[derive(Debug, Clone, Copy, PartialEq, Eq, Structural)]
pub enum PasswordError {
    /// The algorithm refused the password or the configured salt.
    HashingError,
    /// The stored hash is not an encoded hash.
    InvalidHashFormat,
}

/// The encoded hash that `argon2::hash_encoded` computes for the password
/// and the salt under the default parameters, or `None` where it refuses
/// them.
pub uninterp spec fn argon2_encoded(password: Seq<char>, salt: Seq<char>) -> Option<Seq<char>>;

/// What `argon2::verify_encoded` finds for the encoded hash and the
/// password: whether they match, or `None` where the text is not an encoded
/// hash that it can check.
pub uninterp spec fn argon2_verified(encoded: Seq<char>, password: Seq<char>) -> Option<bool>;

/// The longest password or salt, in bytes, that the algorithm takes.
pub const MAX_INPUT_BYTES: u64 = 0xFFFF_FFFF;

/// The shortest salt, in bytes, that the algorithm takes.
pub const MIN_SALT_BYTES: u64 = 8;

/// Whether the algorithm takes this password together with this salt.
pub open spec fn hashable(password: Seq<char>, salt: Seq<char>) -> bool {
    &&& encode_utf8(password).len() <= MAX_INPUT_BYTES
    &&& MIN_SALT_BYTES <= encode_utf8(salt).len() <= MAX_INPUT_BYTES
}

/// Calls `argon2::hash_encoded` on the bytes of the password and of the salt
/// with `argon2::Config::default()`. Trusted: the outcome depends on the two
/// texts alone; a hash is computed exactly when the salt has at least 8 bytes
/// and neither text has more than 2^32 - 1; and `verify_encoded` finds that a
/// computed hash matches the password it was computed from.
#[verifier::external_body]
fn hash_encoded(password: &str, salt: &str) -> (encoded: Option<String>)
    ensures
        match encoded {
            Some(hash) => argon2_encoded(password@, salt@) == Some(hash@) && argon2_verified(
                hash@,
                password@,
            ) == Some(true),
            None => argon2_encoded(password@, salt@) is None,
        },
        encoded is Some <==> hashable(password@, salt@),
{
    argon2::hash_encoded(password.as_bytes(), salt.as_bytes(), &argon2::Config::default()).ok()
}

/// Calls `argon2::verify_encoded` on the encoded hash and the bytes of the
/// password. Trusted: the outcome depends on the two texts alone.
#[verifier::external_body]
fn verify_encoded(encoded: &str, password: &str) -> (matches: Option<bool>)
    ensures
        matches == argon2_verified(encoded@, password@),
{
    argon2::verify_encoded(encoded, password.as_bytes()).ok()
}

impl PasswordError {
    /// Whether `error` is the service failure that stands for `self`: a
    /// failure to hash is internal, a stored hash that cannot be checked
    /// fails the login attempt.
    pub open spec fn is_reported_as(self, error: ApiError) -> bool {
        match self {
            PasswordError::HashingError => error matches ApiError::InternalServerErrorWithContext(
                m,
            ) && m@ == "Unable to hash password"@,
            PasswordError::InvalidHashFormat => error is InvalidLoginAttempt,
        }
    }

    pub fn to_api_error(self) -> (error: ApiError)
        ensures
            self.is_reported_as(error),
    {
        match self {
            PasswordError::HashingError => ApiError::InternalServerErrorWithContext(
                "Unable to hash password".to_owned(),
            ),
            PasswordError::InvalidHashFormat => ApiError::InvalidLoginAttempt,
        }
    }
}

/// Hashes and checks passwords with the salt of the configuration.
#[derive(Debug, Clone)]
pub struct SecurityService {
    config: ApiConfig,
}

impl SecurityService {
    /// The configuration the service was built with.
    pub closed spec fn config(&self) -> ApiConfig {
        self.config
    }

    /// The salt mixed into every hash.
    pub open spec fn spec_salt(&self) -> Seq<char> {
        self.config().password_salt@
    }

    /// The outcome of hashing a password.
    pub open spec fn spec_hash(&self, password: Seq<char>) -> Result<Seq<char>, PasswordError> {
        match argon2_encoded(password, self.spec_salt()) {
            Some(hash) => Ok(hash),
            None => Err(PasswordError::HashingError),
        }
    }

    /// The outcome of checking a password against a stored hash.
    pub open spec fn spec_verify(hash: Seq<char>, password: Seq<char>) -> Result<
        bool,
        PasswordError,
    > {
        match argon2_verified(hash, password) {
            Some(matches) => Ok(matches),
            None => Err(PasswordError::InvalidHashFormat),
        }
    }

    pub fn new(config: ApiConfig) -> (service: Self)
        ensures
            service.config() == config,
    {
        Self { config }
    }

    /// Hashes `password` with the configured salt. The hash is computed
    /// exactly when the algorithm takes the password and the salt, and a
    /// computed hash verifies the password it came from.
    pub fn hash(&self, password: &str) -> (r: Result<String, PasswordError>)
        ensures
            match r {
                Ok(hash) => self.spec_hash(password@) == Ok::<Seq<char>, PasswordError>(hash@),
                Err(e) => self.spec_hash(password@) == Err::<Seq<char>, PasswordError>(e),
            },
            r is Ok <==> hashable(password@, self.spec_salt()),
            r matches Ok(hash) ==> Self::spec_verify(hash@, password@) == Ok::<
                bool,
                PasswordError,
            >(true),
    {
        match hash_encoded(password, self.config.password_salt.as_str()) {
            Some(hash) => Ok(hash),
            None => Err(PasswordError::HashingError),
        }
    }

    /// Checks `attempted_password` against a stored hash: `Ok(false)` for a
    /// password that does not match, an error only for a stored hash that is
    /// malformed.
    pub fn verify(&self, actual_password_hash: &str, attempted_password: &str) -> (r: Result<
        bool,
        PasswordError,
    >)
        ensures
            r == Self::spec_verify(actual_password_hash@, attempted_password@),
    {
        match verify_encoded(actual_password_hash, attempted_password) {
            Some(matches) => Ok(matches),
            None => Err(PasswordError::InvalidHashFormat),
        }
    }

    /// [`Self::hash`], with the failure as the services report it.
    pub fn hash_password(&self, password: &str) -> (r: ApiResult<String>)
        ensures
            match self.spec_hash(password@) {
                Ok(hash) => r matches Ok(text) && text@ == hash && Self::spec_verify(
                    hash,
                    password@,
                ) == Ok::<bool, PasswordError>(true),
                Err(e) => r matches Err(error) && e.is_reported_as(error),
            },
            r is Ok <==> hashable(password@, self.spec_salt()),
    {
        match self.hash(password) {
            Ok(hash) => Ok(hash),
            Err(e) => Err(e.to_api_error()),
        }
    }

    /// [`Self::verify`], with the failure as the services report it.
    pub fn verify_password(&self, actual_password_hash: &str, attempted_password: &str) -> (r:
        ApiResult<bool>)
        ensures
            match Self::spec_verify(actual_password_hash@, attempted_password@) {
                Ok(matches) => r matches Ok(found) && found == matches,
                Err(e) => r matches Err(error) && e.is_reported_as(error),
            },
    {
        match self.verify(actual_password_hash, attempted_password) {
            Ok(matches) => Ok(matches),
            Err(e) => Err(e.to_api_error()),
        }
    }
}

} // verus!
