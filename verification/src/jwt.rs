//! The compact signed token format, as the `jsonwebtoken` crate writes and
//! reads it with HMAC-SHA256 under a base64-encoded secret.

use crate::services::token_service::{ClaimsView, TokenClaims};
use jsonwebtoken::errors::ErrorKind;
use jsonwebtoken::{Algorithm, DecodingKey, EncodingKey, Header, Validation};
use serde_json::Value;
use vstd::prelude::*;

verus! {

/// Why a token could not be written or read.
#[derive(Debug, Clone, Copy, PartialEq, Eq, Structural)]
pub enum JwtFailure {
    /// The configured secret is not base64.
    InvalidKey,
    /// The text does not have the shape of a token.
    InvalidToken,
    /// The signature does not belong to the header and payload.
    InvalidSignature,
    /// A part of the token is not base64.
    Base64,
    /// A part of the token is not the JSON that is expected there.
    Json,
    /// Any other refusal.
    Other,
}

/// A decoded JSON payload.
#[verifier::external_type_specification]
#[verifier::external_body]
pub struct ExValue(Value);

/// The members of a payload, by name: those that are integers within the
/// range of `i64`, and those that are strings.
pub struct Payload {
    pub integers: Map<Seq<char>, int>,
    pub strings: Map<Seq<char>, Seq<char>>,
}

/// The members of a JSON object that are integers within the range of `i64`,
/// by name; empty for any other JSON value.
pub uninterp spec fn json_integers(value: Value) -> Map<Seq<char>, int>;

/// The members of a JSON object that are strings, by name; empty for any
/// other JSON value.
pub uninterp spec fn json_strings(value: Value) -> Map<Seq<char>, Seq<char>>;

/// The token that `jsonwebtoken::encode` writes for the claims under the
/// secret, or the reason for which it writes none.
pub uninterp spec fn jwt_signed(claims: ClaimsView, secret: Seq<char>) -> Result<
    Seq<char>,
    JwtFailure,
>;

/// What `jsonwebtoken::decode` reads from the token under the secret, with
/// HS256 as the only accepted algorithm and no check of the time: the
/// payload, or the reason for which the token is refused.
pub uninterp spec fn jwt_opened(token: Seq<char>, secret: Seq<char>) -> Result<Payload, JwtFailure>;

/// The payload that carries exactly the five claims.
pub open spec fn payload_of(claims: ClaimsView) -> Payload {
    Payload {
        integers: map!["exp"@ => claims.exp, "iat"@ => claims.iat, "nbf"@ => claims.nbf],
        strings: map!["sub"@ => claims.sub, "token_uuid"@ => claims.token_uuid],
    }
}

/// The payload that a JSON value stands for.
pub open spec fn payload_view(value: Value) -> Payload {
    Payload { integers: json_integers(value), strings: json_strings(value) }
}

/// Calls `jsonwebtoken::EncodingKey::from_base64_secret` and then
/// `jsonwebtoken::encode` with the default header (HS256, type JWT) on a JSON
/// object holding the five claims. Trusted: the outcome depends on the claims
/// and the secret alone, and a token that was written is one that `decode`
/// reads back, under the same secret, as exactly these claims.
#[verifier::external_body]
pub(crate) fn sign_claims(claims: &TokenClaims, secret: &str) -> (signed: Result<
    String,
    JwtFailure,
>)
    ensures
        match signed {
            Ok(token) => jwt_signed(claims@, secret@) == Ok::<Seq<char>, JwtFailure>(token@)
                && jwt_opened(token@, secret@) == Ok::<Payload, JwtFailure>(payload_of(claims@)),
            Err(failure) => jwt_signed(claims@, secret@) == Err::<Seq<char>, JwtFailure>(failure),
        },
{
    let key = EncodingKey::from_base64_secret(secret).map_err(|_| JwtFailure::InvalidKey)?;
    let mut payload = serde_json::Map::new();
    payload.insert("exp".to_owned(), Value::from(claims.exp));
    payload.insert("iat".to_owned(), Value::from(claims.iat));
    payload.insert("nbf".to_owned(), Value::from(claims.nbf));
    payload.insert("sub".to_owned(), Value::from(claims.sub.clone()));
    payload.insert("token_uuid".to_owned(), Value::from(claims.token_uuid.clone()));
    jsonwebtoken::encode(&Header::default(), &payload, &key).map_err(|_| JwtFailure::Other)
}

/// Calls `jsonwebtoken::DecodingKey::from_base64_secret` and then
/// `jsonwebtoken::decode`, accepting HS256 only, with the check of `exp`
/// against the clock and the list of required claims switched off. Trusted:
/// the outcome depends on the token and the secret alone.
#[verifier::external_body]
pub(crate) fn open_token(token: &str, secret: &str) -> (opened: Result<Value, JwtFailure>)
    ensures
        match opened {
            Ok(value) => jwt_opened(token@, secret@) == Ok::<Payload, JwtFailure>(
                payload_view(value),
            ),
            Err(failure) => jwt_opened(token@, secret@) == Err::<Payload, JwtFailure>(failure),
        },
{
    let key = DecodingKey::from_base64_secret(secret).map_err(|_| JwtFailure::InvalidKey)?;
    let mut validation = Validation::new(Algorithm::HS256);
    validation.validate_exp = false;
    validation.required_spec_claims.clear();
    match jsonwebtoken::decode::<Value>(token, &key, &validation) {
        Ok(data) => Ok(data.claims),
        Err(e) => Err(match e.kind() {
            ErrorKind::InvalidToken => JwtFailure::InvalidToken,
            ErrorKind::InvalidSignature => JwtFailure::InvalidSignature,
            ErrorKind::Base64(_) => JwtFailure::Base64,
            ErrorKind::Json(_) => JwtFailure::Json,
            _ => JwtFailure::Other,
        }),
    }
}

/// Calls `serde_json::Value::get` and `as_i64`. Trusted: the result is the
/// integer member of that name, where the payload has one.
#[verifier::external_body]
pub(crate) fn claim_integer(payload: &Value, name: &str) -> (member: Option<i64>)
    ensures
        match member {
            Some(n) => json_integers(*payload).contains_key(name@) && json_integers(*payload)[name@]
                == n,
            None => !json_integers(*payload).contains_key(name@),
        },
{
    payload.get(name).and_then(Value::as_i64)
}

/// Calls `serde_json::Value::get` and `as_str`. Trusted: the result is the
/// string member of that name, where the payload has one.
#[verifier::external_body]
pub(crate) fn claim_string(payload: &Value, name: &str) -> (member: Option<String>)
    ensures
        match member {
            Some(s) => json_strings(*payload).contains_key(name@) && json_strings(*payload)[name@]
                == s@,
            None => !json_strings(*payload).contains_key(name@),
        },
{
    payload.get(name).and_then(Value::as_str).map(str::to_owned)
}

} // verus!
