//! Minting and verifying bearer tokens.
//!
//! A token carries five claims and a signature under the secret of its role.
//! It is accepted while the signature holds and its expiry lies in the
//! future; nothing here consults the revocation store.

use crate::clock::{clock_reading, unix_now, LATEST_CLOCK_READING};
use crate::config::ApiConfig;
use crate::errors::{ApiError, ApiResult};
use crate::identifiers::{
    hyphenated, is_random_uuid, parse_uuid, random_uuid, uuid_parsed, uuid_to_string,
};
use crate::repositories::token_repository::{record_command, save_token_to_redis, StoreCommand};
use crate::jwt::{
    claim_integer, claim_string, jwt_opened, jwt_signed, open_token, payload_of, payload_view,
    sign_claims, JwtFailure, Payload,
};
use serde_json::Value;
use vstd::pervasive::unreached;
use vstd::prelude::*;

verus! {

/// What a token is for: calling the API, or obtaining further tokens.
#[derive(Debug, Clone, Copy, PartialEq, Eq, Structural)]
pub enum TokenRole {
    Access,
    Refresh,
}

/// Why a token was not issued or not accepted.
#[derive(Debug, Clone, Copy, PartialEq, Eq, Structural)]
pub enum TokenError {
    /// The signing key is misconfigured, or signing failed.
    SigningError,
    /// The configured lifetime is not positive, or the expiry it leads to
    /// cannot be represented.
    InvalidLifetime,
    /// The token is not one that was signed with the configured key.
    InvalidSignature,
    /// The token's expiry is not in the future.
    TokenExpired,
    /// A claim is missing or not of its type, or the token identifier is
    /// not well-formed.
    MalformedClaims,
}

/// The payload of a token as it travels on the wire.
#[derive(Debug)]
pub struct TokenClaims {
    /// Expiry, in seconds since the epoch.
    pub exp: i64,
    /// Time of issue.
    pub iat: i64,
    /// The token is not valid before this time.
    pub nbf: i64,
    /// The user the token was issued to, as text.
    pub sub: String,
    /// The token's own identifier, as text.
    pub token_uuid: String,
}

/// The mathematical content of a [`TokenClaims`].
pub struct ClaimsView {
    pub exp: int,
    pub iat: int,
    pub nbf: int,
    pub sub: Seq<char>,
    pub token_uuid: Seq<char>,
}

impl View for TokenClaims {
    type V = ClaimsView;

    open spec fn view(&self) -> ClaimsView {
        ClaimsView {
            exp: self.exp as int,
            iat: self.iat as int,
            nbf: self.nbf as int,
            sub: self.sub@,
            token_uuid: self.token_uuid@,
        }
    }
}

/// A freshly issued token and what the caller needs to know of it.
#[derive(Debug)]
pub struct TokenDetails {
    /// The signed token.
    pub token: String,
    /// The token's identifier.
    pub token_uuid: u128,
    /// The user the token was issued to.
    pub user_id: String,
    /// Expiry, in seconds since the epoch.
    pub expires_in: i64,
}

/// The mathematical content of a [`TokenDetails`].
pub struct DetailsView {
    pub token: Seq<char>,
    pub token_uuid: u128,
    pub user_id: Seq<char>,
    pub expires_in: int,
}

impl View for TokenDetails {
    type V = DetailsView;

    open spec fn view(&self) -> DetailsView {
        DetailsView {
            token: self.token@,
            token_uuid: self.token_uuid,
            user_id: self.user_id@,
            expires_in: self.expires_in as int,
        }
    }
}

/// Seconds in a minute: lifetimes are configured in minutes.
pub const SECONDS_PER_MINUTE: i64 = 60;

/// Whether a token issued at `now` with a lifetime of `max_age` minutes has
/// an expiry after `now`, with both the lifetime in seconds and the expiry
/// within what an `i64` can hold.
pub open spec fn lifetime_fits(now: int, max_age: int) -> bool {
    0 < max_age && max_age * 60 <= i64::MAX && now + max_age * 60 <= i64::MAX
}

/// Whether a lifetime of `max_age` minutes fits whatever the clock shows at
/// the time of issue.
pub open spec fn lifetime_always_fits(max_age: int) -> bool {
    0 < max_age && max_age * 60 <= i64::MAX - LATEST_CLOCK_READING
}

/// Whether a lifetime of `max_age` minutes fits at no time that the clock
/// can show.
pub open spec fn lifetime_never_fits(max_age: int) -> bool {
    max_age <= 0 || max_age * 60 > i64::MAX
}

/// The claims of a token issued to `user_id` at `now`.
pub open spec fn issued_claims(
    user_id: Seq<char>,
    max_age: int,
    now: int,
    token_uuid: u128,
) -> ClaimsView {
    ClaimsView {
        exp: now + max_age * 60,
        iat: now,
        nbf: now,
        sub: user_id,
        token_uuid: hyphenated(token_uuid),
    }
}

/// The outcome of issuing a token at a given time with a given identifier.
pub open spec fn issued(
    user_id: Seq<char>,
    secret: Seq<char>,
    max_age: int,
    now: int,
    token_uuid: u128,
) -> Result<DetailsView, TokenError> {
    if !lifetime_fits(now, max_age) {
        Err(TokenError::InvalidLifetime)
    } else {
        match jwt_signed(issued_claims(user_id, max_age, now, token_uuid), secret) {
            Ok(token) => Ok(
                DetailsView { token, token_uuid, user_id, expires_in: now + max_age * 60 },
            ),
            Err(_) => Err(TokenError::SigningError),
        }
    }
}

/// What holds of a token that was issued, whatever text its subject is:
/// under the secret it was signed with it opens to exactly the claims it was
/// issued with; the identifier written in it reads back as the identifier in
/// the details; and verification accepts the token, with those claims, until
/// its expiry.
pub open spec fn issued_token_opens(
    token: Seq<char>,
    user_id: Seq<char>,
    secret: Seq<char>,
    max_age: int,
    now: int,
    token_uuid: u128,
) -> bool {
    let claims = issued_claims(user_id, max_age, now, token_uuid);
    &&& jwt_opened(token, secret) == Ok::<Payload, JwtFailure>(payload_of(claims))
    &&& uuid_parsed(claims.token_uuid) == Some(token_uuid)
    &&& accepted_while_fresh(token, secret, claims)
}

/// The view of an issuance result.
pub open spec fn details_result_view(r: Result<TokenDetails, TokenError>) -> Result<
    DetailsView,
    TokenError,
> {
    match r {
        Ok(details) => Ok(details@),
        Err(e) => Err(e),
    }
}

/// Issues a token to `user_id` as of `now`, under the identifier
/// `token_uuid`: the deterministic core of issuance.
///
/// A token that is returned opens, under the same secret, to exactly the
/// claims it was issued with, and its identifier reads back as the one in
/// the details.
pub fn issue_at(
    user_id: String,
    token_secret: &str,
    max_age: i64,
    now: i64,
    token_uuid: u128,
) -> (r: Result<TokenDetails, TokenError>)
    ensures
        details_result_view(r) == issued(
            user_id@,
            token_secret@,
            max_age as int,
            now as int,
            token_uuid,
        ),
        r matches Ok(details) ==> issued_token_opens(
            details.token@,
            user_id@,
            token_secret@,
            max_age as int,
            now as int,
            token_uuid,
        ),
{
    if max_age <= 0 {
        return Err(TokenError::InvalidLifetime);
    }
    let seconds: i64 = match max_age.checked_mul(SECONDS_PER_MINUTE) {
        Some(s) => s,
        None => {
            return Err(TokenError::InvalidLifetime);
        },
    };
    let expires_in: i64 = match now.checked_add(seconds) {
        Some(e) => e,
        None => {
            return Err(TokenError::InvalidLifetime);
        },
    };
    let claims = TokenClaims {
        exp: expires_in,
        iat: now,
        nbf: now,
        sub: user_id.clone(),
        token_uuid: uuid_to_string(token_uuid),
    };
    assert(claims@ == issued_claims(user_id@, max_age as int, now as int, token_uuid));
    match sign_claims(&claims, token_secret) {
        Ok(token) => {
            proof {
                law_issued_token_verifies(token@, token_secret@, claims@);
            }
            Ok(TokenDetails { token, token_uuid, user_id, expires_in })
        },
        Err(_) => Err(TokenError::SigningError),
    }
}

/// The five claims of a payload, where it has them all.
pub open spec fn claims_of(payload: Payload) -> Option<ClaimsView> {
    if payload.integers.contains_key("exp"@) && payload.integers.contains_key("iat"@)
        && payload.integers.contains_key("nbf"@) && payload.strings.contains_key("sub"@)
        && payload.strings.contains_key("token_uuid"@) {
        Some(
            ClaimsView {
                exp: payload.integers["exp"@],
                iat: payload.integers["iat"@],
                nbf: payload.integers["nbf"@],
                sub: payload.strings["sub"@],
                token_uuid: payload.strings["token_uuid"@],
            },
        )
    } else {
        None
    }
}

/// Whether the token identifier in the claims is well-formed. The subject
/// is the user's identifier as the directory gave it, and may be any text.
pub open spec fn token_id_well_formed(claims: ClaimsView) -> bool {
    uuid_parsed(claims.token_uuid) is Some
}

/// What verification at time `now` makes of an opened token.
///
/// A token that did not open is refused for its signature, whatever the
/// reason: the header is read before the signature is checked, so nothing
/// that is refused has been shown to carry a valid one. Only a misconfigured
/// key is reported as such. Of a token that opened, all five claims must be
/// there; then the expiry is checked, which must lie strictly after `now`;
/// then the token identifier must be well-formed.
pub open spec fn verified(opened: Result<Payload, JwtFailure>, now: int) -> Result<
    ClaimsView,
    TokenError,
> {
    match opened {
        Err(JwtFailure::InvalidKey) => Err(TokenError::SigningError),
        Err(_) => Err(TokenError::InvalidSignature),
        Ok(payload) => match claims_of(payload) {
            None => Err(TokenError::MalformedClaims),
            Some(claims) => if claims.exp <= now {
                Err(TokenError::TokenExpired)
            } else if !token_id_well_formed(claims) {
                Err(TokenError::MalformedClaims)
            } else {
                Ok(claims)
            },
        },
    }
}

/// The view of an opened token.
pub open spec fn opened_view(opened: Result<Value, JwtFailure>) -> Result<Payload, JwtFailure> {
    match opened {
        Ok(value) => Ok(payload_view(value)),
        Err(failure) => Err(failure),
    }
}

/// The view of a verification result.
pub open spec fn claims_result_view(r: Result<TokenClaims, TokenError>) -> Result<
    ClaimsView,
    TokenError,
> {
    match r {
        Ok(claims) => Ok(claims@),
        Err(e) => Err(e),
    }
}

/// Reads the five claims from a decoded payload; `None` where one of them is
/// missing or not of its type.
pub fn read_claims(payload: &Value) -> (r: Option<TokenClaims>)
    ensures
        match r {
            Some(claims) => claims_of(payload_view(*payload)) == Some(claims@),
            None => claims_of(payload_view(*payload)) is None,
        },
{
    let exp = claim_integer(payload, "exp");
    let iat = claim_integer(payload, "iat");
    let nbf = claim_integer(payload, "nbf");
    let sub = claim_string(payload, "sub");
    let token_uuid = claim_string(payload, "token_uuid");
    match (exp, iat, nbf, sub, token_uuid) {
        (Some(exp), Some(iat), Some(nbf), Some(sub), Some(token_uuid)) => Some(
            TokenClaims { exp, iat, nbf, sub, token_uuid },
        ),
        _ => None,
    }
}

/// Decides, at time `now`, on a token that `open_token` has opened or
/// refused.
pub fn check_opened(opened: Result<Value, JwtFailure>, now: i64) -> (r: Result<
    TokenClaims,
    TokenError,
>)
    ensures
        claims_result_view(r) == verified(opened_view(opened), now as int),
{
    match opened {
        Err(JwtFailure::InvalidKey) => Err(TokenError::SigningError),
        Err(_) => Err(TokenError::InvalidSignature),
        Ok(payload) => match read_claims(&payload) {
            None => Err(TokenError::MalformedClaims),
            Some(claims) => {
                if claims.exp <= now {
                    Err(TokenError::TokenExpired)
                } else if parse_uuid(claims.token_uuid.as_str()).is_none() {
                    Err(TokenError::MalformedClaims)
                } else {
                    Ok(claims)
                }
            },
        },
    }
}

/// Whether verification accepts the token, with exactly these claims, at
/// every time before their expiry.
pub open spec fn accepted_while_fresh(
    token: Seq<char>,
    secret: Seq<char>,
    claims: ClaimsView,
) -> bool {
    forall|at: int|
        at < claims.exp ==> #[trigger] verified(jwt_opened(token, secret), at) == Ok::<
            ClaimsView,
            TokenError,
        >(claims)
}

/// The payload that carries five claims yields them again.
pub proof fn law_payload_carries_claims(claims: ClaimsView)
    ensures
        claims_of(payload_of(claims)) == Some(claims),
{
    reveal_strlit("exp");
    reveal_strlit("iat");
    reveal_strlit("nbf");
    reveal_strlit("sub");
    reveal_strlit("token_uuid");
    assert("exp"@ != "iat"@) by {
        assert("exp"@[0] != "iat"@[0]);
    }
    assert("exp"@ != "nbf"@) by {
        assert("exp"@[0] != "nbf"@[0]);
    }
    assert("iat"@ != "nbf"@) by {
        assert("iat"@[0] != "nbf"@[0]);
    }
    assert("sub"@ != "token_uuid"@) by {
        assert("sub"@[0] != "token_uuid"@[0]);
    }
}

/// Claims that are issued expire strictly after they were issued, and are
/// valid from the moment of issue.
pub proof fn law_issued_claims_expire_after_issue(
    user_id: Seq<char>,
    max_age: int,
    now: int,
    token_uuid: u128,
)
    requires
        lifetime_fits(now, max_age),
    ensures
        ({
            let claims = issued_claims(user_id, max_age, now, token_uuid);
            &&& claims.iat < claims.exp
            &&& claims.nbf == claims.iat
            &&& claims.exp - claims.iat == max_age * 60
            &&& claims.sub == user_id
        }),
{
}

/// Round trip: a token that opens to claims with a well-formed token
/// identifier is verified, at any time before their expiry, as exactly those
/// claims; so the subject that verification reports is the subject the token
/// was issued to, whatever text that is.
pub proof fn law_issued_token_verifies(token: Seq<char>, secret: Seq<char>, claims: ClaimsView)
    requires
        jwt_opened(token, secret) == Ok::<Payload, JwtFailure>(payload_of(claims)),
        token_id_well_formed(claims),
    ensures
        accepted_while_fresh(token, secret, claims),
{
    law_payload_carries_claims(claims);
}

/// Expiry boundary: a token whose expiry equals `now` or lies before it is
/// refused as expired, whatever else it holds; one second before its expiry
/// a token with a well-formed token identifier is accepted, whatever its
/// subject.
pub proof fn law_expiry_boundary(payload: Payload, claims: ClaimsView, now: int)
    requires
        claims_of(payload) == Some(claims),
    ensures
        claims.exp <= now ==> verified(Ok(payload), now) == Err::<ClaimsView, TokenError>(
            TokenError::TokenExpired,
        ),
        claims.exp == now + 1 && token_id_well_formed(claims) ==> verified(Ok(payload), now)
            == Ok::<ClaimsView, TokenError>(claims),
        verified(Ok(payload), now) is Ok <==> now < claims.exp && token_id_well_formed(claims),
{
}

/// A token that did not open is never accepted: verification fails whatever
/// the time, and fails for the signature unless the key is misconfigured.
pub proof fn law_unopened_token_refused(failure: JwtFailure, now: int)
    ensures
        verified(Err(failure), now) is Err,
        failure != JwtFailure::InvalidKey ==> verified(Err(failure), now) == Err::<
            ClaimsView,
            TokenError,
        >(TokenError::InvalidSignature),
        failure == JwtFailure::InvalidKey ==> verified(Err(failure), now) == Err::<
            ClaimsView,
            TokenError,
        >(TokenError::SigningError),
{
}

impl TokenError {
    /// The failure reported to callers of the services for this error.
    pub open spec fn spec_api_error_message(self) -> Seq<char> {
        match self {
            TokenError::SigningError => "Unable to encode using access_token_string"@,
            TokenError::InvalidLifetime => "Token lifetime is not usable"@,
            TokenError::InvalidSignature => "Token signature is invalid"@,
            TokenError::TokenExpired => "Token has expired"@,
            TokenError::MalformedClaims => "Token claims are malformed"@,
        }
    }

    /// Whether `error` is the service failure that stands for `self`:
    /// failures of issuance are internal, refusals of a token are
    /// `Unauthorized`.
    pub open spec fn is_reported_as(self, error: ApiError) -> bool {
        match self {
            TokenError::SigningError | TokenError::InvalidLifetime => error
                matches ApiError::InternalServerErrorWithContext(m) && m@
                == self.spec_api_error_message(),
            _ => error matches ApiError::Unauthorized(m) && m@ == self.spec_api_error_message(),
        }
    }

    pub fn to_api_error(self) -> (error: ApiError)
        ensures
            self.is_reported_as(error),
    {
        match self {
            TokenError::SigningError => ApiError::InternalServerErrorWithContext(
                "Unable to encode using access_token_string".to_owned(),
            ),
            TokenError::InvalidLifetime => ApiError::InternalServerErrorWithContext(
                "Token lifetime is not usable".to_owned(),
            ),
            TokenError::InvalidSignature => ApiError::Unauthorized(
                "Token signature is invalid".to_owned(),
            ),
            TokenError::TokenExpired => ApiError::Unauthorized("Token has expired".to_owned()),
            TokenError::MalformedClaims => ApiError::Unauthorized(
                "Token claims are malformed".to_owned(),
            ),
        }
    }
}

/// The sole authority for minting and verifying bearer tokens.
#[derive(Debug, Clone)]
pub struct TokenService {
    config: ApiConfig,
}

/// What one call of issuance may return: the outcome of issuing at some time
/// that the clock can show, under some identifier with the marks of a random
/// one. A token that is returned opens to the claims it was issued with.
pub open spec fn issue_outcome(
    r: Result<TokenDetails, TokenError>,
    user_id: Seq<char>,
    secret: Seq<char>,
    max_age: int,
    now: int,
    token_uuid: u128,
) -> bool {
    &&& clock_reading(now)
    &&& is_random_uuid(token_uuid)
    &&& details_result_view(r) == issued(user_id, secret, max_age, now, token_uuid)
    &&& r matches Ok(details) ==> issued_token_opens(
        details.token@,
        user_id,
        secret,
        max_age,
        now,
        token_uuid,
    )
}

/// The details of an issuance that also gave a record.
pub open spec fn details_of_recorded(r: Result<(TokenDetails, StoreCommand), TokenError>) -> Result<
    TokenDetails,
    TokenError,
> {
    match r {
        Ok(pair) => Ok(pair.0),
        Err(e) => Err(e),
    }
}

/// What one call that issues a token together with its record may return:
/// what issuance alone may return, and with a token the one command that
/// records it in the revocation store, under the token's identifier, for its
/// subject, for its lifetime.
pub open spec fn recorded_outcome(
    r: Result<(TokenDetails, StoreCommand), TokenError>,
    user_id: Seq<char>,
    secret: Seq<char>,
    max_age: int,
    now: int,
    token_uuid: u128,
) -> bool {
    &&& issue_outcome(details_of_recorded(r), user_id, secret, max_age, now, token_uuid)
    &&& r matches Ok(pair) ==> pair.1@ == record_command(token_uuid, user_id, max_age)
}

/// What one call that hands out only the signed token may return.
pub open spec fn token_outcome(
    r: ApiResult<String>,
    user_id: Seq<char>,
    secret: Seq<char>,
    max_age: int,
    now: int,
    token_uuid: u128,
) -> bool {
    &&& clock_reading(now)
    &&& is_random_uuid(token_uuid)
    &&& match issued(user_id, secret, max_age, now, token_uuid) {
        Ok(details) => r matches Ok(token) && token@ == details.token && issued_token_opens(
            token@,
            user_id,
            secret,
            max_age,
            now,
            token_uuid,
        ),
        Err(e) => r matches Err(error) && e.is_reported_as(error),
    }
}

/// A lifetime that always fits is never refused, and one that never fits is
/// always refused, at whatever time the clock shows; in between, issuance
/// fails exactly where signing does.
pub proof fn law_lifetime_decides_before_signing(
    user_id: Seq<char>,
    secret: Seq<char>,
    max_age: int,
    now: int,
    token_uuid: u128,
)
    requires
        clock_reading(now),
    ensures
        lifetime_always_fits(max_age) ==> lifetime_fits(now, max_age),
        lifetime_never_fits(max_age) ==> !lifetime_fits(now, max_age),
        issued(user_id, secret, max_age, now, token_uuid) == Err::<DetailsView, TokenError>(
            TokenError::InvalidLifetime,
        ) <==> !lifetime_fits(now, max_age),
        lifetime_fits(now, max_age) ==> (issued(user_id, secret, max_age, now, token_uuid) is Ok
            <==> jwt_signed(issued_claims(user_id, max_age, now, token_uuid), secret) is Ok),
{
}

/// Whether a call failed with the failure that stands for a lifetime that
/// cannot be used.
pub open spec fn refused_for_lifetime<T>(r: ApiResult<T>) -> bool {
    r matches Err(error) && TokenError::InvalidLifetime.is_reported_as(error)
}

/// The failure that stands for a lifetime that cannot be used is the failure
/// of no other error.
pub proof fn law_lifetime_failure_is_told_apart(e: TokenError, error: ApiError)
    requires
        e.is_reported_as(error),
        TokenError::InvalidLifetime.is_reported_as(error),
    ensures
        e == TokenError::InvalidLifetime,
{
    reveal_strlit("Unable to encode using access_token_string");
    reveal_strlit("Token lifetime is not usable");
    if e == TokenError::SigningError {
        assert("Unable to encode using access_token_string"@[0]
            != "Token lifetime is not usable"@[0]);
    }
}

impl TokenService {
    /// The configuration the service was built with.
    pub closed spec fn config(&self) -> ApiConfig {
        self.config
    }

    /// The secret that signs tokens of a role.
    pub open spec fn spec_secret(&self, role: TokenRole) -> Seq<char> {
        match role {
            TokenRole::Access => self.config().access_token_secret@,
            TokenRole::Refresh => self.config().refresh_token_secret@,
        }
    }

    /// The lifetime of tokens of a role, in minutes.
    pub open spec fn spec_max_age(&self, role: TokenRole) -> int {
        match role {
            TokenRole::Access => self.config().access_token_max_age as int,
            TokenRole::Refresh => self.config().refresh_token_max_age as int,
        }
    }

    pub fn new(config: ApiConfig) -> (service: Self)
        ensures
            service.config() == config,
    {
        Self { config }
    }

    pub fn secret(&self, role: TokenRole) -> (secret: &str)
        ensures
            secret@ == self.spec_secret(role),
    {
        match role {
            TokenRole::Access => self.config.access_token_secret.as_str(),
            TokenRole::Refresh => self.config.refresh_token_secret.as_str(),
        }
    }

    pub fn max_age(&self, role: TokenRole) -> (minutes: usize)
        ensures
            minutes == self.spec_max_age(role),
    {
        match role {
            TokenRole::Access => self.config.access_token_max_age,
            TokenRole::Refresh => self.config.refresh_token_max_age,
        }
    }

    /// Issues a token to `user_id` under `token_secret`, valid for `max_age`
    /// minutes from now, with a fresh random identifier.
    ///
    /// A lifetime that always fits is never the reason for a failure: the
    /// call then fails only where signing does.
    pub fn generate_jwt_token(&self, user_id: String, token_secret: &str, max_age: i64) -> (r:
        Result<TokenDetails, TokenError>)
        ensures
            exists|now: i64, token_uuid: u128|
                issue_outcome(r, user_id@, token_secret@, max_age as int, now as int, token_uuid),
            lifetime_always_fits(max_age as int) ==> !(r matches Err(TokenError::InvalidLifetime)),
            lifetime_never_fits(max_age as int) ==> r matches Err(TokenError::InvalidLifetime),
    {
        let now: i64 = unix_now();
        let token_uuid: u128 = random_uuid();
        let r = issue_at(user_id, token_secret, max_age, now, token_uuid);
        assert(issue_outcome(r, user_id@, token_secret@, max_age as int, now as int, token_uuid));
        r
    }

    /// Issues a token of the given role to `subject`, with the secret and
    /// the lifetime configured for that role.
    pub fn issue(&self, subject: String, role: TokenRole) -> (r: Result<TokenDetails, TokenError>)
        ensures
            exists|now: i64, token_uuid: u128|
                issue_outcome(
                    r,
                    subject@,
                    self.spec_secret(role),
                    self.spec_max_age(role),
                    now as int,
                    token_uuid,
                ),
            lifetime_always_fits(self.spec_max_age(role)) ==> !(r matches Err(
                TokenError::InvalidLifetime,
            )),
            lifetime_never_fits(self.spec_max_age(role)) ==> r matches Err(
                TokenError::InvalidLifetime,
            ),
    {
        let minutes: usize = self.max_age(role);
        // A lifetime beyond `i64` is refused like the largest `i64`, which is
        // itself too long to lead to an expiry.
        let wide: u64 = minutes as u64;
        let max_age: i64 = if wide > 0x7fff_ffff_ffff_ffffu64 {
            i64::MAX
        } else {
            wide as i64
        };
        let ghost user_id = subject@;
        let r = self.generate_jwt_token(subject, self.secret(role), max_age);
        proof {
            let (now, token_uuid) = choose|now: i64, token_uuid: u128|
                issue_outcome(
                    r,
                    user_id,
                    self.spec_secret(role),
                    max_age as int,
                    now as int,
                    token_uuid,
                );
            assert(issue_outcome(
                r,
                user_id,
                self.spec_secret(role),
                self.spec_max_age(role),
                now as int,
                token_uuid,
            ));
        }
        r
    }

    /// Issues a token of the given role to `subject` and builds the command
    /// that records it in the revocation store. Sending the command is the
    /// caller's part; a store that refuses it does not undo the token.
    pub fn issue_with_record(&self, subject: String, role: TokenRole) -> (r: Result<
        (TokenDetails, StoreCommand),
        TokenError,
    >)
        ensures
            exists|now: i64, token_uuid: u128|
                recorded_outcome(
                    r,
                    subject@,
                    self.spec_secret(role),
                    self.spec_max_age(role),
                    now as int,
                    token_uuid,
                ),
            lifetime_always_fits(self.spec_max_age(role)) ==> !(r matches Err(
                TokenError::InvalidLifetime,
            )),
            lifetime_never_fits(self.spec_max_age(role)) ==> r matches Err(
                TokenError::InvalidLifetime,
            ),
    {
        let ghost user_id = subject@;
        let issued_token = self.issue(subject, role);
        let ghost (now, token_uuid) = choose|now: i64, token_uuid: u128|
            issue_outcome(
                issued_token,
                user_id,
                self.spec_secret(role),
                self.spec_max_age(role),
                now as int,
                token_uuid,
            );
        let r = match issued_token {
            Err(e) => Err(e),
            Ok(details) => {
                let minutes: usize = self.max_age(role);
                match save_token_to_redis(&details, minutes as i64) {
                    Some(command) => Ok((details, command)),
                    // A token is only issued with a lifetime that can be
                    // written as a time-to-live.
                    None => unreached(),
                }
            },
        };
        assert(recorded_outcome(
            r,
            user_id,
            self.spec_secret(role),
            self.spec_max_age(role),
            now as int,
            token_uuid,
        ));
        r
    }

    /// Issues a token of the given role and hands out the signed token alone.
    pub fn generate_token(&self, user_id: String, role: TokenRole) -> (r: ApiResult<String>)
        ensures
            exists|now: i64, token_uuid: u128|
                token_outcome(
                    r,
                    user_id@,
                    self.spec_secret(role),
                    self.spec_max_age(role),
                    now as int,
                    token_uuid,
                ),
            lifetime_always_fits(self.spec_max_age(role)) ==> !refused_for_lifetime(r),
            lifetime_never_fits(self.spec_max_age(role)) ==> refused_for_lifetime(r),
    {
        let ghost subject = user_id@;
        let issued_token = self.issue(user_id, role);
        let ghost (now, token_uuid) = choose|now: i64, token_uuid: u128|
            issue_outcome(
                issued_token,
                subject,
                self.spec_secret(role),
                self.spec_max_age(role),
                now as int,
                token_uuid,
            );
        let r = match issued_token {
            Ok(details) => Ok(details.token),
            Err(e) => {
                let error = e.to_api_error();
                proof {
                    if TokenError::InvalidLifetime.is_reported_as(error) {
                        law_lifetime_failure_is_told_apart(e, error);
                    }
                }
                Err(error)
            },
        };
        assert(token_outcome(
            r,
            subject,
            self.spec_secret(role),
            self.spec_max_age(role),
            now as int,
            token_uuid,
        ));
        r
    }

    /// Issues an access token to `user_id`.
    ///
    /// With a lifetime that always fits the call fails only where signing
    /// under the access secret does, and the token that is returned opens to
    /// the claims of `user_id`, expiring that lifetime after the time of
    /// issue.
    pub fn generate_access_token(&self, user_id: String) -> (r: ApiResult<String>)
        ensures
            exists|now: i64, token_uuid: u128|
                token_outcome(
                    r,
                    user_id@,
                    self.spec_secret(TokenRole::Access),
                    self.spec_max_age(TokenRole::Access),
                    now as int,
                    token_uuid,
                ),
            lifetime_always_fits(self.spec_max_age(TokenRole::Access)) ==> !refused_for_lifetime(r),
            lifetime_never_fits(self.spec_max_age(TokenRole::Access)) ==> refused_for_lifetime(r),
    {
        self.generate_token(user_id, TokenRole::Access)
    }

    /// Issues a refresh token to `user_id`.
    pub fn generate_refresh_token(&self, user_id: String) -> (r: ApiResult<String>)
        ensures
            exists|now: i64, token_uuid: u128|
                token_outcome(
                    r,
                    user_id@,
                    self.spec_secret(TokenRole::Refresh),
                    self.spec_max_age(TokenRole::Refresh),
                    now as int,
                    token_uuid,
                ),
            lifetime_always_fits(self.spec_max_age(TokenRole::Refresh)) ==> !refused_for_lifetime(
                r,
            ),
            lifetime_never_fits(self.spec_max_age(TokenRole::Refresh)) ==> refused_for_lifetime(r),
    {
        self.generate_token(user_id, TokenRole::Refresh)
    }

    /// Verifies a token of the given role as of `now`: signature first, then
    /// expiry, then the identifiers. The revocation store is not consulted.
    pub fn verify_at(&self, token: &str, role: TokenRole, now: i64) -> (r: Result<
        TokenClaims,
        TokenError,
    >)
        ensures
            claims_result_view(r) == verified(
                jwt_opened(token@, self.spec_secret(role)),
                now as int,
            ),
    {
        let opened = open_token(token, self.secret(role));
        check_opened(opened, now)
    }

    /// Verifies a token of the given role against the clock.
    pub fn verify(&self, token: &str, role: TokenRole) -> (r: Result<TokenClaims, TokenError>)
        ensures
            exists|now: i64|
                clock_reading(now as int) && #[trigger] verified(
                    jwt_opened(token@, self.spec_secret(role)),
                    now as int,
                ) == claims_result_view(r),
    {
        let now: i64 = unix_now();
        let r = self.verify_at(token, role, now);
        assert(verified(jwt_opened(token@, self.spec_secret(role)), now as int)
            == claims_result_view(r));
        r
    }
}

} // verus!
