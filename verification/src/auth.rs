//! Admission of inbound requests: the bearer token is taken from the
//! `Authorization` header and verified, and every refusal is answered alike.

use crate::clock::{clock_reading, unix_now};
use crate::errors::STATUS_UNAUTHORIZED;
use crate::identifiers::{parse_uuid, uuid_parsed};
use crate::jwt::{jwt_opened, open_token};
use crate::services::token_service::{
    check_opened, issued_claims, issued_token_opens, verified, TokenClaims, TokenError,
};
use crate::AppState;
use vstd::pervasive::unreached;
use vstd::prelude::*;

verus! {

/// The header that carries the credential.
pub const AUTHORIZATION: &'static str = "Authorization";

/// The one scheme that is recognised, with the space that ends it.
pub const BEARER: &'static str = "Bearer ";

/// What the handlers behind the check get to know of the caller.
#[derive(Debug, Clone)]
pub struct ValidatedTokenDetails {
    /// The token as it was presented.
    pub token: String,
    /// The token's identifier.
    pub token_uuid: u128,
    /// The user the token was issued to.
    pub user_id: String,
    /// Expiry, in seconds since the epoch.
    pub expires_in: i64,
}

/// The mathematical content of a [`ValidatedTokenDetails`].
pub struct ValidatedView {
    pub token: Seq<char>,
    pub token_uuid: u128,
    pub user_id: Seq<char>,
    pub expires_in: int,
}

impl View for ValidatedTokenDetails {
    type V = ValidatedView;

    open spec fn view(&self) -> ValidatedView {
        ValidatedView {
            token: self.token@,
            token_uuid: self.token_uuid,
            user_id: self.user_id@,
            expires_in: self.expires_in as int,
        }
    }
}

/// The body of an error answer.
#[derive(Debug)]
pub struct ErrorResponse {
    pub status: &'static str,
    pub message: String,
}

/// Whether a header value uses the bearer scheme.
pub open spec fn has_bearer_prefix(header: Seq<char>) -> bool {
    BEARER@.is_prefix_of(header)
}

/// The token that a header value of the bearer scheme carries.
pub open spec fn bearer_part(header: Seq<char>) -> Seq<char> {
    header.subrange(BEARER@.len() as int, header.len() as int)
}

/// What admission, at time `now`, makes of a token: its details where
/// verification accepts it, and the one status `401` for every refusal.
pub open spec fn decoded(token: Seq<char>, secret: Seq<char>, now: int) -> Result<
    ValidatedView,
    u16,
> {
    match verified(jwt_opened(token, secret), now) {
        Ok(claims) => Ok(
            ValidatedView {
                token,
                token_uuid: uuid_parsed(claims.token_uuid).unwrap(),
                user_id: claims.sub,
                expires_in: claims.exp,
            },
        ),
        Err(_) => Err(STATUS_UNAUTHORIZED),
    }
}

/// What admission, at time `now`, makes of a request with the given
/// `Authorization` header, if any.
pub open spec fn admitted(authorization: Option<Seq<char>>, secret: Seq<char>, now: int) -> Result<
    ValidatedView,
    u16,
> {
    match authorization {
        None => Err(STATUS_UNAUTHORIZED),
        Some(header) => if has_bearer_prefix(header) {
            decoded(bearer_part(header), secret, now)
        } else {
            Err(STATUS_UNAUTHORIZED)
        },
    }
}

/// The view of a header that may be absent.
pub open spec fn header_view(authorization: Option<&str>) -> Option<Seq<char>> {
    match authorization {
        Some(header) => Some(header@),
        None => None,
    }
}

/// The view of an admission result.
pub open spec fn admission_view(r: Result<ValidatedTokenDetails, u16>) -> Result<
    ValidatedView,
    u16,
> {
    match r {
        Ok(details) => Ok(details@),
        Err(status) => Err(status),
    }
}

/// Takes the token from a header value of the form `Bearer <token>`; `None`
/// for any other value.
pub fn bearer_token(header: &str) -> (token: Option<&str>)
    ensures
        match token {
            Some(t) => has_bearer_prefix(header@) && t@ == bearer_part(header@),
            None => !has_bearer_prefix(header@),
        },
{
    proof {
        reveal_strlit("Bearer ");
    }
    let length: usize = header.unicode_len();
    if length < 7 {
        return None;
    }
    let mut i: usize = 0;
    while i < 7
        invariant
            i <= 7 <= length == header@.len(),
            BEARER@.len() == 7,
            forall|j: int| 0 <= j < i ==> header@[j] == BEARER@[j],
        decreases 7 - i,
    {
        if header.get_char(i) != BEARER.get_char(i) {
            return None;
        }
        i += 1;
    }
    assert(BEARER@ =~= header@.subrange(0, 7));
    Some(header.substring_char(7, length))
}

/// Details of the caller, from claims that verification has accepted.
fn details_of(token: &str, claims: TokenClaims) -> (details: ValidatedTokenDetails)
    requires
        uuid_parsed(claims.token_uuid@) is Some,
    ensures
        details@ == (ValidatedView {
            token: token@,
            token_uuid: uuid_parsed(claims.token_uuid@).unwrap(),
            user_id: claims.sub@,
            expires_in: claims.exp as int,
        }),
{
    let token_uuid: u128 = match parse_uuid(claims.token_uuid.as_str()) {
        Some(id) => id,
        None => unreached(),
    };
    ValidatedTokenDetails {
        token: token.to_owned(),
        token_uuid,
        user_id: claims.sub,
        expires_in: claims.exp,
    }
}

/// Verifies `token` under `token_secret` as of `now` and reports the caller.
pub fn verify_and_decode_jwt_token_at(token: &str, token_secret: &str, now: i64) -> (r: Result<
    ValidatedTokenDetails,
    u16,
>)
    ensures
        admission_view(r) == decoded(token@, token_secret@, now as int),
{
    let opened = open_token(token, token_secret);
    match check_opened(opened, now) {
        Ok(claims) => Ok(details_of(token, claims)),
        Err(_) => Err(STATUS_UNAUTHORIZED),
    }
}

/// Verifies `token` under `token_secret` against the clock and reports the
/// caller.
pub fn verify_and_decode_jwt_token(token: &str, token_secret: &str) -> (r: Result<
    ValidatedTokenDetails,
    u16,
>)
    ensures
        exists|now: i64|
            clock_reading(now as int) && #[trigger] decoded(
                token@,
                token_secret@,
                now as int,
            ) == admission_view(r),
{
    let now: i64 = unix_now();
    let r = verify_and_decode_jwt_token_at(token, token_secret, now);
    assert(decoded(token@, token_secret@, now as int) == admission_view(r));
    r
}

/// Admits or refuses, as of `now`, a request with the given `Authorization`
/// header. No directory or store is consulted.
pub fn validate_jwt_token_at(app_state: &AppState, authorization: Option<&str>, now: i64) -> (r:
    Result<ValidatedTokenDetails, u16>)
    ensures
        admission_view(r) == admitted(
            header_view(authorization),
            app_state.config.api.access_token_secret@,
            now as int,
        ),
{
    match authorization {
        None => Err(STATUS_UNAUTHORIZED),
        Some(header) => match bearer_token(header) {
            None => Err(STATUS_UNAUTHORIZED),
            Some(token) => verify_and_decode_jwt_token_at(
                token,
                app_state.config.api.access_token_secret.as_str(),
                now,
            ),
        },
    }
}

/// Admits or refuses a request with the given `Authorization` header,
/// against the clock.
pub fn validate_jwt_token(app_state: &AppState, authorization: Option<&str>) -> (r: Result<
    ValidatedTokenDetails,
    u16,
>)
    ensures
        exists|now: i64|
            clock_reading(now as int) && #[trigger] admitted(
                header_view(authorization),
                app_state.config.api.access_token_secret@,
                now as int,
            ) == admission_view(r),
{
    let now: i64 = unix_now();
    let r = validate_jwt_token_at(app_state, authorization, now);
    assert(admitted(
        header_view(authorization),
        app_state.config.api.access_token_secret@,
        now as int,
    ) == admission_view(r));
    r
}

/// Every refusal is `401`: no other status leaves admission, whatever the
/// header, the secret and the time.
pub proof fn law_refusals_are_unauthorized(
    authorization: Option<Seq<char>>,
    secret: Seq<char>,
    now: int,
)
    ensures
        admitted(authorization, secret, now) matches Err(status) ==> status == STATUS_UNAUTHORIZED,
        authorization is None ==> admitted(authorization, secret, now) is Err,
{
}

/// A request is admitted exactly when its header uses the bearer scheme and
/// verification accepts the token it carries; the caller reported is then
/// the subject of the token's claims.
pub proof fn law_admitted_iff_verified(header: Seq<char>, secret: Seq<char>, now: int)
    ensures
        admitted(Some(header), secret, now) is Ok <==> has_bearer_prefix(header) && verified(
            jwt_opened(bearer_part(header), secret),
            now,
        ) is Ok,
        admitted(Some(header), secret, now) matches Ok(details) ==> verified(
            jwt_opened(bearer_part(header), secret),
            now,
        ) matches Ok(claims) && details.user_id == claims.sub && details.expires_in == claims.exp
            && now < details.expires_in,
{
}

/// A token that was issued is admitted at every time before its expiry,
/// whatever text its subject is, and what is reported of the caller is what
/// was issued: the same token, the same token identifier, the same user and
/// the same expiry.
pub proof fn law_issued_token_is_admitted(
    token: Seq<char>,
    user_id: Seq<char>,
    secret: Seq<char>,
    max_age: int,
    now: int,
    token_uuid: u128,
    at: int,
)
    requires
        issued_token_opens(token, user_id, secret, max_age, now, token_uuid),
        at < now + max_age * 60,
    ensures
        decoded(token, secret, at) == Ok::<ValidatedView, u16>(
            ValidatedView { token, token_uuid, user_id, expires_in: now + max_age * 60 },
        ),
        admitted(Some(BEARER@ + token), secret, at) == decoded(token, secret, at),
{
    let claims = issued_claims(user_id, max_age, now, token_uuid);
    assert(verified(jwt_opened(token, secret), at) == Ok::<_, TokenError>(claims));
    let header = BEARER@ + token;
    assert(header.subrange(0, BEARER@.len() as int) =~= BEARER@);
    assert(bearer_part(header) =~= token);
}

} // verus!
