//! The revocation store: a cache outside the process that records, for each
//! live token, the subject it was issued to, and forgets the entry when the
//! token's lifetime has passed.
//!
//! The library builds the commands and reads the replies; sending them is
//! the caller's part.

use crate::identifiers::{hyphenated, uuid_to_string};
use crate::services::token_service::{
    issued_claims, lifetime_fits, ClaimsView, TokenClaims, TokenDetails, SECONDS_PER_MINUTE,
};
use vstd::prelude::*;

verus! {

/// A command of the store's protocol.
#[derive(Debug)]
pub enum StoreCommand {
    /// `SETEX key value seconds`: record `value` under `key` for `seconds`.
    SetEx { key: String, value: String, seconds: u64 },
    /// `GET key`: the value recorded under `key`, if any.
    Get { key: String },
    /// `DEL key`: forget `key`.
    Del { key: String },
}

/// The mathematical content of a [`StoreCommand`].
pub enum CommandView {
    SetEx { key: Seq<char>, value: Seq<char>, seconds: int },
    Get { key: Seq<char> },
    Del { key: Seq<char> },
}

impl View for StoreCommand {
    type V = CommandView;

    open spec fn view(&self) -> CommandView {
        match self {
            StoreCommand::SetEx { key, value, seconds } => CommandView::SetEx {
                key: key@,
                value: value@,
                seconds: *seconds as int,
            },
            StoreCommand::Get { key } => CommandView::Get { key: key@ },
            StoreCommand::Del { key } => CommandView::Del { key: key@ },
        }
    }
}

/// Where a token stands in its life.
#[derive(Debug, Clone, Copy, PartialEq, Eq, Structural)]
pub enum TokenStatus {
    /// Not expired, and recorded in the store for its subject.
    Active,
    /// Its expiry has passed.
    Expired,
    /// Not expired, but the store no longer records it for its subject.
    Revoked,
}

/// Whether a lifetime in minutes can be written as a time-to-live: a number
/// of seconds that is not negative and within `i64`. Whether the store takes
/// a time-to-live of zero is for the store to say.
pub open spec fn ttl_fits(max_age: int) -> bool {
    0 <= max_age && max_age * 60 <= i64::MAX
}

/// The command that records a freshly issued token: its identifier as key,
/// its subject as value, its lifetime in seconds as time-to-live.
pub open spec fn record_command(details_id: u128, subject: Seq<char>, max_age: int) -> CommandView {
    CommandView::SetEx { key: hyphenated(details_id), value: subject, seconds: max_age * 60 }
}

/// The status of a token at time `now`, given what the store replied to a
/// `GET` for its identifier.
pub open spec fn spec_status(
    claims: ClaimsView,
    now: int,
    stored: Option<Seq<char>>,
) -> TokenStatus {
    if claims.exp <= now {
        TokenStatus::Expired
    } else if stored == Some(claims.sub) {
        TokenStatus::Active
    } else {
        TokenStatus::Revoked
    }
}

/// The view of a reply to `GET`.
pub open spec fn reply_view(stored: Option<&String>) -> Option<Seq<char>> {
    match stored {
        Some(subject) => Some(subject@),
        None => None,
    }
}

/// The `SETEX` that records `token_details` for `max_age` minutes; `None`
/// where that lifetime is negative or its seconds are beyond `i64`.
pub fn save_token_to_redis(token_details: &TokenDetails, max_age: i64) -> (command: Option<
    StoreCommand,
>)
    ensures
        match command {
            Some(c) => ttl_fits(max_age as int) && c@ == record_command(
                token_details.token_uuid,
                token_details.user_id@,
                max_age as int,
            ),
            None => !ttl_fits(max_age as int),
        },
{
    if max_age < 0 {
        return None;
    }
    match max_age.checked_mul(SECONDS_PER_MINUTE) {
        None => None,
        Some(seconds) => Some(
            StoreCommand::SetEx {
                key: uuid_to_string(token_details.token_uuid),
                value: token_details.user_id.clone(),
                seconds: seconds as u64,
            },
        ),
    }
}

/// The `GET` that asks whether a token is still recorded.
pub fn lookup_token(token_uuid: u128) -> (command: StoreCommand)
    ensures
        command@ == (CommandView::Get { key: hyphenated(token_uuid) }),
{
    StoreCommand::Get { key: uuid_to_string(token_uuid) }
}

/// The `DEL` that revokes a token before its expiry.
pub fn revoke_token(token_uuid: u128) -> (command: StoreCommand)
    ensures
        command@ == (CommandView::Del { key: hyphenated(token_uuid) }),
{
    StoreCommand::Del { key: uuid_to_string(token_uuid) }
}

/// Where a verified token stands at `now`, given the store's reply to a
/// `GET` for its identifier.
pub fn token_status(claims: &TokenClaims, now: i64, stored: Option<&String>) -> (status:
    TokenStatus)
    ensures
        status == spec_status(claims@, now as int, reply_view(stored)),
{
    if claims.exp <= now {
        TokenStatus::Expired
    } else {
        match stored {
            Some(subject) => if *subject == claims.sub {
                TokenStatus::Active
            } else {
                TokenStatus::Revoked
            },
            None => TokenStatus::Revoked,
        }
    }
}

/// The record of a token lives exactly as long as the token: whenever a token
/// can be issued its record can be written, under the token's identifier and
/// for its subject, with the time from issue to expiry as time-to-live.
pub proof fn law_record_lives_as_long_as_token(
    user_id: Seq<char>,
    max_age: int,
    now: int,
    token_uuid: u128,
)
    requires
        lifetime_fits(now, max_age),
    ensures
        ttl_fits(max_age),
        ({
            let claims = issued_claims(user_id, max_age, now, token_uuid);
            record_command(token_uuid, user_id, max_age) == (CommandView::SetEx {
                key: claims.token_uuid,
                value: claims.sub,
                seconds: claims.exp - claims.iat,
            })
        }),
{
}

/// `Expired` and `Revoked` are final: once a token's expiry has passed it is
/// `Expired` at every later time whatever the store replies, and a token is
/// `Active` only before its expiry and while the store records its subject.
pub proof fn law_status_is_final(
    claims: ClaimsView,
    now: int,
    later: int,
    stored: Option<Seq<char>>,
    stored_later: Option<Seq<char>>,
)
    requires
        now <= later,
    ensures
        spec_status(claims, now, stored) == TokenStatus::Expired ==> spec_status(
            claims,
            later,
            stored_later,
        ) == TokenStatus::Expired,
        spec_status(claims, now, stored) == TokenStatus::Active <==> now < claims.exp && stored
            == Some(claims.sub),
        stored_later is None ==> spec_status(claims, later, stored_later) != TokenStatus::Active,
{
}

} // verus!
