use nexus::repositories::token_repository::{
    lookup_token, revoke_token, save_token_to_redis, token_status, StoreCommand, TokenStatus,
};
use nexus::services::token_service::{issue_at, TokenClaims, TokenDetails};

const STORE_SECRET: &str = "YWNjZXNzLXNpZ25pbmcta2V5LTAxMjM0NTY3ODk=";
const CAROL: &str = "7c9e6679-7425-40de-944b-e07fc1f90ae7";

fn stored_details() -> TokenDetails {
    issue_at(
        CAROL.to_string(),
        STORE_SECRET,
        15,
        1_700_000_000,
        0x550e8400_e29b_41d4_a716_446655440000,
    )
    .unwrap()
}

fn stored_claims() -> TokenClaims {
    TokenClaims {
        exp: 1_700_000_900,
        iat: 1_700_000_000,
        nbf: 1_700_000_000,
        sub: CAROL.to_string(),
        token_uuid: "550e8400-e29b-41d4-a716-446655440000".to_string(),
    }
}

#[test]
fn record_is_keyed_by_token_id_and_lives_for_the_lifetime() {
    match save_token_to_redis(&stored_details(), 15) {
        Some(StoreCommand::SetEx { key, value, seconds }) => {
            assert_eq!(key, "550e8400-e29b-41d4-a716-446655440000");
            assert_eq!(value, CAROL);
            assert_eq!(seconds, 900);
        }
        other => panic!("unexpected command: {other:?}"),
    }
}

#[test]
fn record_with_a_lifetime_of_zero_is_still_written() {
    match save_token_to_redis(&stored_details(), 0) {
        Some(StoreCommand::SetEx { key, value, seconds }) => {
            assert_eq!(key, "550e8400-e29b-41d4-a716-446655440000");
            assert_eq!(value, CAROL);
            assert_eq!(seconds, 0);
        }
        other => panic!("unexpected command: {other:?}"),
    }
    match save_token_to_redis(&stored_details(), 1) {
        Some(StoreCommand::SetEx { seconds, .. }) => assert_eq!(seconds, 60),
        other => panic!("unexpected command: {other:?}"),
    }
}

#[test]
fn record_needs_a_lifetime_that_can_be_written() {
    assert!(save_token_to_redis(&stored_details(), -1).is_none());
    assert!(save_token_to_redis(&stored_details(), i64::MIN).is_none());
    assert!(save_token_to_redis(&stored_details(), i64::MAX / 60 + 1).is_none());
    match save_token_to_redis(&stored_details(), i64::MAX / 60) {
        Some(StoreCommand::SetEx { seconds, .. }) => {
            assert_eq!(seconds, 9_223_372_036_854_775_800);
        }
        other => panic!("unexpected command: {other:?}"),
    }
}

#[test]
fn token_ids_are_written_in_hyphenated_lower_case() {
    match lookup_token(0x0123_4567_89AB_CDEF_FEDC_BA98_7654_3210) {
        StoreCommand::Get { key } => assert_eq!(key, "01234567-89ab-cdef-fedc-ba9876543210"),
        other => panic!("unexpected command: {other:?}"),
    }
    match lookup_token(0) {
        StoreCommand::Get { key } => assert_eq!(key, "00000000-0000-0000-0000-000000000000"),
        other => panic!("unexpected command: {other:?}"),
    }
    match revoke_token(u128::MAX) {
        StoreCommand::Del { key } => assert_eq!(key, "ffffffff-ffff-ffff-ffff-ffffffffffff"),
        other => panic!("unexpected command: {other:?}"),
    }
    match revoke_token(1) {
        StoreCommand::Del { key } => assert_eq!(key, "00000000-0000-0000-0000-000000000001"),
        other => panic!("unexpected command: {other:?}"),
    }
}

#[test]
fn recorded_token_is_active_until_expiry() {
    let subject = CAROL.to_string();
    assert_eq!(
        token_status(&stored_claims(), 1_700_000_000, Some(&subject)),
        TokenStatus::Active
    );
    assert_eq!(
        token_status(&stored_claims(), 1_700_000_899, Some(&subject)),
        TokenStatus::Active
    );
    assert_eq!(
        token_status(&stored_claims(), 1_700_000_900, Some(&subject)),
        TokenStatus::Expired
    );
    assert_eq!(token_status(&stored_claims(), 1_700_000_901, None), TokenStatus::Expired);
}

#[test]
fn token_missing_from_the_store_is_revoked() {
    assert_eq!(token_status(&stored_claims(), 1_700_000_000, None), TokenStatus::Revoked);
    let other = "00000000-0000-0000-0000-000000000001".to_string();
    assert_eq!(
        token_status(&stored_claims(), 1_700_000_000, Some(&other)),
        TokenStatus::Revoked
    );
}
