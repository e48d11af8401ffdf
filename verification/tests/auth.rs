use nexus::auth::{
    bearer_token, validate_jwt_token, validate_jwt_token_at, verify_and_decode_jwt_token,
    verify_and_decode_jwt_token_at, AUTHORIZATION, BEARER,
};
use nexus::config::{ApiConfig, AppConfig, DbConfig};
use nexus::services::token_service::issue_at;
use nexus::AppState;
use std::collections::HashMap;

const GATE_SECRET: &str = "YWNjZXNzLXNpZ25pbmcta2V5LTAxMjM0NTY3ODk=";
const BOB: &str = "7c9e6679-7425-40de-944b-e07fc1f90ae7";
const BOB_TOKEN_UUID: u128 = 0x550e8400_e29b_41d4_a716_446655440000;

fn app_state() -> AppState {
    AppState::new(AppConfig {
        name: "customer_master".to_string(),
        request: HashMap::new(),
        response: HashMap::new(),
        sql: "select 1".to_string(),
        db: DbConfig {
            driver: "driver".to_string(),
            hostname: "localhost".to_string(),
            username: "user".to_string(),
            password: "password".to_string(),
            database: "db".to_string(),
            warehouse: "wh".to_string(),
            schema: "public".to_string(),
            role: "reader".to_string(),
        },
        api: ApiConfig {
            port: 8080,
            host: "127.0.0.1".to_string(),
            endpoint: "/api/nexus/customer_master".to_string(),
            rust_log: "info".to_string(),
            access_token_secret: GATE_SECRET.to_string(),
            access_token_expires_in: "15m".to_string(),
            access_token_max_age: 15,
            refresh_token_secret: "cmVmcmVzaC1zaWduaW5nLWtleS05ODc2NTQzMjEw".to_string(),
            refresh_token_expires_in: "7d".to_string(),
            refresh_token_max_age: 10080,
            password_salt: "somesalt".to_string(),
        },
    })
}

fn token_issued_at(now: i64) -> String {
    issue_at(BOB.to_string(), GATE_SECRET, 15, now, BOB_TOKEN_UUID).unwrap().token
}

#[test]
fn header_name_and_scheme() {
    assert_eq!(AUTHORIZATION, "Authorization");
    assert_eq!(BEARER, "Bearer ");
}

#[test]
fn bearer_token_takes_what_follows_the_scheme() {
    assert_eq!(bearer_token("Bearer abc.def.ghi"), Some("abc.def.ghi"));
    assert_eq!(bearer_token("Bearer "), Some(""));
    assert_eq!(bearer_token("Bearer  two spaces"), Some(" two spaces"));
    assert_eq!(bearer_token("Bearer tökén"), Some("tökén"));
}

#[test]
fn bearer_token_refuses_other_values() {
    for header in ["", "Bearer", "bearer abc", "Basic abc", "Token abc", " Bearer abc", "Bearerabc", "Bäarer abc"] {
        assert_eq!(bearer_token(header), None);
    }
}

#[test]
fn request_without_header_is_unauthorized() {
    assert_eq!(validate_jwt_token(&app_state(), None).unwrap_err(), 401);
    assert_eq!(validate_jwt_token_at(&app_state(), None, 0).unwrap_err(), 401);
}

#[test]
fn request_with_another_scheme_is_unauthorized() {
    let token = token_issued_at(1_700_000_000);
    let header = format!("Basic {token}");
    assert_eq!(
        validate_jwt_token_at(&app_state(), Some(&header), 1_700_000_000).unwrap_err(),
        401
    );
    assert_eq!(
        validate_jwt_token_at(&app_state(), Some(&token), 1_700_000_000).unwrap_err(),
        401
    );
}

#[test]
fn request_with_a_valid_token_is_admitted() {
    let token = token_issued_at(1_700_000_000);
    let header = format!("Bearer {token}");
    let details = validate_jwt_token_at(&app_state(), Some(&header), 1_700_000_000).unwrap();
    assert_eq!(details.token, token);
    assert_eq!(details.token_uuid, BOB_TOKEN_UUID);
    assert_eq!(details.user_id, BOB);
    assert_eq!(details.expires_in, 1_700_000_900);
}

#[test]
fn request_with_a_fresh_token_is_admitted_against_the_clock() {
    let now = chrono::Utc::now().timestamp();
    let token = token_issued_at(now);
    let header = format!("Bearer {token}");
    let details = validate_jwt_token(&app_state(), Some(&header)).unwrap();
    assert_eq!(details.user_id, BOB);
    assert_eq!(details.expires_in, now + 900);
}

#[test]
fn request_with_an_expired_token_is_unauthorized() {
    let token = token_issued_at(1_700_000_000);
    let header = format!("Bearer {token}");
    assert_eq!(
        validate_jwt_token_at(&app_state(), Some(&header), 1_700_000_900).unwrap_err(),
        401
    );
    assert_eq!(validate_jwt_token(&app_state(), Some(&header)).unwrap_err(), 401);
}

#[test]
fn request_with_a_tampered_or_foreign_token_is_unauthorized() {
    let token = token_issued_at(1_700_000_000);
    let mut tampered = token.clone();
    tampered.pop();
    tampered.push(if token.ends_with('A') { 'B' } else { 'A' });
    let header = format!("Bearer {tampered}");
    assert_eq!(
        validate_jwt_token_at(&app_state(), Some(&header), 1_700_000_000).unwrap_err(),
        401
    );
    let foreign = issue_at(
        BOB.to_string(),
        "cmVmcmVzaC1zaWduaW5nLWtleS05ODc2NTQzMjEw",
        15,
        1_700_000_000,
        BOB_TOKEN_UUID,
    )
    .unwrap()
    .token;
    let header = format!("Bearer {foreign}");
    assert_eq!(
        validate_jwt_token_at(&app_state(), Some(&header), 1_700_000_000).unwrap_err(),
        401
    );
    assert_eq!(
        validate_jwt_token_at(&app_state(), Some("Bearer "), 1_700_000_000).unwrap_err(),
        401
    );
}

#[test]
fn misconfigured_key_is_unauthorized_too() {
    let token = token_issued_at(1_700_000_000);
    assert_eq!(
        verify_and_decode_jwt_token_at(&token, "not base64 !!", 1_700_000_000).unwrap_err(),
        401
    );
}

#[test]
fn verify_and_decode_reports_the_caller() {
    let token = token_issued_at(1_700_000_000);
    let details = verify_and_decode_jwt_token_at(&token, GATE_SECRET, 1_700_000_899).unwrap();
    assert_eq!(details.token, token);
    assert_eq!(details.token_uuid, BOB_TOKEN_UUID);
    assert_eq!(details.user_id, BOB);
    assert_eq!(details.expires_in, 1_700_000_900);
    assert_eq!(verify_and_decode_jwt_token(&token, GATE_SECRET).unwrap_err(), 401);
    let fresh = token_issued_at(chrono::Utc::now().timestamp());
    assert_eq!(verify_and_decode_jwt_token(&fresh, GATE_SECRET).unwrap().user_id, BOB);
}

#[test]
fn token_for_a_subject_of_any_text_is_admitted() {
    for subject in ["u1", "alice", "", "7c9e6679-7425-40de-944b-e07fc1f90ae", "ünï cödé 42"] {
        let token = issue_at(subject.to_string(), GATE_SECRET, 15, 1_700_000_000, BOB_TOKEN_UUID)
            .unwrap()
            .token;
        let details = verify_and_decode_jwt_token_at(&token, GATE_SECRET, 1_700_000_899).unwrap();
        assert_eq!(details.user_id, subject);
        assert_eq!(details.token, token);
        assert_eq!(details.token_uuid, BOB_TOKEN_UUID);
        assert_eq!(details.expires_in, 1_700_000_900);
        let header = format!("Bearer {token}");
        let admitted = validate_jwt_token_at(&app_state(), Some(&header), 1_700_000_000).unwrap();
        assert_eq!(admitted.user_id, subject);
    }
}

#[test]
fn token_with_a_malformed_token_id_is_unauthorized() {
    let mut members = serde_json::Map::new();
    members.insert("exp".to_string(), serde_json::Value::from(1_700_000_900i64));
    members.insert("iat".to_string(), serde_json::Value::from(1_700_000_000i64));
    members.insert("nbf".to_string(), serde_json::Value::from(1_700_000_000i64));
    members.insert("sub".to_string(), serde_json::Value::from(BOB));
    members.insert("token_uuid".to_string(), serde_json::Value::from("not-a-uuid"));
    let key = jsonwebtoken::EncodingKey::from_base64_secret(GATE_SECRET).unwrap();
    let token =
        jsonwebtoken::encode(&jsonwebtoken::Header::default(), &members, &key).unwrap();
    assert_eq!(
        verify_and_decode_jwt_token_at(&token, GATE_SECRET, 1_700_000_000).unwrap_err(),
        401
    );
}
