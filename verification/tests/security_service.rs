use nexus::config::ApiConfig;
use nexus::services::security_service::{PasswordError, SecurityService};

fn security_config(salt: &str) -> ApiConfig {
    ApiConfig {
        port: 8080,
        host: "127.0.0.1".to_string(),
        endpoint: "/api/nexus/customer_master".to_string(),
        rust_log: "info".to_string(),
        access_token_secret: "YWNjZXNzLXNpZ25pbmcta2V5LTAxMjM0NTY3ODk=".to_string(),
        access_token_expires_in: "15m".to_string(),
        access_token_max_age: 15,
        refresh_token_secret: "cmVmcmVzaC1zaWduaW5nLWtleS05ODc2NTQzMjEw".to_string(),
        refresh_token_expires_in: "7d".to_string(),
        refresh_token_max_age: 10080,
        password_salt: salt.to_string(),
    }
}

fn security_service() -> SecurityService {
    SecurityService::new(security_config("somesalt"))
}

#[test]
fn hash_is_the_exact_encoded_form() {
    let hash = security_service().hash("password").unwrap();
    assert!(hash.starts_with("$argon2id$v=19$m=19456,t=2,p=1$c29tZXNhbHQ$"));
    assert_eq!(hash.split('$').count(), 6);
    assert_eq!(hash.split('$').nth(5).unwrap().len(), 43);
}

#[test]
fn hash_is_deterministic_for_password_and_salt() {
    let service = security_service();
    assert_eq!(service.hash("secret123").unwrap(), service.hash("secret123").unwrap());
    assert_ne!(service.hash("secret123").unwrap(), service.hash("secret124").unwrap());
    let other = SecurityService::new(security_config("othersalt"));
    assert_ne!(service.hash("secret123").unwrap(), other.hash("secret123").unwrap());
}

#[test]
fn hashed_password_verifies() {
    let service = security_service();
    for password in ["secret123", "", "pässwörd with spaces", "a$b$c"] {
        let hash = service.hash(password).unwrap();
        assert_eq!(service.verify(&hash, password), Ok(true));
    }
}

#[test]
fn other_password_does_not_verify() {
    let service = security_service();
    let hash = service.hash("secret123").unwrap();
    for other in ["secret124", "Secret123", "", "secret123 "] {
        assert_eq!(service.verify(&hash, other), Ok(false));
    }
}

#[test]
fn verification_needs_no_salt_from_the_configuration() {
    let hash = security_service().hash("secret123").unwrap();
    let other = SecurityService::new(security_config("a different salt"));
    assert_eq!(other.verify(&hash, "secret123"), Ok(true));
}

#[test]
fn malformed_hash_is_an_invalid_format() {
    let service = security_service();
    for stored in ["", "plain text", "$argon2id$v=19$m=19456,t=2,p=1$c29tZXNhbHQ", "$md5$abc$def$ghi$jkl"] {
        assert_eq!(
            service.verify(stored, "secret123"),
            Err(PasswordError::InvalidHashFormat)
        );
    }
}

#[test]
fn salt_shorter_than_eight_bytes_is_a_hashing_error() {
    let service = SecurityService::new(security_config("1234567"));
    assert_eq!(service.hash("secret123"), Err(PasswordError::HashingError));
    let service = SecurityService::new(security_config(""));
    assert_eq!(service.hash("secret123"), Err(PasswordError::HashingError));
    let service = SecurityService::new(security_config("12345678"));
    assert!(service.hash("secret123").is_ok());
}

#[test]
fn hash_password_reports_failure_as_internal() {
    let service = SecurityService::new(security_config("short"));
    let error = service.hash_password("secret123").unwrap_err();
    assert_eq!(error.status_code(), 500);
    assert_eq!(error.message(), "Unable to hash password");
    let hash = security_service().hash_password("secret123").unwrap();
    assert_eq!(hash, security_service().hash("secret123").unwrap());
}

#[test]
fn verify_password_reports_a_malformed_hash_as_a_failed_attempt() {
    let service = security_service();
    let error = service.verify_password("garbage", "secret123").unwrap_err();
    assert_eq!(error.status_code(), 400);
    assert_eq!(error.message(), "username or password is incorrect");
    let hash = service.hash("secret123").unwrap();
    assert!(service.verify_password(&hash, "secret123").unwrap());
    assert!(!service.verify_password(&hash, "wrong").unwrap());
}
