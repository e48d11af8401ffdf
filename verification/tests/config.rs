use nexus::config::{connection_string, ApiConfig, AppConfig, DbConfig};
use nexus::errors::handle_timeout_error;
use nexus::AppState;
use std::collections::HashMap;

fn db_config() -> DbConfig {
    DbConfig {
        driver: "SnowflakeDSIIDriver".to_string(),
        hostname: "acme.example.com".to_string(),
        username: "reader".to_string(),
        password: "p;w=d".to_string(),
        database: "nexus_db".to_string(),
        warehouse: "compute_wh".to_string(),
        schema: "public".to_string(),
        role: "analyst".to_string(),
    }
}

fn app_config(host: &str, port: u16) -> AppConfig {
    AppConfig {
        name: "customer_master".to_string(),
        request: HashMap::new(),
        response: HashMap::new(),
        sql: "select 1".to_string(),
        db: db_config(),
        api: ApiConfig {
            port,
            host: host.to_string(),
            endpoint: "/api/nexus/customer_master".to_string(),
            rust_log: "info".to_string(),
            access_token_secret: "YWNjZXNzLXNpZ25pbmcta2V5LTAxMjM0NTY3ODk=".to_string(),
            access_token_expires_in: "15m".to_string(),
            access_token_max_age: 15,
            refresh_token_secret: "cmVmcmVzaC1zaWduaW5nLWtleS05ODc2NTQzMjEw".to_string(),
            refresh_token_expires_in: "7d".to_string(),
            refresh_token_max_age: 10080,
            password_salt: "somesalt".to_string(),
        },
    }
}

#[test]
fn socket_address_is_host_colon_port() {
    assert_eq!(AppConfig::get_socket_address(&app_config("127.0.0.1", 8080)), "127.0.0.1:8080");
    assert_eq!(AppConfig::get_socket_address(&app_config("0.0.0.0", 0)), "0.0.0.0:0");
    assert_eq!(AppConfig::get_socket_address(&app_config("::1", 9)), "::1:9");
    assert_eq!(AppConfig::get_socket_address(&app_config("h", 10)), "h:10");
    assert_eq!(AppConfig::get_socket_address(&app_config("h", 65535)), "h:65535");
    assert_eq!(AppConfig::get_socket_address(&app_config("", 10203)), ":10203");
}

#[test]
fn connection_string_lists_every_setting_in_order() {
    assert_eq!(
        connection_string(&db_config()),
        "Driver=SnowflakeDSIIDriver;server=acme.example.com;database=nexus_db;schema=public;\
         warehouse=compute_wh;role=analyst;UID=reader;PWD=p;w=d"
    );
}

#[test]
fn app_state_keeps_the_configuration() {
    let state = AppState::new(app_config("127.0.0.1", 8080));
    assert_eq!(state.config.name, "customer_master");
    assert_eq!(state.config.api.endpoint, "/api/nexus/customer_master");
    assert_eq!(state.config.api.port, 8080);
}

#[test]
fn timeouts_are_answered_with_408_and_other_failures_with_500() {
    assert_eq!(
        handle_timeout_error(true, "deadline has elapsed"),
        (408, "request took longer than the configured 30 second timeout".to_string())
    );
    assert_eq!(
        handle_timeout_error(false, "connection reset"),
        (500, "unhandled internal error: connection reset".to_string())
    );
}
