//! The configuration that the services are built from. It is read once, at
//! start-up, and handed to each service by value.

use std::collections::HashMap;
use vstd::prelude::*;

verus! {

/// Everything the process is configured with.
#[derive(Debug, Clone)]
pub struct AppConfig {
    pub name: String,
    pub request: HashMap<String, String>,
    pub response: HashMap<String, String>,
    pub sql: String,
    pub db: DbConfig,
    pub api: ApiConfig,
}

/// How the user directory is reached.
#[derive(Debug, Clone)]
pub struct DbConfig {
    pub driver: String,
    pub hostname: String,
    pub username: String,
    pub password: String,
    pub database: String,
    pub warehouse: String,
    pub schema: String,
    pub role: String,
}

/// Settings of the HTTP API and of the credentials it issues.
#[derive(Debug, Clone)]
pub struct ApiConfig {
    pub port: u16,
    pub host: String,
    pub endpoint: String,
    pub rust_log: String,
    /// Base64 text of the key that signs access tokens.
    pub access_token_secret: String,
    pub access_token_expires_in: String,
    /// Lifetime of an access token, in minutes.
    pub access_token_max_age: usize,
    /// Base64 text of the key that signs refresh tokens.
    pub refresh_token_secret: String,
    pub refresh_token_expires_in: String,
    /// Lifetime of a refresh token, in minutes.
    pub refresh_token_max_age: usize,
    /// Salt mixed into every password hash.
    pub password_salt: String,
}

/// The character for a decimal digit `d`, where `d < 10`.
pub open spec fn digit_char(d: nat) -> char {
    seq!['0', '1', '2', '3', '4', '5', '6', '7', '8', '9'][d as int]
}

/// A number written in decimal, without leading zeros.
pub open spec fn decimal(n: nat) -> Seq<char>
    decreases n,
{
    if n < 10 {
        seq![digit_char(n)]
    } else {
        decimal(n / 10).push(digit_char(n % 10))
    }
}

/// The address that the server listens on, as text: host, colon, port.
pub open spec fn spec_socket_address(host: Seq<char>, port: u16) -> Seq<char> {
    host + seq![':'] + decimal(port as nat)
}

/// The text that opens a connection to the user directory.
pub open spec fn spec_connection_string(db: DbConfig) -> Seq<char> {
    "Driver="@ + db.driver@ + ";server="@ + db.hostname@ + ";database="@ + db.database@
        + ";schema="@ + db.schema@ + ";warehouse="@ + db.warehouse@ + ";role="@ + db.role@
        + ";UID="@ + db.username@ + ";PWD="@ + db.password@
}

/// One decimal digit as text.
fn digit_text(d: u16) -> (text: &'static str)
    requires
        d < 10,
    ensures
        text@ == seq![digit_char(d as nat)],
{
    let text = match d {
        0 => "0",
        1 => "1",
        2 => "2",
        3 => "3",
        4 => "4",
        5 => "5",
        6 => "6",
        7 => "7",
        8 => "8",
        _ => "9",
    };
    proof {
        reveal_strlit("0");
        reveal_strlit("1");
        reveal_strlit("2");
        reveal_strlit("3");
        reveal_strlit("4");
        reveal_strlit("5");
        reveal_strlit("6");
        reveal_strlit("7");
        reveal_strlit("8");
        reveal_strlit("9");
        assert(text@ =~= seq![digit_char(d as nat)]);
    }
    text
}

/// Appends `n` in decimal to `text`.
fn push_decimal(text: String, n: u16) -> (longer: String)
    ensures
        longer@ == text@ + decimal(n as nat),
    decreases n,
{
    if n < 10 {
        text.concat(digit_text(n))
    } else {
        let longer = push_decimal(text, n / 10).concat(digit_text(n % 10));
        assert(longer@ =~= text@ + decimal(n as nat));
        longer
    }
}

impl AppConfig {
    /// The address that the server listens on, as text.
    pub fn get_socket_address(app_cfg: &AppConfig) -> (address: String)
        ensures
            address@ == spec_socket_address(app_cfg.api.host@, app_cfg.api.port),
    {
        proof {
            reveal_strlit(":");
            assert(":"@ =~= seq![':']);
        }
        push_decimal(app_cfg.api.host.clone().concat(":"), app_cfg.api.port)
    }
}

/// The text that opens a connection to the user directory: every setting of
/// `db_cfg` under its key, in a fixed order.
pub fn connection_string(db_cfg: &DbConfig) -> (text: String)
    ensures
        text@ == spec_connection_string(*db_cfg),
{
    let text = "Driver=".to_owned();
    let text = text.concat(db_cfg.driver.as_str());
    let text = text.concat(";server=");
    let text = text.concat(db_cfg.hostname.as_str());
    let text = text.concat(";database=");
    let text = text.concat(db_cfg.database.as_str());
    let text = text.concat(";schema=");
    let text = text.concat(db_cfg.schema.as_str());
    let text = text.concat(";warehouse=");
    let text = text.concat(db_cfg.warehouse.as_str());
    let text = text.concat(";role=");
    let text = text.concat(db_cfg.role.as_str());
    let text = text.concat(";UID=");
    let text = text.concat(db_cfg.username.as_str());
    let text = text.concat(";PWD=");
    text.concat(db_cfg.password.as_str())
}

} // verus!
