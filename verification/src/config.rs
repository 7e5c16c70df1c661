//! The service's settings, and how they are made of the variables that the
//! process was started with.

use vstd::prelude::*;

verus! {

/// Where the mirror's rows are kept.
#[derive(Debug, Clone)]
pub struct DatabaseConfig {
    pub url: String,
    pub max_connections: u32,
}

/// How the ledger is reached.
#[derive(Debug, Clone)]
pub struct SolanaConfig {
    pub rpc_url: String,
    pub ws_url: String,
    pub commitment: String,
}

/// The service's secrets and limits. `key_encryption_key` is the passphrase
/// under which ephemeral keys are sealed.
#[derive(Debug, Clone)]
pub struct SecurityConfig {
    pub key_encryption_key: String,
    pub jwt_secret: String,
    pub rate_limit_sessions_per_minute: u32,
}

/// The service's settings.
#[derive(Debug, Clone)]
pub struct Config {
    pub listen_addr: String,
    pub database: DatabaseConfig,
    pub solana: SolanaConfig,
    pub security: SecurityConfig,
}

/// The variables that settings are read from, each as it was found: `None`
/// where it is not set.
#[derive(Debug, Clone)]
pub struct Variables {
    pub listen_addr: Option<String>,
    pub database_url: Option<String>,
    pub database_max_connections: Option<String>,
    pub solana_rpc_url: Option<String>,
    pub solana_ws_url: Option<String>,
    pub solana_commitment: Option<String>,
    pub key_encryption_key: Option<String>,
    pub jwt_secret: Option<String>,
    pub rate_limit_sessions_per_minute: Option<String>,
}

/// A variable that has no default and is not set.
#[derive(Debug, Clone, Copy, PartialEq, Eq, Structural)]
pub enum ConfigError {
    MissingDatabaseUrl,
    MissingKeyEncryptionKey,
    MissingJwtSecret,
}

/// Connections to the database where the variable is not set or is no number.
pub const DEFAULT_MAX_CONNECTIONS: u32 = 10;

/// Sessions per minute where the variable is not set or is no number.
pub const DEFAULT_RATE_LIMIT: u32 = 60;

/// The value of a decimal digit; `None` for every other character.
pub open spec fn digit_value(c: char) -> Option<nat> {
    if 0x30 <= c as int <= 0x39 {
        Some((c as int - 0x30) as nat)
    } else {
        None
    }
}

/// The number that a run of decimal digits stands for; `None` where a
/// character is no digit. The empty run stands for 0.
pub open spec fn digits_value(digits: Seq<char>) -> Option<nat>
    decreases digits.len(),
{
    if digits.len() == 0 {
        Some(0)
    } else {
        match (digits_value(digits.drop_last()), digit_value(digits.last())) {
            (Some(value), Some(digit)) => Some(value * 10 + digit),
            _ => None,
        }
    }
}

/// The number that a text stands for as a `u32`, if it stands for one: an
/// optional `+`, then one decimal digit or more and nothing else, with a value
/// that fits.
pub open spec fn decimal_u32(text: Seq<char>) -> Option<u32> {
    let digits = if text.len() > 0 && text[0] == '+' {
        text.skip(1)
    } else {
        text
    };
    match digits_value(digits) {
        Some(value) => if digits.len() > 0 && value <= u32::MAX {
            Some(value as u32)
        } else {
            None
        },
        None => None,
    }
}

/// Calls `str::parse::<u32>`, which expects an optional `+` followed by
/// decimal digits only, and refuses the empty text, every other character and
/// a value that does not fit.
#[verifier::external_body]
fn parse_u32(text: &str) -> (number: Option<u32>)
    ensures
        number == decimal_u32(text@),
{
    text.parse::<u32>().ok()
}

/// The text of a variable, or the default where it is not set.
pub open spec fn text_or(variable: Option<String>, default: Seq<char>) -> Seq<char> {
    match variable {
        Some(text) => text@,
        None => default,
    }
}

/// A count that was read, or the default where none was.
pub open spec fn count_or(count: Option<u32>, default: u32) -> u32 {
    match count {
        Some(number) => number,
        None => default,
    }
}

/// The number that a variable holds, if it is set and is a number.
pub open spec fn count_of(variable: Option<String>) -> Option<u32> {
    match variable {
        Some(text) => decimal_u32(text@),
        None => None,
    }
}

/// The first variable that is needed and missing.
pub open spec fn missing_variable(vars: Variables) -> Option<ConfigError> {
    if vars.database_url is None {
        Some(ConfigError::MissingDatabaseUrl)
    } else if vars.key_encryption_key is None {
        Some(ConfigError::MissingKeyEncryptionKey)
    } else if vars.jwt_secret is None {
        Some(ConfigError::MissingJwtSecret)
    } else {
        None
    }
}

/// Whether `config` is what `vars` stand for, given the counts that were read
/// from them.
pub open spec fn is_config_of(
    config: Config,
    vars: Variables,
    max_connections: Option<u32>,
    rate_limit: Option<u32>,
) -> bool {
    &&& config.listen_addr@ == text_or(vars.listen_addr, "127.0.0.1:8080"@)
    &&& vars.database_url matches Some(url) && config.database.url@ == url@
    &&& config.database.max_connections == count_or(max_connections, DEFAULT_MAX_CONNECTIONS)
    &&& config.solana.rpc_url@ == text_or(vars.solana_rpc_url, "http://localhost:8899"@)
    &&& config.solana.ws_url@ == text_or(vars.solana_ws_url, "ws://localhost:8900"@)
    &&& config.solana.commitment@ == text_or(vars.solana_commitment, "confirmed"@)
    &&& vars.key_encryption_key matches Some(key) && config.security.key_encryption_key@ == key@
    &&& vars.jwt_secret matches Some(secret) && config.security.jwt_secret@ == secret@
    &&& config.security.rate_limit_sessions_per_minute == count_or(rate_limit, DEFAULT_RATE_LIMIT)
}

fn string_or(variable: Option<String>, default: &str) -> (text: String)
    ensures
        text@ == text_or(variable, default@),
{
    match variable {
        Some(text) => text,
        None => default.to_owned(),
    }
}

fn read_count(variable: &Option<String>) -> (count: Option<u32>)
    ensures
        count == count_of(*variable),
{
    match variable {
        Some(text) => parse_u32(text.as_str()),
        None => None,
    }
}

impl Config {
    /// The settings that the variables stand for, with the two counts as they
    /// were read: `None` where the variable is not set or is no number.
    ///
    /// The database's address, the key-encryption passphrase and the token
    /// secret have no default: the first of them that is missing is the error.
    /// Everything else falls back to its default.
    pub fn assemble(vars: Variables, max_connections: Option<u32>, rate_limit: Option<u32>) -> (result:
        Result<Config, ConfigError>)
        ensures
            match result {
                Ok(config) => missing_variable(vars) is None && is_config_of(
                    config,
                    vars,
                    max_connections,
                    rate_limit,
                ),
                Err(e) => missing_variable(vars) == Some(e),
            },
    {
        let listen_addr = string_or(vars.listen_addr, "127.0.0.1:8080");
        let url = match vars.database_url {
            Some(url) => url,
            None => {
                return Err(ConfigError::MissingDatabaseUrl);
            },
        };
        let max_connections: u32 = match max_connections {
            Some(number) => number,
            None => DEFAULT_MAX_CONNECTIONS,
        };
        let rpc_url = string_or(vars.solana_rpc_url, "http://localhost:8899");
        let ws_url = string_or(vars.solana_ws_url, "ws://localhost:8900");
        let commitment = string_or(vars.solana_commitment, "confirmed");
        let key_encryption_key = match vars.key_encryption_key {
            Some(key) => key,
            None => {
                return Err(ConfigError::MissingKeyEncryptionKey);
            },
        };
        let jwt_secret = match vars.jwt_secret {
            Some(secret) => secret,
            None => {
                return Err(ConfigError::MissingJwtSecret);
            },
        };
        let rate_limit: u32 = match rate_limit {
            Some(number) => number,
            None => DEFAULT_RATE_LIMIT,
        };
        Ok(
            Config {
                listen_addr,
                database: DatabaseConfig { url, max_connections },
                solana: SolanaConfig { rpc_url, ws_url, commitment },
                security: SecurityConfig {
                    key_encryption_key,
                    jwt_secret,
                    rate_limit_sessions_per_minute: rate_limit,
                },
            },
        )
    }

    /// The settings that the variables stand for. A count whose text is no
    /// number counts as not set.
    pub fn from_vars(vars: Variables) -> (result: Result<Config, ConfigError>)
        ensures
            match result {
                Ok(config) => missing_variable(vars) is None && is_config_of(
                    config,
                    vars,
                    count_of(vars.database_max_connections),
                    count_of(vars.rate_limit_sessions_per_minute),
                ),
                Err(e) => missing_variable(vars) == Some(e),
            },
    {
        let max_connections: Option<u32> = read_count(&vars.database_max_connections);
        let rate_limit: Option<u32> = read_count(&vars.rate_limit_sessions_per_minute);
        Config::assemble(vars, max_connections, rate_limit)
    }
}

} // verus!
