//! The configuration of the service, as read from its YAML file.
use vstd::prelude::*;
use vstd::string::*;

verus! {

/// Why the configuration could not be read.
#[derive(Debug)]
pub enum ConfigError {
    Common(String),
}

impl ConfigError {
    /// The message of the error.
    pub fn to_string(&self) -> (r: String)
        ensures
            match self {
                ConfigError::Common(s) => r@ == s@,
            },
    {
        match self {
            ConfigError::Common(s) => s.clone(),
        }
    }

    /// The error for a file that the configuration reader could not build from.
    pub fn build_failed(reason: &str) -> (r: ConfigError)
        ensures
            match r {
                ConfigError::Common(s) => s@ == "failed to build: "@ + reason@,
            },
    {
        let mut s = String::from_str("failed to build: ");
        s.append(reason);
        ConfigError::Common(s)
    }

    /// The error for a file whose values do not fit the configuration.
    pub fn deserialize_failed(reason: &str) -> (r: ConfigError)
        ensures
            match r {
                ConfigError::Common(s) => s@ == "failed to deserialize: "@ + reason@,
            },
    {
        let mut s = String::from_str("failed to deserialize: ");
        s.append(reason);
        ConfigError::Common(s)
    }
}

/// The whole configuration.
pub struct Config {
    pub service_name: String,
    pub version: String,
    pub private_key_path: String,
    /// The public address of the service, such as `http://localhost.loc`.
    pub addr: String,
    pub log: Log,
    pub postgres: Postgres,
    pub http_server: HTTPServer,
    pub email: Email,
}

/// Logging: the level name and, optionally, a file to append to.
pub struct Log {
    pub level: String,
    pub filepath: Option<String>,
}

/// The database to connect to.
pub struct Postgres {
    pub dsn: String,
}

/// Where the HTTP server listens and how it uses TLS.
pub struct HTTPServer {
    pub address: String,
    pub tls: Tls,
}

/// TLS of the HTTP server: whether it is on, and the files of the CA, the certificate and
/// the key.
pub struct Tls {
    pub is_use: bool,
    pub ca_filepath: String,
    pub crt_filepath: String,
    pub key_filepath: String,
}

/// The SMTP account that sends mail.
pub struct Email {
    pub host: String,
    pub login: String,
    pub pass: String,
    pub from_email: String,
    pub from_name: String,
}

} // verus!
