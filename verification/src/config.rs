//! The settings of the service, grouped by what they configure.

use vstd::prelude::*;
use vstd::string::StringExecFns;
use crate::common::tracing::LogFormat;
use crate::common::tracing::LogLevel;
use crate::shared::text;

verus! {

/// Every setting of the service.
#[derive(Debug)]
pub struct Config {
    pub database: DatabaseConfig,
    pub aws: AwsConfig,
    pub storage: StorageConfig,
    pub cdn: CdnConfig,
    pub tracing: TracingConfig,
}

/// Where the database is and how to log in.
#[derive(Debug)]
pub struct DatabaseConfig {
    pub host: String,
    pub port: u16,
    pub username: String,
    pub password: String,
    pub name: String,
}

impl DatabaseConfig {
    /// The URL of the database: `postgres://`, the user and the password
    /// around a colon, `@`, the host and the port around a colon, `/`, the
    /// database's name.
    pub open spec fn url(self) -> Seq<char> {
        "postgres://"@ + self.username@ + ":"@ + self.password@ + "@"@ + self.host@ + ":"@
            + text::decimal(self.port as nat) + "/"@ + self.name@
    }

    pub fn connection_url(&self) -> (r: String)
        ensures
            r@ == self.url(),
    {
        let port = text::decimal_text(self.port as u64);
        String::from_str("postgres://").concat(self.username.as_str()).concat(":").concat(
            self.password.as_str(),
        ).concat("@").concat(self.host.as_str()).concat(":").concat(port.as_str()).concat(
            "/",
        ).concat(self.name.as_str())
    }
}

/// Which region of the cloud is used.
#[derive(Debug)]
pub struct AwsConfig {
    pub region: String,
}

/// Where uploads go and what limits them.
#[derive(Debug)]
pub struct StorageConfig {
    pub bucket_name: String,
    pub upload_url_expiry_secs: u64,
    pub max_upload_size_bytes: u64,
}

/// What signed read URLs are made with.
#[derive(Debug)]
pub struct CdnConfig {
    pub domain: String,
    pub key_pair_id: String,
    pub private_key_pem: String,
    pub signed_url_expiry_secs: u64,
}

/// What is logged and how.
#[derive(Debug)]
pub struct TracingConfig {
    pub log_level: LogLevel,
    pub log_format: LogFormat,
}

} // verus!
