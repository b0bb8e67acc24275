//! Deployment configuration and its validation.
//!
//! Reading the environment is an outside concern; the assembled values are
//! validated here: a wildcard CORS origin is rejected at startup, because
//! browsers refuse credentials together with a wildcard and failing fast beats
//! failing per-request.

use vstd::prelude::*;

verus! {

use crate::strutil::str_eq;

#[derive(Debug, PartialEq, Eq)]
pub enum ConfigError {
    EnvVarMissing(String),
    InvalidConfig(String),
}

impl ConfigError {
    pub open spec fn spec_message(&self) -> Seq<char> {
        match self {
            ConfigError::EnvVarMissing(var) => "Environment variable "@ + var@ + " must be set"@,
            ConfigError::InvalidConfig(msg) => "Invalid configuration: "@ + msg@,
        }
    }

    pub fn message(&self) -> (r: String)
        ensures
            r@ == self.spec_message(),
    {
        match self {
            ConfigError::EnvVarMissing(var) => String::from_str("Environment variable ").concat(
                var.as_str(),
            ).concat(" must be set"),
            ConfigError::InvalidConfig(msg) => String::from_str("Invalid configuration: ").concat(
                msg.as_str(),
            ),
        }
    }
}

/// Object-storage connection settings.
#[derive(Debug)]
pub struct R2Config {
    pub account_id: String,
    pub access_key_id: String,
    pub secret_access_key: String,
    pub bucket_name: String,
    pub public_url: String,
}

/// The configuration the service runs with: storage address, the shared token
/// signing secret, the allowed CORS origins, and object-storage settings.
#[derive(Debug)]
pub struct Config {
    pub database_url: String,
    pub jwt_secret: String,
    pub cors_origins: Vec<String>,
    pub r2: R2Config,
}

impl Config {
    /// Assembles a configuration, rejecting a wildcard CORS origin: with
    /// credentials enabled, explicit origins must be named.
    pub fn new(
        database_url: String,
        jwt_secret: String,
        cors_origins: Vec<String>,
        r2: R2Config,
    ) -> (r: Result<Config, ConfigError>)
        ensures
            r is Ok <==> (forall|i: int|
                0 <= i < cors_origins@.len() ==> (#[trigger] cors_origins@[i])@ != "*"@),
            r matches Ok(c) ==> c.database_url == database_url && c.jwt_secret == jwt_secret
                && c.cors_origins == cors_origins && c.r2 == r2,
            r matches Err(e) ==> e is InvalidConfig,
    {
        let n = cors_origins.len();
        let mut i: usize = 0;
        while i < n
            invariant
                n == cors_origins@.len(),
                i <= n,
                forall|j: int| 0 <= j < i ==> (#[trigger] cors_origins@[j])@ != "*"@,
            decreases n - i,
        {
            if str_eq(cors_origins[i].as_str(), "*") {
                return Err(
                    ConfigError::InvalidConfig(
                        String::from_str(
                            "Wildcard CORS origin (*) is not allowed when credentials are enabled. Specify explicit origins instead.",
                        ),
                    ),
                );
            }
            i = i + 1;
        }
        Ok(Config { database_url, jwt_secret, cors_origins, r2 })
    }
}

} // verus!
