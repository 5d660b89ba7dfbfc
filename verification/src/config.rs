//! Configuration assembly.
//!
//! The process environment is read by the unverified boundary and handed in
//! as a plain [`EnvSnapshot`]; what is verified is the defaulting and
//! validation that turns a snapshot into a [`Config`].
use vstd::prelude::*;
use vstd::string::StringExecFns;

use crate::strutil::str_eq;

verus! {

/// Which deployment of the node service the backend talks to.
#[derive(Clone, Copy, Debug, PartialEq, Eq, Structural)]
pub enum BreezEnv {
    Production,
    Staging,
}

/// The backend's configuration.
pub struct Config {
    pub breez_api_key: String,
    pub breez_env: BreezEnv,
    pub database_url: String,
    pub redis_url: Option<String>,
    pub first_channel_sats_default: Option<i64>,
    pub breez_service_url: Option<String>,
}

/// The raw environment values the configuration is built from, each absent
/// when the variable is unset. The channel default arrives already parsed
/// to an integer; an unparsable value counts as unset.
pub struct EnvSnapshot {
    pub breez_api_key: Option<String>,
    pub breez_env: Option<String>,
    pub database_url: Option<String>,
    pub redis_url: Option<String>,
    pub first_channel_sats_default: Option<i64>,
    pub breez_service_url: Option<String>,
}

/// Why a snapshot cannot become a configuration.
#[derive(Clone, Copy, Debug, PartialEq, Eq, Structural)]
pub enum ConfigError {
    /// The API key is required and has no default.
    MissingApiKey,
    /// The environment name is neither `production` nor `staging`.
    InvalidEnvironment,
}

impl Config {
    /// Build the configuration from an environment snapshot.
    ///
    /// The API key is required. The environment defaults to production and
    /// must otherwise be exactly `production` or `staging`. The database
    /// URL, the first-channel default and the service URL take fixed
    /// defaults when unset; the redis URL stays optional.
    pub fn from_env(env: &EnvSnapshot) -> (r: Result<Config, ConfigError>)
        ensures
            env.breez_api_key is None <==> r == Err::<Config, ConfigError>(
                ConfigError::MissingApiKey,
            ),
            env.breez_api_key is Some && !(match env.breez_env {
                Option::None => true,
                Option::Some(e) => e@ == "production"@ || e@ == "staging"@,
            }) <==> r == Err::<Config, ConfigError>(ConfigError::InvalidEnvironment),
            r matches Ok(c) ==> {
                &&& c.breez_api_key@ == env.breez_api_key->0@
                &&& c.breez_env == (match env.breez_env {
                    Option::None => BreezEnv::Production,
                    Option::Some(e) => if e@ == "staging"@ {
                        BreezEnv::Staging
                    } else {
                        BreezEnv::Production
                    },
                })
                &&& c.database_url@ == (match env.database_url {
                    Option::None => "sqlite:./data/sabi.db?mode=rwc"@,
                    Option::Some(u) => u@,
                })
                &&& c.redis_url == env.redis_url
                &&& c.first_channel_sats_default == Some(
                    match env.first_channel_sats_default {
                        Option::None => 200_000i64,
                        Option::Some(v) => v,
                    },
                )
                &&& (match env.breez_service_url {
                    Option::None => c.breez_service_url matches Some(u) && u@
                        == "http://localhost:3001"@,
                    Option::Some(u) => c.breez_service_url == Some(u),
                })
            },
    {
        let breez_api_key: String = match &env.breez_api_key {
            Some(k) => k.clone(),
            None => {
                return Err(ConfigError::MissingApiKey);
            },
        };
        let breez_env: BreezEnv = match &env.breez_env {
            None => BreezEnv::Production,
            Some(e) => {
                if str_eq(e.as_str(), "production") {
                    proof {
                        reveal_strlit("production");
                        reveal_strlit("staging");
                        assert("production"@.len() != "staging"@.len());
                    }
                    BreezEnv::Production
                } else if str_eq(e.as_str(), "staging") {
                    BreezEnv::Staging
                } else {
                    return Err(ConfigError::InvalidEnvironment);
                }
            },
        };
        let database_url: String = match &env.database_url {
            Some(u) => u.clone(),
            None => String::from_str("sqlite:./data/sabi.db?mode=rwc"),
        };
        let redis_url: Option<String> = match &env.redis_url {
            Some(u) => Some(u.clone()),
            None => None,
        };
        let first_channel_sats_default: Option<i64> = match env.first_channel_sats_default {
            Some(v) => Some(v),
            None => Some(200_000),
        };
        let breez_service_url: Option<String> = match &env.breez_service_url {
            Some(u) => Some(u.clone()),
            None => Some(String::from_str("http://localhost:3001")),
        };
        Ok(
            Config {
                breez_api_key,
                breez_env,
                database_url,
                redis_url,
                first_channel_sats_default,
                breez_service_url,
            },
        )
    }
}

} // verus!
