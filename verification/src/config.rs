//! Server configuration, decided from the values of its environment
//! variables (the caller reads the environment).
use vstd::prelude::*;

use crate::text::{concat2, eq_ignore_ascii_case, ascii_fold, owned};

verus! {

/// The backends a deployment can force.
#[derive(Debug, Clone, Copy, PartialEq, Eq, Structural)]
pub enum BackendId {
    Mock,
    Reasonix,
}

#[derive(Debug, Clone)]
pub struct Config {
    pub repo_root: String,
    pub backend_override: Option<BackendId>,
    pub reasonix_model: String,
}

#[derive(Debug, Clone)]
pub enum ConfigError {
    Missing(String),
    InvalidBackend(String),
}

/// The message of a configuration error.
pub open spec fn config_error_message(e: ConfigError) -> Seq<char> {
    match e {
        ConfigError::Missing(key) => "missing required configuration: "@ + key@,
        ConfigError::InvalidBackend(value) => "invalid COAGENT_BACKEND: "@ + value@,
    }
}

impl ConfigError {
    /// The human-readable message.
    pub fn message(&self) -> (r: String)
        ensures
            r@ == config_error_message(*self),
    {
        match self {
            ConfigError::Missing(key) => concat2("missing required configuration: ", key.as_str()),
            ConfigError::InvalidBackend(value) => concat2("invalid COAGENT_BACKEND: ", value.as_str()),
        }
    }
}

/// The backend a `COAGENT_BACKEND` value names, compared without ASCII case.
pub open spec fn backend_named(value: Seq<char>) -> Option<BackendId> {
    if ascii_fold(value) == ascii_fold("mock"@) {
        Some(BackendId::Mock)
    } else if ascii_fold(value) == ascii_fold("reasonix"@) {
        Some(BackendId::Reasonix)
    } else {
        None
    }
}

/// The model used when `COAGENT_REASONIX_MODEL` is unset.
pub open spec fn default_reasonix_model() -> Seq<char> {
    "deepseek-v4-flash"@
}

impl Config {
    /// The configuration for the values of `COAGENT_REPO_ROOT`,
    /// `COAGENT_BACKEND` and `COAGENT_REASONIX_MODEL` (`None` when unset).
    /// A missing repository root and an unknown backend are refused.
    pub fn from_values(
        repo_root: Option<String>,
        backend: Option<String>,
        reasonix_model: Option<String>,
    ) -> (r: Result<Config, ConfigError>)
        ensures
            match r {
                Ok(c) => {
                    &&& repo_root matches Some(root) && c.repo_root@ == root@
                    &&& match backend {
                        Some(v) => backend_named(v@) == Some(c.backend_override->0)
                            && c.backend_override is Some,
                        None => c.backend_override is None,
                    }
                    &&& c.reasonix_model@ == match reasonix_model {
                        Some(m) => m@,
                        None => default_reasonix_model(),
                    }
                },
                Err(ConfigError::Missing(key)) => repo_root is None && key@
                    == "COAGENT_REPO_ROOT"@,
                Err(ConfigError::InvalidBackend(value)) => {
                    &&& repo_root is Some
                    &&& backend matches Some(v) && v@ == value@ && backend_named(v@) is None
                },
            },
    {
        let repo_root = match repo_root {
            Some(root) => root,
            None => {
                return Err(ConfigError::Missing(owned("COAGENT_REPO_ROOT")));
            },
        };
        let backend_override = match backend {
            Some(value) => {
                if eq_ignore_ascii_case(value.as_str(), "mock") {
                    Some(BackendId::Mock)
                } else if eq_ignore_ascii_case(value.as_str(), "reasonix") {
                    Some(BackendId::Reasonix)
                } else {
                    return Err(ConfigError::InvalidBackend(value));
                }
            },
            None => None,
        };
        let reasonix_model = match reasonix_model {
            Some(model) => model,
            None => owned("deepseek-v4-flash"),
        };
        Ok(Config { repo_root, backend_override, reasonix_model })
    }
}

} // verus!
