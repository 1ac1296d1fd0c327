//! The settings that the gateway starts with.

use vstd::prelude::*;
use crate::error::StartupError;

verus! {

/// The settings of one gateway.
#[derive(Debug, Clone, PartialEq, Eq)]
pub struct ApiConfig {
    /// Where the broker is reached.
    pub redis: String,
    /// The port that the gateway listens on.
    pub port: u16,
    /// The identifier of the application at the identity provider.
    pub application_id: u64,
    pub client_secret: String,
    /// Where the provider sends a user back to after a login.
    pub redirect_uri: String,
    /// The host under which the dashboard is served.
    pub domain: String,
    /// Whether the dashboard is served over TLS.
    pub secure: bool,
}

impl ApiConfig {
    /// The settings out of a settings file. `parsed` is what the file
    /// holds as it parsed, where the file could be read.
    pub fn new(parsed: Option<Result<ApiConfig, String>>) -> (r: Result<ApiConfig, StartupError>)
        ensures
            r == match parsed {
                Some(Ok(config)) => Ok(config),
                Some(Err(_)) => Err(StartupError::InvalidConfig),
                None => Err(StartupError::NoConfig),
            },
    {
        match parsed {
            Some(Ok(config)) => Ok(config),
            Some(Err(_)) => Err(StartupError::InvalidConfig),
            None => Err(StartupError::NoConfig),
        }
    }
}

} // verus!
