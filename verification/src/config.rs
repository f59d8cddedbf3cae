//! The configuration that every component is handed.

use vstd::prelude::*;

verus! {

/// One value, made when the process starts and passed on from there.
#[derive(Debug)]
pub struct Config {
    pub database_url: String,
    pub jwt_secret: String,
    /// The time to live of an access token, in seconds.
    pub access_token_maxage: i64,
    /// The time to live of a refresh token, in seconds.
    pub refresh_token_maxage: i64,
    pub port: u16,
}

/// The port that the service listens on where none is configured.
pub const DEFAULT_PORT: u16 = 8080;

impl Config {
    /// A configuration from its values, on the default port.
    pub fn new(
        database_url: String,
        jwt_secret: String,
        access_token_maxage: i64,
        refresh_token_maxage: i64,
    ) -> (config: Config)
        ensures
            config.database_url == database_url,
            config.jwt_secret == jwt_secret,
            config.access_token_maxage == access_token_maxage,
            config.refresh_token_maxage == refresh_token_maxage,
            config.port == DEFAULT_PORT,
    {
        Config {
            database_url,
            jwt_secret,
            access_token_maxage,
            refresh_token_maxage,
            port: DEFAULT_PORT,
        }
    }
}

} // verus!
