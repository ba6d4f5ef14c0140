//! Configuration of the platform's services.

use vstd::prelude::*;
use vstd::string::*;

verus! {

/// Application configuration.
#[derive(Debug, Clone)]
pub struct Config {
    /// Database configuration.
    pub database: DatabaseConfig,
    /// Redis configuration.
    pub redis: RedisConfig,
    /// API server configuration.
    pub api: ApiConfig,
}

/// Database configuration.
#[derive(Debug, Clone)]
pub struct DatabaseConfig {
    /// PostgreSQL connection URL.
    pub url: String,
    /// Maximum number of connections in the pool.
    pub max_connections: u32,
}

/// Redis configuration.
#[derive(Debug, Clone)]
pub struct RedisConfig {
    /// Redis connection URL.
    pub url: String,
}

/// API server configuration.
#[derive(Debug, Clone)]
pub struct ApiConfig {
    /// Host to bind to.
    pub host: String,
    /// Port to listen on.
    pub port: u16,
}

/// Pool size used when none is configured.
pub fn default_max_connections() -> (n: u32)
    ensures
        n == 10,
{
    10
}

/// Host used when none is configured.
pub fn default_host() -> (host: String)
    ensures
        host@ == "127.0.0.1"@,
{
    String::from_str("127.0.0.1")
}

/// Port used when none is configured.
pub fn default_port() -> (port: u16)
    ensures
        port == 8080,
{
    8080
}

impl Config {
    /// Assembles a configuration from the settings that were found, filling in
    /// the default for each optional setting that is absent.
    pub fn from_settings(
        database_url: String,
        max_connections: Option<u32>,
        redis_url: String,
        host: Option<String>,
        port: Option<u16>,
    ) -> (config: Config)
        ensures
            config.database.url == database_url,
            config.database.max_connections == match max_connections {
                Some(n) => n,
                None => 10u32,
            },
            config.redis.url == redis_url,
            config.api.host@ == match host {
                Some(h) => h@,
                None => "127.0.0.1"@,
            },
            config.api.port == match port {
                Some(p) => p,
                None => 8080u16,
            },
    {
        let max_connections = match max_connections {
            Some(n) => n,
            None => default_max_connections(),
        };
        let host = match host {
            Some(h) => h,
            None => default_host(),
        };
        let port = match port {
            Some(p) => p,
            None => default_port(),
        };
        Config {
            database: DatabaseConfig { url: database_url, max_connections },
            redis: RedisConfig { url: redis_url },
            api: ApiConfig { host, port },
        }
    }
}

} // verus!
