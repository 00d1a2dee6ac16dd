//! Application settings as plain values, with their built-in defaults.
//! Reading them from the environment happens outside the library; the
//! defaults and everything derived from the settings are verified here.

use vstd::prelude::*;
use vstd::string::StringExecFns;
use crate::digits::{spec_decimal, u64_to_decimal};
use crate::jwt::JwtConfig;

verus! {

/// The application's settings.
#[derive(Debug)]
pub struct Config {
    /// Application port.
    pub app_port: u16,
    /// Application host.
    pub app_host: String,
    /// Database URL.
    pub db_url: String,
    /// Database maximum connection count.
    pub db_max_conn: u32,
    /// Database minimum connection count.
    pub db_min_conn: u32,
    /// Database connection timeout, in seconds.
    pub db_conn_timeout: u64,
    /// Database idle connection timeout, in seconds.
    pub db_idle_timeout: u64,
    /// Secret key for signing session tokens.
    pub jwt_secret: String,
    /// Session token lifetime, in seconds.
    pub jwt_expiration: i64,
    /// Whether to serve the embedded web assets.
    pub web_embed_enabled: bool,
}

impl Default for Config {
    /// The built-in defaults, used where the environment sets nothing.
    fn default() -> (c: Config)
        ensures
            c.app_port == 8000,
            c.app_host@ == "0.0.0.0"@,
            c.db_url@ == "sqlite://rustzen.db"@,
            c.db_max_conn == 10,
            c.db_min_conn == 1,
            c.db_conn_timeout == 10,
            c.db_idle_timeout == 0,
            c.jwt_secret@ == "rustzen-admin-secret-key"@,
            c.jwt_expiration == 3600,
            !c.web_embed_enabled,
    {
        Config {
            app_port: 8000,
            app_host: String::from_str("0.0.0.0"),
            db_url: String::from_str("sqlite://rustzen.db"),
            db_max_conn: 10,
            db_min_conn: 1,
            db_conn_timeout: 10,
            db_idle_timeout: 0,
            jwt_secret: String::from_str("rustzen-admin-secret-key"),
            jwt_expiration: 3600,
            web_embed_enabled: false,
        }
    }
}

impl Config {
    /// The address the server listens on, rendered as `host:port`.
    pub fn server_addr(&self) -> (r: String)
        ensures
            r@ == self.app_host@ + ":"@ + spec_decimal(self.app_port as nat),
    {
        let r = self.app_host.as_str().to_owned().concat(":").concat(
            u64_to_decimal(self.app_port as u64).as_str(),
        );
        proof {
            assert(r@ =~= self.app_host@ + ":"@ + spec_decimal(self.app_port as nat));
        }
        r
    }

    /// The token-issuance settings these application settings imply.
    pub fn jwt_config(&self) -> (r: JwtConfig)
        ensures
            r.secret@ == self.jwt_secret@,
            r.expiration == self.jwt_expiration,
    {
        JwtConfig { secret: self.jwt_secret.clone(), expiration: self.jwt_expiration }
    }
}

/// Settings for the database connection pool, derived from the
/// application settings; timeouts are carried in whole seconds.
#[derive(Debug)]
pub struct DatabaseConfig {
    /// The database connection URL.
    pub url: String,
    /// The maximum number of connections the pool may maintain.
    pub max_connections: u32,
    /// The minimum number of connections the pool should maintain.
    pub min_connections: u32,
    /// The timeout for a single connection attempt, in seconds.
    pub connect_timeout_secs: u64,
    /// The timeout for an idle connection, in seconds.
    pub idle_timeout_secs: u64,
}

impl DatabaseConfig {
    /// The pool settings the given application settings call for.
    pub fn from_config(config: &Config) -> (r: DatabaseConfig)
        ensures
            r.url@ == config.db_url@,
            r.max_connections == config.db_max_conn,
            r.min_connections == config.db_min_conn,
            r.connect_timeout_secs == config.db_conn_timeout,
            r.idle_timeout_secs == config.db_idle_timeout,
    {
        DatabaseConfig {
            url: config.db_url.clone(),
            max_connections: config.db_max_conn,
            min_connections: config.db_min_conn,
            connect_timeout_secs: config.db_conn_timeout,
            idle_timeout_secs: config.db_idle_timeout,
        }
    }
}

impl Default for DatabaseConfig {
    /// The pool settings implied by the default application settings.
    fn default() -> (r: DatabaseConfig)
        ensures
            r.url@ == "sqlite://rustzen.db"@,
            r.max_connections == 10,
            r.min_connections == 1,
            r.connect_timeout_secs == 10,
            r.idle_timeout_secs == 0,
    {
        DatabaseConfig::from_config(&Config::default())
    }
}

} // verus!
