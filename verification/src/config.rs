//! Application configuration and its validation.
//!
//! Loading from files and the environment is I/O and stays outside; this
//! module holds the configuration records themselves, their defaults, and the
//! rules a loaded configuration must satisfy.

use crate::text::{lower_seq, spec_udec, str_eq_ignore_ascii_case, u64_to_string};
use vstd::prelude::*;
use vstd::string::StringExecFns;

verus! {

/// Why a configuration was rejected.
#[derive(Debug)]
pub enum ConfigError {
    /// The configuration source could not be read or parsed.
    Loading(String),
    /// The configuration was read but breaks a rule; the text names it.
    Validation(String),
}

/// Database pool settings.
#[derive(Debug)]
pub struct DatabaseConfig {
    pub url: Option<String>,
    pub max_connections: u32,
    pub min_connections: u32,
    pub acquire_timeout_seconds: u64,
    pub idle_timeout_seconds: u64,
}

impl Default for DatabaseConfig {
    /// A small local pool: at most ten connections, two kept warm.
    fn default() -> (r: Self)
        ensures
            r.url is None,
            r.max_connections == 10,
            r.min_connections == 2,
            r.acquire_timeout_seconds == 5,
            r.idle_timeout_seconds == 300,
    {
        DatabaseConfig {
            url: None,
            max_connections: 10,
            min_connections: 2,
            acquire_timeout_seconds: 5,
            idle_timeout_seconds: 300,
        }
    }
}

/// Listening address and shutdown settings.
#[derive(Debug)]
pub struct ServerConfig {
    pub host: String,
    pub port: u16,
    pub worker_threads: Option<usize>,
    pub graceful_shutdown_timeout_seconds: u64,
}

impl Default for ServerConfig {
    /// The loopback address on the usual development port.
    fn default() -> (r: Self)
        ensures
            r.host@ == "127.0.0.1"@,
            r.port == 3000,
            r.worker_threads is None,
            r.graceful_shutdown_timeout_seconds == 5,
    {
        ServerConfig {
            host: "127.0.0.1".to_owned(),
            port: 3000,
            worker_threads: None,
            graceful_shutdown_timeout_seconds: 5,
        }
    }
}

impl ServerConfig {
    /// The address to bind: host, a colon, and the port in decimal.
    pub fn server_addr(&self) -> (r: String)
        ensures
            r@ == self.host@ + ":"@ + spec_udec(self.port as nat),
    {
        let mut r = self.host.clone();
        r.append(":");
        let port = u64_to_string(self.port as u64);
        r.append(port.as_str());
        r
    }
}

/// Browser-facing security settings.
#[derive(Debug)]
pub struct SecurityConfig {
    pub cors_allow_origins: Vec<String>,
    pub rate_limit_per_minute: u64,
    pub enable_csrf: bool,
}

impl Default for SecurityConfig {
    /// Allows the local development origins, a gentle rate limit, and
    /// cross-site request forgery protection switched on.
    fn default() -> (r: Self)
        ensures
            r.cors_allow_origins@.len() == 2,
            r.cors_allow_origins@[0]@ == "http://localhost:3000"@,
            r.cors_allow_origins@[1]@ == "http://127.0.0.1:3000"@,
            r.rate_limit_per_minute == 60,
            r.enable_csrf,
    {
        let mut origins: Vec<String> = Vec::new();
        origins.push("http://localhost:3000".to_owned());
        origins.push("http://127.0.0.1:3000".to_owned());
        SecurityConfig { cors_allow_origins: origins, rate_limit_per_minute: 60, enable_csrf: true }
    }
}

/// The environment name is one the application knows, up to ASCII case.
pub open spec fn env_ok(s: Seq<char>) -> bool {
    lower_seq(s) == "development"@ || lower_seq(s) == "staging"@ || lower_seq(s) == "production"@
}

/// The log level is one the logger knows, up to ASCII case.
pub open spec fn log_level_ok(s: Seq<char>) -> bool {
    lower_seq(s) == "error"@ || lower_seq(s) == "warn"@ || lower_seq(s) == "info"@ || lower_seq(s)
        == "debug"@ || lower_seq(s) == "trace"@
}

/// The whole application configuration.
#[derive(Debug)]
pub struct AppConfig {
    pub database: DatabaseConfig,
    pub server: ServerConfig,
    pub security: SecurityConfig,
    pub log_level: String,
    pub environment: String,
}

impl Default for AppConfig {
    /// Development defaults throughout, logging at the informational level.
    fn default() -> (r: Self)
        ensures
            r.log_level@ == "info"@,
            r.environment@ == "development"@,
            r.database.max_connections == 10,
            r.database.min_connections == 2,
            r.server.host@ == "127.0.0.1"@,
            r.server.port == 3000,
            r.security.enable_csrf,
    {
        AppConfig {
            database: DatabaseConfig::default(),
            server: ServerConfig::default(),
            security: SecurityConfig::default(),
            log_level: "info".to_owned(),
            environment: "development".to_owned(),
        }
    }
}

impl AppConfig {
    /// Checks the rules a loaded configuration must satisfy, reporting the
    /// first one broken: the environment name, then the log level, then the
    /// pool bounds.
    pub fn validate(&self) -> (r: Result<(), ConfigError>)
        ensures
            r is Ok <==> (env_ok(self.environment@) && log_level_ok(self.log_level@)
                && self.database.max_connections >= self.database.min_connections),
            !env_ok(self.environment@) ==> (r matches Err(ConfigError::Validation(m)) && m@
                == "环境必须是 development、staging 或 production"@),
            env_ok(self.environment@) && !log_level_ok(self.log_level@) ==> (r matches Err(
                ConfigError::Validation(m),
            ) && m@ == "日志级别必须是 error、warn、info、debug 或 trace"@),
            env_ok(self.environment@) && log_level_ok(self.log_level@)
                && self.database.max_connections < self.database.min_connections ==> (r matches Err(
                ConfigError::Validation(m),
            ) && m@ == "最大连接数不能小于最小连接数"@),
    {
        let env = self.environment.as_str();
        if !(str_eq_ignore_ascii_case(env, "development") || str_eq_ignore_ascii_case(
            env,
            "staging",
        ) || str_eq_ignore_ascii_case(env, "production")) {
            proof {
                lemma_lower_development();
                lemma_lower_staging();
                lemma_lower_production();
            }
            return Err(
                ConfigError::Validation(
                    "环境必须是 development、staging 或 production".to_owned(),
                ),
            );
        }
        proof {
            lemma_lower_development();
            lemma_lower_staging();
            lemma_lower_production();
        }
        let level = self.log_level.as_str();
        if !(str_eq_ignore_ascii_case(level, "error") || str_eq_ignore_ascii_case(level, "warn")
            || str_eq_ignore_ascii_case(level, "info") || str_eq_ignore_ascii_case(level, "debug")
            || str_eq_ignore_ascii_case(level, "trace")) {
            proof {
                lemma_lower_levels();
            }
            return Err(
                ConfigError::Validation(
                    "日志级别必须是 error、warn、info、debug 或 trace".to_owned(),
                ),
            );
        }
        proof {
            lemma_lower_levels();
        }
        if self.database.max_connections < self.database.min_connections {
            return Err(
                ConfigError::Validation(
                    "最大连接数不能小于最小连接数".to_owned(),
                ),
            );
        }
        Ok(())
    }

    /// Whether the environment names production, up to ASCII case.
    pub fn is_production(&self) -> (r: bool)
        ensures
            r == (lower_seq(self.environment@) == "production"@),
    {
        proof {
            lemma_lower_production();
        }
        str_eq_ignore_ascii_case(self.environment.as_str(), "production")
    }

    /// Whether the environment names development, up to ASCII case.
    pub fn is_development(&self) -> (r: bool)
        ensures
            r == (lower_seq(self.environment@) == "development"@),
    {
        proof {
            lemma_lower_development();
        }
        str_eq_ignore_ascii_case(self.environment.as_str(), "development")
    }
}

/// The known environment names are already lower case.
proof fn lemma_lower_development()
    ensures
        lower_seq("development"@) == "development"@,
{
    reveal_strlit("development");
    assert(lower_seq("development"@) =~= "development"@);
}

proof fn lemma_lower_staging()
    ensures
        lower_seq("staging"@) == "staging"@,
{
    reveal_strlit("staging");
    assert(lower_seq("staging"@) =~= "staging"@);
}

proof fn lemma_lower_production()
    ensures
        lower_seq("production"@) == "production"@,
{
    reveal_strlit("production");
    assert(lower_seq("production"@) =~= "production"@);
}

/// The known log levels are already lower case.
proof fn lemma_lower_levels()
    ensures
        lower_seq("error"@) == "error"@,
        lower_seq("warn"@) == "warn"@,
        lower_seq("info"@) == "info"@,
        lower_seq("debug"@) == "debug"@,
        lower_seq("trace"@) == "trace"@,
{
    reveal_strlit("error");
    reveal_strlit("warn");
    reveal_strlit("info");
    reveal_strlit("debug");
    reveal_strlit("trace");
    assert(lower_seq("error"@) =~= "error"@);
    assert(lower_seq("warn"@) =~= "warn"@);
    assert(lower_seq("info"@) =~= "info"@);
    assert(lower_seq("debug"@) =~= "debug"@);
    assert(lower_seq("trace"@) =~= "trace"@);
}

} // verus!
