//! Runtime configuration, as plain values.
//!
//! Loading and parsing the configuration file happens outside; the
//! library only holds the loaded values and their defaults.

use vstd::prelude::*;

verus! {

/// Default cap on rows a query may return.
pub fn default_db_max_limit() -> (r: u32)
    ensures
        r == 100,
{
    100
}

/// Default wave size of a batch run.
pub fn default_sync_batch_size() -> (r: usize)
    ensures
        r == 100,
{
    100
}

/// Default cap on distinct user-agent entries kept in memory.
pub fn default_max_ua_entries() -> (r: usize)
    ensures
        r == 10000,
{
    10000
}

/// Default cap on distinct address entries kept in memory.
pub fn default_max_ip_entries() -> (r: usize)
    ensures
        r == 100000,
{
    100000
}

/// Default interval between traffic-counter flushes, in seconds.
pub fn default_statistics_sync_interval() -> (r: u64)
    ensures
        r == 300,
{
    300
}

/// Whether detailed access logging is on by default.
pub fn default_statistics_enable_detailed_logs() -> (r: bool)
    ensures
        r,
{
    true
}

/// Storage settings.
pub struct DatabaseConfig {
    pub url: String,
    pub max_connect: u32,
    pub max_limit: u32,
}

/// The package list and locale the harvester works over.
pub struct AppConfig {
    pub packages: Vec<String>,
    pub locale: String,
}

/// Upstream API settings.
pub struct ApiConfig {
    pub api_url: String,
    pub timeout_seconds: u64,
    pub interval_seconds: u64,
    pub sync_batch_size: usize,
}

/// Serving and traffic-statistics settings.
pub struct ServeConfig {
    pub url: String,
    pub port: u16,
    pub max_ua_entries: usize,
    pub max_ip_entries: usize,
    pub statistics_sync_interval_seconds: u64,
    pub statistics_enable_detailed_logs: bool,
}

/// The whole runtime configuration.
pub struct Config {
    pub database: DatabaseConfig,
    pub app: AppConfig,
    pub api: ApiConfig,
    pub serve: ServeConfig,
}

impl Config {
    /// The storage connection string.
    pub fn database_url(&self) -> (r: &str)
        ensures
            r@ == self.database.url@,
    {
        self.database.url.as_str()
    }

    /// The storage pool's connection cap.
    pub fn db_max_connect(&self) -> (r: u32)
        ensures
            r == self.database.max_connect,
    {
        self.database.max_connect
    }

    /// The configured package list.
    pub fn packages(&self) -> (r: &Vec<String>)
        ensures
            r@ == self.app.packages@,
    {
        &self.app.packages
    }

    /// The configured locale.
    pub fn locale(&self) -> (r: &str)
        ensures
            r@ == self.app.locale@,
    {
        self.app.locale.as_str()
    }

    /// The upstream API's base address.
    pub fn api_url(&self) -> (r: &str)
        ensures
            r@ == self.api.api_url@,
    {
        self.api.api_url.as_str()
    }

    /// The per-call timeout, in seconds.
    pub fn api_timeout_seconds(&self) -> (r: u64)
        ensures
            r == self.api.timeout_seconds,
    {
        self.api.timeout_seconds
    }

    /// The pause between full-catalog runs, in seconds.
    pub fn api_interval(&self) -> (r: u64)
        ensures
            r == self.api.interval_seconds,
    {
        self.api.interval_seconds
    }

    /// The wave size of a batch run.
    pub fn sync_batch_size(&self) -> (r: usize)
        ensures
            r == self.api.sync_batch_size,
    {
        self.api.sync_batch_size
    }

    /// The address served on.
    pub fn serve_url(&self) -> (r: &str)
        ensures
            r@ == self.serve.url@,
    {
        self.serve.url.as_str()
    }

    /// The port served on.
    pub fn serve_port(&self) -> (r: u16)
        ensures
            r == self.serve.port,
    {
        self.serve.port
    }

    /// The cap on distinct user-agent entries kept in memory.
    pub fn max_ua_entries(&self) -> (r: usize)
        ensures
            r == self.serve.max_ua_entries,
    {
        self.serve.max_ua_entries
    }

    /// The cap on distinct address entries kept in memory.
    pub fn max_ip_entries(&self) -> (r: usize)
        ensures
            r == self.serve.max_ip_entries,
    {
        self.serve.max_ip_entries
    }

    /// The interval between traffic-counter flushes, in seconds.
    pub fn statistics_sync_interval(&self) -> (r: u64)
        ensures
            r == self.serve.statistics_sync_interval_seconds,
    {
        self.serve.statistics_sync_interval_seconds
    }

    /// Whether detailed access logging is on.
    pub fn statistics_enable_detailed_logs(&self) -> (r: bool)
        ensures
            r == self.serve.statistics_enable_detailed_logs,
    {
        self.serve.statistics_enable_detailed_logs
    }
}

} // verus!
