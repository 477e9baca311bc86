//! Connection options for the shared store, and the limiter's own configuration.
use vstd::prelude::*;
use vstd::string::*;
use crate::algorithm::RateLimitAlgorithm;

verus! {

/// How to reach the store. Every field has a default; a field that differs
/// from its default counts as set explicitly when options are merged.
#[derive(Clone, Debug)]
pub struct RedisConnectionOptions {
    /// Connect timeout in milliseconds.
    pub connect_timeout: u64,
    /// Per-command timeout in milliseconds.
    pub command_timeout: u64,
    /// Retries of the initial connection after its first failure.
    pub retry_count: u32,
    /// Pause between connection attempts in milliseconds.
    pub retry_delay: u64,
    /// Password for authentication, if any.
    pub password: Option<String>,
    /// Database index to select.
    pub database: i64,
    /// Largest number of pooled connections.
    pub pool_size: u32,
    /// Whether the store is a cluster.
    pub cluster_mode: bool,
    /// Whether the connection uses TLS.
    pub tls_enabled: bool,
    /// Keepalive interval in seconds; 0 turns it off.
    pub keepalive: u64,
}

/// Mathematical view of [`RedisConnectionOptions`].
pub struct OptionsView {
    pub connect_timeout: u64,
    pub command_timeout: u64,
    pub retry_count: u32,
    pub retry_delay: u64,
    pub password: Option<Seq<char>>,
    pub database: i64,
    pub pool_size: u32,
    pub cluster_mode: bool,
    pub tls_enabled: bool,
    pub keepalive: u64,
}

pub open spec fn opt_text_view(o: Option<String>) -> Option<Seq<char>> {
    match o {
        Some(s) => Some(s@),
        None => None,
    }
}

impl View for RedisConnectionOptions {
    type V = OptionsView;

    open spec fn view(&self) -> OptionsView {
        OptionsView {
            connect_timeout: self.connect_timeout,
            command_timeout: self.command_timeout,
            retry_count: self.retry_count,
            retry_delay: self.retry_delay,
            password: opt_text_view(self.password),
            database: self.database,
            pool_size: self.pool_size,
            cluster_mode: self.cluster_mode,
            tls_enabled: self.tls_enabled,
            keepalive: self.keepalive,
        }
    }
}

/// The documented defaults of the connection options.
pub open spec fn default_options_view() -> OptionsView {
    OptionsView {
        connect_timeout: 5000,
        command_timeout: 2000,
        retry_count: 3,
        retry_delay: 500,
        password: None,
        database: 0,
        pool_size: 10,
        cluster_mode: false,
        tls_enabled: false,
        keepalive: 0,
    }
}

pub fn default_connect_timeout() -> (r: u64)
    ensures
        r == default_options_view().connect_timeout,
{
    5000
}

pub fn default_command_timeout() -> (r: u64)
    ensures
        r == default_options_view().command_timeout,
{
    2000
}

pub fn default_retry_count() -> (r: u32)
    ensures
        r == default_options_view().retry_count,
{
    3
}

pub fn default_retry_delay() -> (r: u64)
    ensures
        r == default_options_view().retry_delay,
{
    500
}

pub fn default_database() -> (r: i64)
    ensures
        r == default_options_view().database,
{
    0
}

pub fn default_pool_size() -> (r: u32)
    ensures
        r == default_options_view().pool_size,
{
    10
}

impl Default for RedisConnectionOptions {
    fn default() -> (r: RedisConnectionOptions)
        ensures
            r@ == default_options_view(),
    {
        RedisConnectionOptions {
            connect_timeout: default_connect_timeout(),
            command_timeout: default_command_timeout(),
            retry_count: default_retry_count(),
            retry_delay: default_retry_delay(),
            password: None,
            database: default_database(),
            pool_size: default_pool_size(),
            cluster_mode: false,
            tls_enabled: false,
            keepalive: 0,
        }
    }
}

/// The settings a limiter runs with: store location, algorithm and its parameters.
#[derive(Clone, Debug)]
pub struct RateLimitConfig {
    pub redis_url: String,
    /// Steady rate, requests per second.
    pub requests_per_second: u32,
    /// Extra capacity above the steady rate.
    pub burst: u32,
    pub algorithm: RateLimitAlgorithm,
    /// Window length in seconds (fixed and sliding windows; key lifetime otherwise).
    pub window_size: u32,
    pub redis_options: RedisConnectionOptions,
}

pub open spec fn default_url_view() -> Seq<char> {
    "redis://127.0.0.1:6379"@
}

impl Default for RateLimitConfig {
    fn default() -> (r: RateLimitConfig)
        ensures
            r.redis_url@ == default_url_view(),
            r.requests_per_second == 10,
            r.burst == 5,
            r.algorithm == RateLimitAlgorithm::SlidingWindow,
            r.window_size == 60,
            r.redis_options@ == default_options_view(),
    {
        RateLimitConfig {
            redis_url: String::from_str("redis://127.0.0.1:6379"),
            requests_per_second: 10,
            burst: 5,
            algorithm: RateLimitAlgorithm::SlidingWindow,
            window_size: 60,
            redis_options: RedisConnectionOptions::default(),
        }
    }
}

} // verus!
