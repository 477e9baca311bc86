//! Rate-limit decision engine for a reverse proxy, backed by a shared
//! key-value store: algorithm semantics, key naming, configuration
//! resolution, directive parsing and admission decisions.

pub mod algorithm;
pub mod directive;
pub mod handler;
pub mod limiter;
pub mod options;
pub mod scripts;
pub mod settings;
pub mod text;

pub use algorithm::RateLimitAlgorithm;
pub use directive::RateLimitRedisConfig;
pub use options::{RateLimitConfig, RedisConnectionOptions};
pub use settings::{ConfigFile, RateLimitSettings};
