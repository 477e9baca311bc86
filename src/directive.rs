//! The location configuration that host directives build, and how directive
//! arguments and file settings produce it.
use vstd::prelude::*;
use vstd::string::*;
use crate::algorithm::{lower_of, RateLimitAlgorithm};
use crate::options::{opt_text_view, OptionsView, RateLimitConfig, RedisConnectionOptions};
use crate::settings::{resolve, ConfigFile, RateLimitSettings, SettingsView};
use crate::text::{
    has_prefix, joined, parse_i64, parse_u32, parse_u64, signed_literal, starts_with,
    suffix_after, text_eq, unsigned_literal,
};

verus! {

/// Settings of one location as the request handler uses them.
#[derive(Clone, Debug)]
pub struct RateLimitRedisConfig {
    pub redis_url: String,
    /// Identity source: `remote_addr`, `http_<header>`, or a literal bucket name.
    pub rate_limit_key: String,
    pub requests_per_second: u32,
    pub burst: u32,
    pub enabled: bool,
    pub algorithm: RateLimitAlgorithm,
    pub window_size: u32,
    /// Configuration file named by the directive, if any.
    pub config_file_path: Option<String>,
    pub redis_options: RedisConnectionOptions,
}

/// Mathematical view of [`RateLimitRedisConfig`].
pub struct LocationConfigView {
    pub redis_url: Seq<char>,
    pub rate_limit_key: Seq<char>,
    pub requests_per_second: u32,
    pub burst: u32,
    pub enabled: bool,
    pub algorithm: RateLimitAlgorithm,
    pub window_size: u32,
    pub config_file_path: Option<Seq<char>>,
    pub redis_options: OptionsView,
}

impl View for RateLimitRedisConfig {
    type V = LocationConfigView;

    open spec fn view(&self) -> LocationConfigView {
        LocationConfigView {
            redis_url: self.redis_url@,
            rate_limit_key: self.rate_limit_key@,
            requests_per_second: self.requests_per_second,
            burst: self.burst,
            enabled: self.enabled,
            algorithm: self.algorithm,
            window_size: self.window_size,
            config_file_path: opt_text_view(self.config_file_path),
            redis_options: self.redis_options@,
        }
    }
}

/// The defaults of a location without any directive: limiting off.
pub open spec fn default_location_view() -> LocationConfigView {
    LocationConfigView {
        redis_url: crate::options::default_url_view(),
        rate_limit_key: "remote_addr"@,
        requests_per_second: 10,
        burst: 5,
        enabled: false,
        algorithm: RateLimitAlgorithm::SlidingWindow,
        window_size: 60,
        config_file_path: None,
        redis_options: crate::options::default_options_view(),
    }
}

impl Default for RateLimitRedisConfig {
    fn default() -> (r: RateLimitRedisConfig)
        ensures
            r@ == default_location_view(),
    {
        RateLimitRedisConfig {
            redis_url: String::from_str("redis://127.0.0.1:6379"),
            rate_limit_key: String::from_str("remote_addr"),
            requests_per_second: 10,
            burst: 5,
            enabled: false,
            algorithm: RateLimitAlgorithm::SlidingWindow,
            window_size: 60,
            config_file_path: None,
            redis_options: RedisConnectionOptions::default(),
        }
    }
}

/// The value of `arg` after the option name `p`.
pub open spec fn value_after(arg: Seq<char>, p: Seq<char>) -> Seq<char> {
    arg.subrange(p.len() as int, arg.len() as int)
}

pub open spec fn u64_value(v: Seq<char>) -> Option<u64> {
    match unsigned_literal(v) {
        Some(n) => if n <= u64::MAX {
            Some(n as u64)
        } else {
            None
        },
        None => None,
    }
}

pub open spec fn u32_value(v: Seq<char>) -> Option<u32> {
    match unsigned_literal(v) {
        Some(n) => if n <= u32::MAX {
            Some(n as u32)
        } else {
            None
        },
        None => None,
    }
}

pub open spec fn i64_value(v: Seq<char>) -> Option<i64> {
    match signed_literal(v) {
        Some(n) => if i64::MIN <= n <= i64::MAX {
            Some(n as i64)
        } else {
            None
        },
        None => None,
    }
}

pub open spec fn invalid(name: Seq<char>, v: Seq<char>) -> Seq<char> {
    "Invalid "@ + name + " value: "@ + v
}

/// Effect of one `redis_*=value` option on the connection options, or the error it raises.
pub open spec fn redis_option_effect(arg: Seq<char>, o: OptionsView) -> Result<OptionsView, Seq<char>> {
    if starts_with(arg, "redis_connect_timeout="@) {
        let v = value_after(arg, "redis_connect_timeout="@);
        match u64_value(v) {
            Some(n) => Ok(OptionsView { connect_timeout: n, ..o }),
            None => Err(invalid("redis_connect_timeout"@, v)),
        }
    } else if starts_with(arg, "redis_command_timeout="@) {
        let v = value_after(arg, "redis_command_timeout="@);
        match u64_value(v) {
            Some(n) => Ok(OptionsView { command_timeout: n, ..o }),
            None => Err(invalid("redis_command_timeout"@, v)),
        }
    } else if starts_with(arg, "redis_retry_count="@) {
        let v = value_after(arg, "redis_retry_count="@);
        match u32_value(v) {
            Some(n) => Ok(OptionsView { retry_count: n, ..o }),
            None => Err(invalid("redis_retry_count"@, v)),
        }
    } else if starts_with(arg, "redis_retry_delay="@) {
        let v = value_after(arg, "redis_retry_delay="@);
        match u64_value(v) {
            Some(n) => Ok(OptionsView { retry_delay: n, ..o }),
            None => Err(invalid("redis_retry_delay"@, v)),
        }
    } else if starts_with(arg, "redis_password="@) {
        let v = value_after(arg, "redis_password="@);
        if v.len() > 0 {
            Ok(OptionsView { password: Some(v), ..o })
        } else {
            Ok(o)
        }
    } else if starts_with(arg, "redis_database="@) {
        let v = value_after(arg, "redis_database="@);
        match i64_value(v) {
            Some(n) => Ok(OptionsView { database: n, ..o }),
            None => Err(invalid("redis_database"@, v)),
        }
    } else if starts_with(arg, "redis_pool_size="@) {
        let v = value_after(arg, "redis_pool_size="@);
        match u32_value(v) {
            Some(n) => Ok(OptionsView { pool_size: n, ..o }),
            None => Err(invalid("redis_pool_size"@, v)),
        }
    } else if starts_with(arg, "redis_cluster_mode="@) {
        let v = value_after(arg, "redis_cluster_mode="@);
        if v == "on"@ {
            Ok(OptionsView { cluster_mode: true, ..o })
        } else if v == "off"@ {
            Ok(OptionsView { cluster_mode: false, ..o })
        } else {
            Err(invalid("redis_cluster_mode"@, v))
        }
    } else if starts_with(arg, "redis_tls="@) {
        let v = value_after(arg, "redis_tls="@);
        if v == "on"@ {
            Ok(OptionsView { tls_enabled: true, ..o })
        } else if v == "off"@ {
            Ok(OptionsView { tls_enabled: false, ..o })
        } else {
            Err(invalid("redis_tls"@, v))
        }
    } else if starts_with(arg, "redis_keepalive="@) {
        let v = value_after(arg, "redis_keepalive="@);
        match u64_value(v) {
            Some(n) => Ok(OptionsView { keepalive: n, ..o }),
            None => Err(invalid("redis_keepalive"@, v)),
        }
    } else {
        Err("Unknown Redis connection option: "@ + arg)
    }
}

fn invalid_value(name: &str, v: &str) -> (r: String)
    ensures
        r@ == invalid(name@, v@),
{
    joined("Invalid ", name).concat(" value: ").concat(v)
}

fn u64_arg(v: &str) -> (r: Option<u64>)
    ensures
        r == u64_value(v@),
{
    parse_u64(v)
}

fn u32_arg(v: &str) -> (r: Option<u32>)
    ensures
        r == u32_value(v@),
{
    parse_u32(v)
}

fn i64_arg(v: &str) -> (r: Option<i64>)
    ensures
        r == i64_value(v@),
{
    parse_i64(v)
}

/// Applies one `redis_*=value` directive option to the connection options of `config`.
pub fn parse_redis_option(arg: &str, config: &mut RateLimitRedisConfig) -> (r: Result<(), String>)
    ensures
        match redis_option_effect(arg@, old(config)@.redis_options) {
            Ok(o) => r is Ok && final(config)@ == (LocationConfigView {
                redis_options: o,
                ..old(config)@
            }),
            Err(e) => r matches Err(m) && m@ == e && final(config)@ == old(config)@,
        },
{
    if has_prefix(arg, "redis_connect_timeout=") {
        let v = suffix_after(arg, "redis_connect_timeout=");
        match u64_arg(v) {
            Some(n) => {
                config.redis_options.connect_timeout = n;
            },
            None => {
                return Err(invalid_value("redis_connect_timeout", v));
            },
        }
    } else if has_prefix(arg, "redis_command_timeout=") {
        let v = suffix_after(arg, "redis_command_timeout=");
        match u64_arg(v) {
            Some(n) => {
                config.redis_options.command_timeout = n;
            },
            None => {
                return Err(invalid_value("redis_command_timeout", v));
            },
        }
    } else if has_prefix(arg, "redis_retry_count=") {
        let v = suffix_after(arg, "redis_retry_count=");
        match u32_arg(v) {
            Some(n) => {
                config.redis_options.retry_count = n;
            },
            None => {
                return Err(invalid_value("redis_retry_count", v));
            },
        }
    } else if has_prefix(arg, "redis_retry_delay=") {
        let v = suffix_after(arg, "redis_retry_delay=");
        match u64_arg(v) {
            Some(n) => {
                config.redis_options.retry_delay = n;
            },
            None => {
                return Err(invalid_value("redis_retry_delay", v));
            },
        }
    } else if has_prefix(arg, "redis_password=") {
        let v = suffix_after(arg, "redis_password=");
        if v.unicode_len() > 0 {
            config.redis_options.password = Some(String::from_str(v));
        }
    } else if has_prefix(arg, "redis_database=") {
        let v = suffix_after(arg, "redis_database=");
        match i64_arg(v) {
            Some(n) => {
                config.redis_options.database = n;
            },
            None => {
                return Err(invalid_value("redis_database", v));
            },
        }
    } else if has_prefix(arg, "redis_pool_size=") {
        let v = suffix_after(arg, "redis_pool_size=");
        match u32_arg(v) {
            Some(n) => {
                config.redis_options.pool_size = n;
            },
            None => {
                return Err(invalid_value("redis_pool_size", v));
            },
        }
    } else if has_prefix(arg, "redis_cluster_mode=") {
        let v = suffix_after(arg, "redis_cluster_mode=");
        if text_eq(v, "on") {
            config.redis_options.cluster_mode = true;
        } else if text_eq(v, "off") {
            config.redis_options.cluster_mode = false;
        } else {
            return Err(invalid_value("redis_cluster_mode", v));
        }
    } else if has_prefix(arg, "redis_tls=") {
        let v = suffix_after(arg, "redis_tls=");
        if text_eq(v, "on") {
            config.redis_options.tls_enabled = true;
        } else if text_eq(v, "off") {
            config.redis_options.tls_enabled = false;
        } else {
            return Err(invalid_value("redis_tls", v));
        }
    } else if has_prefix(arg, "redis_keepalive=") {
        let v = suffix_after(arg, "redis_keepalive=");
        match u64_arg(v) {
            Some(n) => {
                config.redis_options.keepalive = n;
            },
            None => {
                return Err(invalid_value("redis_keepalive", v));
            },
        }
    } else {
        return Err(joined("Unknown Redis connection option: ", arg));
    }
    Ok(())
}

impl RateLimitRedisConfig {
    /// A copy with the same view.
    pub fn duplicate(&self) -> (r: RateLimitRedisConfig)
        ensures
            r@ == self@,
    {
        RateLimitRedisConfig {
            redis_url: self.redis_url.clone(),
            rate_limit_key: self.rate_limit_key.clone(),
            requests_per_second: self.requests_per_second,
            burst: self.burst,
            enabled: self.enabled,
            algorithm: self.algorithm,
            window_size: self.window_size,
            config_file_path: match &self.config_file_path {
                Some(p) => Some(p.clone()),
                None => None,
            },
            redis_options: self.redis_options.duplicate(),
        }
    }

    /// The parameters a limiter for this location runs with.
    pub fn limiter_config(&self) -> (r: RateLimitConfig)
        ensures
            r.redis_url@ == self.redis_url@,
            r.requests_per_second == self.requests_per_second,
            r.burst == self.burst,
            r.algorithm == self.algorithm,
            r.window_size == self.window_size,
            r.redis_options@ == self.redis_options@,
    {
        RateLimitConfig {
            redis_url: self.redis_url.clone(),
            requests_per_second: self.requests_per_second,
            burst: self.burst,
            algorithm: self.algorithm,
            window_size: self.window_size,
            redis_options: self.redis_options.duplicate(),
        }
    }
}

/// Effect of one directive option `name=value` on a location's configuration,
/// or the error it raises.
pub open spec fn directive_arg_effect(arg: Seq<char>, c: LocationConfigView) -> Result<
    LocationConfigView,
    Seq<char>,
> {
    if starts_with(arg, "redis_url="@) {
        Ok(LocationConfigView { redis_url: value_after(arg, "redis_url="@), ..c })
    } else if starts_with(arg, "key="@) {
        Ok(LocationConfigView { rate_limit_key: value_after(arg, "key="@), ..c })
    } else if starts_with(arg, "rate="@) {
        let v = value_after(arg, "rate="@);
        match u32_value(v) {
            Some(n) => Ok(LocationConfigView { requests_per_second: n, ..c }),
            None => Err(invalid("rate"@, v)),
        }
    } else if starts_with(arg, "burst="@) {
        let v = value_after(arg, "burst="@);
        match u32_value(v) {
            Some(n) => Ok(LocationConfigView { burst: n, ..c }),
            None => Err(invalid("burst"@, v)),
        }
    } else if starts_with(arg, "algorithm="@) {
        let v = value_after(arg, "algorithm="@);
        match RateLimitAlgorithm::from_name(lower_of(v)) {
            Some(a) => Ok(LocationConfigView { algorithm: a, ..c }),
            None => Err("Unknown rate limit algorithm: "@ + v),
        }
    } else if starts_with(arg, "window_size="@) {
        let v = value_after(arg, "window_size="@);
        match u32_value(v) {
            Some(n) => Ok(LocationConfigView { window_size: n, ..c }),
            None => Err(invalid("window_size"@, v)),
        }
    } else if starts_with(arg, "config_file="@) {
        Ok(LocationConfigView { config_file_path: Some(value_after(arg, "config_file="@)), ..c })
    } else if starts_with(arg, "redis_"@) {
        match redis_option_effect(arg, c.redis_options) {
            Ok(o) => Ok(LocationConfigView { redis_options: o, ..c }),
            Err(e) => Err(e),
        }
    } else {
        Err("Unknown parameter: "@ + arg)
    }
}

/// The options applied left to right; the first error stops.
pub open spec fn directive_args_effect(args: Seq<Seq<char>>, c: LocationConfigView) -> Result<
    LocationConfigView,
    Seq<char>,
>
    decreases args.len(),
{
    if args.len() == 0 {
        Ok(c)
    } else {
        match directive_args_effect(args.drop_last(), c) {
            Ok(c2) => directive_arg_effect(args.last(), c2),
            Err(e) => Err(e),
        }
    }
}

pub open spec fn switch_value(s: Seq<char>) -> Option<bool> {
    if s == "on"@ {
        Some(true)
    } else if s == "off"@ {
        Some(false)
    } else {
        None
    }
}

/// The `ratelimit_redis <on|off> [name=value ...]` directive laid over `base`:
/// the switch sets `enabled`, then each option overrides its field.
pub open spec fn directive_effect(args: Seq<Seq<char>>, base: LocationConfigView) -> Result<
    LocationConfigView,
    Seq<char>,
> {
    if args.len() < 1 {
        Err("Invalid number of arguments for ratelimit_redis directive"@)
    } else {
        match switch_value(args[0]) {
            None => Err("ratelimit_redis should be 'on' or 'off'"@),
            Some(on) => directive_args_effect(
                args.drop_first(),
                LocationConfigView { enabled: on, ..base },
            ),
        }
    }
}

pub open spec fn texts_view(args: Seq<String>) -> Seq<Seq<char>> {
    args.map_values(|a: String| a@)
}

/// Applies one directive option `name=value` to `config`.
pub fn apply_directive_arg(arg: &str, config: &mut RateLimitRedisConfig) -> (r: Result<(), String>)
    ensures
        match directive_arg_effect(arg@, old(config)@) {
            Ok(c) => r is Ok && final(config)@ == c,
            Err(e) => r matches Err(m) && m@ == e,
        },
{
    if has_prefix(arg, "redis_url=") {
        config.redis_url = String::from_str(suffix_after(arg, "redis_url="));
    } else if has_prefix(arg, "key=") {
        config.rate_limit_key = String::from_str(suffix_after(arg, "key="));
    } else if has_prefix(arg, "rate=") {
        let v = suffix_after(arg, "rate=");
        match u32_arg(v) {
            Some(n) => {
                config.requests_per_second = n;
            },
            None => {
                return Err(invalid_value("rate", v));
            },
        }
    } else if has_prefix(arg, "burst=") {
        let v = suffix_after(arg, "burst=");
        match u32_arg(v) {
            Some(n) => {
                config.burst = n;
            },
            None => {
                return Err(invalid_value("burst", v));
            },
        }
    } else if has_prefix(arg, "algorithm=") {
        let v = suffix_after(arg, "algorithm=");
        match RateLimitAlgorithm::from_str(v) {
            Ok(a) => {
                config.algorithm = a;
            },
            Err(e) => {
                return Err(e);
            },
        }
    } else if has_prefix(arg, "window_size=") {
        let v = suffix_after(arg, "window_size=");
        match u32_arg(v) {
            Some(n) => {
                config.window_size = n;
            },
            None => {
                return Err(invalid_value("window_size", v));
            },
        }
    } else if has_prefix(arg, "config_file=") {
        config.config_file_path = Some(String::from_str(suffix_after(arg, "config_file=")));
    } else if has_prefix(arg, "redis_") {
        return parse_redis_option(arg, config);
    } else {
        return Err(joined("Unknown parameter: ", arg));
    }
    Ok(())
}

/// The `ratelimit_redis` directive with arguments `args`, laid over `base`.
/// Laid over settings resolved from a configuration file, it makes every
/// option the directive names win over the file, and its switch decide `enabled`.
pub fn apply_directive(args: &Vec<String>, base: &RateLimitRedisConfig) -> (r: Result<
    RateLimitRedisConfig,
    String,
>)
    ensures
        match directive_effect(texts_view(args@), base@) {
            Ok(c) => r matches Ok(x) && x@ == c,
            Err(e) => r matches Err(m) && m@ == e,
        },
{
    let ghost av = texts_view(args@);
    if args.len() < 1 {
        return Err(String::from_str("Invalid number of arguments for ratelimit_redis directive"));
    }
    assert(av[0] == args@[0]@);
    let enabled = if text_eq(args[0].as_str(), "on") {
        true
    } else if text_eq(args[0].as_str(), "off") {
        false
    } else {
        return Err(String::from_str("ratelimit_redis should be 'on' or 'off'"));
    };
    let mut config = base.duplicate();
    config.enabled = enabled;
    let ghost start = config@;
    let ghost rest = av.drop_first();
    let n = args.len();
    let mut i: usize = 1;
    assert(rest.subrange(0, 0) =~= Seq::<Seq<char>>::empty());
    while i < n
        invariant
            n == args@.len(),
            av == texts_view(args@),
            rest == av.drop_first(),
            1 <= i <= n,
            start == (LocationConfigView { enabled: enabled, ..base@ }),
            av.len() >= 1 && switch_value(av[0]) == Some(enabled),
            directive_args_effect(rest.subrange(0, i - 1), start) == Ok::<
                LocationConfigView,
                Seq<char>,
            >(config@),
        decreases n - i,
    {
        let ghost before = config@;
        assert(rest.subrange(0, i as int).drop_last() =~= rest.subrange(0, i - 1));
        assert(rest.subrange(0, i as int).last() == args@[i as int]@);
        match apply_directive_arg(args[i].as_str(), &mut config) {
            Ok(()) => {},
            Err(e) => {
                assert(directive_args_effect(rest.subrange(0, i as int), start) == directive_arg_effect(args@[i as int]@, before));
                proof {
                    lemma_args_error_sticks(rest, start, i as int);
                    assert(directive_effect(av, base@) == directive_args_effect(rest, start));
                }
                return Err(e);
            },
        }
        i = i + 1;
    }
    assert(rest.subrange(0, n - 1) =~= rest);
    Ok(config)
}

proof fn lemma_args_error_sticks(args: Seq<Seq<char>>, c: LocationConfigView, k: int)
    requires
        1 <= k <= args.len(),
        directive_args_effect(args.subrange(0, k), c) is Err,
    ensures
        directive_args_effect(args, c) == directive_args_effect(args.subrange(0, k), c),
    decreases args.len() - k,
{
    if k < args.len() {
        assert(args.subrange(0, k + 1).drop_last() =~= args.subrange(0, k));
        lemma_args_error_sticks(args, c, k + 1);
    } else {
        assert(args.subrange(0, k) =~= args);
    }
}

/// A location's configuration taken from resolved file settings: the algorithm
/// name is read without regard to case, and an unknown name means the sliding window.
pub open spec fn settings_to_location(s: SettingsView) -> LocationConfigView {
    LocationConfigView {
        redis_url: s.redis_url,
        rate_limit_key: s.key,
        requests_per_second: s.rate,
        burst: s.burst,
        enabled: s.enabled,
        algorithm: match RateLimitAlgorithm::from_name(lower_of(s.algorithm)) {
            Some(a) => a,
            None => RateLimitAlgorithm::SlidingWindow,
        },
        window_size: s.window_size,
        config_file_path: None,
        redis_options: s.redis_options,
    }
}

/// Turns resolved file settings into a location's configuration.
pub fn apply_settings_to_config(settings: RateLimitSettings) -> (r: RateLimitRedisConfig)
    ensures
        r@ == settings_to_location(settings@),
{
    let algorithm = match ConfigFile::parse_algorithm(settings.algorithm.as_str()) {
        Ok(a) => a,
        Err(_) => RateLimitAlgorithm::SlidingWindow,
    };
    RateLimitRedisConfig {
        redis_url: settings.redis_url,
        rate_limit_key: settings.key,
        requests_per_second: settings.rate,
        burst: settings.burst,
        enabled: settings.enabled,
        algorithm,
        window_size: settings.window_size,
        config_file_path: None,
        redis_options: settings.redis_options,
    }
}

/// The configuration of `location` as a configuration file resolves it.
pub fn apply_config_from_file(config_file: &ConfigFile, location: &str) -> (r: RateLimitRedisConfig)
    ensures
        r@ == settings_to_location(resolve(config_file@, location@)),
{
    apply_settings_to_config(config_file.get_settings(location))
}

/// The limiter parameters of a file's default settings.
pub fn limiter_config_from_settings(settings: &RateLimitSettings) -> (r: RateLimitConfig)
    ensures
        r.redis_url@ == settings.redis_url@,
        r.requests_per_second == settings.rate,
        r.burst == settings.burst,
        r.algorithm == settings_to_location(settings@).algorithm,
        r.window_size == settings.window_size,
        r.redis_options@ == settings.redis_options@,
{
    apply_settings_to_config(settings.duplicate()).limiter_config()
}

} // verus!
