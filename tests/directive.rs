use ratelimit_redis::directive::{
    apply_config_from_file, apply_directive, apply_settings_to_config,
    limiter_config_from_settings, parse_redis_option,
};
use ratelimit_redis::{ConfigFile, RateLimitAlgorithm, RateLimitRedisConfig, RateLimitSettings};

fn args(v: &[&str]) -> Vec<String> {
    v.iter().map(|s| s.to_string()).collect()
}

#[test]
fn directive_on_with_options() {
    let base = RateLimitRedisConfig::default();
    let c = apply_directive(
        &args(&["on", "rate=2", "burst=0", "algorithm=Fixed_Window", "window_size=10", "key=http_x_api_key"]),
        &base,
    )
    .unwrap();
    assert!(c.enabled);
    assert_eq!(c.requests_per_second, 2);
    assert_eq!(c.burst, 0);
    assert_eq!(c.algorithm, RateLimitAlgorithm::FixedWindow);
    assert_eq!(c.window_size, 10);
    assert_eq!(c.rate_limit_key, "http_x_api_key");
    assert_eq!(c.redis_url, "redis://127.0.0.1:6379");
}

#[test]
fn directive_off_and_paths() {
    let base = RateLimitRedisConfig::default();
    let c = apply_directive(
        &args(&["off", "redis_url=redis://cache:6380", "config_file=/etc/rl.json"]),
        &base,
    )
    .unwrap();
    assert!(!c.enabled);
    assert_eq!(c.redis_url, "redis://cache:6380");
    assert_eq!(c.config_file_path, Some("/etc/rl.json".to_string()));
}

#[test]
fn directive_errors() {
    let base = RateLimitRedisConfig::default();
    assert_eq!(
        apply_directive(&args(&[]), &base).unwrap_err(),
        "Invalid number of arguments for ratelimit_redis directive"
    );
    assert_eq!(
        apply_directive(&args(&["yes"]), &base).unwrap_err(),
        "ratelimit_redis should be 'on' or 'off'"
    );
    assert_eq!(apply_directive(&args(&["on", "rate=abc"]), &base).unwrap_err(), "Invalid rate value: abc");
    assert_eq!(apply_directive(&args(&["on", "burst=-1"]), &base).unwrap_err(), "Invalid burst value: -1");
    assert_eq!(
        apply_directive(&args(&["on", "window_size=4294967296"]), &base).unwrap_err(),
        "Invalid window_size value: 4294967296"
    );
    assert_eq!(
        apply_directive(&args(&["on", "algorithm=gcra"]), &base).unwrap_err(),
        "Unknown rate limit algorithm: gcra"
    );
    assert_eq!(apply_directive(&args(&["on", "color=red"]), &base).unwrap_err(), "Unknown parameter: color=red");
    assert_eq!(
        apply_directive(&args(&["on", "rate=3", "redis_bogus=1", "rate=x"]), &base).unwrap_err(),
        "Unknown Redis connection option: redis_bogus=1"
    );
}

#[test]
fn directive_numbers_accept_plus_sign() {
    let base = RateLimitRedisConfig::default();
    let c = apply_directive(&args(&["on", "rate=+7"]), &base).unwrap();
    assert_eq!(c.requests_per_second, 7);
    assert!(apply_directive(&args(&["on", "rate=+"]), &base).is_err());
    assert!(apply_directive(&args(&["on", "rate="]), &base).is_err());
}

#[test]
fn redis_options_parse() {
    let mut c = RateLimitRedisConfig::default();
    for a in [
        "redis_connect_timeout=100",
        "redis_command_timeout=200",
        "redis_retry_count=1",
        "redis_retry_delay=50",
        "redis_password=pw",
        "redis_database=-3",
        "redis_pool_size=4",
        "redis_cluster_mode=on",
        "redis_tls=on",
        "redis_keepalive=60",
    ] {
        parse_redis_option(a, &mut c).unwrap();
    }
    let o = &c.redis_options;
    assert_eq!(o.connect_timeout, 100);
    assert_eq!(o.command_timeout, 200);
    assert_eq!(o.retry_count, 1);
    assert_eq!(o.retry_delay, 50);
    assert_eq!(o.password, Some("pw".to_string()));
    assert_eq!(o.database, -3);
    assert_eq!(o.pool_size, 4);
    assert!(o.cluster_mode);
    assert!(o.tls_enabled);
    assert_eq!(o.keepalive, 60);
    parse_redis_option("redis_password=", &mut c).unwrap();
    assert_eq!(c.redis_options.password, Some("pw".to_string()));
    parse_redis_option("redis_tls=off", &mut c).unwrap();
    assert!(!c.redis_options.tls_enabled);
}

#[test]
fn redis_option_errors() {
    let mut c = RateLimitRedisConfig::default();
    let cases = [
        ("redis_connect_timeout=soon", "Invalid redis_connect_timeout value: soon"),
        ("redis_command_timeout=-5", "Invalid redis_command_timeout value: -5"),
        ("redis_retry_count=5000000000", "Invalid redis_retry_count value: 5000000000"),
        ("redis_retry_delay=1.5", "Invalid redis_retry_delay value: 1.5"),
        ("redis_database=x", "Invalid redis_database value: x"),
        ("redis_pool_size=", "Invalid redis_pool_size value: "),
        ("redis_cluster_mode=yes", "Invalid redis_cluster_mode value: yes"),
        ("redis_tls=1", "Invalid redis_tls value: 1"),
        ("redis_keepalive=off", "Invalid redis_keepalive value: off"),
        ("redis_timeout=5", "Unknown Redis connection option: redis_timeout=5"),
    ];
    for (arg, msg) in cases {
        assert_eq!(parse_redis_option(arg, &mut c), Err(msg.to_string()));
    }
    assert_eq!(c.redis_options.connect_timeout, 5000);
}

#[test]
fn directive_wins_over_file() {
    let mut file = ConfigFile::default();
    file.default.rate = 100;
    file.default.enabled = true;
    file.default.algorithm = "token_bucket".to_string();
    let from_file = apply_config_from_file(&file, "/");
    assert_eq!(from_file.requests_per_second, 100);
    assert_eq!(from_file.algorithm, RateLimitAlgorithm::TokenBucket);
    let c = apply_directive(&args(&["off", "burst=9"]), &from_file).unwrap();
    assert!(!c.enabled);
    assert_eq!(c.burst, 9);
    assert_eq!(c.requests_per_second, 100);
}

#[test]
fn settings_with_unknown_algorithm_fall_back() {
    let mut s = RateLimitSettings::default();
    s.algorithm = "nonsense".to_string();
    s.rate = 3;
    let c = apply_settings_to_config(s);
    assert_eq!(c.algorithm, RateLimitAlgorithm::SlidingWindow);
    assert_eq!(c.requests_per_second, 3);
    assert_eq!(c.config_file_path, None);
}

#[test]
fn limiter_config_from_file_default() {
    let mut s = RateLimitSettings::default();
    s.algorithm = "LEAKY_BUCKET".to_string();
    s.burst = 8;
    let l = limiter_config_from_settings(&s);
    assert_eq!(l.algorithm, RateLimitAlgorithm::LeakyBucket);
    assert_eq!(l.burst, 8);
    assert_eq!(l.requests_per_second, 10);
}
