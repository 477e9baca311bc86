use ratelimit_redis::settings::merge_redis_options;
use ratelimit_redis::{ConfigFile, RateLimitSettings, RedisConnectionOptions};

fn settings_eq(a: &RateLimitSettings, b: &RateLimitSettings) -> bool {
    format!("{:?}", a) == format!("{:?}", b)
}

#[test]
fn settings_defaults() {
    let s = RateLimitSettings::default();
    assert_eq!(s.redis_url, "redis://127.0.0.1:6379");
    assert_eq!(s.key, "remote_addr");
    assert_eq!(s.rate, 10);
    assert_eq!(s.burst, 5);
    assert_eq!(s.algorithm, "sliding_window");
    assert_eq!(s.window_size, 60);
    assert!(!s.enabled);
    let o = s.redis_options;
    assert_eq!(o.connect_timeout, 5000);
    assert_eq!(o.command_timeout, 2000);
    assert_eq!(o.retry_count, 3);
    assert_eq!(o.retry_delay, 500);
    assert_eq!(o.password, None);
    assert_eq!(o.database, 0);
    assert_eq!(o.pool_size, 10);
    assert!(!o.cluster_mode);
    assert!(!o.tls_enabled);
    assert_eq!(o.keepalive, 0);
}

#[test]
fn unknown_location_gets_default() {
    let mut c = ConfigFile::default();
    c.default.rate = 42;
    let s = c.get_settings("/nowhere");
    assert!(settings_eq(&s, &c.default));
}

#[test]
fn per_location_override() {
    let mut c = ConfigFile::default();
    c.default.rate = 100;
    let mut strict = RateLimitSettings::default();
    strict.rate = 1;
    strict.burst = 0;
    c.locations.push(("/strict".to_string(), strict));
    let s = c.get_settings("/strict");
    assert_eq!(s.rate, 1);
    assert_eq!(s.burst, 0);
    let root = c.get_settings("/");
    assert_eq!(root.rate, 100);
    assert_eq!(root.burst, 5);
}

#[test]
fn override_equal_to_default_changes_nothing() {
    let mut c = ConfigFile::default();
    c.default.rate = 7;
    c.default.enabled = true;
    c.default.key = "http_x_user".to_string();
    c.default.redis_options.password = Some("pw".to_string());
    c.default.redis_options.database = 3;
    c.locations.push(("/same".to_string(), c.default.clone()));
    let s = c.get_settings("/same");
    assert!(settings_eq(&s, &c.default));
}

#[test]
fn universal_default_cannot_reset_global() {
    let mut c = ConfigFile::default();
    c.default.rate = 50;
    c.locations.push(("/a".to_string(), RateLimitSettings::default()));
    let s = c.get_settings("/a");
    assert_eq!(s.rate, 50);
}

#[test]
fn enabled_follows_location_when_it_differs() {
    let mut c = ConfigFile::default();
    c.default.enabled = true;
    let mut off = RateLimitSettings::default();
    off.enabled = false;
    c.locations.push(("/off".to_string(), off));
    assert!(!c.get_settings("/off").enabled);
    assert!(c.get_settings("/other").enabled);
}

#[test]
fn set_location_replaces_override() {
    let mut c = ConfigFile::default();
    let mut a = RateLimitSettings::default();
    a.rate = 1;
    let mut b = RateLimitSettings::default();
    b.rate = 2;
    let mut q = RateLimitSettings::default();
    q.rate = 3;
    c.set_location("/p".to_string(), a);
    c.set_location("/q".to_string(), q);
    c.set_location("/p".to_string(), b);
    assert_eq!(c.locations.len(), 2);
    assert_eq!(c.get_settings("/p").rate, 2);
    assert_eq!(c.get_settings("/q").rate, 3);
}

#[test]
fn merge_options_takes_non_defaults_only() {
    let mut dest = RedisConnectionOptions::default();
    dest.connect_timeout = 100;
    dest.password = Some("old".to_string());
    dest.database = 4;
    let mut src = RedisConnectionOptions::default();
    src.command_timeout = 50;
    src.keepalive = 30;
    src.tls_enabled = true;
    merge_redis_options(&mut dest, &src);
    assert_eq!(dest.connect_timeout, 100);
    assert_eq!(dest.command_timeout, 50);
    assert_eq!(dest.password, Some("old".to_string()));
    assert_eq!(dest.database, 4);
    assert_eq!(dest.keepalive, 30);
    assert!(dest.tls_enabled);
    src.password = Some("new".to_string());
    merge_redis_options(&mut dest, &src);
    assert_eq!(dest.password, Some("new".to_string()));
}

#[test]
fn merged_scalar_fields() {
    let mut c = ConfigFile::default();
    let mut o = RateLimitSettings::default();
    o.redis_url = "redis://10.0.0.1:6379".to_string();
    o.key = "http_x_api_key".to_string();
    o.algorithm = "token_bucket".to_string();
    o.window_size = 10;
    o.redis_options.retry_count = 9;
    c.locations.push(("/api".to_string(), o));
    let s = c.get_settings("/api");
    assert_eq!(s.redis_url, "redis://10.0.0.1:6379");
    assert_eq!(s.key, "http_x_api_key");
    assert_eq!(s.algorithm, "token_bucket");
    assert_eq!(s.window_size, 10);
    assert_eq!(s.rate, 10);
    assert_eq!(s.redis_options.retry_count, 9);
    assert_eq!(s.redis_options.pool_size, 10);
}
