use ratelimit_redis::handler::{
    admission, begin_request, find_header, header_name_matches, identity_key,
    rejection_response, request_config, Admission, RequestStep,
};
use ratelimit_redis::{ConfigFile, RateLimitAlgorithm, RateLimitRedisConfig, RateLimitSettings};

fn headers(v: &[(&str, &str)]) -> Vec<(String, String)> {
    v.iter().map(|(a, b)| (a.to_string(), b.to_string())).collect()
}

#[test]
fn header_key() {
    let a = identity_key("http_x_api_key", &None, &headers(&[("X-API-Key", "alice")]));
    let b = identity_key("http_x_api_key", &None, &headers(&[("x-api-key", "bob")]));
    assert_eq!(a, Some("alice".to_string()));
    assert_eq!(b, Some("bob".to_string()));
    assert_ne!(a, b);
}

#[test]
fn identity_sources() {
    let h = headers(&[("Host", "example.com")]);
    assert_eq!(identity_key("remote_addr", &Some("10.0.0.1".to_string()), &h), Some("10.0.0.1".to_string()));
    assert_eq!(identity_key("remote_addr", &None, &h), None);
    assert_eq!(identity_key("http_x_api_key", &None, &h), None);
    assert_eq!(identity_key("global", &None, &h), Some("global".to_string()));
}

#[test]
fn header_lookup_first_match() {
    let h = headers(&[("Accept", "*/*"), ("X-Token", "one"), ("x_token", "two")]);
    assert_eq!(find_header("x_token", &h), Some("one".to_string()));
    assert!(header_name_matches("Content-Type", "content_type"));
    assert!(!header_name_matches("Content-Type", "content-typ"));
}

#[test]
fn disabled_or_missing_identity_declines() {
    let mut c = RateLimitRedisConfig::default();
    let h = headers(&[]);
    assert_eq!(begin_request(&c, &Some("1.2.3.4".to_string()), &h), RequestStep::Decline);
    c.enabled = true;
    assert_eq!(begin_request(&c, &None, &h), RequestStep::Decline);
    assert_eq!(
        begin_request(&c, &Some("1.2.3.4".to_string()), &h),
        RequestStep::Check("1.2.3.4".to_string())
    );
}

#[test]
fn fail_open() {
    let mut rejected = 0;
    for i in 0..100 {
        let check: Result<bool, String> = Err(format!("connection refused {}", i));
        if admission(&check) == Admission::Rejected {
            rejected += 1;
        }
    }
    assert_eq!(rejected, 0);
    assert_eq!(admission(&Ok(true)), Admission::Declined);
    assert_eq!(admission(&Ok(false)), Admission::Rejected);
}

#[test]
fn rejection_headers() {
    let mut c = RateLimitRedisConfig::default();
    c.requests_per_second = 2;
    c.algorithm = RateLimitAlgorithm::FixedWindow;
    let r = rejection_response(&c);
    assert_eq!(r.status, 403);
    assert_eq!(
        r.headers,
        headers(&[
            ("X-RateLimit-Limit", "2"),
            ("X-RateLimit-Remaining", "0"),
            ("X-RateLimit-Algorithm", "fixed_window"),
            ("Content-Type", "application/json"),
        ])
    );
    assert_eq!(r.body, "{\"error\": \"rate limit exceeded\"}");
    c.requests_per_second = 1200;
    c.algorithm = RateLimitAlgorithm::LeakyBucket;
    let r = rejection_response(&c);
    assert_eq!(r.headers[0].1, "1200");
    assert_eq!(r.headers[2].1, "leaky_bucket");
}

#[test]
fn request_config_precedence() {
    let mut cached = RateLimitRedisConfig::default();
    cached.requests_per_second = 1;
    let mut file = ConfigFile::default();
    file.default.rate = 100;
    let mut strict = RateLimitSettings::default();
    strict.rate = 1;
    strict.burst = 0;
    file.locations.push(("/strict".to_string(), strict));
    let mut ctx = RateLimitRedisConfig::default();
    ctx.requests_per_second = 3;
    assert_eq!(request_config(Some(&cached), Some(&file), Some(&ctx), "/").requests_per_second, 1);
    let s = request_config(None, Some(&file), Some(&ctx), "/strict");
    assert_eq!((s.requests_per_second, s.burst), (1, 0));
    assert_eq!(request_config(None, Some(&file), Some(&ctx), "/").requests_per_second, 100);
    assert_eq!(request_config(None, None, Some(&ctx), "/").requests_per_second, 3);
    let d = request_config(None, None, None, "/");
    assert!(!d.enabled);
    assert_eq!(d.requests_per_second, 10);
}
