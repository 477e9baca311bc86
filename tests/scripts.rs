use ratelimit_redis::limiter::{fixed_window_key, max_requests, token_bucket_key};
use ratelimit_redis::scripts::{
    fixed_window_script, leaky_bucket_script, sliding_window_script, token_bucket_script,
    LeakyState, TokenState, LEVEL_UNIT,
};

const T0: u64 = 1_700_000_000;

#[test]
fn fw_admit_then_reject() {
    let max = max_requests(2, 0);
    assert_eq!(max, 2);
    let key = fixed_window_key("1.2.3.4", T0, 10);
    let mut stored = None;
    let mut decisions = Vec::new();
    for dt in [0u64, 3, 9] {
        assert_eq!(fixed_window_key("1.2.3.4", T0 + dt, 10), key);
        let step = fixed_window_script(stored, max, 10);
        stored = Some(step.count);
        decisions.push(step.admitted);
    }
    assert_eq!(decisions, vec![true, true, false]);
}

#[test]
fn fw_window_rollover() {
    let max = max_requests(2, 0);
    let first = fixed_window_key("1.2.3.4", T0, 10);
    let mut stored = None;
    let mut admitted = 0;
    for _ in 0..2 {
        let step = fixed_window_script(stored, max, 10);
        stored = Some(step.count);
        admitted += step.admitted as u32;
    }
    let second = fixed_window_key("1.2.3.4", T0 + 10, 10);
    assert_ne!(first, second);
    let mut stored = None;
    for _ in 0..2 {
        let step = fixed_window_script(stored, max, 10);
        stored = Some(step.count);
        admitted += step.admitted as u32;
    }
    assert_eq!(admitted, 4);
}

#[test]
fn fixed_window_sets_expiry_on_first_increment_only() {
    let a = fixed_window_script(None, 5, 60);
    assert_eq!(a.count, 1);
    assert_eq!(a.expire_secs, Some(60));
    let b = fixed_window_script(Some(1), 5, 60);
    assert_eq!(b.count, 2);
    assert_eq!(b.expire_secs, None);
    assert!(b.admitted);
    let c = fixed_window_script(Some(5), 5, 60);
    assert!(!c.admitted);
}

#[test]
fn fixed_window_cap_holds_over_many_calls() {
    let mut stored = None;
    let mut admitted = 0;
    for _ in 0..1000 {
        let step = fixed_window_script(stored, 15, 60);
        stored = Some(step.count);
        admitted += step.admitted as u32;
    }
    assert_eq!(admitted, 15);
}

#[test]
fn token_bucket_burst() {
    let mut stored = None;
    let mut decisions = Vec::new();
    for _ in 0..6 {
        let step = token_bucket_script(stored, T0, 1, 5, 60);
        stored = Some(step.state);
        decisions.push(step.admitted);
    }
    assert_eq!(decisions, vec![true, true, true, true, true, false]);
}

#[test]
fn token_bucket_new_key() {
    let step = token_bucket_script(None, T0, 3, 4, 30);
    assert!(step.admitted);
    assert_eq!(step.state, TokenState { tokens: 3, last_refill: T0 });
    assert_eq!(step.expire_secs, Some(60));
}

#[test]
fn token_bucket_of_size_zero_rejects_new_key() {
    let step = token_bucket_script(None, T0, 3, 0, 30);
    assert!(!step.admitted);
    assert_eq!(step.state, TokenState { tokens: 0, last_refill: T0 });
    assert_eq!(step.expire_secs, Some(60));
}

#[test]
fn token_bucket_refills_at_rate_up_to_burst() {
    let empty = TokenState { tokens: 0, last_refill: T0 };
    let same_second = token_bucket_script(Some(empty), T0, 2, 5, 60);
    assert!(!same_second.admitted);
    assert_eq!(same_second.state, TokenState { tokens: 0, last_refill: T0 });
    let later = token_bucket_script(Some(empty), T0 + 2, 2, 5, 60);
    assert!(later.admitted);
    assert_eq!(later.state, TokenState { tokens: 3, last_refill: T0 + 2 });
    let much_later = token_bucket_script(Some(empty), T0 + 100, 2, 5, 60);
    assert_eq!(much_later.state.tokens, 4);
    assert_eq!(much_later.expire_secs, None);
}

#[test]
fn token_bucket_long_run_rate() {
    let mut stored = None;
    let mut admitted = 0u64;
    for t in 0..100u64 {
        for _ in 0..10 {
            let step = token_bucket_script(stored, T0 + t, 3, 5, 60);
            stored = Some(step.state);
            admitted += step.admitted as u64;
        }
    }
    assert_eq!(admitted, 5 + 3 * 99);
}

#[test]
fn leaky_bucket_drain() {
    let now = T0 * 1_000_000;
    let a = leaky_bucket_script(None, now, 2, 2, 60);
    assert!(a.admitted);
    let b = leaky_bucket_script(Some(a.state), now, 2, 2, 60);
    assert!(b.admitted);
    assert_eq!(b.state.level, 2 * LEVEL_UNIT);
    let c = leaky_bucket_script(Some(b.state), now, 2, 2, 60);
    assert!(!c.admitted);
    assert_eq!(c.state.level, 2 * LEVEL_UNIT);
    let d = leaky_bucket_script(Some(c.state), now + 1_000_000, 2, 2, 60);
    assert!(d.admitted);
    assert_eq!(d.state, LeakyState { level: LEVEL_UNIT, last_leak: now + 1_000_000 });
}

#[test]
fn leaky_bucket_partial_drain() {
    let s = LeakyState { level: 3 * LEVEL_UNIT, last_leak: 0 };
    let step = leaky_bucket_script(Some(s), 250_000, 4, 3, 60);
    assert!(step.admitted);
    assert_eq!(step.state.level, 3 * LEVEL_UNIT);
    let step = leaky_bucket_script(Some(s), 249_999, 4, 3, 60);
    assert!(!step.admitted);
    assert_eq!(step.state, LeakyState { level: 3 * LEVEL_UNIT, last_leak: 249_999 });
}

#[test]
fn leaky_bucket_of_size_zero_stays_empty() {
    let a = leaky_bucket_script(None, 5_000_000, 3, 0, 60);
    assert!(!a.admitted);
    assert_eq!(a.state, LeakyState { level: 0, last_leak: 5_000_000 });
    assert_eq!(a.expire_secs, Some(120));
    let b = leaky_bucket_script(Some(a.state), 9_000_000, 3, 0, 60);
    assert!(!b.admitted);
    assert_eq!(b.state.level, 0);
}

#[test]
fn fixed_window_cap_from_existing_count() {
    let mut stored = Some(3);
    let mut admitted = 0;
    for _ in 0..50 {
        let step = fixed_window_script(stored, 5, 60);
        stored = Some(step.count);
        admitted += step.admitted as u32;
    }
    assert_eq!(admitted, 2);
    assert_eq!(stored, Some(53));
}

#[test]
fn leaky_bucket_level_stays_within_burst() {
    let mut stored = None;
    for i in 0..500u64 {
        let step = leaky_bucket_script(stored, i * 100_000, 3, 4, 60);
        stored = Some(step.state);
        assert!(step.state.level <= 4 * LEVEL_UNIT);
    }
}

#[test]
fn sliding_window_weights_previous_window() {
    let w = 10;
    let now = 1_000 + 5;
    let r = sliding_window_script(Some(2), Some(10), now, w, 5, 3);
    assert_eq!(r.current_count, 3);
    assert_eq!(r.expire_secs, None);
    assert!(r.admitted);
    let r = sliding_window_script(Some(3), Some(10), now, w, 5, 3);
    assert!(!r.admitted);
    let r = sliding_window_script(Some(2), Some(10), 1_000, w, 5, 3);
    assert!(!r.admitted);
    let r = sliding_window_script(None, None, now, w, 5, 3);
    assert_eq!(r.current_count, 1);
    assert_eq!(r.expire_secs, Some(20));
    assert!(r.admitted);
}

#[test]
fn every_new_key_expires() {
    assert!(fixed_window_script(None, 1, 7).expire_secs.unwrap() > 0);
    assert!(sliding_window_script(None, Some(3), T0, 7, 1, 1).expire_secs.unwrap() > 0);
    assert!(token_bucket_script(None, T0, 1, 1, 7).expire_secs.unwrap() > 0);
    assert!(leaky_bucket_script(None, T0, 1, 1, 7).expire_secs.unwrap() > 0);
}

#[test]
fn header_identities_use_separate_buckets() {
    let alice = token_bucket_key("alice");
    assert_ne!(fixed_window_key("x:1", T0, 10), fixed_window_key("x", T0, 10));
    let bob = token_bucket_key("bob");
    assert_ne!(alice, bob);
    let mut a = None;
    for _ in 0..3 {
        a = Some(token_bucket_script(a, T0, 1, 2, 60).state);
    }
    let b = token_bucket_script(None, T0, 1, 2, 60);
    assert!(b.admitted);
    assert_eq!(b.state.tokens, 1);
}
