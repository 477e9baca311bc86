//! What the limiter computes around each store round trip: key names, script
//! arguments, the reading of the reply, and the connection retry policy.
use vstd::prelude::*;
use vstd::string::*;
use crate::algorithm::RateLimitAlgorithm;
use crate::options::{opt_text_view, RateLimitConfig, RedisConnectionOptions};
use crate::text::{decimal, decimal_of, digit_char, joined, text_eq};

verus! {

/// Start of the aligned window that holds `now`.
pub open spec fn window_start_of(now: u64, window_size: u32) -> nat {
    ((now / (window_size as u64)) * (window_size as u64)) as nat
}

pub open spec fn fixed_key_of(id: Seq<char>, now: u64, window_size: u32) -> Seq<char> {
    "ratelimit:fixed:"@ + id + ":"@ + decimal_of(window_start_of(now, window_size))
}

pub open spec fn sliding_key_of(id: Seq<char>, window: nat) -> Seq<char> {
    "ratelimit:sliding:"@ + id + ":"@ + decimal_of(window)
}

pub open spec fn token_key_of(id: Seq<char>) -> Seq<char> {
    "ratelimit:token:"@ + id
}

pub open spec fn leaky_key_of(id: Seq<char>) -> Seq<char> {
    "ratelimit:leaky:"@ + id
}

/// The store keys that one check touches, in the order the script expects them.
pub open spec fn script_keys_of(
    algorithm: RateLimitAlgorithm,
    id: Seq<char>,
    now: u64,
    window_size: u32,
) -> Seq<Seq<char>> {
    match algorithm {
        RateLimitAlgorithm::FixedWindow => seq![fixed_key_of(id, now, window_size)],
        RateLimitAlgorithm::SlidingWindow => seq![
            sliding_key_of(id, window_start_of(now, window_size)),
            sliding_key_of(id, (window_start_of(now, window_size) - window_size) as nat),
        ],
        RateLimitAlgorithm::TokenBucket => seq![token_key_of(id)],
        RateLimitAlgorithm::LeakyBucket => seq![leaky_key_of(id)],
    }
}

/// Start of the aligned window of length `window_size` that holds `now`.
pub fn window_start(now: u64, window_size: u32) -> (r: u64)
    requires
        window_size > 0,
    ensures
        r == window_start_of(now, window_size),
        r <= now,
        now - r < window_size,
{
    let w = window_size as u64;
    proof {
        vstd::arithmetic::div_mod::lemma_fundamental_div_mod(now as int, w as int);
        vstd::arithmetic::mul::lemma_mul_is_commutative((now / w) as int, w as int);
    }
    now - now % w
}

/// Key of the fixed-window counter for `id` in the window holding `now`.
pub fn fixed_window_key(id: &str, now: u64, window_size: u32) -> (r: String)
    requires
        window_size > 0,
    ensures
        r@ == fixed_key_of(id@, now, window_size),
{
    let start = window_start(now, window_size);
    let digits = decimal(start);
    joined("ratelimit:fixed:", id).concat(":").concat(digits.as_str())
}

fn sliding_key(id: &str, window: u64) -> (r: String)
    ensures
        r@ == sliding_key_of(id@, window as nat),
{
    let digits = decimal(window);
    joined("ratelimit:sliding:", id).concat(":").concat(digits.as_str())
}

/// Keys of the current and the previous sliding-window counters for `id`.
pub fn sliding_window_keys(id: &str, now: u64, window_size: u32) -> (r: (String, String))
    requires
        window_size > 0,
        now >= window_size,
    ensures
        r.0@ == sliding_key_of(id@, window_start_of(now, window_size)),
        r.1@ == sliding_key_of(id@, (window_start_of(now, window_size) - window_size) as nat),
{
    let current = window_start(now, window_size);
    proof {
        vstd::arithmetic::div_mod::lemma_fundamental_div_mod(now as int, window_size as int);
        assert((now / (window_size as u64)) >= 1) by {
            vstd::arithmetic::div_mod::lemma_div_is_ordered(
                window_size as int,
                now as int,
                window_size as int,
            );
            vstd::arithmetic::div_mod::lemma_div_basics(window_size as int);
        }
        vstd::arithmetic::mul::lemma_mul_inequality(
            1,
            (now / (window_size as u64)) as int,
            window_size as int,
        );
    }
    let previous = current - window_size as u64;
    (sliding_key(id, current), sliding_key(id, previous))
}

/// Key of the token bucket of `id`.
pub fn token_bucket_key(id: &str) -> (r: String)
    ensures
        r@ == token_key_of(id@),
{
    joined("ratelimit:token:", id)
}

/// Key of the leaky bucket of `id`.
pub fn leaky_bucket_key(id: &str) -> (r: String)
    ensures
        r@ == leaky_key_of(id@),
{
    joined("ratelimit:leaky:", id)
}

/// Admissions allowed per fixed window: `rate + burst`.
pub fn max_requests(rate: u32, burst: u32) -> (r: u64)
    ensures
        r == rate + burst,
{
    rate as u64 + burst as u64
}

/// The keys that a check of `id` at `now` (whole seconds) hands to the
/// configured algorithm's script.
pub fn script_keys(config: &RateLimitConfig, id: &str, now: u64) -> (r: Vec<String>)
    requires
        config.algorithm == RateLimitAlgorithm::FixedWindow ==> config.window_size > 0,
        config.algorithm == RateLimitAlgorithm::SlidingWindow ==> 0 < config.window_size <= now,
    ensures
        r@.map_values(|k: String| k@) == script_keys_of(
            config.algorithm,
            id@,
            now,
            config.window_size,
        ),
{
    let mut keys: Vec<String> = Vec::new();
    match config.algorithm {
        RateLimitAlgorithm::FixedWindow => {
            keys.push(fixed_window_key(id, now, config.window_size));
        },
        RateLimitAlgorithm::SlidingWindow => {
            let (current, previous) = sliding_window_keys(id, now, config.window_size);
            keys.push(current);
            keys.push(previous);
        },
        RateLimitAlgorithm::TokenBucket => {
            keys.push(token_bucket_key(id));
        },
        RateLimitAlgorithm::LeakyBucket => {
            keys.push(leaky_bucket_key(id));
        },
    }
    assert(keys@.map_values(|k: String| k@) =~= script_keys_of(
        config.algorithm,
        id@,
        now,
        config.window_size,
    ));
    keys
}

/// A script replies 1 to admit; any other value rejects.
pub fn decision_from_reply(reply: i64) -> (r: bool)
    ensures
        r == (reply == 1),
{
    reply == 1
}

/// What to do after a failed connection attempt.
#[derive(Clone, Copy, Debug, PartialEq, Eq, Structural)]
pub enum ConnectStep {
    /// Wait this many milliseconds, then try again.
    Retry { delay_ms: u64 },
    /// No attempts are left.
    GiveUp,
}

/// After attempt number `attempt` (counted from 0) has failed: retry while
/// fewer than `retry_count` retries have been made.
pub fn after_connect_failure(attempt: u32, options: &RedisConnectionOptions) -> (r: ConnectStep)
    ensures
        attempt < options.retry_count ==> r == (ConnectStep::Retry {
            delay_ms: options.retry_delay,
        }),
        attempt >= options.retry_count ==> r == ConnectStep::GiveUp,
{
    if attempt < options.retry_count {
        ConnectStep::Retry { delay_ms: options.retry_delay }
    } else {
        ConnectStep::GiveUp
    }
}

/// Number of connection attempts in all: the first one and its retries.
pub fn connect_attempts(options: &RedisConnectionOptions) -> (r: u64)
    ensures
        r == options.retry_count + 1,
{
    options.retry_count as u64 + 1
}

/// The liveness probe succeeds on the literal reply `PONG` only.
pub fn is_pong(reply: &str) -> (r: bool)
    ensures
        r == (reply@ == "PONG"@),
{
    text_eq(reply, "PONG")
}

/// Password and database to write into the connection address: only when a
/// password is configured; otherwise the address is used as given.
pub fn credentials_override(options: &RedisConnectionOptions) -> (r: Option<(String, i64)>)
    ensures
        match opt_text_view(options.password) {
            Some(p) => r matches Some(c) && c.0@ == p && c.1 == options.database,
            None => r is None,
        },
{
    match &options.password {
        Some(p) => Some((p.clone(), options.database)),
        None => None,
    }
}

/// Connect timeout to apply, in milliseconds; none when it is 0.
pub fn connect_timeout_ms(options: &RedisConnectionOptions) -> (r: Option<u64>)
    ensures
        r == (if options.connect_timeout > 0 {
            Some(options.connect_timeout)
        } else {
            None
        }),
{
    if options.connect_timeout > 0 {
        Some(options.connect_timeout)
    } else {
        None
    }
}

/// Keepalive interval to apply, in seconds; none when it is 0.
pub fn keepalive_secs(options: &RedisConnectionOptions) -> (r: Option<u64>)
    ensures
        r == (if options.keepalive > 0 {
            Some(options.keepalive)
        } else {
            None
        }),
{
    if options.keepalive > 0 {
        Some(options.keepalive)
    } else {
        None
    }
}

pub open spec fn colon_free(d: Seq<char>) -> bool {
    forall|i: int| 0 <= i < d.len() ==> d[i] != ':'
}

proof fn lemma_decimal_colon_free(n: nat)
    ensures
        colon_free(decimal_of(n)),
    decreases n,
{
    if n >= 10 {
        lemma_decimal_colon_free(n / 10);
        assert(digit_char(n % 10) != ':');
        let d = decimal_of(n);
        assert(d == decimal_of(n / 10).push(digit_char(n % 10)));
        assert forall|i: int| 0 <= i < d.len() implies d[i] != ':' by {
            if i < d.len() - 1 {
                assert(d[i] == decimal_of(n / 10)[i]);
            }
        }
    } else {
        assert(digit_char(n) != ':');
    }
}

/// A key of the form `x:d`, with `d` free of colons, determines `x` and `d`.
proof fn lemma_split_last_colon(x: Seq<char>, d1: Seq<char>, y: Seq<char>, d2: Seq<char>)
    requires
        x + ":"@ + d1 == y + ":"@ + d2,
        colon_free(d1),
        colon_free(d2),
    ensures
        x == y,
{
    reveal_strlit(":");
    let s = x + ":"@ + d1;
    let t = y + ":"@ + d2;
    let len = s.len() as int;
    if d1.len() < d2.len() {
        let k = len - d1.len() - 1;
        assert(s[k] == ':');
        assert(t[k] == d2[k - (len - d2.len())]);
        assert(false);
    } else if d2.len() < d1.len() {
        let k = len - d2.len() - 1;
        assert(t[k] == ':');
        assert(s[k] == d1[k - (len - d1.len())]);
        assert(false);
    }
    assert(x =~= s.subrange(0, x.len() as int));
    assert(y =~= t.subrange(0, y.len() as int));
}

proof fn lemma_prefix_cancel(p: Seq<char>, a: Seq<char>, b: Seq<char>)
    requires
        p + a == p + b,
    ensures
        a == b,
{
    assert(a =~= (p + a).subrange(p.len() as int, (p + a).len() as int));
    assert(b =~= (p + b).subrange(p.len() as int, (p + b).len() as int));
}

proof fn lemma_windowed_keys_differ(p: Seq<char>, a: Seq<char>, b: Seq<char>, wa: nat, wb: nat)
    requires
        a != b,
    ensures
        p + a + ":"@ + decimal_of(wa) != p + b + ":"@ + decimal_of(wb),
{
    if p + a + ":"@ + decimal_of(wa) == p + b + ":"@ + decimal_of(wb) {
        lemma_decimal_colon_free(wa);
        lemma_decimal_colon_free(wb);
        lemma_split_last_colon(p + a, decimal_of(wa), p + b, decimal_of(wb));
        lemma_prefix_cancel(p, a, b);
    }
}

/// Counters of distinct identities are independent: whatever the clock
/// readings of the two checks, no key that a check of `a` touches is a key
/// that a check of `b` touches.
pub proof fn lemma_identities_keep_separate_keys(
    algorithm: RateLimitAlgorithm,
    a: Seq<char>,
    b: Seq<char>,
    now_a: u64,
    now_b: u64,
    window_size: u32,
)
    requires
        a != b,
    ensures
        forall|i: int, j: int|
            0 <= i < script_keys_of(algorithm, a, now_a, window_size).len() && 0 <= j
                < script_keys_of(algorithm, b, now_b, window_size).len() ==> script_keys_of(
                algorithm,
                a,
                now_a,
                window_size,
            )[i] != script_keys_of(algorithm, b, now_b, window_size)[j],
{
    let ka = script_keys_of(algorithm, a, now_a, window_size);
    let kb = script_keys_of(algorithm, b, now_b, window_size);
    assert forall|i: int, j: int| 0 <= i < ka.len() && 0 <= j < kb.len() implies ka[i] != kb[j] by {
        match algorithm {
            RateLimitAlgorithm::FixedWindow => {
                lemma_windowed_keys_differ(
                    "ratelimit:fixed:"@,
                    a,
                    b,
                    window_start_of(now_a, window_size),
                    window_start_of(now_b, window_size),
                );
            },
            RateLimitAlgorithm::SlidingWindow => {
                let ca = window_start_of(now_a, window_size);
                let cb = window_start_of(now_b, window_size);
                let wa = if i == 0 { ca } else { (ca - window_size) as nat };
                let wb = if j == 0 { cb } else { (cb - window_size) as nat };
                assert(ka[i] == sliding_key_of(a, wa));
                assert(kb[j] == sliding_key_of(b, wb));
                lemma_windowed_keys_differ("ratelimit:sliding:"@, a, b, wa, wb);
            },
            RateLimitAlgorithm::TokenBucket => {
                if ka[i] == kb[j] {
                    lemma_prefix_cancel("ratelimit:token:"@, a, b);
                }
            },
            RateLimitAlgorithm::LeakyBucket => {
                if ka[i] == kb[j] {
                    lemma_prefix_cancel("ratelimit:leaky:"@, a, b);
                }
            },
        }
    }
}

} // verus!
