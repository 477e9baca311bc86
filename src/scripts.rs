//! What each algorithm's atomic store script does to the stored state of one
//! identity, in exact integer arithmetic.
//!
//! The token bucket keeps whole tokens, since time is counted in whole seconds
//! and the refill rate is a whole number per second. The leaky bucket keeps
//! its level in millionths of a request and its time in microseconds, so the
//! drained amount `rate * elapsed` is exact as well. The sliding window's
//! comparison `current + previous * (1 - elapsed / W) <= rate + burst` is
//! multiplied through by `W`.
use vstd::prelude::*;

verus! {

/// One request's worth of leaky-bucket level.
pub const LEVEL_UNIT: u64 = 1_000_000;

/// Outcome of the fixed-window script: the counter after the increment, the
/// expiry it set (only on the key's first increment) and the decision.
#[derive(Clone, Copy, Debug, PartialEq, Eq)]
pub struct CounterStep {
    pub count: u64,
    pub expire_secs: Option<u64>,
    pub admitted: bool,
}

pub open spec fn fixed_window_spec(stored: Option<u64>, max_requests: u64, window_size: u64) -> CounterStep {
    let count = match stored {
        Some(c) => c + 1,
        None => 1,
    };
    CounterStep {
        count: count as u64,
        expire_secs: if count == 1 { Some(window_size) } else { None },
        admitted: count <= max_requests,
    }
}

/// The fixed-window script: increment the window's counter, give it a
/// lifetime of one window when it was just created, admit while the count is
/// at most `max_requests`.
pub fn fixed_window_script(stored: Option<u64>, max_requests: u64, window_size: u64) -> (r:
    CounterStep)
    requires
        stored matches Some(c) ==> c < u64::MAX,
    ensures
        r == fixed_window_spec(stored, max_requests, window_size),
{
    let count: u64 = match stored {
        Some(c) => c + 1,
        None => 1,
    };
    CounterStep {
        count,
        expire_secs: if count == 1 { Some(window_size) } else { None },
        admitted: count <= max_requests,
    }
}

/// Outcome of the sliding-window script: the current window's counter after
/// the increment, the expiry it set, and the decision.
#[derive(Clone, Copy, Debug, PartialEq, Eq)]
pub struct SlidingStep {
    pub current_count: u64,
    pub expire_secs: Option<u64>,
    pub admitted: bool,
}

/// Weighted count times the window length: `current * W + previous * (W - elapsed)`.
pub open spec fn sliding_weighted_scaled(current: int, previous: int, now: int, window_size: int) -> int {
    current * window_size + previous * (window_size - now % window_size)
}

pub open spec fn sliding_window_spec(
    current: Option<u64>,
    previous: Option<u64>,
    now: u64,
    window_size: u32,
    rate: u32,
    burst: u32,
) -> SlidingStep {
    let count = match current {
        Some(c) => c + 1,
        None => 1,
    };
    let prev = match previous {
        Some(p) => p as int,
        None => 0,
    };
    SlidingStep {
        current_count: count as u64,
        expire_secs: if count == 1 { Some((2 * window_size) as u64) } else { None },
        admitted: sliding_weighted_scaled(count, prev, now as int, window_size as int) <= (
        rate + burst) * window_size,
    }
}

/// The sliding-window script: increment the current window's counter (two
/// windows of lifetime when it was just created), read the previous window's
/// counter, and admit while the weighted count is at most `rate + burst`.
pub fn sliding_window_script(
    current: Option<u64>,
    previous: Option<u64>,
    now: u64,
    window_size: u32,
    rate: u32,
    burst: u32,
) -> (r: SlidingStep)
    requires
        window_size > 0,
        current matches Some(c) ==> c < u64::MAX,
    ensures
        r == sliding_window_spec(current, previous, now, window_size, rate, burst),
{
    let count: u64 = match current {
        Some(c) => c + 1,
        None => 1,
    };
    let prev: u64 = match previous {
        Some(p) => p,
        None => 0,
    };
    let w = window_size as u128;
    let elapsed = (now % (window_size as u64)) as u128;
    proof {
        assert(elapsed < w);
        assert((count as u128) * w <= (u64::MAX as u128) * (u32::MAX as u128)) by (nonlinear_arith)
            requires
                count <= u64::MAX,
                w <= u32::MAX,
        ;
        assert((prev as u128) * (w - elapsed) <= (u64::MAX as u128) * (u32::MAX as u128))
            by (nonlinear_arith)
            requires
                prev <= u64::MAX,
                w - elapsed <= u32::MAX,
        ;
        assert(((rate as u128) + (burst as u128)) * w <= (2 * (u32::MAX as u128)) * (
        u32::MAX as u128)) by (nonlinear_arith)
            requires
                rate <= u32::MAX,
                burst <= u32::MAX,
                w <= u32::MAX,
        ;
    }
    let weighted = (count as u128) * w + (prev as u128) * (w - elapsed);
    let limit = ((rate as u128) + (burst as u128)) * w;
    SlidingStep {
        current_count: count,
        expire_secs: if count == 1 { Some(2 * (window_size as u64)) } else { None },
        admitted: weighted <= limit,
    }
}

/// Stored state of a token bucket: whole tokens left and the time of the last
/// refill, in seconds.
#[derive(Clone, Copy, Debug, PartialEq, Eq)]
pub struct TokenState {
    pub tokens: u64,
    pub last_refill: u64,
}

/// Outcome of the token-bucket script.
#[derive(Clone, Copy, Debug, PartialEq, Eq)]
pub struct TokenStep {
    pub state: TokenState,
    pub expire_secs: Option<u64>,
    pub admitted: bool,
}

/// Tokens available at `now`: the stored tokens refilled at `rate` per second, capped at `burst`.
pub open spec fn tokens_available(s: TokenState, now: u64, rate: u32, burst: u32) -> int {
    let refilled = s.tokens + (now - s.last_refill) * rate;
    if refilled < burst {
        refilled
    } else {
        burst as int
    }
}

pub open spec fn token_bucket_spec(
    stored: Option<TokenState>,
    now: u64,
    rate: u32,
    burst: u32,
    window_size: u32,
) -> TokenStep {
    match stored {
        None => TokenStep {
            state: TokenState {
                tokens: if burst >= 1 {
                    (burst - 1) as u64
                } else {
                    0
                },
                last_refill: now,
            },
            expire_secs: Some((2 * window_size) as u64),
            admitted: burst >= 1,
        },
        Some(s) => {
            let avail = tokens_available(s, now, rate, burst);
            if avail >= 1 {
                TokenStep {
                    state: TokenState { tokens: (avail - 1) as u64, last_refill: now },
                    expire_secs: None,
                    admitted: true,
                }
            } else {
                TokenStep {
                    state: TokenState { tokens: s.tokens, last_refill: now },
                    expire_secs: None,
                    admitted: false,
                }
            }
        },
    }
}

/// The token-bucket script: a new bucket starts full and this request takes
/// one of its tokens (a bucket of size 0 rejects); otherwise refill, then take
/// one token if there is one. The refill time is recorded either way.
pub fn token_bucket_script(
    stored: Option<TokenState>,
    now: u64,
    rate: u32,
    burst: u32,
    window_size: u32,
) -> (r: TokenStep)
    ensures
        r == token_bucket_spec(stored, now, rate, burst, window_size),
{
    match stored {
        None => TokenStep {
            state: TokenState {
                tokens: if burst >= 1 {
                    (burst - 1) as u64
                } else {
                    0
                },
                last_refill: now,
            },
            expire_secs: Some(2 * (window_size as u64)),
            admitted: burst >= 1,
        },
        Some(s) => {
            let elapsed = (now as i128) - (s.last_refill as i128);
            proof {
                assert(-(u64::MAX as int) * (u32::MAX as int) <= elapsed * (rate as int) <= (
                u64::MAX as int) * (u32::MAX as int)) by (nonlinear_arith)
                    requires
                        -(u64::MAX as int) <= elapsed <= u64::MAX,
                        0 <= rate <= u32::MAX,
                ;
            }
            let refilled = (s.tokens as i128) + elapsed * (rate as i128);
            let avail = if refilled < burst as i128 {
                refilled
            } else {
                burst as i128
            };
            if avail >= 1 {
                TokenStep {
                    state: TokenState { tokens: (avail - 1) as u64, last_refill: now },
                    expire_secs: None,
                    admitted: true,
                }
            } else {
                TokenStep {
                    state: TokenState { tokens: s.tokens, last_refill: now },
                    expire_secs: None,
                    admitted: false,
                }
            }
        },
    }
}

/// Stored state of a leaky bucket: the level in millionths of a request and
/// the time of the last leak in microseconds.
#[derive(Clone, Copy, Debug, PartialEq, Eq)]
pub struct LeakyState {
    pub level: u64,
    pub last_leak: u64,
}

/// Outcome of the leaky-bucket script.
#[derive(Clone, Copy, Debug, PartialEq, Eq)]
pub struct LeakyStep {
    pub state: LeakyState,
    pub expire_secs: Option<u64>,
    pub admitted: bool,
}

/// Level after draining at `rate` requests per second until `now`, plus this request.
pub open spec fn level_with_request(s: LeakyState, now: u64, rate: u32) -> int {
    let drained = s.level - rate * (now - s.last_leak);
    (if drained > 0 {
        drained
    } else {
        0
    }) + LEVEL_UNIT
}

pub open spec fn leaky_bucket_spec(
    stored: Option<LeakyState>,
    now: u64,
    rate: u32,
    burst: u32,
    window_size: u32,
) -> LeakyStep {
    match stored {
        None => LeakyStep {
            state: LeakyState {
                level: if burst >= 1 {
                    LEVEL_UNIT
                } else {
                    0
                },
                last_leak: now,
            },
            expire_secs: Some((2 * window_size) as u64),
            admitted: burst >= 1,
        },
        Some(s) => {
            let level = level_with_request(s, now, rate);
            if level <= burst * LEVEL_UNIT {
                LeakyStep {
                    state: LeakyState { level: level as u64, last_leak: now },
                    expire_secs: None,
                    admitted: true,
                }
            } else {
                LeakyStep {
                    state: LeakyState { level: s.level, last_leak: now },
                    expire_secs: None,
                    admitted: false,
                }
            }
        },
    }
}

/// The leaky-bucket script: a new bucket starts with this one request and
/// admits (a bucket of size 0 stays empty and rejects); otherwise drain, add the request, and admit if the level stays
/// within `burst`. The leak time is recorded either way.
pub fn leaky_bucket_script(
    stored: Option<LeakyState>,
    now: u64,
    rate: u32,
    burst: u32,
    window_size: u32,
) -> (r: LeakyStep)
    ensures
        r == leaky_bucket_spec(stored, now, rate, burst, window_size),
{
    match stored {
        None => LeakyStep {
            state: LeakyState {
                level: if burst >= 1 {
                    LEVEL_UNIT
                } else {
                    0
                },
                last_leak: now,
            },
            expire_secs: Some(2 * (window_size as u64)),
            admitted: burst >= 1,
        },
        Some(s) => {
            let elapsed = (now as i128) - (s.last_leak as i128);
            proof {
                assert(-(u64::MAX as int) * (u32::MAX as int) <= (rate as int) * elapsed <= (
                u64::MAX as int) * (u32::MAX as int)) by (nonlinear_arith)
                    requires
                        -(u64::MAX as int) <= elapsed <= u64::MAX,
                        0 <= rate <= u32::MAX,
                ;
            }
            let drained = (s.level as i128) - (rate as i128) * elapsed;
            proof {
                assert((burst as int) * (LEVEL_UNIT as int) <= (u32::MAX as int) * 1_000_000)
                    by (nonlinear_arith)
                    requires
                        burst <= u32::MAX,
                ;
            }
            let level = (if drained > 0 {
                drained
            } else {
                0
            }) + (LEVEL_UNIT as i128);
            if level <= (burst as i128) * (LEVEL_UNIT as i128) {
                LeakyStep {
                    state: LeakyState { level: level as u64, last_leak: now },
                    expire_secs: None,
                    admitted: true,
                }
            } else {
                LeakyStep {
                    state: LeakyState { level: s.level, last_leak: now },
                    expire_secs: None,
                    admitted: false,
                }
            }
        },
    }
}

/// Stored counter and number of admissions after `n` calls within one window,
/// starting from the stored counter `start` (none when the key is absent).
pub open spec fn fixed_window_run(start: Option<u64>, n: nat, max_requests: u64, window_size: u64) -> (
    Option<u64>,
    nat,
)
    decreases n,
{
    if n == 0 {
        (start, 0)
    } else {
        let (stored, admitted) = fixed_window_run(start, (n - 1) as nat, max_requests, window_size);
        let step = fixed_window_spec(stored, max_requests, window_size);
        (Some(step.count), admitted + if step.admitted { 1nat } else { 0nat })
    }
}

pub open spec fn count_of(stored: Option<u64>) -> nat {
    match stored {
        Some(c) => c as nat,
        None => 0,
    }
}

proof fn lemma_fixed_window_run_shape(
    start: Option<u64>,
    n: nat,
    max_requests: u64,
    window_size: u64,
)
    requires
        count_of(start) + n < u64::MAX,
    ensures
        count_of(fixed_window_run(start, n, max_requests, window_size).0) == count_of(start) + n,
        n > 0 ==> fixed_window_run(start, n, max_requests, window_size).0 is Some,
        fixed_window_run(start, n, max_requests, window_size).1 == (if count_of(start) + n
            <= max_requests {
            n
        } else if count_of(start) >= max_requests {
            0
        } else {
            (max_requests - count_of(start)) as nat
        }),
    decreases n,
{
    if n > 0 {
        lemma_fixed_window_run_shape(start, (n - 1) as nat, max_requests, window_size);
    }
}

/// Within one aligned window, an identity is admitted at most
/// `max_requests` (that is, `rate + burst`) times, however many calls it makes
/// and whatever count the window's key already held.
pub proof fn lemma_fixed_window_cap(start: Option<u64>, n: nat, max_requests: u64, window_size: u64)
    requires
        count_of(start) + n < u64::MAX,
    ensures
        fixed_window_run(start, n, max_requests, window_size).1 <= max_requests,
{
    lemma_fixed_window_run_shape(start, n, max_requests, window_size);
}

/// Stored state and number of admissions after token-bucket calls at `times`,
/// starting from no key.
pub open spec fn token_bucket_run(times: Seq<u64>, rate: u32, burst: u32, window_size: u32) -> (
    Option<TokenState>,
    nat,
)
    decreases times.len(),
{
    if times.len() == 0 {
        (None, 0)
    } else {
        let (stored, admitted) = token_bucket_run(times.drop_last(), rate, burst, window_size);
        let step = token_bucket_spec(stored, times.last(), rate, burst, window_size);
        (Some(step.state), admitted + if step.admitted { 1nat } else { 0nat })
    }
}

pub open spec fn nondecreasing(times: Seq<u64>) -> bool {
    forall|i: int, j: int| 0 <= i <= j < times.len() ==> times[i] <= times[j]
}

proof fn lemma_token_bucket_budget(times: Seq<u64>, rate: u32, burst: u32, window_size: u32)
    requires
        times.len() > 0,
        nondecreasing(times),
    ensures
        token_bucket_run(times, rate, burst, window_size).0 matches Some(s) && s.last_refill
            == times.last() && token_bucket_run(times, rate, burst, window_size).1 + s.tokens
            <= burst + rate * (times.last() - times[0]),
    decreases times.len(),
{
    let prefix = times.drop_last();
    if prefix.len() > 0 {
        assert(nondecreasing(prefix));
        lemma_token_bucket_budget(prefix, rate, burst, window_size);
        let (stored, admitted) = token_bucket_run(prefix, rate, burst, window_size);
        let s = stored->Some_0;
        let t0 = times[0] as int;
        let l = s.last_refill as int;
        let t = times.last() as int;
        assert(prefix[0] == times[0]);
        assert(prefix.last() == times[times.len() - 2]);
        assert(l <= t);
        assert(t0 <= l);
        assert(rate * (l - t0) + rate * (t - l) == rate * (t - t0)) by (nonlinear_arith);
        assert(rate * (t - l) >= 0) by (nonlinear_arith)
            requires
                l <= t,
                rate >= 0,
        ;
        let avail = tokens_available(s, times.last(), rate, burst);
        assert(avail <= s.tokens + rate * (t - l));
        let step = token_bucket_spec(stored, times.last(), rate, burst, window_size);
        assert(token_bucket_run(times, rate, burst, window_size) == (
            Some(step.state),
            admitted + if step.admitted { 1nat } else { 0nat },
        ));
        if avail >= 1 {
            assert(step.state.tokens == avail - 1);
            assert(admitted + 1 + step.state.tokens <= burst + rate * (t - t0));
        } else {
            assert(step.state.tokens == s.tokens);
            assert(admitted + step.state.tokens <= burst + rate * (t - t0));
        }
    } else {
        assert(times[0] == times.last());
        assert(token_bucket_run(prefix, rate, burst, window_size) == (None::<TokenState>, 0nat));
        assert(rate * (times.last() - times[0]) == 0);
    }
}

/// Token bucket, calls at nondecreasing times from no key, all while the key
/// created by the first call lives (it expires `2 * window_size` seconds
/// later, after which a new full bucket starts): admissions never exceed
/// `burst + rate * (last - first)`. At one instant that is at most `burst`.
pub proof fn lemma_token_bucket_rate(times: Seq<u64>, rate: u32, burst: u32, window_size: u32)
    requires
        times.len() > 0,
        nondecreasing(times),
        times.last() < times[0] + 2 * window_size,
    ensures
        token_bucket_run(times, rate, burst, window_size).1 <= burst + rate * (times.last()
            - times[0]),
{
    lemma_token_bucket_budget(times, rate, burst, window_size);
}

/// Stored state after leaky-bucket calls at `times`, starting from no key.
pub open spec fn leaky_bucket_run(times: Seq<u64>, rate: u32, burst: u32, window_size: u32) -> Option<
    LeakyState,
>
    decreases times.len(),
{
    if times.len() == 0 {
        None
    } else {
        let stored = leaky_bucket_run(times.drop_last(), rate, burst, window_size);
        Some(leaky_bucket_spec(stored, times.last(), rate, burst, window_size).state)
    }
}

/// Leaky bucket: whatever the call times, the stored level stays between 0
/// and `burst` requests.
pub proof fn lemma_leaky_bucket_level(times: Seq<u64>, rate: u32, burst: u32, window_size: u32)
    ensures
        leaky_bucket_run(times, rate, burst, window_size) matches Some(s) ==> 0 <= s.level
            <= burst * LEVEL_UNIT,
    decreases times.len(),
{
    if times.len() > 0 {
        lemma_leaky_bucket_level(times.drop_last(), rate, burst, window_size);
        if burst >= 1 {
            assert(LEVEL_UNIT <= burst * LEVEL_UNIT) by (nonlinear_arith)
                requires
                    burst >= 1,
            ;
        }
    }
}

/// For a positive window, every expiry a script sets is positive and at most
/// two windows (one for the fixed window), and every script that creates a key
/// sets one. A key that already exists keeps the expiry it has; the sliding
/// window's previous-window key is only read.
pub proof fn lemma_created_keys_expire(
    counter: Option<u64>,
    current: Option<u64>,
    previous: Option<u64>,
    tokens: Option<TokenState>,
    level: Option<LeakyState>,
    max_requests: u64,
    now: u64,
    rate: u32,
    burst: u32,
    window_size: u32,
)
    requires
        window_size > 0,
    ensures
        ({
            let e = fixed_window_spec(counter, max_requests, window_size as u64).expire_secs;
            (counter is None ==> e is Some) && (e matches Some(t) ==> 0 < t <= window_size)
        }),
        ({
            let e = sliding_window_spec(current, previous, now, window_size, rate, burst).expire_secs;
            (current is None ==> e is Some) && (e matches Some(t) ==> 0 < t <= 2 * window_size)
        }),
        ({
            let e = token_bucket_spec(tokens, now, rate, burst, window_size).expire_secs;
            (tokens is None ==> e is Some) && (e matches Some(t) ==> 0 < t <= 2 * window_size)
        }),
        ({
            let e = leaky_bucket_spec(level, now, rate, burst, window_size).expire_secs;
            (level is None ==> e is Some) && (e matches Some(t) ==> 0 < t <= 2 * window_size)
        }),
{
}

} // verus!
