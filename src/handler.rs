//! Per-request decisions: which settings apply, whose bucket the request
//! counts against, and what the limiter's answer means for the response.
use vstd::prelude::*;
use vstd::string::*;
use crate::algorithm::RateLimitAlgorithm;
use crate::directive::{
    default_location_view, settings_to_location, value_after, RateLimitRedisConfig,
    apply_config_from_file, LocationConfigView,
};
use crate::settings::{resolve, ConfigFile};
use crate::text::{decimal, decimal_of, has_prefix, starts_with, suffix_after, text_eq};

verus! {

/// Header names compare without regard to ASCII case, and `-` matches `_`.
pub open spec fn fold_name_code(c: u32) -> u32 {
    if 65 <= c <= 90 {
        (c + 32) as u32
    } else if c == 45 {
        95
    } else {
        c
    }
}

pub open spec fn same_header_name(a: Seq<char>, b: Seq<char>) -> bool {
    a.len() == b.len() && forall|i: int|
        0 <= i < a.len() ==> fold_name_code(a[i] as u32) == fold_name_code(#[trigger] b[i] as u32)
}

/// Value of the first header whose name matches `name`.
pub open spec fn header_lookup(name: Seq<char>, headers: Seq<(Seq<char>, Seq<char>)>) -> Option<
    Seq<char>,
>
    decreases headers.len(),
{
    if headers.len() == 0 {
        None
    } else if same_header_name(name, headers[0].0) {
        Some(headers[0].1)
    } else {
        header_lookup(name, headers.drop_first())
    }
}

pub open spec fn headers_view(headers: Seq<(String, String)>) -> Seq<(Seq<char>, Seq<char>)> {
    headers.map_values(|h: (String, String)| (h.0@, h.1@))
}

/// The identity a request counts against: its peer address for
/// `remote_addr`, the named header for `http_<name>`, the key itself otherwise.
/// None when the source is missing.
pub open spec fn identity_of(
    key: Seq<char>,
    remote_addr: Option<Seq<char>>,
    headers: Seq<(Seq<char>, Seq<char>)>,
) -> Option<Seq<char>> {
    if key == "remote_addr"@ {
        remote_addr
    } else if starts_with(key, "http_"@) {
        header_lookup(value_after(key, "http_"@), headers)
    } else {
        Some(key)
    }
}

fn fold_code(c: u32) -> (r: u32)
    ensures
        r == fold_name_code(c),
{
    if 65 <= c && c <= 90 {
        c + 32
    } else if c == 45 {
        95
    } else {
        c
    }
}

/// Whether two header names are the same name.
pub fn header_name_matches(a: &str, b: &str) -> (r: bool)
    ensures
        r == same_header_name(a@, b@),
{
    let n = a.unicode_len();
    if n != b.unicode_len() {
        return false;
    }
    let mut i: usize = 0;
    while i < n
        invariant
            n == a@.len(),
            n == b@.len(),
            i <= n,
            forall|j: int|
                0 <= j < i ==> fold_name_code(a@[j] as u32) == fold_name_code(#[trigger] b@[j] as u32),
        decreases n - i,
    {
        if fold_code(a.get_char(i) as u32) != fold_code(b.get_char(i) as u32) {
            return false;
        }
        i = i + 1;
    }
    true
}

/// Value of the first header named `name`, if the request has one.
pub fn find_header(name: &str, headers: &Vec<(String, String)>) -> (r: Option<String>)
    ensures
        match header_lookup(name@, headers_view(headers@)) {
            Some(v) => r matches Some(x) && x@ == v,
            None => r is None,
        },
{
    let ghost hv = headers_view(headers@);
    let n = headers.len();
    let mut i: usize = 0;
    assert(hv.subrange(0, n as int) =~= hv);
    while i < n
        invariant
            n == headers@.len(),
            hv == headers_view(headers@),
            i <= n,
            header_lookup(name@, hv) == header_lookup(name@, hv.subrange(i as int, n as int)),
        decreases n - i,
    {
        let h = &headers[i];
        assert(hv[i as int] == (h.0@, h.1@));
        assert(hv.subrange(i as int, n as int)[0] == hv[i as int]);
        if header_name_matches(name, h.0.as_str()) {
            return Some(h.1.clone());
        }
        assert(hv.subrange(i as int, n as int).drop_first() =~= hv.subrange(i + 1, n as int));
        i = i + 1;
    }
    None
}

/// The identity of a request, from the configured key source.
pub fn identity_key(key: &str, remote_addr: &Option<String>, headers: &Vec<(String, String)>) -> (r:
    Option<String>)
    ensures
        match identity_of(
            key@,
            crate::options::opt_text_view(*remote_addr),
            headers_view(headers@),
        ) {
            Some(v) => r matches Some(x) && x@ == v,
            None => r is None,
        },
{
    if text_eq(key, "remote_addr") {
        match remote_addr {
            Some(a) => Some(a.clone()),
            None => None,
        }
    } else if has_prefix(key, "http_") {
        find_header(suffix_after(key, "http_"), headers)
    } else {
        Some(String::from_str(key))
    }
}

/// What the handler does with a request before asking the limiter.
#[derive(Clone, Debug, PartialEq, Eq)]
pub enum RequestStep {
    /// Leave the request to the next handler, unlimited.
    Decline,
    /// Ask the limiter about this identity.
    Check(String),
}

/// Limiting off, or no identity to count against: decline. Otherwise check the identity.
pub fn begin_request(
    config: &RateLimitRedisConfig,
    remote_addr: &Option<String>,
    headers: &Vec<(String, String)>,
) -> (r: RequestStep)
    ensures
        !config.enabled ==> r == RequestStep::Decline,
        config.enabled ==> match identity_of(
            config.rate_limit_key@,
            crate::options::opt_text_view(*remote_addr),
            headers_view(headers@),
        ) {
            Some(v) => r matches RequestStep::Check(x) && x@ == v,
            None => r == RequestStep::Decline,
        },
{
    if !config.enabled {
        return RequestStep::Decline;
    }
    match identity_key(config.rate_limit_key.as_str(), remote_addr, headers) {
        Some(k) => RequestStep::Check(k),
        None => RequestStep::Decline,
    }
}

/// The handler's answer once the limiter has been asked.
#[derive(Clone, Copy, Debug, PartialEq, Eq, Structural)]
pub enum Admission {
    /// Let the request through to the next handler.
    Declined,
    /// Answer with the rejection response.
    Rejected,
}

/// Only a definite "over the limit" rejects; an admit or any error lets the
/// request through, so a failing store never blocks traffic.
pub fn admission(check: &Result<bool, String>) -> (r: Admission)
    ensures
        r == Admission::Rejected <==> check matches Ok(false),
        check is Err ==> r == Admission::Declined,
{
    match check {
        Ok(false) => Admission::Rejected,
        _ => Admission::Declined,
    }
}

/// The response to a rejected request.
#[derive(Clone, Debug)]
pub struct RejectionResponse {
    pub status: u16,
    pub headers: Vec<(String, String)>,
    pub body: String,
}

pub open spec fn rejection_headers_of(rate: u32, algorithm: RateLimitAlgorithm) -> Seq<
    (Seq<char>, Seq<char>),
> {
    seq![
        ("X-RateLimit-Limit"@, decimal_of(rate as nat)),
        ("X-RateLimit-Remaining"@, "0"@),
        ("X-RateLimit-Algorithm"@, algorithm.name()),
        ("Content-Type"@, "application/json"@),
    ]
}

/// Status 403 with the limit, no remaining requests, the algorithm's name,
/// and a JSON error body.
pub fn rejection_response(config: &RateLimitRedisConfig) -> (r: RejectionResponse)
    ensures
        r.status == 403,
        headers_view(r.headers@) == rejection_headers_of(
            config.requests_per_second,
            config.algorithm,
        ),
        r.body@ == "{\"error\": \"rate limit exceeded\"}"@,
{
    let mut headers: Vec<(String, String)> = Vec::new();
    headers.push(
        (String::from_str("X-RateLimit-Limit"), decimal(config.requests_per_second as u64)),
    );
    headers.push((String::from_str("X-RateLimit-Remaining"), String::from_str("0")));
    headers.push((String::from_str("X-RateLimit-Algorithm"), config.algorithm.to_string()));
    headers.push((String::from_str("Content-Type"), String::from_str("application/json")));
    assert(headers_view(headers@) =~= rejection_headers_of(
        config.requests_per_second,
        config.algorithm,
    ));
    RejectionResponse {
        status: 403,
        headers,
        body: String::from_str("{\"error\": \"rate limit exceeded\"}"),
    }
}

/// The settings a request at `location` runs with: the location's cached
/// settings; else those resolved from the loaded file; else the module
/// context's; else the defaults, with limiting off.
pub fn request_config(
    cached: Option<&RateLimitRedisConfig>,
    file: Option<&ConfigFile>,
    context: Option<&RateLimitRedisConfig>,
    location: &str,
) -> (r: RateLimitRedisConfig)
    ensures
        r@ == match cached {
            Some(c) => c@,
            None => match file {
                Some(f) => settings_to_location(resolve(f@, location@)),
                None => match context {
                    Some(c) => c@,
                    None => default_location_view(),
                },
            },
        },
{
    match cached {
        Some(c) => c.duplicate(),
        None => match file {
            Some(f) => apply_config_from_file(f, location),
            None => match context {
                Some(c) => c.duplicate(),
                None => RateLimitRedisConfig::default(),
            },
        },
    }
}

} // verus!
