//! The four rate-limit algorithms and their canonical names.
use vstd::prelude::*;
use vstd::string::*;
use crate::text::{joined, text_eq};

verus! {

/// Which admission algorithm a location uses.
#[derive(Clone, Copy, Debug, PartialEq, Eq, Structural)]
pub enum RateLimitAlgorithm {
    /// A counter per aligned window of fixed length.
    FixedWindow,
    /// The current window's count plus a weighted share of the previous one.
    SlidingWindow,
    /// Tokens refill at a steady rate; each admission takes one.
    TokenBucket,
    /// A level that drains at a steady rate; each admission adds one.
    LeakyBucket,
}

/// What `str::to_lowercase` returns for a text.
pub uninterp spec fn lower_of(s: Seq<char>) -> Seq<char>;

/// Relies on `str::to_lowercase`: its result depends on the characters alone.
#[verifier::external_body]
fn lowercase(s: &str) -> (r: String)
    ensures
        r@ == lower_of(s@),
{
    s.to_lowercase()
}

impl RateLimitAlgorithm {
    /// Canonical name, as used in configuration and response headers.
    pub open spec fn name(self) -> Seq<char> {
        match self {
            RateLimitAlgorithm::FixedWindow => "fixed_window"@,
            RateLimitAlgorithm::SlidingWindow => "sliding_window"@,
            RateLimitAlgorithm::TokenBucket => "token_bucket"@,
            RateLimitAlgorithm::LeakyBucket => "leaky_bucket"@,
        }
    }

    /// The algorithm whose canonical name is exactly `t`, if any.
    pub open spec fn from_name(t: Seq<char>) -> Option<RateLimitAlgorithm> {
        if t == "fixed_window"@ {
            Some(RateLimitAlgorithm::FixedWindow)
        } else if t == "sliding_window"@ {
            Some(RateLimitAlgorithm::SlidingWindow)
        } else if t == "token_bucket"@ {
            Some(RateLimitAlgorithm::TokenBucket)
        } else if t == "leaky_bucket"@ {
            Some(RateLimitAlgorithm::LeakyBucket)
        } else {
            None
        }
    }

    /// Canonical name as an owned string.
    pub fn to_string(&self) -> (r: String)
        ensures
            r@ == self.name(),
    {
        match self {
            RateLimitAlgorithm::FixedWindow => String::from_str("fixed_window"),
            RateLimitAlgorithm::SlidingWindow => String::from_str("sliding_window"),
            RateLimitAlgorithm::TokenBucket => String::from_str("token_bucket"),
            RateLimitAlgorithm::LeakyBucket => String::from_str("leaky_bucket"),
        }
    }

    /// Looks up an algorithm by its exact canonical name (already lower case).
    pub fn from_lowercase(t: &str) -> (r: Option<RateLimitAlgorithm>)
        ensures
            r == Self::from_name(t@),
    {
        if text_eq(t, "fixed_window") {
            Some(RateLimitAlgorithm::FixedWindow)
        } else if text_eq(t, "sliding_window") {
            Some(RateLimitAlgorithm::SlidingWindow)
        } else if text_eq(t, "token_bucket") {
            Some(RateLimitAlgorithm::TokenBucket)
        } else if text_eq(t, "leaky_bucket") {
            Some(RateLimitAlgorithm::LeakyBucket)
        } else {
            None
        }
    }

    /// Parses an algorithm name without regard to letter case.
    pub fn from_str(s: &str) -> (r: Result<RateLimitAlgorithm, String>)
        ensures
            match r {
                Ok(a) => Self::from_name(lower_of(s@)) == Some(a),
                Err(e) => Self::from_name(lower_of(s@)) is None && e@
                    == "Unknown rate limit algorithm: "@ + s@,
            },
    {
        let lower = lowercase(s);
        match Self::from_lowercase(lower.as_str()) {
            Some(a) => Ok(a),
            None => Err(joined("Unknown rate limit algorithm: ", s)),
        }
    }
}

impl Default for RateLimitAlgorithm {
    fn default() -> (r: RateLimitAlgorithm)
        ensures
            r == RateLimitAlgorithm::SlidingWindow,
    {
        RateLimitAlgorithm::SlidingWindow
    }
}

/// Every algorithm is found again from its canonical name.
pub proof fn lemma_name_round_trip(a: RateLimitAlgorithm)
    ensures
        RateLimitAlgorithm::from_name(a.name()) == Some(a),
{
    reveal_strlit("fixed_window");
    reveal_strlit("sliding_window");
    reveal_strlit("token_bucket");
    reveal_strlit("leaky_bucket");
    assert("fixed_window"@[0] == 'f');
    assert("sliding_window"@[0] == 's');
    assert("token_bucket"@[0] == 't');
    assert("leaky_bucket"@[0] == 'l');
}

} // verus!
