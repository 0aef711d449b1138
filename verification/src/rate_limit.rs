//! Rate-limit handling: standard rate-limit response headers parsed into a
//! delay recommendation, and the configuration that bounds it.
//!
//! Times are carried as plain integers: points in time as whole seconds since
//! the Unix epoch, waits as milliseconds.

use vstd::prelude::*;

verus! {

use crate::headers::{Headers, spec_lookup, spec_parse_u64, parse_u64_str};

/// The smaller of two durations.
pub open spec fn spec_min_u64(a: u64, b: u64) -> u64 {
    if a <= b {
        a
    } else {
        b
    }
}

/// `s` seconds as milliseconds, saturating at `u64::MAX`.
pub open spec fn spec_secs_to_ms(s: u64) -> u64 {
    if s * 1000 <= u64::MAX {
        (s * 1000) as u64
    } else {
        u64::MAX
    }
}

fn secs_to_ms(s: u64) -> (r: u64)
    ensures
        r == spec_secs_to_ms(s),
{
    match s.checked_mul(1000) {
        Some(v) => v,
        None => u64::MAX,
    }
}

/// What `httpdate::parse_http_date` denotes on a header value: the date as
/// whole seconds since the Unix epoch, or nothing if the value is not an HTTP
/// date (or lies before the epoch).
pub uninterp spec fn http_date_secs(s: Seq<char>) -> Option<u64>;

/// Relies on `httpdate::parse_http_date`: parses the three HTTP date formats
/// to a point in time, a function of the string alone.
#[verifier::external_body]
fn parse_http_date_secs(s: &str) -> (r: Option<u64>)
    ensures
        r == http_date_secs(s@),
{
    match httpdate::parse_http_date(s) {
        Ok(t) => match t.duration_since(std::time::UNIX_EPOCH) {
            Ok(d) => Some(d.as_secs()),
            Err(_) => None,
        },
        Err(_) => None,
    }
}

/// Relies on `std::time::SystemTime::now`: the clock's reading, as whole
/// seconds since the Unix epoch.  Nothing is promised of the value.
#[verifier::external_body]
pub(crate) fn now_unix_secs() -> u64 {
    match std::time::SystemTime::now().duration_since(std::time::UNIX_EPOCH) {
        Ok(d) => d.as_secs(),
        Err(_) => 0,
    }
}

/// The wait recommended by a `Retry-After` header among `h`, in milliseconds,
/// read at time `now`: an integer value counts as seconds, anything else is
/// tried as an HTTP date and the time until it taken (dates in the past are
/// discarded).
pub open spec fn spec_retry_after_ms_at(h: Seq<(Seq<char>, Seq<char>)>, now: u64) -> Option<u64> {
    match spec_lookup(h, "retry-after"@) {
        None => None,
        Some(v) => match spec_parse_u64(v) {
            Some(secs) => Some(spec_secs_to_ms(secs)),
            None => match http_date_secs(v) {
                Some(t) => if t >= now {
                    Some(spec_secs_to_ms((t - now) as u64))
                } else {
                    None
                },
                None => None,
            },
        },
    }
}

/// The reset time announced among `h`: `X-RateLimit-Reset` first, then
/// `RateLimit-Reset`, each a Unix timestamp in seconds.
pub open spec fn spec_reset_secs(h: Seq<(Seq<char>, Seq<char>)>) -> Option<u64> {
    let first = match spec_lookup(h, "x-ratelimit-reset"@) {
        Some(v) => spec_parse_u64(v),
        None => None,
    };
    if first is Some {
        first
    } else {
        match spec_lookup(h, "ratelimit-reset"@) {
            Some(v) => spec_parse_u64(v),
            None => None,
        }
    }
}

/// The request quota left, from an `X-RateLimit-Remaining` header among `h`.
pub open spec fn spec_remaining(h: Seq<(Seq<char>, Seq<char>)>) -> Option<u64> {
    match spec_lookup(h, "x-ratelimit-remaining"@) {
        Some(v) => spec_parse_u64(v),
        None => None,
    }
}

/// Parses the `Retry-After` header of `headers`, read at `now_unix_secs`.
pub fn parse_retry_after_at(headers: &Headers, now_unix_secs: u64) -> (r: Option<u64>)
    ensures
        r == spec_retry_after_ms_at(headers@, now_unix_secs),
{
    let v = match headers.get("retry-after") {
        Some(v) => v,
        None => {
            return None;
        },
    };
    match parse_u64_str(v) {
        Some(secs) => Some(secs_to_ms(secs)),
        None => match parse_http_date_secs(v) {
            Some(t) => if t >= now_unix_secs {
                Some(secs_to_ms(t - now_unix_secs))
            } else {
                None
            },
            None => None,
        },
    }
}

/// Parses the `Retry-After` header of `headers`, reading the clock for the
/// date form.  An integer value is a wait in seconds; an HTTP date is taken
/// relative to now.
pub fn parse_retry_after(headers: &Headers) -> (r: Option<u64>)
    ensures
        exists|now: u64| r == spec_retry_after_ms_at(headers@, now),
        spec_lookup(headers@, "retry-after"@) is None ==> r is None,
        (match spec_lookup(headers@, "retry-after"@) {
            Some(v) => (spec_parse_u64(v) matches Some(s) ==> r == Some(spec_secs_to_ms(s))),
            None => true,
        }),
{
    let now = now_unix_secs();
    let r = parse_retry_after_at(headers, now);
    proof {
        assert(r == spec_retry_after_ms_at(headers@, now));
    }
    r
}

/// Parses `X-RateLimit-Reset`, falling back to `RateLimit-Reset`, each a Unix
/// timestamp in seconds.
pub fn parse_rate_limit_reset(headers: &Headers) -> (r: Option<u64>)
    ensures
        r == spec_reset_secs(headers@),
{
    match headers.get("x-ratelimit-reset") {
        Some(v) => match parse_u64_str(v) {
            Some(t) => {
                return Some(t);
            },
            None => {},
        },
        None => {},
    }
    match headers.get("ratelimit-reset") {
        Some(v) => parse_u64_str(v),
        None => None,
    }
}

/// Parses the `X-RateLimit-Remaining` header.
pub fn parse_rate_limit_remaining(headers: &Headers) -> (r: Option<u64>)
    ensures
        r == spec_remaining(headers@),
{
    match headers.get("x-ratelimit-remaining") {
        Some(v) => parse_u64_str(v),
        None => None,
    }
}

/// Information extracted from rate-limit response headers.  Derived from one
/// response's headers only; never carried across requests.
#[derive(Debug, Clone)]
pub struct RateLimitInfo {
    /// When the rate limit resets, as whole seconds since the Unix epoch
    /// (from `X-RateLimit-Reset` or `RateLimit-Reset`).
    pub reset_at: Option<u64>,
    /// How long to wait before retrying, in milliseconds (from `Retry-After`).
    pub retry_after: Option<u64>,
    /// Number of requests remaining in the current window
    /// (from `X-RateLimit-Remaining`).
    pub remaining: Option<u64>,
}

impl RateLimitInfo {
    /// The information that the headers `h` carry, read at time `now`.
    pub open spec fn spec_from_headers_at(h: Seq<(Seq<char>, Seq<char>)>, now: u64) -> RateLimitInfo {
        RateLimitInfo {
            reset_at: spec_reset_secs(h),
            retry_after: spec_retry_after_ms_at(h, now),
            remaining: spec_remaining(h),
        }
    }

    /// Extracts rate-limit information from response headers, reading the
    /// clock at `now_unix_secs` for the date form of `Retry-After`.
    pub fn from_headers_at(headers: &Headers, now_unix_secs: u64) -> (r: RateLimitInfo)
        ensures
            r == Self::spec_from_headers_at(headers@, now_unix_secs),
    {
        RateLimitInfo {
            reset_at: parse_rate_limit_reset(headers),
            retry_after: parse_retry_after_at(headers, now_unix_secs),
            remaining: parse_rate_limit_remaining(headers),
        }
    }

    /// Extracts rate-limit information from response headers, reading the
    /// clock for the date form of `Retry-After`.
    pub fn from_headers(headers: &Headers) -> (r: RateLimitInfo)
        ensures
            exists|now: u64| r == Self::spec_from_headers_at(headers@, now),
            r.reset_at == spec_reset_secs(headers@),
            r.remaining == spec_remaining(headers@),
            spec_lookup(headers@, "retry-after"@) is None ==> r.retry_after is None,
            (match spec_lookup(headers@, "retry-after"@) {
                Some(v) => (spec_parse_u64(v) matches Some(s) ==> r.retry_after == Some(
                    spec_secs_to_ms(s),
                )),
                None => true,
            }),
    {
        let now = now_unix_secs();
        let r = Self::from_headers_at(headers, now);
        proof {
            assert(r == Self::spec_from_headers_at(headers@, now));
        }
        r
    }

    /// The recommended wait at time `now`, in milliseconds, capped at
    /// `max_wait`: `retry_after` if present, else the time until `reset_at`,
    /// and that only if the reset still lies in the future.
    pub open spec fn spec_delay_at(self, max_wait: u64, now: u64) -> Option<u64> {
        match self.retry_after {
            Some(ra) => Some(spec_min_u64(ra, max_wait)),
            None => match self.reset_at {
                Some(t) => if t > now {
                    Some(spec_min_u64(spec_secs_to_ms((t - now) as u64), max_wait))
                } else {
                    None
                },
                None => None,
            },
        }
    }

    /// The recommended wait in milliseconds, capped at `max_wait`, with the
    /// clock read at `now_unix_secs`.
    pub fn delay_at(&self, max_wait: u64, now_unix_secs: u64) -> (r: Option<u64>)
        ensures
            r == self.spec_delay_at(max_wait, now_unix_secs),
    {
        match self.retry_after {
            Some(ra) => Some(if ra <= max_wait {
                ra
            } else {
                max_wait
            }),
            None => match self.reset_at {
                Some(t) => if t > now_unix_secs {
                    let until = secs_to_ms(t - now_unix_secs);
                    Some(if until <= max_wait {
                        until
                    } else {
                        max_wait
                    })
                } else {
                    None
                },
                None => None,
            },
        }
    }

    /// The recommended wait in milliseconds, capped at `max_wait`.  Prefers
    /// `retry_after`; falls back to the time left until `reset_at`; never
    /// exceeds `max_wait`.
    pub fn delay(&self, max_wait: u64) -> (r: Option<u64>)
        ensures
            exists|now: u64| r == self.spec_delay_at(max_wait, now),
            (r matches Some(d) ==> d <= max_wait),
            (self.retry_after matches Some(ra) ==> r == Some(spec_min_u64(ra, max_wait))),
            self.retry_after is None && self.reset_at is None ==> r is None,
    {
        let now = now_unix_secs();
        let r = self.delay_at(max_wait, now);
        proof {
            assert(r == self.spec_delay_at(max_wait, now));
        }
        r
    }

    /// Whether these headers announce an active rate limit.
    pub open spec fn spec_is_rate_limited(self) -> bool {
        self.retry_after is Some || self.remaining == Some(0u64)
    }

    /// Returns `true` if this represents an active rate limit: `retry_after`
    /// is present, or `remaining` is zero.
    pub fn is_rate_limited(&self) -> (r: bool)
        ensures
            r == self.spec_is_rate_limited(),
    {
        match self.retry_after {
            Some(_) => true,
            None => match self.remaining {
                Some(n) => n == 0,
                None => false,
            },
        }
    }
}

/// The recommended wait never exceeds the cap it was asked for.
pub proof fn lemma_delay_never_exceeds_max_wait(info: RateLimitInfo, max_wait: u64, now: u64)
    ensures
        info.spec_delay_at(max_wait, now) matches Some(d) ==> d <= max_wait,
{
}

/// When `retry_after` is present it decides the wait, whatever `reset_at`
/// says.
pub proof fn lemma_delay_prefers_retry_after(info: RateLimitInfo, ra: u64, max_wait: u64, now: u64)
    requires
        info.retry_after == Some(ra),
    ensures
        info.spec_delay_at(max_wait, now) == Some(spec_min_u64(ra, max_wait)),
{
}

/// The default cap on a rate-limit wait: five minutes, in milliseconds.
pub const DEFAULT_MAX_WAIT_MS: u64 = 300000;

/// Configuration for rate-limit handling.
#[derive(Debug, Clone, Copy, PartialEq, Eq, Structural)]
pub struct RateLimitConfig {
    /// Whether to parse rate-limit headers and wait the indicated time before
    /// retrying.
    pub enabled: bool,
    /// Maximum time to wait for a rate-limit reset, in milliseconds.  This
    /// prevents waiting indefinitely.
    pub max_wait: u64,
    /// Whether to respect the `Retry-After` header.
    pub respect_retry_after: bool,
}

impl Default for RateLimitConfig {
    /// Rate-limit handling on, waits capped at five minutes.
    fn default() -> (r: Self)
        ensures
            r.enabled == true,
            r.max_wait == DEFAULT_MAX_WAIT_MS,
            r.respect_retry_after == true,
    {
        RateLimitConfig { enabled: true, max_wait: DEFAULT_MAX_WAIT_MS, respect_retry_after: true }
    }
}

impl RateLimitConfig {
    /// Creates a new builder for configuring rate-limit handling.
    pub fn builder() -> (r: RateLimitConfigBuilder)
        ensures
            r.enabled is None,
            r.max_wait is None,
            r.respect_retry_after is None,
    {
        RateLimitConfigBuilder { enabled: None, max_wait: None, respect_retry_after: None }
    }

    /// Creates a disabled rate-limit configuration.
    pub fn disabled() -> (r: Self)
        ensures
            r.enabled == false,
            r.max_wait == DEFAULT_MAX_WAIT_MS,
            r.respect_retry_after == true,
    {
        RateLimitConfig { enabled: false, max_wait: DEFAULT_MAX_WAIT_MS, respect_retry_after: true }
    }
}

/// Builder for `RateLimitConfig`; a field left unset takes the default.
#[derive(Debug, Clone, Copy)]
pub struct RateLimitConfigBuilder {
    /// Whether rate-limit handling is enabled, if set.
    pub enabled: Option<bool>,
    /// The cap on waits in milliseconds, if set.
    pub max_wait: Option<u64>,
    /// Whether to respect `Retry-After`, if set.
    pub respect_retry_after: Option<bool>,
}

impl Default for RateLimitConfigBuilder {
    /// A builder with no field set.
    fn default() -> (r: Self)
        ensures
            r.enabled is None,
            r.max_wait is None,
            r.respect_retry_after is None,
    {
        RateLimitConfigBuilder { enabled: None, max_wait: None, respect_retry_after: None }
    }
}

impl RateLimitConfigBuilder {
    /// Sets whether rate-limit handling is enabled.
    pub fn enabled(self, enabled: bool) -> (r: Self)
        ensures
            r.enabled == Some(enabled),
            r.max_wait == self.max_wait,
            r.respect_retry_after == self.respect_retry_after,
    {
        RateLimitConfigBuilder { enabled: Some(enabled), ..self }
    }

    /// Sets the maximum wait for rate limits, in milliseconds.
    pub fn max_wait(self, max_wait: u64) -> (r: Self)
        ensures
            r.enabled == self.enabled,
            r.max_wait == Some(max_wait),
            r.respect_retry_after == self.respect_retry_after,
    {
        RateLimitConfigBuilder { max_wait: Some(max_wait), ..self }
    }

    /// Sets whether to respect the `Retry-After` header.
    pub fn respect_retry_after(self, respect: bool) -> (r: Self)
        ensures
            r.enabled == self.enabled,
            r.max_wait == self.max_wait,
            r.respect_retry_after == Some(respect),
    {
        RateLimitConfigBuilder { respect_retry_after: Some(respect), ..self }
    }

    /// Builds the configuration; an unset field takes its default.
    pub fn build(self) -> (r: RateLimitConfig)
        ensures
            r.enabled == (match self.enabled {
                Some(b) => b,
                None => true,
            }),
            r.max_wait == (match self.max_wait {
                Some(w) => w,
                None => DEFAULT_MAX_WAIT_MS,
            }),
            r.respect_retry_after == (match self.respect_retry_after {
                Some(b) => b,
                None => true,
            }),
    {
        let default = RateLimitConfig::default();
        RateLimitConfig {
            enabled: match self.enabled {
                Some(b) => b,
                None => default.enabled,
            },
            max_wait: match self.max_wait {
                Some(w) => w,
                None => default.max_wait,
            },
            respect_retry_after: match self.respect_retry_after {
                Some(b) => b,
                None => default.respect_retry_after,
            },
        }
    }
}

} // verus!
