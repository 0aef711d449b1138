//! Client configuration: an immutable bundle of base URL, default headers,
//! retry strategy, retry predicate, timeout and rate-limit settings, built by
//! a validating builder.  Invalid configuration fails at construction time,
//! not at call time.

use vstd::prelude::*;

verus! {

use crate::error::Error;
use crate::headers::{
    Headers,
    spec_lookup,
    spec_str_eq_ic,
    header_name_parse,
    spec_header_value_ok,
    parse_header_name_str,
    check_header_value_str,
};
use crate::rate_limit::RateLimitConfig;
use crate::retry::{DelayFn, NeverDelay, RetryOnRetryable, RetryPredicate, RetryStrategy};
use vstd::string::StringExecFns;

/// What `url::Url::parse` denotes on a string: the serialized form of the
/// parsed, normalized URL, or the parse error's message; a function of the
/// input alone.
pub uninterp spec fn url_parse(s: Seq<char>) -> Result<Seq<char>, Seq<char>>;

/// Relies on `url::Url::parse`: parses and normalizes an absolute URL.
#[verifier::external_body]
fn parse_url_str(s: &str) -> (r: Result<String, String>)
    ensures
        match (r, url_parse(s@)) {
            (Ok(a), Ok(b)) => a@ == b,
            (Err(a), Err(b)) => a@ == b,
            _ => false,
        },
{
    match url::Url::parse(s) {
        Ok(u) => Ok(String::from(u)),
        Err(e) => Err(e.to_string()),
    }
}

/// The configuration a client runs with, shared read-only by every call.
#[derive(Debug)]
pub struct ClientConfig<P: RetryPredicate = RetryOnRetryable, D: DelayFn = NeverDelay> {
    /// The base URL all request paths are resolved against, in the serialized
    /// form `url::Url::parse` gives it.
    pub base_url: String,
    /// Headers included in every request.
    pub default_headers: Headers,
    /// The retry strategy for failed requests.
    pub retry_strategy: RetryStrategy<D>,
    /// The predicate deciding whether a failure is retried.
    pub retry_predicate: P,
    /// The per-attempt timeout in milliseconds, if any.
    pub timeout: Option<u64>,
    /// The rate-limit handling configuration.
    pub rate_limit_config: RateLimitConfig,
}

/// Builder for a [`ClientConfig`].  Every setter keeps what was set before;
/// `build` demands a base URL.
#[derive(Debug)]
pub struct ClientBuilder<P: RetryPredicate = RetryOnRetryable, D: DelayFn = NeverDelay> {
    /// The base URL, once set.
    pub base_url: Option<String>,
    /// Headers included in every request.
    pub default_headers: Headers,
    /// The retry strategy for failed requests.
    pub retry_strategy: RetryStrategy<D>,
    /// The predicate deciding whether a failure is retried.
    pub retry_predicate: P,
    /// The per-attempt timeout in milliseconds, if any.
    pub timeout: Option<u64>,
    /// The rate-limit handling configuration.
    pub rate_limit_config: RateLimitConfig,
}

impl ClientBuilder<RetryOnRetryable, NeverDelay> {
    /// Creates a builder with the defaults: no retries, retry on retryable
    /// errors, rate-limit handling enabled.
    pub fn new() -> (r: Self)
        ensures
            r.base_url is None,
            r.default_headers@ == Seq::<(Seq<char>, Seq<char>)>::empty(),
            r.retry_strategy is NoRetry,
            r.timeout is None,
            r.rate_limit_config.enabled == true,
            r.rate_limit_config.max_wait == crate::rate_limit::DEFAULT_MAX_WAIT_MS,
            r.rate_limit_config.respect_retry_after == true,
    {
        ClientBuilder {
            base_url: None,
            default_headers: Headers::new(),
            retry_strategy: RetryStrategy::NoRetry,
            retry_predicate: RetryOnRetryable,
            timeout: None,
            rate_limit_config: RateLimitConfig::default(),
        }
    }
}

impl Default for ClientBuilder<RetryOnRetryable, NeverDelay> {
    /// The same builder `new` gives.
    fn default() -> (r: Self)
        ensures
            r.base_url is None,
            r.retry_strategy is NoRetry,
            r.timeout is None,
    {
        ClientBuilder::new()
    }
}

impl<P: RetryPredicate, D: DelayFn> ClientBuilder<P, D> {
    /// Sets the base URL for all requests, normalized as `url::Url::parse`
    /// serializes it.  An unparseable URL is an `InvalidUrl` error.
    pub fn base_url(self, url: &str) -> (r: Result<Self, Error>)
        ensures
            (match url_parse(url@) {
                Ok(u) => r matches Ok(b) && b.base_url matches Some(s) && s@ == u
                    && b.default_headers == self.default_headers && b.retry_strategy
                    == self.retry_strategy && b.retry_predicate == self.retry_predicate
                    && b.timeout == self.timeout && b.rate_limit_config == self.rate_limit_config,
                Err(e) => r matches Err(Error::InvalidUrl(m)) && m@ == e,
            }),
    {
        match parse_url_str(url) {
            Ok(u) => {
                let mut b = self;
                b.base_url = Some(u);
                Ok(b)
            },
            Err(e) => Err(Error::InvalidUrl(e)),
        }
    }

    /// Adds a header included in every request.  An invalid name or value is
    /// a `ConfigurationError`; the name is checked first.
    pub fn default_header(self, name: &str, value: &str) -> (r: Result<Self, Error>)
        ensures
            (match header_name_parse(name@) {
                Err(e) => r matches Err(Error::ConfigurationError(m)) && m@ == "Invalid header name: "@
                    + e,
                Ok(n) => if !spec_header_value_ok(value@) {
                    r matches Err(Error::ConfigurationError(m)) && m@ == "Invalid header value: "@
                        + "failed to parse header value"@
                } else {
                    r matches Ok(b) && b.base_url == self.base_url && b.retry_strategy
                        == self.retry_strategy && b.retry_predicate == self.retry_predicate
                        && b.timeout == self.timeout && b.rate_limit_config
                        == self.rate_limit_config && (forall|q: Seq<char>|
                        #[trigger] spec_lookup(b.default_headers@, q) == (if spec_str_eq_ic(
                            n,
                            q,
                        ) {
                            Some(value@)
                        } else {
                            spec_lookup(self.default_headers@, q)
                        }))
                },
            }),
    {
        let name_norm = match parse_header_name_str(name) {
            Ok(n) => n,
            Err(e) => {
                let msg = String::from_str("Invalid header name: ").concat(e.as_str());
                return Err(Error::ConfigurationError(msg));
            },
        };
        match check_header_value_str(value) {
            Some(e) => {
                let msg = String::from_str("Invalid header value: ").concat(e.as_str());
                Err(Error::ConfigurationError(msg))
            },
            None => {
                let mut b = self;
                b.default_headers.insert(name_norm, String::from_str(value));
                Ok(b)
            },
        }
    }

    /// Sets the retry strategy for failed requests.
    pub fn retry_strategy<D2: DelayFn>(self, strategy: RetryStrategy<D2>) -> (r: ClientBuilder<
        P,
        D2,
    >)
        ensures
            r.base_url == self.base_url,
            r.default_headers == self.default_headers,
            r.retry_strategy == strategy,
            r.retry_predicate == self.retry_predicate,
            r.timeout == self.timeout,
            r.rate_limit_config == self.rate_limit_config,
    {
        ClientBuilder {
            base_url: self.base_url,
            default_headers: self.default_headers,
            retry_strategy: strategy,
            retry_predicate: self.retry_predicate,
            timeout: self.timeout,
            rate_limit_config: self.rate_limit_config,
        }
    }

    /// Sets a custom retry predicate.  By default, requests are retried
    /// when the error classifies as retryable.
    pub fn retry_predicate<Q: RetryPredicate>(self, predicate: Q) -> (r: ClientBuilder<Q, D>)
        ensures
            r.base_url == self.base_url,
            r.default_headers == self.default_headers,
            r.retry_strategy == self.retry_strategy,
            r.retry_predicate == predicate,
            r.timeout == self.timeout,
            r.rate_limit_config == self.rate_limit_config,
    {
        ClientBuilder {
            base_url: self.base_url,
            default_headers: self.default_headers,
            retry_strategy: self.retry_strategy,
            retry_predicate: predicate,
            timeout: self.timeout,
            rate_limit_config: self.rate_limit_config,
        }
    }

    /// Sets the per-attempt timeout, in milliseconds.
    pub fn timeout(self, timeout: u64) -> (r: Self)
        ensures
            r.base_url == self.base_url,
            r.default_headers == self.default_headers,
            r.retry_strategy == self.retry_strategy,
            r.retry_predicate == self.retry_predicate,
            r.timeout == Some(timeout),
            r.rate_limit_config == self.rate_limit_config,
    {
        let mut b = self;
        b.timeout = Some(timeout);
        b
    }

    /// Sets the rate-limit configuration.
    pub fn rate_limit_config(self, config: RateLimitConfig) -> (r: Self)
        ensures
            r.base_url == self.base_url,
            r.default_headers == self.default_headers,
            r.retry_strategy == self.retry_strategy,
            r.retry_predicate == self.retry_predicate,
            r.timeout == self.timeout,
            r.rate_limit_config == config,
    {
        let mut b = self;
        b.rate_limit_config = config;
        b
    }

    /// Builds the configuration.  A missing base URL is a
    /// `ConfigurationError`.
    pub fn build(self) -> (r: Result<ClientConfig<P, D>, Error>)
        ensures
            (match self.base_url {
                None => r matches Err(Error::ConfigurationError(m)) && m@
                    == "Base URL is required"@,
                Some(u) => r matches Ok(c) && c.base_url == u && c.default_headers
                    == self.default_headers && c.retry_strategy == self.retry_strategy
                    && c.retry_predicate == self.retry_predicate && c.timeout == self.timeout
                    && c.rate_limit_config == self.rate_limit_config,
            }),
    {
        match self.base_url {
            None => Err(Error::ConfigurationError(String::from_str("Base URL is required"))),
            Some(u) => Ok(
                ClientConfig {
                    base_url: u,
                    default_headers: self.default_headers,
                    retry_strategy: self.retry_strategy,
                    retry_predicate: self.retry_predicate,
                    timeout: self.timeout,
                    rate_limit_config: self.rate_limit_config,
                },
            ),
        }
    }
}

} // verus!
