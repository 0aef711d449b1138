//! The closed set of failure kinds an API call can end in, with their
//! retryability classification and accessors for the shared fields.

use vstd::prelude::*;

verus! {

use crate::headers::Headers;
use crate::rate_limit::{RateLimitInfo, now_unix_secs, spec_min_u64};

/// The error type for API calls.
///
/// Every failure is a typed value: nothing is recovered silently.  The only
/// wrapping kind is `MaxRetriesExceeded`, which carries the final attempt's
/// error and the total attempt count, and is never nested inside itself.
#[derive(Debug)]
pub enum Error {
    /// A network-level failure: connection refused, DNS lookup failed, and
    /// the like, with the transport's message.
    Network(String),
    /// The request took longer than the configured timeout.
    Timeout,
    /// The response body could not be decoded into the expected type.
    DeserializationFailed {
        /// The raw response body that failed to decode.
        raw_response: String,
        /// The serializer's error message.
        serde_error: String,
        /// The HTTP status code of the response.
        status: u16,
    },
    /// The server answered with a non-2xx status code.
    HttpError {
        /// The HTTP status code.
        status: u16,
        /// The raw response body.
        raw_response: String,
        /// The response headers.
        headers: Headers,
        /// Rate-limit information parsed from the headers, when handling is
        /// enabled and the headers announce an active limit.
        rate_limit_info: Option<RateLimitInfo>,
    },
    /// The client or the request was configured invalidly.
    ConfigurationError(String),
    /// All retry attempts were exhausted.
    MaxRetriesExceeded {
        /// The number of attempts made.
        attempts: usize,
        /// The last error encountered before giving up.
        last_error: Box<Error>,
    },
    /// The request body could not be encoded.
    SerializationFailed(String),
    /// The base URL could not be parsed.
    InvalidUrl(String),
}

impl Error {
    /// A `MaxRetriesExceeded` error wraps exactly one level: its payload is
    /// never itself a `MaxRetriesExceeded`.
    pub open spec fn spec_wf(self) -> bool {
        match self {
            Error::MaxRetriesExceeded { last_error, .. } => !(*last_error
                is MaxRetriesExceeded),
            _ => true,
        }
    }

    /// Whether this failure may be worth another attempt: a network failure,
    /// a timeout, or an HTTP 5xx or 429.
    pub open spec fn spec_is_retryable(self) -> bool {
        match self {
            Error::Network(_) => true,
            Error::Timeout => true,
            Error::HttpError { status, .. } => (500 <= status && status < 600) || status == 429,
            _ => false,
        }
    }

    /// Returns `true` if this error is potentially retryable: network errors,
    /// timeouts, and HTTP 5xx or 429 responses are; everything else is not.
    pub fn is_retryable(&self) -> (r: bool)
        ensures
            r == self.spec_is_retryable(),
    {
        match self {
            Error::Network(_) => true,
            Error::Timeout => true,
            Error::HttpError { status, .. } => (500 <= *status && *status < 600) || *status == 429,
            Error::DeserializationFailed { .. } => false,
            Error::ConfigurationError(_) => false,
            Error::MaxRetriesExceeded { .. } => false,
            Error::SerializationFailed(_) => false,
            Error::InvalidUrl(_) => false,
        }
    }

    /// An HTTP error is retryable exactly for server errors (5xx) and 429;
    /// every other status, the 4xx client errors included, is not.
    pub proof fn lemma_http_error_retryability(
        status: u16,
        raw_response: String,
        headers: Headers,
        rate_limit_info: Option<RateLimitInfo>,
    )
        ensures
            (Error::HttpError {
                status,
                raw_response,
                headers,
                rate_limit_info,
            }).spec_is_retryable() == ((500 <= status && status < 600) || status == 429),
    {
    }

    /// The status code of the response this error reports, if any.
    pub open spec fn spec_status(self) -> Option<u16> {
        match self {
            Error::HttpError { status, .. } => Some(status),
            Error::DeserializationFailed { status, .. } => Some(status),
            _ => None,
        }
    }

    /// Returns the HTTP status code for `HttpError` and
    /// `DeserializationFailed`, `None` for the other kinds.
    pub fn status(&self) -> (r: Option<u16>)
        ensures
            r == self.spec_status(),
    {
        match self {
            Error::HttpError { status, .. } => Some(*status),
            Error::DeserializationFailed { status, .. } => Some(*status),
            _ => None,
        }
    }

    /// The raw response body this error preserves, if any.
    pub open spec fn spec_raw_response(self) -> Option<Seq<char>> {
        match self {
            Error::HttpError { raw_response, .. } => Some(raw_response@),
            Error::DeserializationFailed { raw_response, .. } => Some(raw_response@),
            _ => None,
        }
    }

    /// Returns the raw response body for `HttpError` and
    /// `DeserializationFailed`, `None` for the other kinds.
    pub fn raw_response(&self) -> (r: Option<&str>)
        ensures
            match r {
                Some(s) => self.spec_raw_response() == Some(s@),
                None => self.spec_raw_response() is None,
            },
    {
        match self {
            Error::HttpError { raw_response, .. } => Some(raw_response.as_str()),
            Error::DeserializationFailed { raw_response, .. } => Some(raw_response.as_str()),
            _ => None,
        }
    }

    /// The rate-limit information this error carries, if any.
    pub open spec fn spec_rate_limit_info(self) -> Option<RateLimitInfo> {
        match self {
            Error::HttpError { rate_limit_info, .. } => rate_limit_info,
            _ => None,
        }
    }

    /// Returns rate-limit information, present only for `HttpError` variants
    /// carrying one.
    pub fn rate_limit_info(&self) -> (r: Option<&RateLimitInfo>)
        ensures
            match r {
                Some(i) => self.spec_rate_limit_info() == Some(*i),
                None => self.spec_rate_limit_info() is None,
            },
    {
        match self {
            Error::HttpError { rate_limit_info, .. } => match rate_limit_info {
                Some(i) => Some(i),
                None => None,
            },
            _ => None,
        }
    }

    /// The wait this error's rate-limit information recommends at time `now`,
    /// capped at `max_wait`.
    pub open spec fn spec_rate_limit_delay_at(self, max_wait: u64, now: u64) -> Option<u64> {
        match self.spec_rate_limit_info() {
            Some(info) => info.spec_delay_at(max_wait, now),
            None => None,
        }
    }

    /// The recommended rate-limit wait in milliseconds, capped at `max_wait`,
    /// with the clock read at `now_unix_secs`.
    pub fn rate_limit_delay_at(&self, max_wait: u64, now_unix_secs: u64) -> (r: Option<u64>)
        ensures
            r == self.spec_rate_limit_delay_at(max_wait, now_unix_secs),
    {
        match self.rate_limit_info() {
            Some(info) => info.delay_at(max_wait, now_unix_secs),
            None => None,
        }
    }

    /// The recommended rate-limit wait in milliseconds, capped at `max_wait`.
    pub fn rate_limit_delay(&self, max_wait: u64) -> (r: Option<u64>)
        ensures
            exists|now: u64| r == self.spec_rate_limit_delay_at(max_wait, now),
            (r matches Some(d) ==> d <= max_wait),
            self.spec_rate_limit_info() is None ==> r is None,
            (match self.spec_rate_limit_info() {
                Some(info) => (info.retry_after matches Some(ra) ==> r == Some(
                    spec_min_u64(ra, max_wait),
                )),
                None => true,
            }),
    {
        let now = now_unix_secs();
        let r = self.rate_limit_delay_at(max_wait, now);
        proof {
            assert(r == self.spec_rate_limit_delay_at(max_wait, now));
        }
        r
    }

}

} // verus!
