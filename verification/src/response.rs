//! A wrapper around a successful HTTP response: the decoded data together
//! with the raw body, status, headers, latency and attempt count.

use vstd::prelude::*;

verus! {

use crate::headers::{Headers, spec_lookup};

/// A successful HTTP response.  Created once, on the successful terminal
/// attempt; immutable thereafter.
#[derive(Debug, Clone)]
pub struct Response<T> {
    /// The deserialized response data.
    pub data: T,
    /// The raw response body as a string.
    pub raw_body: String,
    /// The HTTP status code of the response.
    pub status: u16,
    /// The response headers.
    pub headers: Headers,
    /// The total latency of the request in milliseconds, over all attempts.
    pub latency: u64,
    /// The number of attempts made: 1 for a first-try success, more when
    /// retries were needed.
    pub attempts: usize,
}

impl<T> Response<T> {
    /// Creates a new `Response`; called by the client once a response has
    /// been decoded.
    pub fn new(
        data: T,
        raw_body: String,
        status: u16,
        headers: Headers,
        latency: u64,
        attempts: usize,
    ) -> (r: Response<T>)
        ensures
            r.data == data,
            r.raw_body == raw_body,
            r.status == status,
            r.headers == headers,
            r.latency == latency,
            r.attempts == attempts,
    {
        Response { data, raw_body, status, headers, latency, attempts }
    }

    /// Maps the response data through `f`, keeping the metadata.
    pub fn map<U, F: FnOnce(T) -> U>(self, f: F) -> (r: Response<U>)
        requires
            call_requires(f, (self.data,)),
        ensures
            call_ensures(f, (self.data,), r.data),
            r.raw_body == self.raw_body,
            r.status == self.status,
            r.headers == self.headers,
            r.latency == self.latency,
            r.attempts == self.attempts,
    {
        Response {
            data: f(self.data),
            raw_body: self.raw_body,
            status: self.status,
            headers: self.headers,
            latency: self.latency,
            attempts: self.attempts,
        }
    }

    /// Returns `true` if the request required retries.
    pub fn was_retried(&self) -> (r: bool)
        ensures
            r == (self.attempts > 1),
    {
        self.attempts > 1
    }

    /// Returns the value of the header `name`, looked up
    /// ASCII-case-insensitively.
    pub fn header(&self, name: &str) -> (r: Option<&str>)
        ensures
            match r {
                Some(v) => spec_lookup(self.headers@, name@) == Some(v@),
                None => spec_lookup(self.headers@, name@) is None,
            },
    {
        self.headers.get(name)
    }
}

} // verus!
