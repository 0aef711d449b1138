//! A retry- and rate-limit-aware core for HTTP API clients.
//!
//! This crate holds the decision logic that governs what happens after a
//! single HTTP attempt fails: whether to try again, how long to wait, and
//! how to report terminal failure.  The pieces are:
//!
//! - [`retry::RetryStrategy`]: a pure map from an attempt number to an
//!   optional wait, encoding the backoff shape;
//! - [`retry::RetryPredicate`]: a pluggable policy deciding whether a
//!   failure warrants another attempt, with `And`/`Or` combinators;
//! - [`rate_limit::RateLimitInfo`]: rate-limit response headers parsed into
//!   a delay recommendation, bounded by a [`rate_limit::RateLimitConfig`];
//! - [`error::Error`]: the closed set of failure kinds, with their
//!   retryability classification;
//! - [`call`]: the per-attempt step of the call loop, which classifies an
//!   attempt's outcome and consults the predicate, the rate-limit
//!   information and the strategy, in that order.
//!
//! The HTTP transport and the JSON serializer are collaborators that live
//! outside this crate: a driver executes one attempt at a time and hands
//! each outcome to [`call::call_step`].  Durations are carried as plain
//! integers — waits in milliseconds, points in time as whole seconds since
//! the Unix epoch.

pub mod call;
pub mod config;
pub mod error;
pub mod headers;
pub mod metadata;
pub mod rate_limit;
pub mod response;
pub mod retry;

pub use config::{ClientBuilder, ClientConfig};
pub use error::Error;
pub use headers::Headers;
pub use response::Response;
pub use retry::{RetryPredicate, RetryStrategy};
