//! The decision core of the call loop.
//!
//! A driver executes one HTTP attempt at a time and hands its outcome to
//! [`call_step`], which classifies it, consults the retry predicate, the
//! rate-limit information and the retry strategy in that order, and answers
//! with success, terminal failure, or an order to sleep and try again.
//! Attempts are numbered from 1; waits are in milliseconds.

use vstd::prelude::*;

verus! {

use crate::config::ClientConfig;
use crate::error::Error;
use crate::headers::Headers;
use crate::rate_limit::RateLimitInfo;
use crate::retry::{DelayFn, RetryPredicate};

/// What one logical call owns while it runs: the number of the attempt being
/// made and the last error a retry absorbed.
#[derive(Debug)]
pub struct CallState {
    /// The 1-indexed number of the current attempt.
    pub attempt: usize,
    /// The error absorbed by the most recent retry, if any.
    pub last_error: Option<Error>,
}

impl CallState {
    /// Attempts count from 1, and an absorbed error is never a
    /// `MaxRetriesExceeded` wrapper.
    pub open spec fn spec_wf(self) -> bool {
        &&& self.attempt >= 1
        &&& match self.last_error {
            Some(e) => e.spec_wf() && !(e is MaxRetriesExceeded),
            None => true,
        }
    }

    /// The state a call starts in: attempt 1, nothing absorbed yet.
    pub fn initial() -> (r: CallState)
        ensures
            r.attempt == 1,
            r.last_error is None,
            r.spec_wf(),
    {
        CallState { attempt: 1, last_error: None }
    }
}

/// What one executed attempt came to, as the transport and the serializer
/// report it.  For a `Received` outcome the driver attempts to decode the
/// body only when the status is a success; `decode_error` carries the
/// serializer's message when decoding failed.
#[derive(Debug)]
pub enum AttemptOutcome {
    /// The attempt exceeded the configured timeout.
    TimedOut,
    /// The transport failed below the HTTP layer, with its message.
    NetworkFailed {
        /// The transport's description of the failure.
        message: String,
    },
    /// The request body could not be encoded; nothing was sent.
    EncodingFailed {
        /// The serializer's description of the failure.
        message: String,
    },
    /// A response arrived.
    Received {
        /// The HTTP status code.
        status: u16,
        /// The response headers.
        headers: Headers,
        /// The raw response body.
        raw_body: String,
        /// The serializer's error when a success body failed to decode.
        decode_error: Option<String>,
    },
}

/// What the call loop does next.
#[derive(Debug)]
pub enum CallStep {
    /// The attempt succeeded; the call is over.
    Succeeded {
        /// The number of attempts the call took.
        attempts: usize,
    },
    /// The call failed terminally; no further attempt follows.
    Failed {
        /// The error to hand to the caller.
        error: Error,
    },
    /// Sleep, then run the next attempt.
    RetryAfter {
        /// How long to wait before the next attempt, in milliseconds.
        delay: u64,
        /// The state the next attempt runs under.
        state: CallState,
    },
}

/// How an attempt's outcome classifies at time `now`: success, or the error
/// it amounts to.  A non-2xx response becomes an `HttpError`, carrying
/// rate-limit information when handling is enabled and the headers announce
/// an active limit; a 2xx response whose body would not decode becomes a
/// `DeserializationFailed`.
pub open spec fn spec_classify_at(
    outcome: AttemptOutcome,
    rate_limit_enabled: bool,
    now: u64,
) -> Result<(), Error> {
    match outcome {
        AttemptOutcome::TimedOut => Err(Error::Timeout),
        AttemptOutcome::NetworkFailed { message } => Err(Error::Network(message)),
        AttemptOutcome::EncodingFailed { message } => Err(Error::SerializationFailed(message)),
        AttemptOutcome::Received { status, headers, raw_body, decode_error } => {
            if 200 <= status && status < 300 {
                match decode_error {
                    None => Ok(()),
                    Some(e) => Err(
                        Error::DeserializationFailed {
                            raw_response: raw_body,
                            serde_error: e,
                            status,
                        },
                    ),
                }
            } else {
                let info = RateLimitInfo::spec_from_headers_at(headers@, now);
                Err(
                    Error::HttpError {
                        status,
                        raw_response: raw_body,
                        headers,
                        rate_limit_info: if rate_limit_enabled && info.spec_is_rate_limited() {
                            Some(info)
                        } else {
                            None
                        },
                    },
                )
            }
        },
    }
}

/// Classifies an attempt's outcome, with the clock read at `now_unix_secs`
/// for the rate-limit headers.
pub fn classify_outcome(
    outcome: AttemptOutcome,
    rate_limit_enabled: bool,
    now_unix_secs: u64,
) -> (r: Result<(), Error>)
    ensures
        r == spec_classify_at(outcome, rate_limit_enabled, now_unix_secs),
{
    match outcome {
        AttemptOutcome::TimedOut => Err(Error::Timeout),
        AttemptOutcome::NetworkFailed { message } => Err(Error::Network(message)),
        AttemptOutcome::EncodingFailed { message } => Err(Error::SerializationFailed(message)),
        AttemptOutcome::Received { status, headers, raw_body, decode_error } => {
            if 200 <= status && status < 300 {
                match decode_error {
                    None => Ok(()),
                    Some(e) => Err(
                        Error::DeserializationFailed {
                            raw_response: raw_body,
                            serde_error: e,
                            status,
                        },
                    ),
                }
            } else {
                let rate_limit_info = if rate_limit_enabled {
                    let info = RateLimitInfo::from_headers_at(&headers, now_unix_secs);
                    if info.is_rate_limited() {
                        Some(info)
                    } else {
                        None
                    }
                } else {
                    None
                };
                Err(Error::HttpError { status, raw_response: raw_body, headers, rate_limit_info })
            }
        },
    }
}

/// The wait the error's rate-limit information dictates, when rate-limit
/// handling is enabled.
pub open spec fn spec_rate_limit_wait<P: RetryPredicate, D: DelayFn>(
    config: ClientConfig<P, D>,
    e: Error,
    now: u64,
) -> Option<u64> {
    if config.rate_limit_config.enabled {
        e.spec_rate_limit_delay_at(config.rate_limit_config.max_wait, now)
    } else {
        None
    }
}

/// The state the next attempt runs under, after `e` was absorbed.
pub open spec fn spec_next_state(state: CallState, e: Error) -> CallState {
    CallState { attempt: (state.attempt + 1) as usize, last_error: Some(e) }
}

/// The error a retry keeps for the terminal report: the one absorbed last,
/// or the current one on a first failure.
pub open spec fn spec_last_or(state: CallState, e: Error) -> Error {
    match state.last_error {
        Some(le) => le,
        None => e,
    }
}

/// Decides what the call loop does after one attempt.
///
/// The outcome is classified; on success the call is over.  On failure the
/// predicate is asked first — a refusal returns the error unwrapped.  The
/// wait is then the rate-limit recommendation when handling is enabled and
/// the error carries one, else the strategy's delay for this attempt; with
/// no wait left the call fails with `MaxRetriesExceeded`, wrapping the last
/// absorbed error (or the current one) exactly one level deep.
pub fn call_step<P: RetryPredicate, D: DelayFn>(
    config: &ClientConfig<P, D>,
    state: CallState,
    outcome: AttemptOutcome,
    now_unix_secs: u64,
) -> (r: CallStep)
    requires
        state.spec_wf(),
        state.attempt < usize::MAX,
    ensures
        (spec_classify_at(outcome, config.rate_limit_config.enabled, now_unix_secs) is Ok ==> r
            == CallStep::Succeeded { attempts: state.attempt }),
        (spec_classify_at(outcome, config.rate_limit_config.enabled, now_unix_secs) matches Err(e)
            ==> (!config.retry_predicate.spec_should_retry(e, state.attempt) ==> r
            == CallStep::Failed { error: e })),
        (spec_classify_at(outcome, config.rate_limit_config.enabled, now_unix_secs) matches Err(e)
            ==> (config.retry_predicate.spec_should_retry(e, state.attempt) ==> (
        spec_rate_limit_wait(*config, e, now_unix_secs) matches Some(d) ==> r
            == CallStep::RetryAfter { delay: d, state: spec_next_state(state, e) }))),
        (spec_classify_at(outcome, config.rate_limit_config.enabled, now_unix_secs) matches Err(e)
            ==> (config.retry_predicate.spec_should_retry(e, state.attempt)
            && spec_rate_limit_wait(*config, e, now_unix_secs) is None ==> (
        config.retry_strategy.spec_delay_for_attempt(state.attempt) matches Some(b) ==> (
        !config.retry_strategy.spec_has_jitter(state.attempt) ==> r == CallStep::RetryAfter {
            delay: b,
            state: spec_next_state(state, e),
        })))),
        (spec_classify_at(outcome, config.rate_limit_config.enabled, now_unix_secs) matches Err(e)
            ==> (config.retry_predicate.spec_should_retry(e, state.attempt)
            && spec_rate_limit_wait(*config, e, now_unix_secs) is None ==> (
        config.retry_strategy.spec_delay_for_attempt(state.attempt) matches Some(b) ==> (
        config.retry_strategy.spec_has_jitter(state.attempt) ==> (r matches CallStep::RetryAfter {
            delay,
            state: st,
        } && b / 2 <= delay <= b && st == spec_next_state(state, e)))))),
        (spec_classify_at(outcome, config.rate_limit_config.enabled, now_unix_secs) matches Err(e)
            ==> (config.retry_predicate.spec_should_retry(e, state.attempt)
            && spec_rate_limit_wait(*config, e, now_unix_secs) is None
            && config.retry_strategy.spec_delay_for_attempt(state.attempt) is None ==> (r matches
        CallStep::Failed { error } && error matches Error::MaxRetriesExceeded {
            attempts,
            last_error,
        } && attempts == state.attempt && *last_error == spec_last_or(state, e)))),
        (r matches CallStep::RetryAfter { state: st, .. } ==> st.spec_wf() && st.attempt
            == state.attempt + 1),
        (r matches CallStep::Failed { error } ==> error.spec_wf()),
{
    let rate_limit_enabled = config.rate_limit_config.enabled;
    match classify_outcome(outcome, rate_limit_enabled, now_unix_secs) {
        Ok(()) => CallStep::Succeeded { attempts: state.attempt },
        Err(e) => {
            if !config.retry_predicate.should_retry(&e, state.attempt) {
                return CallStep::Failed { error: e };
            }
            let rate_limit_wait: Option<u64> = if rate_limit_enabled {
                e.rate_limit_delay_at(config.rate_limit_config.max_wait, now_unix_secs)
            } else {
                None
            };
            let wait: Option<u64> = match rate_limit_wait {
                Some(d) => Some(d),
                None => config.retry_strategy.delay_for_attempt(state.attempt),
            };
            match wait {
                Some(d) => CallStep::RetryAfter {
                    delay: d,
                    state: CallState { attempt: state.attempt + 1, last_error: Some(e) },
                },
                None => {
                    let last = match state.last_error {
                        Some(le) => le,
                        None => e,
                    };
                    CallStep::Failed {
                        error: Error::MaxRetriesExceeded {
                            attempts: state.attempt,
                            last_error: Box::new(last),
                        },
                    }
                },
            }
        },
    }
}

} // verus!
