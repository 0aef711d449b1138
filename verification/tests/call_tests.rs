//! Scenario tests for the call loop's decision core: each test scripts the
//! outcomes of successive attempts and checks every step the loop would take.

use calleen::call::{call_step, AttemptOutcome, CallState, CallStep};
use calleen::config::{ClientBuilder, ClientConfig};
use calleen::error::Error;
use calleen::headers::Headers;
use calleen::rate_limit::RateLimitConfig;
use calleen::retry::{NeverDelay, RetryOnRetryable, RetryStrategy};

const NOW: u64 = 1_700_000_000;

fn linear_config(delay: u64, max_retries: usize) -> ClientConfig<RetryOnRetryable, NeverDelay> {
    let strategy: RetryStrategy = RetryStrategy::Linear { delay, max_retries };
    ClientBuilder::new()
        .base_url("http://server.test/")
        .unwrap()
        .retry_strategy(strategy)
        .build()
        .unwrap()
}

fn server_error() -> AttemptOutcome {
    AttemptOutcome::Received {
        status: 500,
        headers: Headers::new(),
        raw_body: "Server error".to_string(),
        decode_error: None,
    }
}

fn success() -> AttemptOutcome {
    AttemptOutcome::Received {
        status: 200,
        headers: Headers::new(),
        raw_body: "{\"id\":1}".to_string(),
        decode_error: None,
    }
}

fn rate_limited(retry_after: &str) -> AttemptOutcome {
    let mut headers = Headers::new();
    headers.insert("retry-after".to_string(), retry_after.to_string());
    AttemptOutcome::Received {
        status: 429,
        headers,
        raw_body: "Rate limited".to_string(),
        decode_error: None,
    }
}

fn expect_retry(step: CallStep) -> (u64, CallState) {
    match step {
        CallStep::RetryAfter { delay, state } => (delay, state),
        other => panic!("expected a retry, got {:?}", other),
    }
}

#[test]
fn test_scenario_linear_success_on_third_attempt() {
    // 500 on attempts 1 and 2, then 200: the call succeeds with attempts == 3.
    let config = linear_config(10, 3);
    let state = CallState::initial();

    let (delay, state) = expect_retry(call_step(&config, state, server_error(), NOW));
    assert_eq!(delay, 10);
    assert_eq!(state.attempt, 2);

    let (delay, state) = expect_retry(call_step(&config, state, server_error(), NOW));
    assert_eq!(delay, 10);
    assert_eq!(state.attempt, 3);

    match call_step(&config, state, success(), NOW) {
        CallStep::Succeeded { attempts } => assert_eq!(attempts, 3),
        other => panic!("expected success, got {:?}", other),
    }
}

#[test]
fn test_scenario_max_retries_exceeded() {
    // Always 500 with two retries allowed: 1 initial + 2 retries, then a
    // MaxRetriesExceeded reporting 3 attempts and the last 500.
    let config = linear_config(10, 2);
    let state = CallState::initial();

    let (_, state) = expect_retry(call_step(&config, state, server_error(), NOW));
    let (_, state) = expect_retry(call_step(&config, state, server_error(), NOW));
    assert_eq!(state.attempt, 3);

    match call_step(&config, state, server_error(), NOW) {
        CallStep::Failed {
            error: Error::MaxRetriesExceeded {
                attempts,
                last_error,
            },
        } => {
            assert_eq!(attempts, 3);
            match *last_error {
                Error::HttpError { status, .. } => assert_eq!(status, 500),
                other => panic!("expected the last 500, got {:?}", other),
            }
        }
        other => panic!("expected MaxRetriesExceeded, got {:?}", other),
    }
}

#[test]
fn test_scenario_retry_after_header_overrides_strategy() {
    // A 429 carrying Retry-After: 1 with rate limiting on: the wait is the
    // header's second, not the strategy's 10ms, and the call then succeeds
    // with attempts == 2.
    let config = linear_config(10, 3);
    let state = CallState::initial();

    let (delay, state) = expect_retry(call_step(&config, state, rate_limited("1"), NOW));
    assert_eq!(delay, 1_000);

    match call_step(&config, state, success(), NOW) {
        CallStep::Succeeded { attempts } => assert_eq!(attempts, 2),
        other => panic!("expected success, got {:?}", other),
    }
}

#[test]
fn test_scenario_rate_limit_wait_capped_by_max_wait() {
    // Retry-After: 600 but max_wait is 2s: the wait is capped near 2s, not
    // 600s.
    let strategy: RetryStrategy = RetryStrategy::Linear {
        delay: 10,
        max_retries: 3,
    };
    let config = ClientBuilder::new()
        .base_url("http://server.test/")
        .unwrap()
        .retry_strategy(strategy)
        .rate_limit_config(RateLimitConfig::builder().max_wait(2_000).build())
        .build()
        .unwrap();

    let (delay, state) = expect_retry(call_step(&config, CallState::initial(), rate_limited("600"), NOW));
    assert_eq!(delay, 2_000);

    match call_step(&config, state, success(), NOW) {
        CallStep::Succeeded { attempts } => assert_eq!(attempts, 2),
        other => panic!("expected success, got {:?}", other),
    }
}

#[test]
fn test_scenario_rate_limit_disabled_uses_strategy_delay() {
    // Rate limiting off: the same 429-with-Retry-After is waited out with
    // the configured strategy delay instead of the header's.
    let strategy: RetryStrategy = RetryStrategy::Linear {
        delay: 10,
        max_retries: 3,
    };
    let config = ClientBuilder::new()
        .base_url("http://server.test/")
        .unwrap()
        .retry_strategy(strategy)
        .rate_limit_config(RateLimitConfig::disabled())
        .build()
        .unwrap();

    let (delay, state) = expect_retry(call_step(&config, CallState::initial(), rate_limited("1"), NOW));
    assert_eq!(delay, 10);
    assert_eq!(state.attempt, 2);
}

#[test]
fn test_4xx_fails_immediately_unwrapped() {
    let config = linear_config(10, 3);
    let outcome = AttemptOutcome::Received {
        status: 404,
        headers: Headers::new(),
        raw_body: "Not found".to_string(),
        decode_error: None,
    };

    match call_step(&config, CallState::initial(), outcome, NOW) {
        CallStep::Failed {
            error: Error::HttpError {
                status,
                raw_response,
                ..
            },
        } => {
            assert_eq!(status, 404);
            assert_eq!(raw_response, "Not found");
        }
        other => panic!("expected HttpError, got {:?}", other),
    }
}

#[test]
fn test_deserialization_failure_fails_immediately() {
    // A 2xx whose body would not decode is a DeserializationFailed, and the
    // default predicate does not retry it.
    let config = linear_config(10, 3);
    let outcome = AttemptOutcome::Received {
        status: 200,
        headers: Headers::new(),
        raw_body: "invalid json".to_string(),
        decode_error: Some("expected value at line 1 column 1".to_string()),
    };

    match call_step(&config, CallState::initial(), outcome, NOW) {
        CallStep::Failed {
            error:
                Error::DeserializationFailed {
                    raw_response,
                    serde_error,
                    status,
                },
        } => {
            assert_eq!(raw_response, "invalid json");
            assert!(serde_error.contains("expected"));
            assert_eq!(status, 200);
        }
        other => panic!("expected DeserializationFailed, got {:?}", other),
    }
}

#[test]
fn test_timeout_and_network_outcomes_classify() {
    // With no retries configured, a timeout and a network failure come back
    // as MaxRetriesExceeded wrapping the classified error: the default
    // predicate retries them but the strategy has no budget.
    let config = ClientBuilder::new()
        .base_url("http://server.test/")
        .unwrap()
        .build()
        .unwrap();

    match call_step(&config, CallState::initial(), AttemptOutcome::TimedOut, NOW) {
        CallStep::Failed {
            error: Error::MaxRetriesExceeded {
                attempts,
                last_error,
            },
        } => {
            assert_eq!(attempts, 1);
            assert!(matches!(*last_error, Error::Timeout));
        }
        other => panic!("expected MaxRetriesExceeded, got {:?}", other),
    }

    let network = AttemptOutcome::NetworkFailed {
        message: "connection refused".to_string(),
    };
    match call_step(&config, CallState::initial(), network, NOW) {
        CallStep::Failed {
            error: Error::MaxRetriesExceeded { last_error, .. },
        } => assert!(matches!(*last_error, Error::Network(_))),
        other => panic!("expected MaxRetriesExceeded, got {:?}", other),
    }
}

#[test]
fn test_http_error_carries_rate_limit_info_only_when_enabled() {
    let config = linear_config(10, 0);
    // remaining: 3 is not an active limit, so no info is attached.
    let mut headers = Headers::new();
    headers.insert("x-ratelimit-remaining".to_string(), "3".to_string());
    let outcome = AttemptOutcome::Received {
        status: 404,
        headers,
        raw_body: "nope".to_string(),
        decode_error: None,
    };
    match call_step(&config, CallState::initial(), outcome, NOW) {
        CallStep::Failed {
            error: Error::HttpError {
                rate_limit_info, ..
            },
        } => assert!(rate_limit_info.is_none()),
        other => panic!("expected HttpError, got {:?}", other),
    }

    // An exhausted quota is one, and the parsed fields come through.
    let mut headers = Headers::new();
    headers.insert("x-ratelimit-remaining".to_string(), "0".to_string());
    headers.insert("x-ratelimit-reset".to_string(), (NOW + 30).to_string());
    let outcome = AttemptOutcome::Received {
        status: 429,
        headers,
        raw_body: "Rate limited".to_string(),
        decode_error: None,
    };
    match call_step(&config, CallState::initial(), outcome, NOW) {
        CallStep::RetryAfter { delay, .. } => assert_eq!(delay, 30_000),
        other => panic!("expected a rate-limit retry, got {:?}", other),
    }
}
