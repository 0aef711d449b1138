//! Tests for retry strategies and predicates.

use calleen::error::Error;
use calleen::headers::Headers;
use calleen::retry::{
    AndPredicate, NeverDelay, OrPredicate, RetryOn5xx, RetryOnConnectionError, RetryOnRetryable,
    RetryOnTimeout, RetryPredicate, RetryStrategy,
};

fn http_error(status: u16) -> Error {
    Error::HttpError {
        status,
        raw_response: "body".to_string(),
        headers: Headers::new(),
        rate_limit_info: None,
    }
}

#[test]
fn test_exponential_backoff_delays() {
    let strategy: RetryStrategy = RetryStrategy::ExponentialBackoff {
        initial_delay: 100,
        max_delay: 10_000,
        max_retries: 5,
        jitter: false,
    };

    assert_eq!(strategy.delay_for_attempt(1), Some(100));
    assert_eq!(strategy.delay_for_attempt(2), Some(200));
    assert_eq!(strategy.delay_for_attempt(3), Some(400));
    assert_eq!(strategy.delay_for_attempt(4), Some(800));
    assert_eq!(strategy.delay_for_attempt(5), Some(1_600));
    assert_eq!(strategy.delay_for_attempt(6), None);
}

#[test]
fn test_linear_delays() {
    let strategy: RetryStrategy = RetryStrategy::Linear {
        delay: 1_000,
        max_retries: 3,
    };

    assert_eq!(strategy.delay_for_attempt(1), Some(1_000));
    assert_eq!(strategy.delay_for_attempt(2), Some(1_000));
    assert_eq!(strategy.delay_for_attempt(3), Some(1_000));
    assert_eq!(strategy.delay_for_attempt(4), None);
}

#[test]
fn test_no_retry() {
    let strategy: RetryStrategy = RetryStrategy::NoRetry;
    assert_eq!(strategy.delay_for_attempt(1), None);
}

#[test]
fn test_exponential_backoff_caps_at_max_delay() {
    let strategy: RetryStrategy = RetryStrategy::ExponentialBackoff {
        initial_delay: 100,
        max_delay: 1_000,
        max_retries: 10,
        jitter: false,
    };

    assert_eq!(strategy.delay_for_attempt(4), Some(800));
    assert_eq!(strategy.delay_for_attempt(5), Some(1_000));
    assert_eq!(strategy.delay_for_attempt(10), Some(1_000));
    // Large attempt counts saturate instead of overflowing.
    let wide: RetryStrategy = RetryStrategy::ExponentialBackoff {
        initial_delay: u64::MAX,
        max_delay: u64::MAX,
        max_retries: 200,
        jitter: false,
    };
    assert_eq!(wide.delay_for_attempt(200), Some(u64::MAX));
}

#[test]
fn test_exponential_backoff_jitter_range() {
    let strategy: RetryStrategy = RetryStrategy::ExponentialBackoff {
        initial_delay: 1_000,
        max_delay: 60_000,
        max_retries: 3,
        jitter: true,
    };

    for _ in 0..50 {
        let d = strategy.delay_for_attempt(2).expect("within budget");
        // Unjittered, attempt 2 waits 2000ms; jitter scales into [half, all].
        assert!(d >= 1_000 && d <= 2_000, "jittered delay out of range: {}", d);
    }
    assert_eq!(strategy.delay_for_attempt(4), None);
}

#[test]
fn test_custom_strategy_delegates() {
    // The only delay function the library itself ships never yields a wait.
    let strategy = RetryStrategy::Custom {
        delay_fn: NeverDelay,
    };
    assert_eq!(strategy.delay_for_attempt(1), None);
    assert_eq!(strategy.max_retries(), None);
}

#[test]
fn test_max_retries() {
    let none: RetryStrategy = RetryStrategy::NoRetry;
    assert_eq!(none.max_retries(), Some(0));

    let linear: RetryStrategy = RetryStrategy::Linear {
        delay: 10,
        max_retries: 7,
    };
    assert_eq!(linear.max_retries(), Some(7));

    let exp: RetryStrategy = RetryStrategy::ExponentialBackoff {
        initial_delay: 10,
        max_delay: 100,
        max_retries: 4,
        jitter: true,
    };
    assert_eq!(exp.max_retries(), Some(4));
}

#[test]
fn test_basic_predicates() {
    assert!(RetryOnRetryable.should_retry(&Error::Timeout, 1));
    assert!(RetryOnRetryable.should_retry(&http_error(500), 1));
    assert!(RetryOnRetryable.should_retry(&http_error(429), 1));
    assert!(!RetryOnRetryable.should_retry(&http_error(404), 1));

    assert!(RetryOn5xx.should_retry(&http_error(503), 1));
    assert!(!RetryOn5xx.should_retry(&http_error(429), 1));
    assert!(!RetryOn5xx.should_retry(&Error::Timeout, 1));

    assert!(RetryOnTimeout.should_retry(&Error::Timeout, 1));
    assert!(!RetryOnTimeout.should_retry(&http_error(500), 1));

    assert!(RetryOnConnectionError.should_retry(&Error::Network("refused".to_string()), 1));
    assert!(!RetryOnConnectionError.should_retry(&Error::Timeout, 1));
}

#[test]
fn test_and_predicate_empty_is_true() {
    let p = AndPredicate::<RetryOn5xx>::new(Vec::new());
    assert!(p.should_retry(&http_error(404), 1));
    assert!(p.should_retry(&Error::Timeout, 3));
}

#[test]
fn test_or_predicate_empty_is_false() {
    let p = OrPredicate::<RetryOn5xx>::new(Vec::new());
    assert!(!p.should_retry(&http_error(500), 1));
    assert!(!p.should_retry(&Error::Timeout, 3));
}

#[test]
fn test_and_predicate_all_members() {
    // AND over nested ORs: true only when every member chain says so.
    let five_xx = OrPredicate::new(vec![RetryOn5xx]);
    let also_five_xx = OrPredicate::new(vec![RetryOn5xx]);
    let p = AndPredicate::new(vec![five_xx, also_five_xx]);
    assert!(p.should_retry(&http_error(500), 1));
    assert!(!p.should_retry(&http_error(429), 1));
}

#[test]
fn test_or_predicate_any_member() {
    let p = OrPredicate::new(vec![
        AndPredicate::new(vec![RetryOn5xx]),
        AndPredicate::new(Vec::new()),
    ]);
    // The empty AND member is always true, so the OR always retries.
    assert!(p.should_retry(&http_error(404), 1));

    let q = OrPredicate::new(vec![
        AndPredicate::new(vec![RetryOn5xx]),
        AndPredicate::new(vec![RetryOn5xx]),
    ]);
    assert!(q.should_retry(&http_error(502), 1));
    assert!(!q.should_retry(&http_error(400), 1));
}
