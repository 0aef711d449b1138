//! Tests for rate-limit header parsing and delay recommendations.

use calleen::headers::Headers;
use calleen::rate_limit::{RateLimitConfig, RateLimitInfo};
use calleen::rate_limit::{parse_rate_limit_remaining, parse_rate_limit_reset, parse_retry_after};
use std::time::{Duration, SystemTime, UNIX_EPOCH};

fn headers_of(pairs: &[(&str, &str)]) -> Headers {
    let mut h = Headers::new();
    for (name, value) in pairs {
        h.insert(name.to_string(), value.to_string());
    }
    h
}

#[test]
fn test_parse_retry_after_seconds() {
    let headers = headers_of(&[("retry-after", "60")]);

    let delay = parse_retry_after(&headers);
    assert_eq!(delay, Some(60_000));
}

#[test]
fn test_rate_limit_info_with_reset_and_remaining() {
    let now = SystemTime::now();
    // Use 2 seconds to give more time tolerance
    let future_time = now + Duration::from_secs(2);
    let future_timestamp = future_time.duration_since(UNIX_EPOCH).unwrap().as_secs();

    let headers = headers_of(&[
        ("x-ratelimit-reset", &future_timestamp.to_string()),
        ("x-ratelimit-remaining", "0"),
    ]);

    let info = RateLimitInfo::from_headers(&headers);
    assert!(info.reset_at.is_some());
    assert_eq!(info.remaining, Some(0));
    assert!(
        info.is_rate_limited(),
        "Should be rate limited when remaining=0"
    );

    let delay = info.delay(300_000);
    assert!(delay.is_some(), "Should have a delay");
    if let Some(d) = delay {
        // Should be close to 2 seconds.  Unix timestamps are in whole
        // seconds, so truncation can reduce the delay by up to 1 second.
        assert!(
            d >= 1_000 && d <= 3_000,
            "Delay should be 1-3 seconds, got {:?}",
            d
        );
    }
}

#[test]
fn test_parse_rate_limit_reset() {
    let future_timestamp = SystemTime::now()
        .duration_since(UNIX_EPOCH)
        .unwrap()
        .as_secs()
        + 120;
    let headers = headers_of(&[("x-ratelimit-reset", &future_timestamp.to_string())]);

    let reset_at = parse_rate_limit_reset(&headers);
    assert!(reset_at.is_some());
}

#[test]
fn test_parse_rate_limit_remaining() {
    let headers = headers_of(&[("x-ratelimit-remaining", "42")]);

    let remaining = parse_rate_limit_remaining(&headers);
    assert_eq!(remaining, Some(42));
}

#[test]
fn test_rate_limit_info_from_headers() {
    let headers = headers_of(&[("retry-after", "30"), ("x-ratelimit-remaining", "0")]);

    let info = RateLimitInfo::from_headers(&headers);
    assert!(info.retry_after.is_some());
    assert_eq!(info.remaining, Some(0));
    assert!(info.is_rate_limited());
}

#[test]
fn test_rate_limit_delay_capped_by_max_wait() {
    let info = RateLimitInfo {
        reset_at: None,
        retry_after: Some(600_000),
        remaining: Some(0),
    };

    let delay = info.delay(300_000);
    assert_eq!(delay, Some(300_000));
}

#[test]
fn test_parse_retry_after_http_date() {
    // A date a minute ahead: the wait must be derived from the date, close
    // to sixty seconds.
    let date = httpdate::fmt_http_date(SystemTime::now() + Duration::from_secs(60));
    let headers = headers_of(&[("retry-after", &date)]);

    let delay = parse_retry_after(&headers).expect("a date should yield a delay");
    assert!(
        delay >= 58_000 && delay <= 61_000,
        "expected about a minute, got {}",
        delay
    );
}

#[test]
fn test_parse_retry_after_http_date_in_past() {
    let date = httpdate::fmt_http_date(SystemTime::now() - Duration::from_secs(3600));
    let headers = headers_of(&[("retry-after", &date)]);

    assert_eq!(parse_retry_after(&headers), None);
}

#[test]
fn test_parse_retry_after_invalid_value() {
    let headers = headers_of(&[("retry-after", "soon")]);
    assert_eq!(parse_retry_after(&headers), None);
}

#[test]
fn test_parse_reset_falls_back_to_draft_header() {
    let headers = headers_of(&[("ratelimit-reset", "1700000000")]);
    assert_eq!(parse_rate_limit_reset(&headers), Some(1_700_000_000));

    // The X- form wins when both are present and parseable.
    let both = headers_of(&[
        ("ratelimit-reset", "1700000000"),
        ("x-ratelimit-reset", "1700000999"),
    ]);
    assert_eq!(parse_rate_limit_reset(&both), Some(1_700_000_999));
}

#[test]
fn test_header_lookup_is_case_insensitive() {
    let headers = headers_of(&[("Retry-After", "60")]);
    assert_eq!(parse_retry_after(&headers), Some(60_000));
}

#[test]
fn test_delay_at_prefers_retry_after_over_reset() {
    let info = RateLimitInfo {
        reset_at: Some(2_000),
        retry_after: Some(5_000),
        remaining: None,
    };
    // With both present the explicit retry-after wins, whatever the reset
    // would give at this clock reading.
    assert_eq!(info.delay_at(300_000, 1_000), Some(5_000));
}

#[test]
fn test_delay_at_from_reset() {
    let info = RateLimitInfo {
        reset_at: Some(1_700_000_010),
        retry_after: None,
        remaining: Some(0),
    };
    assert_eq!(info.delay_at(300_000, 1_700_000_000), Some(10_000));
    // A reset in the past yields nothing, and so does one at this very
    // moment: the fallback applies only while the reset lies ahead.
    assert_eq!(info.delay_at(300_000, 1_700_000_011), None);
    assert_eq!(info.delay_at(300_000, 1_700_000_010), None);
    // No information at all yields nothing.
    let empty = RateLimitInfo {
        reset_at: None,
        retry_after: None,
        remaining: None,
    };
    assert_eq!(empty.delay_at(300_000, 0), None);
}

#[test]
fn test_is_rate_limited_cases() {
    let by_retry_after = RateLimitInfo {
        reset_at: None,
        retry_after: Some(1),
        remaining: Some(10),
    };
    assert!(by_retry_after.is_rate_limited());

    let by_remaining = RateLimitInfo {
        reset_at: None,
        retry_after: None,
        remaining: Some(0),
    };
    assert!(by_remaining.is_rate_limited());

    let not_limited = RateLimitInfo {
        reset_at: Some(1_700_000_000),
        retry_after: None,
        remaining: Some(3),
    };
    assert!(!not_limited.is_rate_limited());
}

#[test]
fn test_rate_limit_config_builder_and_defaults() {
    let default = RateLimitConfig::default();
    assert!(default.enabled);
    assert_eq!(default.max_wait, 300_000);
    assert!(default.respect_retry_after);

    let disabled = RateLimitConfig::disabled();
    assert!(!disabled.enabled);
    assert_eq!(disabled.max_wait, 300_000);

    let config = RateLimitConfig::builder()
        .enabled(true)
        .max_wait(60_000)
        .respect_retry_after(false)
        .build();
    assert!(config.enabled);
    assert_eq!(config.max_wait, 60_000);
    assert!(!config.respect_retry_after);

    let partial = RateLimitConfig::builder().max_wait(2_000).build();
    assert!(partial.enabled);
    assert_eq!(partial.max_wait, 2_000);
    assert!(partial.respect_retry_after);
}
