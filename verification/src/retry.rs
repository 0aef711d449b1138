//! Retry strategies and predicates for handling transient failures.
//!
//! A strategy maps an attempt number to an optional wait; a predicate decides
//! whether a given failure warrants another attempt.  Durations are in
//! milliseconds; attempts are numbered from 1.

use vstd::prelude::*;

verus! {

use vstd::arithmetic::power2::{pow2, lemma_pow2_unfold, lemma2_to64};
use vstd::arithmetic::div_mod::lemma_fundamental_div_mod;
use crate::error::Error;

/// A caller-supplied delay function for `RetryStrategy::Custom`: it yields
/// the wait before a given attempt, or nothing to stop retrying.
pub trait DelayFn: Send + Sync {
    /// The delay this function yields for `attempt`, if any.
    spec fn spec_delay(&self, attempt: usize) -> Option<u64>;

    /// Returns the delay in milliseconds before `attempt` (1-indexed), or
    /// `None` to stop retrying.
    fn delay(&self, attempt: usize) -> (r: Option<u64>)
        ensures
            r == self.spec_delay(attempt),
    ;
}

/// The delay function of a strategy that was not given one: it always stops.
#[derive(Debug, Clone, Copy)]
pub struct NeverDelay;

impl DelayFn for NeverDelay {
    open spec fn spec_delay(&self, attempt: usize) -> Option<u64> {
        None
    }

    fn delay(&self, attempt: usize) -> (r: Option<u64>) {
        None
    }
}

/// Defines when and how to retry failed requests.
#[derive(Debug, Clone)]
pub enum RetryStrategy<D: DelayFn = NeverDelay> {
    /// Do not retry failed requests.
    NoRetry,
    /// Retry with exponentially increasing delays: before attempt `n` wait
    /// `initial_delay * 2^(n-1)`, capped at `max_delay`, optionally scaled by
    /// random jitter to a value between half and all of it.
    ExponentialBackoff {
        /// The delay before the first retry, in milliseconds.
        initial_delay: u64,
        /// The maximum delay between retries, in milliseconds.
        max_delay: u64,
        /// The maximum number of retry attempts.
        max_retries: usize,
        /// Whether to scale delays by random jitter (recommended).
        jitter: bool,
    },
    /// Retry with a fixed delay between attempts.
    Linear {
        /// The delay between retry attempts, in milliseconds.
        delay: u64,
        /// The maximum number of retry attempts.
        max_retries: usize,
    },
    /// Custom retry logic: the delay function alone decides when to stop.
    Custom {
        /// Yields the delay before an attempt, or nothing to stop.
        delay_fn: D,
    },
}

/// `min(initial * 2^(attempt-1), max_delay)`: the unjittered exponential
/// delay before `attempt`.
pub open spec fn spec_exp_base(initial: u64, max_delay: u64, attempt: usize) -> u64
    recommends
        attempt >= 1,
{
    if initial * pow2((attempt - 1) as nat) <= max_delay {
        (initial * pow2((attempt - 1) as nat)) as u64
    } else {
        max_delay
    }
}

/// Computes `spec_exp_base` by saturated doubling.
fn exp_base(initial: u64, max_delay: u64, attempt: usize) -> (r: u64)
    requires
        attempt >= 1,
    ensures
        r == spec_exp_base(initial, max_delay, attempt),
{
    let mut d: u64 = initial;
    let mut k: usize = 1;
    proof {
        lemma2_to64();
        assert(initial * pow2(0) == initial) by (nonlinear_arith)
            requires
                pow2(0) == 1,
        ;
    }
    while k < attempt
        invariant
            1 <= k <= attempt,
            (initial * pow2((k - 1) as nat) <= u64::MAX ==> d == initial * pow2(
                (k - 1) as nat,
            )),
            (initial * pow2((k - 1) as nat) > u64::MAX ==> d == u64::MAX),
        decreases attempt - k,
    {
        proof {
            lemma_pow2_unfold(k as nat);
            assert(initial * pow2(k as nat) == 2 * (initial * pow2((k - 1) as nat)))
                by (nonlinear_arith)
                requires
                    pow2(k as nat) == 2 * pow2((k - 1) as nat),
            ;
        }
        if d > u64::MAX / 2 {
            d = u64::MAX;
        } else {
            d = d * 2;
        }
        k = k + 1;
    }
    if d <= max_delay {
        d
    } else {
        max_delay
    }
}

/// Relies on `rand::random_range`: a uniform value in the given range; here,
/// a jitter factor in parts per thousand.
#[verifier::external_body]
fn jitter_permille() -> (r: u64)
    ensures
        500 <= r <= 1000,
{
    rand::random_range(500u64..=1000u64)
}

/// Scales `base` by `f` parts per thousand, rounding down.
fn mul_permille(base: u64, f: u64) -> (r: u64)
    requires
        500 <= f <= 1000,
    ensures
        base / 2 <= r <= base,
{
    proof {
        assert(base * f <= u64::MAX * 1000) by (nonlinear_arith)
            requires
                f <= 1000,
                base <= u64::MAX,
        ;
    }
    let wide: u128 = (base as u128) * (f as u128);
    let q: u128 = wide / 1000;
    proof {
        let a = base as int;
        let p = a * (f as int);
        lemma_fundamental_div_mod(p, 1000);
        assert(a * 500 <= p <= a * 1000) by (nonlinear_arith)
            requires
                500 <= f as int <= 1000,
                a >= 0,
                p == a * (f as int),
        ;
        lemma_fundamental_div_mod(a, 2);
    }
    q as u64
}

impl<D: DelayFn> RetryStrategy<D> {
    /// The delay before `attempt`, before any jitter is applied.
    pub open spec fn spec_delay_for_attempt(self, attempt: usize) -> Option<u64> {
        match self {
            RetryStrategy::NoRetry => None,
            RetryStrategy::ExponentialBackoff { initial_delay, max_delay, max_retries, jitter } => {
                if attempt > max_retries {
                    None
                } else {
                    Some(spec_exp_base(initial_delay, max_delay, attempt))
                }
            },
            RetryStrategy::Linear { delay, max_retries } => {
                if attempt > max_retries {
                    None
                } else {
                    Some(delay)
                }
            },
            RetryStrategy::Custom { delay_fn } => delay_fn.spec_delay(attempt),
        }
    }

    /// Whether the delay before `attempt` is scaled by random jitter.
    pub open spec fn spec_has_jitter(self, attempt: usize) -> bool {
        match self {
            RetryStrategy::ExponentialBackoff { max_retries, jitter, .. } => jitter && attempt
                <= max_retries,
            _ => false,
        }
    }

    /// Returns the delay in milliseconds before retry attempt `attempt`
    /// (1-indexed), or `None` if retries are exhausted.  Without jitter the
    /// delay is exactly `spec_delay_for_attempt`; with jitter it lies between
    /// half of it and all of it.
    pub fn delay_for_attempt(&self, attempt: usize) -> (r: Option<u64>)
        requires
            attempt >= 1,
        ensures
            (r is Some) == (self.spec_delay_for_attempt(attempt) is Some),
            !self.spec_has_jitter(attempt) ==> r == self.spec_delay_for_attempt(attempt),
            (match (r, self.spec_delay_for_attempt(attempt)) {
                (Some(d), Some(b)) => self.spec_has_jitter(attempt) ==> b / 2 <= d <= b,
                (None, None) => true,
                _ => false,
            }),
    {
        match self {
            RetryStrategy::NoRetry => None,
            RetryStrategy::ExponentialBackoff { initial_delay, max_delay, max_retries, jitter } => {
                if attempt > *max_retries {
                    return None;
                }
                let base = exp_base(*initial_delay, *max_delay, attempt);
                if *jitter {
                    let f = jitter_permille();
                    Some(mul_permille(base, f))
                } else {
                    Some(base)
                }
            },
            RetryStrategy::Linear { delay, max_retries } => {
                if attempt > *max_retries {
                    None
                } else {
                    Some(*delay)
                }
            },
            RetryStrategy::Custom { delay_fn } => delay_fn.delay(attempt),
        }
    }

    /// The retry budget of this strategy, if it has one.
    pub open spec fn spec_max_retries(self) -> Option<usize> {
        match self {
            RetryStrategy::NoRetry => Some(0usize),
            RetryStrategy::ExponentialBackoff { max_retries, .. } => Some(max_retries),
            RetryStrategy::Linear { max_retries, .. } => Some(max_retries),
            RetryStrategy::Custom { .. } => None,
        }
    }

    /// Returns the maximum number of retries, if applicable; a `Custom`
    /// strategy keeps its own counsel.
    pub fn max_retries(&self) -> (r: Option<usize>)
        ensures
            r == self.spec_max_retries(),
    {
        match self {
            RetryStrategy::NoRetry => Some(0),
            RetryStrategy::ExponentialBackoff { max_retries, .. } => Some(*max_retries),
            RetryStrategy::Linear { max_retries, .. } => Some(*max_retries),
            RetryStrategy::Custom { .. } => None,
        }
    }
}

/// Within its budget the exponential strategy's unjittered delay is exactly
/// `min(initial_delay * 2^(attempt-1), max_delay)`; jitter only scales that
/// value into `[half, all]` of it, as `delay_for_attempt` ensures.
pub proof fn lemma_exponential_backoff_delay<D: DelayFn>(s: RetryStrategy<D>, attempt: usize)
    requires
        s matches RetryStrategy::ExponentialBackoff { max_retries, .. } && 1 <= attempt
            <= max_retries,
    ensures
        (s matches RetryStrategy::ExponentialBackoff { initial_delay, max_delay, .. } ==> s.spec_delay_for_attempt(
            attempt,
        ) == Some(spec_exp_base(initial_delay, max_delay, attempt))),
{
}

/// Past its retry budget every strategy that has one yields no delay.
pub proof fn lemma_delay_exhausted<D: DelayFn>(s: RetryStrategy<D>, attempt: usize)
    requires
        s.spec_max_retries() matches Some(m) && attempt > m,
    ensures
        s.spec_delay_for_attempt(attempt) is None,
{
}

/// Decides whether a failed request should be retried.
///
/// Implement this to retry on custom criteria; `should_retry` must return
/// what the pure `spec_should_retry` of the implementation says.
pub trait RetryPredicate: Send + Sync {
    /// The decision this predicate takes on `error` at `attempt`.
    spec fn spec_should_retry(&self, error: Error, attempt: usize) -> bool;

    /// Determines whether the request should be retried after `error` on
    /// attempt `attempt` (1-indexed).
    fn should_retry(&self, error: &Error, attempt: usize) -> (r: bool)
        ensures
            r == self.spec_should_retry(*error, attempt),
    ;
}

/// Retry every error that classifies as retryable: network errors, timeouts,
/// and HTTP 5xx or 429.
#[derive(Debug, Clone, Copy)]
pub struct RetryOnRetryable;

impl RetryPredicate for RetryOnRetryable {
    open spec fn spec_should_retry(&self, error: Error, attempt: usize) -> bool {
        error.spec_is_retryable()
    }

    fn should_retry(&self, error: &Error, attempt: usize) -> (r: bool) {
        error.is_retryable()
    }
}

/// Retry only on 5xx server errors.
#[derive(Debug, Clone, Copy)]
pub struct RetryOn5xx;

impl RetryPredicate for RetryOn5xx {
    open spec fn spec_should_retry(&self, error: Error, attempt: usize) -> bool {
        match error {
            Error::HttpError { status, .. } => 500 <= status && status < 600,
            _ => false,
        }
    }

    fn should_retry(&self, error: &Error, attempt: usize) -> (r: bool) {
        match error {
            Error::HttpError { status, .. } => 500 <= *status && *status < 600,
            _ => false,
        }
    }
}

/// Retry only on timeouts.
#[derive(Debug, Clone, Copy)]
pub struct RetryOnTimeout;

impl RetryPredicate for RetryOnTimeout {
    open spec fn spec_should_retry(&self, error: Error, attempt: usize) -> bool {
        error is Timeout
    }

    fn should_retry(&self, error: &Error, attempt: usize) -> (r: bool) {
        match error {
            Error::Timeout => true,
            _ => false,
        }
    }
}

/// Retry only on network/connection errors.
#[derive(Debug, Clone, Copy)]
pub struct RetryOnConnectionError;

impl RetryPredicate for RetryOnConnectionError {
    open spec fn spec_should_retry(&self, error: Error, attempt: usize) -> bool {
        error is Network
    }

    fn should_retry(&self, error: &Error, attempt: usize) -> (r: bool) {
        match error {
            Error::Network(_) => true,
            _ => false,
        }
    }
}

/// Combines retry predicates with OR logic: retries if any member says so.
/// Empty, it never retries.
pub struct OrPredicate<P: RetryPredicate> {
    /// The member predicates, consulted in order.
    pub predicates: Vec<P>,
}

impl<P: RetryPredicate> OrPredicate<P> {
    /// Creates a new `OrPredicate` from a list of predicates.
    pub fn new(predicates: Vec<P>) -> (r: Self)
        ensures
            r.predicates@ == predicates@,
    {
        OrPredicate { predicates }
    }
}

impl<P: RetryPredicate> RetryPredicate for OrPredicate<P> {
    open spec fn spec_should_retry(&self, error: Error, attempt: usize) -> bool {
        exists|i: int|
            0 <= i < self.predicates@.len() && (#[trigger] self.predicates@[i].spec_should_retry(
                error,
                attempt,
            ))
    }

    fn should_retry(&self, error: &Error, attempt: usize) -> (r: bool) {
        let n = self.predicates.len();
        let mut i: usize = 0;
        while i < n
            invariant
                n == self.predicates@.len(),
                i <= n,
                forall|j: int|
                    0 <= j < i ==> !(#[trigger] self.predicates@[j].spec_should_retry(
                        *error,
                        attempt,
                    )),
            decreases n - i,
        {
            let p = &self.predicates[i];
            if p.should_retry(error, attempt) {
                return true;
            }
            i = i + 1;
        }
        false
    }
}

/// Combines retry predicates with AND logic: retries only if every member
/// says so.  Empty, it always retries.
pub struct AndPredicate<P: RetryPredicate> {
    /// The member predicates, consulted in order.
    pub predicates: Vec<P>,
}

impl<P: RetryPredicate> AndPredicate<P> {
    /// Creates a new `AndPredicate` from a list of predicates.
    pub fn new(predicates: Vec<P>) -> (r: Self)
        ensures
            r.predicates@ == predicates@,
    {
        AndPredicate { predicates }
    }
}

impl<P: RetryPredicate> RetryPredicate for AndPredicate<P> {
    open spec fn spec_should_retry(&self, error: Error, attempt: usize) -> bool {
        forall|i: int|
            0 <= i < self.predicates@.len() ==> (#[trigger] self.predicates@[i].spec_should_retry(
                error,
                attempt,
            ))
    }

    fn should_retry(&self, error: &Error, attempt: usize) -> (r: bool) {
        let n = self.predicates.len();
        let mut i: usize = 0;
        while i < n
            invariant
                n == self.predicates@.len(),
                i <= n,
                forall|j: int|
                    0 <= j < i ==> (#[trigger] self.predicates@[j].spec_should_retry(
                        *error,
                        attempt,
                    )),
            decreases n - i,
        {
            let p = &self.predicates[i];
            if !p.should_retry(error, attempt) {
                return false;
            }
            i = i + 1;
        }
        true
    }
}

/// An empty `AndPredicate` is vacuously true: it always retries.
pub proof fn lemma_and_predicate_empty<P: RetryPredicate>(p: AndPredicate<P>, e: Error, attempt: usize)
    requires
        p.predicates@.len() == 0,
    ensures
        p.spec_should_retry(e, attempt),
{
}

/// An empty `OrPredicate` is vacuously false: it never retries.
pub proof fn lemma_or_predicate_empty<P: RetryPredicate>(p: OrPredicate<P>, e: Error, attempt: usize)
    requires
        p.predicates@.len() == 0,
    ensures
        !p.spec_should_retry(e, attempt),
{
}

} // verus!
