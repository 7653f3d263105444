//! The resilient query client: the fixed pooled-client configuration, the
//! bounded exponential-backoff retry policy with jitter, and the retrying
//! GET operation over the outcomes the transport reports.
//!
//! The glue layer owns the real socket work: it performs one exchange per
//! attempt, sleeps the delays decided here, and hands each outcome back as
//! a plain value.

use vstd::prelude::*;

verus! {

/// The fixed configuration of the shared pooled HTTP client.
#[derive(Clone, Copy, PartialEq, Eq, Structural, Debug)]
pub struct HttpClientConfig {
    pub timeout_secs: u64,
    pub connect_timeout_secs: u64,
    pub pool_idle_timeout_secs: u64,
    pub pool_max_idle_per_host: u64,
    pub gzip: bool,
}

/// The one configuration the shared client is ever built with: 30s total
/// request timeout, 10s connect timeout, 90s pool idle timeout, at most
/// 10 idle connections per host, gzip decompression on.
pub fn http_client_config() -> (c: HttpClientConfig)
    ensures
        c == (HttpClientConfig {
            timeout_secs: 30,
            connect_timeout_secs: 10,
            pool_idle_timeout_secs: 90,
            pool_max_idle_per_host: 10,
            gzip: true,
        }),
{
    HttpClientConfig {
        timeout_secs: 30,
        connect_timeout_secs: 10,
        pool_idle_timeout_secs: 90,
        pool_max_idle_per_host: 10,
        gzip: true,
    }
}

/// The retry policy: a retry budget, a base delay doubled before each
/// retry, a cap on every delay, and whether jitter perturbs the delays.
#[derive(Clone, Copy, PartialEq, Eq, Structural, Debug)]
pub struct RetryPolicy {
    pub max_retries: u64,
    pub base_delay_ms: u64,
    pub max_delay_ms: u64,
    pub jitter: bool,
}

impl RetryPolicy {
    pub open spec fn wf(self) -> bool {
        &&& 1 <= self.base_delay_ms <= self.max_delay_ms
        &&& self.max_retries < u64::MAX
    }

    /// The fixed policy `http_get` applies: at most 3 retries (4 attempts
    /// in all), 100ms base delay, 2s delay cap, jitter on.
    pub fn http_default() -> (r: RetryPolicy)
        ensures
            r == (RetryPolicy { max_retries: 3, base_delay_ms: 100, max_delay_ms: 2000, jitter: true }),
            r.wf(),
    {
        RetryPolicy { max_retries: 3, base_delay_ms: 100, max_delay_ms: 2000, jitter: true }
    }
}

/// The un-jittered delay before the k-th retry (k >= 1): the base delay
/// doubled for each earlier retry, capped at the maximum delay.
pub open spec fn backoff_floor(p: RetryPolicy, k: int) -> int
    decreases k,
{
    if k <= 1 {
        if p.base_delay_ms <= p.max_delay_ms {
            p.base_delay_ms as int
        } else {
            p.max_delay_ms as int
        }
    } else {
        let prev = backoff_floor(p, k - 1);
        if 2 * prev <= p.max_delay_ms {
            2 * prev
        } else {
            p.max_delay_ms as int
        }
    }
}

pub open spec fn pow2(n: int) -> int
    decreases n,
{
    if n <= 0 {
        1
    } else {
        2 * pow2(n - 1)
    }
}

proof fn lemma_pow2_pos(n: int)
    ensures
        pow2(n) >= 1,
    decreases n,
{
    if n > 0 {
        lemma_pow2_pos(n - 1);
    }
}

/// The floor never leaves the band between the base delay and the cap.
pub proof fn lemma_backoff_floor_bounds(p: RetryPolicy, k: int)
    requires
        p.wf(),
        1 <= k,
    ensures
        p.base_delay_ms <= backoff_floor(p, k) <= p.max_delay_ms,
    decreases k,
{
    if k > 1 {
        lemma_backoff_floor_bounds(p, k - 1);
    }
}

/// Law: the un-jittered delay before the k-th retry is exactly
/// min(base_delay * 2^(k-1), max_delay).
pub proof fn lemma_backoff_floor_closed_form(p: RetryPolicy, k: int)
    requires
        p.wf(),
        1 <= k,
    ensures
        backoff_floor(p, k) == if p.base_delay_ms * pow2(k - 1) <= p.max_delay_ms {
            p.base_delay_ms * pow2(k - 1)
        } else {
            p.max_delay_ms as int
        },
    decreases k,
{
    if k == 1 {
        assert(pow2(0) == 1);
    } else {
        lemma_backoff_floor_closed_form(p, k - 1);
        lemma_backoff_floor_bounds(p, k - 1);
        lemma_pow2_pos(k - 2);
        let b = p.base_delay_ms as int;
        assert(b * pow2(k - 1) == 2 * (b * pow2(k - 2))) by (nonlinear_arith)
            requires
                pow2(k - 1) == 2 * pow2(k - 2),
        ;
        assert(b * pow2(k - 2) >= b) by (nonlinear_arith)
            requires
                b >= 1,
                pow2(k - 2) >= 1,
        ;
    }
}

/// The delay slept before the k-th retry: the floor, pushed up by the
/// jitter input into the room left under the cap.
pub open spec fn jittered_delay(p: RetryPolicy, k: int, jitter_units: u64) -> int {
    let f = backoff_floor(p, k);
    if p.jitter {
        f + (jitter_units as int) % (p.max_delay_ms - f + 1)
    } else {
        f
    }
}

/// The un-jittered delay in milliseconds before the k-th retry.
pub fn retry_delay_floor(p: &RetryPolicy, k: u64) -> (r: u64)
    requires
        p.wf(),
        1 <= k,
    ensures
        r == backoff_floor(*p, k as int),
{
    let mut d: u64 = p.base_delay_ms;
    let mut i: u64 = 1;
    while i < k
        invariant
            p.wf(),
            1 <= i <= k,
            d == backoff_floor(*p, i as int),
            d <= p.max_delay_ms,
        decreases k - i,
    {
        d = if d <= p.max_delay_ms / 2 {
            d * 2
        } else {
            p.max_delay_ms
        };
        i = i + 1;
    }
    d
}

/// The delay in milliseconds slept before the k-th retry, jitter applied:
/// never below the un-jittered floor, never above the cap.
pub fn retry_delay(p: &RetryPolicy, k: u64, jitter_units: u64) -> (r: u64)
    requires
        p.wf(),
        1 <= k,
    ensures
        r == jittered_delay(*p, k as int, jitter_units),
        backoff_floor(*p, k as int) <= r <= p.max_delay_ms,
{
    let f = retry_delay_floor(p, k);
    proof {
        lemma_backoff_floor_bounds(*p, k as int);
    }
    if p.jitter {
        let room = p.max_delay_ms - f + 1;
        f + jitter_units % room
    } else {
        f
    }
}

/// Why an HTTP GET operation failed.
#[derive(Debug, Clone, PartialEq, Eq)]
pub enum HttpError {
    /// the shared client could not be constructed; fatal, never retried
    ClientInitFailed,
    /// no attempt produced a response within the retry budget; names the
    /// target url
    TransportFailed { url: String },
    /// a response arrived carrying a status outside the success range;
    /// names the status and the url
    HttpStatusFailed { url: String, status: u16 },
    /// a response arrived but its body could not be decoded as text
    ResponseReadFailed { url: String },
}

/// One attempted request/response exchange, as the transport reports it.
#[derive(Debug, Clone, PartialEq, Eq)]
pub enum TransportOutcome {
    /// connection, timeout, or other transport-level failure: no response
    Failed,
    /// a response was received: its status, whether its body decoded as
    /// text, and the decoded body
    Delivered { status: u16, body_ok: bool, body: String },
}

/// The HTTP success range.
pub open spec fn is_success_status(status: int) -> bool {
    200 <= status < 300
}

/// What the operation returns once an exchange delivers a response: the
/// body on a success status, an error naming status and url otherwise,
/// and a read error when a success response's body did not decode.
pub open spec fn response_verdict(
    url: Seq<char>,
    status: u16,
    body_ok: bool,
    body: Seq<char>,
    r: Result<String, HttpError>,
) -> bool {
    match r {
        Ok(v) => is_success_status(status as int) && body_ok && v@ == body,
        Err(HttpError::HttpStatusFailed { url: u, status: s }) => u@ == url && s == status
            && !is_success_status(status as int),
        Err(HttpError::ResponseReadFailed { url: u }) => u@ == url && is_success_status(
            status as int,
        ) && !body_ok,
        Err(_) => false,
    }
}

/// The operation gave up: every attempt failed at transport level, and
/// the error names the target url.
pub open spec fn transport_exhausted(r: Result<String, HttpError>, url: Seq<char>) -> bool {
    match r {
        Err(HttpError::TransportFailed { url: u }) => u@ == url,
        _ => false,
    }
}

/// Terminal classification of a received response. A status outside the
/// success range fails at once — it never triggers a retry.
pub fn classify_response(url: &String, status: u16, body_ok: bool, body: String) -> (r: Result<
    String,
    HttpError,
>)
    ensures
        response_verdict(url@, status, body_ok, body@, r),
{
    if 200 <= status && status < 300 {
        if body_ok {
            Ok(body)
        } else {
            Err(HttpError::ResponseReadFailed { url: url.clone() })
        }
    } else {
        Err(HttpError::HttpStatusFailed { url: url.clone(), status })
    }
}

/// What the operation does after a transport-level failure.
#[derive(Debug, Clone, PartialEq, Eq)]
pub enum RetryStep {
    /// sleep this many milliseconds, then attempt the exchange again
    RetryAfter { delay_ms: u64 },
    /// the retry budget is spent: give up with this error
    GiveUp(HttpError),
}

/// The decision after attempt `attempts_made` failed at transport level:
/// retry after the jittered backoff delay while the budget allows,
/// otherwise give up with an error naming the url.
pub fn next_after_transport_failure(
    p: &RetryPolicy,
    attempts_made: u64,
    jitter_units: u64,
    url: &String,
) -> (r: RetryStep)
    requires
        p.wf(),
        1 <= attempts_made,
    ensures
        attempts_made <= p.max_retries ==> match r {
            RetryStep::RetryAfter { delay_ms } => delay_ms == jittered_delay(
                *p,
                attempts_made as int,
                jitter_units,
            ),
            _ => false,
        },
        attempts_made > p.max_retries ==> match r {
            RetryStep::GiveUp(HttpError::TransportFailed { url: u }) => u@ == url@,
            _ => false,
        },
{
    if attempts_made <= p.max_retries {
        RetryStep::RetryAfter { delay_ms: retry_delay(p, attempts_made, jitter_units) }
    } else {
        RetryStep::GiveUp(HttpError::TransportFailed { url: url.clone() })
    }
}

/// One run of the retrying GET operation over the outcomes the successive
/// exchanges would produce (`exchanges`) and the jitter inputs for the
/// successive delays (`jitter_units`).
///
/// Returns the operation's result, the number of attempts performed, and
/// the delays slept between attempts. Only transport-level failures are
/// retried; a response that was received — whatever its status — ends the
/// loop on the spot.
pub fn http_get(
    url: &String,
    policy: &RetryPolicy,
    exchanges: &Vec<TransportOutcome>,
    jitter_units: &Vec<u64>,
) -> (r: (Result<String, HttpError>, u64, Vec<u64>))
    requires
        policy.wf(),
        exchanges@.len() >= policy.max_retries + 1,
        jitter_units@.len() >= policy.max_retries,
    ensures
        1 <= r.1 <= policy.max_retries + 1,
        // every attempt before the last one failed at transport level
        forall|j: int| 0 <= j < r.1 - 1 ==> exchanges@[j] is Failed,
        // the last attempt decides the result
        match exchanges@[r.1 - 1] {
            TransportOutcome::Delivered { status, body_ok, body } => response_verdict(
                url@,
                status,
                body_ok,
                body@,
                r.0,
            ),
            TransportOutcome::Failed => r.1 == policy.max_retries + 1 && transport_exhausted(
                r.0,
                url@,
            ),
        },
        // when every exchange in the budget fails, the operation fails
        // after exactly max_retries + 1 attempts, naming the url
        (forall|j: int| 0 <= j <= policy.max_retries ==> exchanges@[j] is Failed) ==> (r.1
            == policy.max_retries + 1 && transport_exhausted(r.0, url@)),
        // a delivered response on the first exchange ends the operation
        // after a single attempt, with no delay slept
        match exchanges@[0] {
            TransportOutcome::Delivered { status, body_ok, body } => r.1 == 1 && r.2@.len() == 0
                && response_verdict(url@, status, body_ok, body@, r.0),
            TransportOutcome::Failed => true,
        },
        // one delay per retry, each exactly the jittered backoff delay,
        // so never below the un-jittered floor and never above the cap
        r.2@.len() == r.1 - 1,
        forall|k: int|
            0 <= k < r.1 - 1 ==> r.2@[k] == jittered_delay(*policy, k + 1, jitter_units@[k])
                && backoff_floor(*policy, k + 1) <= r.2@[k] <= policy.max_delay_ms,
{
    let mut delays: Vec<u64> = Vec::new();
    let mut attempt: usize = 1;
    loop
        invariant
            policy.wf(),
            exchanges@.len() >= policy.max_retries + 1,
            jitter_units@.len() >= policy.max_retries,
            1 <= attempt <= policy.max_retries + 1,
            forall|j: int| 0 <= j < attempt - 1 ==> exchanges@[j] is Failed,
            delays@.len() == attempt - 1,
            forall|k: int|
                0 <= k < attempt - 1 ==> delays@[k] == jittered_delay(
                    *policy,
                    k + 1,
                    jitter_units@[k],
                ) && backoff_floor(*policy, k + 1) <= delays@[k] <= policy.max_delay_ms,
        decreases policy.max_retries + 1 - attempt,
    {
        let idx = attempt - 1;
        match &exchanges[idx] {
            TransportOutcome::Delivered { status, body_ok, body } => {
                return (
                    classify_response(url, *status, *body_ok, body.clone()),
                    attempt as u64,
                    delays,
                );
            },
            TransportOutcome::Failed => {
                if attempt as u64 > policy.max_retries {
                    return (
                        Err(HttpError::TransportFailed { url: url.clone() }),
                        attempt as u64,
                        delays,
                    );
                }
                let d = retry_delay(policy, attempt as u64, jitter_units[idx]);
                delays.push(d);
                let n = exchanges.len();
                proof {
                    assert(attempt < n);
                }
                attempt = attempt + 1;
            },
        }
    }
}

} // verus!
