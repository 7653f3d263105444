use lambda_utils::query::{
    http_client_config, http_get, next_after_transport_failure, retry_delay, retry_delay_floor,
    HttpError, RetryPolicy, RetryStep, TransportOutcome,
};

fn url() -> String {
    "https://example.test/api".to_string()
}

fn delivered(status: u16, body: &str) -> TransportOutcome {
    TransportOutcome::Delivered { status, body_ok: true, body: body.to_string() }
}

fn run(
    exchanges: Vec<TransportOutcome>,
) -> (Result<String, HttpError>, u64, Vec<u64>) {
    let policy = RetryPolicy::http_default();
    let jitters = vec![17, 4242, 999999];
    http_get(&url(), &policy, &exchanges, &jitters)
}

#[test]
fn test_http_client_config_values() {
    let c = http_client_config();
    assert_eq!(c.timeout_secs, 30);
    assert_eq!(c.connect_timeout_secs, 10);
    assert_eq!(c.pool_idle_timeout_secs, 90);
    assert_eq!(c.pool_max_idle_per_host, 10);
    assert!(c.gzip);
}

#[test]
fn test_retry_delay_floor_doubles_up_to_cap() {
    let p = RetryPolicy::http_default();
    assert_eq!(retry_delay_floor(&p, 1), 100);
    assert_eq!(retry_delay_floor(&p, 2), 200);
    assert_eq!(retry_delay_floor(&p, 3), 400);
    assert_eq!(retry_delay_floor(&p, 4), 800);
    assert_eq!(retry_delay_floor(&p, 5), 1600);
    assert_eq!(retry_delay_floor(&p, 6), 2000);
    assert_eq!(retry_delay_floor(&p, 10), 2000);
}

#[test]
fn test_retry_delay_without_jitter_is_the_floor() {
    let p = RetryPolicy { max_retries: 3, base_delay_ms: 100, max_delay_ms: 2000, jitter: false };
    assert_eq!(retry_delay(&p, 2, 12345), 200);
}

#[test]
fn test_retry_delay_with_jitter_stays_in_band() {
    let p = RetryPolicy::http_default();
    for k in 1..=6u64 {
        let floor = retry_delay_floor(&p, k);
        for units in [0u64, 1, 99, 1901, 123456789] {
            let d = retry_delay(&p, k, units);
            assert!(d >= floor);
            assert!(d <= p.max_delay_ms);
        }
    }
}

#[test]
fn test_next_after_transport_failure_budget() {
    let p = RetryPolicy::http_default();
    match next_after_transport_failure(&p, 3, 0, &url()) {
        RetryStep::RetryAfter { delay_ms } => assert_eq!(delay_ms, 400),
        step => panic!("expected a retry, got {step:?}"),
    }
    match next_after_transport_failure(&p, 4, 0, &url()) {
        RetryStep::GiveUp(HttpError::TransportFailed { url: u }) => assert_eq!(u, url()),
        step => panic!("expected giving up, got {step:?}"),
    }
}

#[test]
fn test_http_get_two_transient_failures_then_success() {
    let (result, attempts, delays) = run(vec![
        TransportOutcome::Failed,
        TransportOutcome::Failed,
        delivered(200, "payload"),
        delivered(200, "never reached"),
    ]);
    assert_eq!(result.unwrap(), "payload");
    assert_eq!(attempts, 3);
    assert_eq!(delays.len(), 2);
    assert!(delays[0] >= 100 && delays[0] <= 2000);
    assert!(delays[1] >= 200 && delays[1] <= 2000);
}

#[test]
fn test_http_get_exhausts_retries_and_names_url() {
    let (result, attempts, delays) = run(vec![
        TransportOutcome::Failed,
        TransportOutcome::Failed,
        TransportOutcome::Failed,
        TransportOutcome::Failed,
    ]);
    assert_eq!(attempts, 4);
    assert_eq!(delays.len(), 3);
    assert_eq!(result.unwrap_err(), HttpError::TransportFailed { url: url() });
}

#[test]
fn test_http_get_bad_status_fails_immediately_without_retry() {
    let (result, attempts, delays) = run(vec![
        delivered(404, "not found body"),
        delivered(200, "never reached"),
        delivered(200, "never reached"),
        delivered(200, "never reached"),
    ]);
    assert_eq!(attempts, 1);
    assert!(delays.is_empty());
    assert_eq!(
        result.unwrap_err(),
        HttpError::HttpStatusFailed { url: url(), status: 404 }
    );
}

#[test]
fn test_http_get_unreadable_body_fails_immediately() {
    let (result, attempts, _) = run(vec![
        TransportOutcome::Delivered { status: 200, body_ok: false, body: String::new() },
        delivered(200, "never reached"),
        delivered(200, "never reached"),
        delivered(200, "never reached"),
    ]);
    assert_eq!(attempts, 1);
    assert_eq!(result.unwrap_err(), HttpError::ResponseReadFailed { url: url() });
}

#[test]
fn test_http_get_status_check_happens_after_retries_resolve() {
    let (result, attempts, _) = run(vec![
        TransportOutcome::Failed,
        delivered(500, "server error"),
        delivered(200, "never reached"),
        delivered(200, "never reached"),
    ]);
    assert_eq!(attempts, 2);
    assert_eq!(
        result.unwrap_err(),
        HttpError::HttpStatusFailed { url: url(), status: 500 }
    );
}
