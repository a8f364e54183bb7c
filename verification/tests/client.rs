use vultr_cli::api::client::API_BASE_URL;

#[test]
fn test_api_base_url() {
    assert_eq!(API_BASE_URL, "https://api.vultr.com/v2");
}

use vultr_cli::api::client::{api_url, error_for_status, is_success, meta_for_count, VultrClient};
use vultr_cli::api::query::{
    database_plans_path, docker_credentials_path, kubernetes_credentials_path, logs_path,
    paginated_path, plans_path, resource_path,
};
use vultr_cli::api::retry::{parse_u64, RetryStep, SendOutcome, UnixTime};
use vultr_cli::error::{ApiErrorResponse, VultrError};

#[test]
fn test_vultr_client_new() {
    let client = VultrClient::new("test-api-key".to_string(), 30, 3, 100, 10000);
    assert!(client.is_ok());
}

#[test]
fn test_vultr_client_new_with_min_timeout() {
    let client = VultrClient::new(
        "test-api-key".to_string(),
        0, // Will be clamped to 1
        3,
        100,
        10000,
    );
    assert!(client.is_ok());
    assert_eq!(client.unwrap().http_timeout_seconds(), 1);
}

#[test]
fn test_vultr_client_clone() {
    let client = VultrClient::new("test-key".to_string(), 30, 3, 100, 10000).unwrap();
    let cloned = client.clone();
    assert_eq!(cloned.max_retries(), 3);
}

#[test]
fn test_vultr_client_debug() {
    let client = VultrClient::new("test-key".to_string(), 30, 3, 100, 10000).unwrap();
    let debug_str = format!("{:?}", client);
    assert!(debug_str.contains("VultrClient"));
}

#[test]
fn test_should_retry_status_429() {
    let client = VultrClient::new("key".to_string(), 30, 3, 100, 10000).unwrap();
    assert!(client.should_retry_status(429));
}

#[test]
fn test_should_retry_status_408() {
    let client = VultrClient::new("key".to_string(), 30, 3, 100, 10000).unwrap();
    assert!(client.should_retry_status(408));
}

#[test]
fn test_should_retry_status_500() {
    let client = VultrClient::new("key".to_string(), 30, 3, 100, 10000).unwrap();
    assert!(client.should_retry_status(500));
}

#[test]
fn test_should_retry_status_502() {
    let client = VultrClient::new("key".to_string(), 30, 3, 100, 10000).unwrap();
    assert!(client.should_retry_status(502));
}

#[test]
fn test_should_not_retry_status_200() {
    let client = VultrClient::new("key".to_string(), 30, 3, 100, 10000).unwrap();
    assert!(!client.should_retry_status(200));
}

#[test]
fn test_should_not_retry_status_400() {
    let client = VultrClient::new("key".to_string(), 30, 3, 100, 10000).unwrap();
    assert!(!client.should_retry_status(400));
}

#[test]
fn test_should_not_retry_status_401() {
    let client = VultrClient::new("key".to_string(), 30, 3, 100, 10000).unwrap();
    assert!(!client.should_retry_status(401));
}

#[test]
fn test_should_not_retry_status_404() {
    let client = VultrClient::new("key".to_string(), 30, 3, 100, 10000).unwrap();
    assert!(!client.should_retry_status(404));
}

#[test]
fn test_compute_backoff_attempt_0() {
    let client = VultrClient::new("key".to_string(), 30, 3, 100, 10000).unwrap();
    let delay = client.compute_backoff(0);
    assert!(delay <= 100);
}

#[test]
fn test_compute_backoff_attempt_1() {
    let client = VultrClient::new("key".to_string(), 30, 3, 100, 10000).unwrap();
    let delay = client.compute_backoff(1);
    assert!(delay <= 200);
}

#[test]
fn test_compute_backoff_capped_at_max() {
    let client = VultrClient::new("key".to_string(), 30, 3, 100, 5000).unwrap();
    let delay = client.compute_backoff(10);
    assert!(delay <= 5000);
}

#[test]
fn backoff_ceiling_doubles_then_caps() {
    let client = VultrClient::new("key".to_string(), 30, 3, 100, 5000).unwrap();
    assert_eq!(client.backoff_ceiling(0), 100);
    assert_eq!(client.backoff_ceiling(1), 200);
    assert_eq!(client.backoff_ceiling(5), 3200);
    assert_eq!(client.backoff_ceiling(6), 5000);
    assert_eq!(client.backoff_ceiling(40), 5000);
    let zero = VultrClient::new("key".to_string(), 30, 3, 0, 0).unwrap();
    assert_eq!(zero.backoff_ceiling(3), 1);
    let huge = VultrClient::new("key".to_string(), 30, 3, u64::MAX / 2, u64::MAX).unwrap();
    assert_eq!(huge.backoff_ceiling(16), u64::MAX);
}

#[test]
fn should_retry_error_on_transient_failures() {
    let client = VultrClient::new("key".to_string(), 30, 3, 100, 10000).unwrap();
    assert!(client.should_retry_error(true, false, false));
    assert!(client.should_retry_error(false, true, false));
    assert!(client.should_retry_error(false, false, true));
    assert!(!client.should_retry_error(false, false, false));
}

#[test]
fn retry_after_seconds_are_capped() {
    let client = VultrClient::new("key".to_string(), 30, 3, 100, 10000).unwrap();
    let now = UnixTime { secs: 1_000, nanos: 0 };
    assert_eq!(client.retry_after_delay(Some("3"), now), Some(3));
    assert_eq!(client.retry_after_delay(Some("+3"), now), Some(3));
    assert_eq!(client.retry_after_delay(Some("120"), now), Some(10));
    assert_eq!(client.retry_after_delay(Some("soon"), now), None);
    assert_eq!(client.retry_after_delay(None, now), None);
    let small = VultrClient::new("key".to_string(), 30, 3, 100, 10).unwrap();
    assert_eq!(small.retry_after_delay(Some("120"), now), Some(1));
}

#[test]
fn retry_after_http_date() {
    let client = VultrClient::new("key".to_string(), 30, 3, 100, 60000).unwrap();
    // Sun, 06 Nov 1994 08:49:37 GMT is 784111777 seconds after the epoch.
    let date = "Sun, 06 Nov 1994 08:49:37 GMT";
    let before = UnixTime { secs: 784111770, nanos: 0 };
    assert_eq!(client.retry_after_delay(Some(date), before), Some(7));
    let before_frac = UnixTime { secs: 784111770, nanos: 500 };
    assert_eq!(client.retry_after_delay(Some(date), before_frac), Some(6));
    let after = UnixTime { secs: 784111778, nanos: 0 };
    assert_eq!(client.retry_after_delay(Some(date), after), None);
    let long_before = UnixTime { secs: 0, nanos: 0 };
    assert_eq!(client.retry_after_delay(Some(date), long_before), Some(60));
}

#[test]
fn parse_u64_matches_std() {
    for s in ["0", "42", "+7", "", "+", "-1", "18446744073709551615", "18446744073709551616", " 1", "1a", "007"] {
        assert_eq!(parse_u64(s), s.parse::<u64>().ok(), "input {:?}", s);
    }
}

#[test]
fn decide_retry_waits_for_retry_after_on_429() {
    let client = VultrClient::new("key".to_string(), 30, 2, 100, 10000).unwrap();
    let now = UnixTime { secs: 0, nanos: 0 };
    let limited = SendOutcome::Answered { status: 429, retry_after: Some("4".to_string()) };
    assert!(matches!(client.decide_retry(0, &limited, now, 55), RetryStep::Retry { delay_ms: 4000 }));
    assert!(matches!(client.decide_retry(2, &limited, now, 55), RetryStep::Deliver));
    let busy = SendOutcome::Answered { status: 503, retry_after: Some("4".to_string()) };
    assert!(matches!(client.decide_retry(1, &busy, now, 55), RetryStep::Retry { delay_ms: 55 }));
    let ok = SendOutcome::Answered { status: 200, retry_after: None };
    assert!(matches!(client.decide_retry(0, &ok, now, 55), RetryStep::Deliver));
    let failed = SendOutcome::Failed { timeout: false, connect: false, request: false, message: "boom".to_string() };
    match client.decide_retry(0, &failed, now, 55) {
        RetryStep::Fail(VultrError::NetworkError(m)) => assert_eq!(m, "boom"),
        other => panic!("unexpected {:?}", other),
    }
    let timed_out = SendOutcome::Failed { timeout: true, connect: false, request: false, message: "t".to_string() };
    assert!(matches!(client.decide_retry(1, &timed_out, now, 77), RetryStep::Retry { delay_ms: 77 }));
    assert!(matches!(client.decide_retry(2, &timed_out, now, 77), RetryStep::Fail(_)));
}

#[test]
fn retry_step_respects_the_attempt_budget() {
    let client = VultrClient::new("key".to_string(), 30, 1, 100, 10000).unwrap();
    let busy = SendOutcome::Answered { status: 500, retry_after: None };
    match client.retry_step(0, &busy) {
        RetryStep::Retry { delay_ms } => assert!(delay_ms <= 100),
        other => panic!("unexpected {:?}", other),
    }
    assert!(matches!(client.retry_step(1, &busy), RetryStep::Deliver));
}

#[test]
fn errors_for_statuses() {
    assert!(matches!(error_for_status(401, "x", None), VultrError::InvalidApiKey));
    assert!(matches!(error_for_status(429, "x", None), VultrError::RateLimited));
    match error_for_status(404, "nope", None) {
        VultrError::ApiError { status, message } => {
            assert_eq!(status, 404);
            assert_eq!(message, "Resource not found");
        }
        other => panic!("unexpected {:?}", other),
    }
    match error_for_status(500, "oops", None) {
        VultrError::ApiError { status, message } => {
            assert_eq!(status, 500);
            assert_eq!(message, "API error: oops");
        }
        other => panic!("unexpected {:?}", other),
    }
    let parsed = ApiErrorResponse { error: "bad plan".to_string(), status: None };
    match error_for_status(400, "{}", Some(parsed)) {
        VultrError::ApiError { status, message } => {
            assert_eq!(status, 400);
            assert_eq!(message, "bad plan");
        }
        other => panic!("unexpected {:?}", other),
    }
    let parsed = ApiErrorResponse { error: "gone".to_string(), status: Some(410) };
    match error_for_status(404, "{}", Some(parsed)) {
        VultrError::ApiError { status, .. } => assert_eq!(status, 410),
        other => panic!("unexpected {:?}", other),
    }
}

#[test]
fn urls_and_success() {
    assert_eq!(api_url("/regions"), "https://api.vultr.com/v2/regions");
    assert!(is_success(200));
    assert!(is_success(204));
    assert!(!is_success(199));
    assert!(!is_success(300));
    let client = VultrClient::new("abc".to_string(), 30, 3, 100, 10000).unwrap();
    assert_eq!(client.authorization(), "Bearer abc");
    assert_eq!(client.api_key(), "abc");
    let meta = meta_for_count(3);
    assert_eq!(meta.total, Some(3));
    assert!(meta.links.is_none());
}

#[test]
fn paginated_paths() {
    assert_eq!(paginated_path("/instances", None, None), "/instances");
    assert_eq!(paginated_path("/instances", Some(25), None), "/instances?per_page=25");
    assert_eq!(paginated_path("/instances", None, Some("abc")), "/instances?cursor=abc");
    assert_eq!(
        paginated_path("/vpcs/1/attachments", Some(100), Some("c2")),
        "/vpcs/1/attachments?per_page=100&cursor=c2"
    );
}

#[test]
fn query_paths() {
    assert_eq!(database_plans_path(None, None, None), "/databases/plans");
    assert_eq!(
        database_plans_path(Some("pg"), Some(-3), Some("ewr")),
        "/databases/plans?engine=pg&nodes=-3&region=ewr"
    );
    assert_eq!(docker_credentials_path("r1", None, None), "/registry/r1/docker-credentials");
    assert_eq!(
        docker_credentials_path("r1", Some(3600), Some(true)),
        "/registry/r1/docker-credentials?expiry_seconds=3600&read_write=true"
    );
    assert_eq!(
        kubernetes_credentials_path("r1", None, Some(false), Some(true)),
        "/registry/r1/docker-credentials/kubernetes?read_write=false&base64_encode=true"
    );
    assert_eq!(plans_path(Some("vc2")), "/plans?type=vc2");
    assert_eq!(plans_path(None), "/plans");
    assert_eq!(resource_path(&vec!["instances", "abc", "ipv4", "1.2.3.4"]), "/instances/abc/ipv4/1.2.3.4");
    assert_eq!(resource_path(&Vec::<&str>::new()), "");
}

#[test]
fn logs_path_encodes_values() {
    assert_eq!(logs_path(None, None, None, None, None, None), "/logs");
    assert_eq!(
        logs_path(Some("2024-01-01T00:00:00Z"), None, Some("error warn"), None, None, None),
        "/logs?start_time=2024-01-01T00%3A00%3A00Z&log_level=error+warn"
    );
}

#[test]
fn retry_step_honours_retry_after_on_429() {
    let client = VultrClient::new("key".to_string(), 30, 3, 100, 10000).unwrap();
    let limited = SendOutcome::Answered { status: 429, retry_after: Some("3".to_string()) };
    match client.retry_step(0, &limited) {
        RetryStep::Retry { delay_ms } => assert_eq!(delay_ms, 3000),
        other => panic!("expected a retry, got {:?}", other),
    }
    let long = SendOutcome::Answered { status: 429, retry_after: Some("3600".to_string()) };
    match client.retry_step(1, &long) {
        RetryStep::Retry { delay_ms } => assert_eq!(delay_ms, 10000),
        other => panic!("expected a retry, got {:?}", other),
    }
}

#[test]
fn logs_query_parses_back_to_the_filters() {
    let path = logs_path(Some("a&b=c"), Some("é ü/?"), None, Some("+%x"), None, Some("1"));
    let query = path.strip_prefix("/logs?").unwrap();
    let pairs: Vec<(String, String)> = url::form_urlencoded::parse(query.as_bytes()).into_owned().collect();
    assert_eq!(
        pairs,
        vec![
            ("start_time".to_string(), "a&b=c".to_string()),
            ("end_time".to_string(), "é ü/?".to_string()),
            ("resource_type".to_string(), "+%x".to_string()),
            ("continue_time".to_string(), "1".to_string()),
        ]
    );
}
