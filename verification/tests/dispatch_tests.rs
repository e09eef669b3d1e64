use discogs_rs::Auth;
use discogs_rs::AuthLevel;
use discogs_rs::ClientConfig;
use discogs_rs::DiscogsError;
use discogs_rs::RetryConfig;
use discogs_rs::RetryDecision;
use discogs_rs::http_error;
use discogs_rs::next_action;
use discogs_rs::parse_rate_limit;
use discogs_rs::retry_delay;

#[test]
fn retry_delay_grows_exponentially() {
    let config = RetryConfig {
        max_retries: 3,
        base_delay_ms: 100,
        backoff_factor_thousandths: 2000,
    };

    assert_eq!(retry_delay(&config, 0), 100);
    assert_eq!(retry_delay(&config, 1), 200);
    assert_eq!(retry_delay(&config, 2), 400);
}

#[test]
fn retry_delay_rounds_and_floors() {
    let config = RetryConfig::new(3, 2000, 2700);
    assert_eq!(retry_delay(&config, 0), 2000);
    assert_eq!(retry_delay(&config, 1), 5400);
    assert_eq!(retry_delay(&config, 2), 14580);

    // A zero base delay is floored at one millisecond.
    let zero = RetryConfig::new(1, 0, 2000);
    assert_eq!(retry_delay(&zero, 0), 1);
    assert_eq!(retry_delay(&zero, 5), 1);

    // Rounding is to the nearest whole millisecond.
    let odd = RetryConfig::new(3, 1, 1500);
    assert_eq!(retry_delay(&odd, 1), 2); // 1.5 rounds half up

    // A delay beyond the machine range saturates.
    let huge = RetryConfig::new(200, u64::MAX, u64::MAX);
    assert_eq!(retry_delay(&huge, 100), u64::MAX);
}

#[test]
fn default_retry_config_matches_documented_values() {
    let config = RetryConfig::default();
    assert_eq!(config.max_retries, 0);
    assert_eq!(config.base_delay_ms, 2000);
    assert_eq!(config.backoff_factor_thousandths, 2700);
}

#[test]
fn retry_bound_is_respected() {
    // With max_retries = 1, a throttled first attempt is retried once and a
    // throttled second attempt fails: exactly two requests go out.
    let retry = RetryConfig::new(1, 100, 2000);

    assert_eq!(
        next_action(429, 0, &retry),
        RetryDecision::ThrottledRetry { delay_ms: 100 }
    );
    assert_eq!(next_action(200, 1, &retry), RetryDecision::Succeeded);
    assert_eq!(next_action(429, 1, &retry), RetryDecision::Failed);
}

#[test]
fn next_action_classifies_statuses() {
    let retry = RetryConfig::new(2, 100, 2000);
    assert_eq!(next_action(200, 0, &retry), RetryDecision::Succeeded);
    assert_eq!(next_action(204, 2, &retry), RetryDecision::Succeeded);
    assert_eq!(next_action(299, 0, &retry), RetryDecision::Succeeded);
    assert_eq!(next_action(301, 0, &retry), RetryDecision::Failed);
    assert_eq!(next_action(404, 0, &retry), RetryDecision::Failed);
    assert_eq!(next_action(500, 0, &retry), RetryDecision::Failed);
    assert_eq!(
        next_action(429, 1, &retry),
        RetryDecision::ThrottledRetry { delay_ms: 200 }
    );
}

#[test]
fn admission_check_fails_before_any_request_is_prepared() {
    let mut config = ClientConfig::new("test-agent".to_string());
    config.base_url = "http://127.0.0.1:1".to_string();

    let error = config
        .prepare_request("/oauth/identity", AuthLevel::User)
        .expect_err("auth should fail");
    match error {
        DiscogsError::AuthRequired { required, current } => {
            assert_eq!(required, AuthLevel::User);
            assert_eq!(current, AuthLevel::Anonymous);
        }
        other => panic!("expected AuthRequired, got {other:?}"),
    }
}

#[test]
fn prepared_request_carries_resolved_url_and_headers() {
    let mut config = ClientConfig::new("test-agent".to_string());
    config.auth = Auth::UserToken {
        token: "test-token".into(),
    };

    let prepared = config
        .prepare_request("/oauth/identity", AuthLevel::User)
        .expect("admitted");
    assert_eq!(prepared.url, "https://api.discogs.com/oauth/identity");
    assert_eq!(prepared.user_agent, "test-agent");
    assert_eq!(prepared.accept, "application/vnd.discogs.v2.discogs+json");
    assert_eq!(
        prepared.authorization.as_deref(),
        Some("Discogs token=test-token")
    );
}

#[test]
fn url_resolution_normalizes_slashes() {
    let mut config = ClientConfig::new("agent".to_string());
    config.base_url = "http://example.test///".to_string();

    let joined = config
        .prepare_request("x/y", AuthLevel::Anonymous)
        .expect("admitted");
    assert_eq!(joined.url, "http://example.test/x/y");

    let rooted = config
        .prepare_request("/x", AuthLevel::Anonymous)
        .expect("admitted");
    assert_eq!(rooted.url, "http://example.test/x");

    // Extra leading slashes are normalized to exactly one.
    let doubled = config
        .prepare_request("//x", AuthLevel::Anonymous)
        .expect("admitted");
    assert_eq!(doubled.url, "http://example.test/x");

    let absolute = config
        .prepare_request("https://other.test/z", AuthLevel::Anonymous)
        .expect("admitted");
    assert_eq!(absolute.url, "https://other.test/z");

    let plain_http = config
        .prepare_request("http://other.test/z", AuthLevel::Anonymous)
        .expect("admitted");
    assert_eq!(plain_http.url, "http://other.test/z");
}

#[test]
fn rate_limit_snapshot_needs_all_three_headers() {
    let snapshot =
        parse_rate_limit(Some("60"), Some("1"), Some("59")).expect("rate limit present");
    assert_eq!(snapshot.limit, 60);
    assert_eq!(snapshot.used, 1);
    assert_eq!(snapshot.remaining, 59);

    assert!(parse_rate_limit(None, Some("1"), Some("59")).is_none());
    assert!(parse_rate_limit(Some("60"), None, Some("59")).is_none());
    assert!(parse_rate_limit(Some("60"), Some("1"), None).is_none());
}

#[test]
fn rate_limit_parsing_rejects_malformed_numbers() {
    assert!(parse_rate_limit(Some("60"), Some("x"), Some("59")).is_none());
    assert!(parse_rate_limit(Some(""), Some("1"), Some("59")).is_none());
    assert!(parse_rate_limit(Some("6 0"), Some("1"), Some("59")).is_none());
    assert!(parse_rate_limit(Some("-1"), Some("1"), Some("59")).is_none());
    assert!(parse_rate_limit(Some("4294967296"), Some("1"), Some("59")).is_none());

    // A leading plus sign and the largest value are accepted, as the
    // standard integer grammar has it.
    let snapshot =
        parse_rate_limit(Some("+60"), Some("0"), Some("4294967295")).expect("parses");
    assert_eq!(snapshot.limit, 60);
    assert_eq!(snapshot.used, 0);
    assert_eq!(snapshot.remaining, u32::MAX);
}

#[test]
fn non_success_response_maps_to_http_error_with_message() {
    let error = http_error(404, "{\"message\":\"not found\"}");
    match error {
        DiscogsError::Http { status, message } => {
            assert_eq!(status, 404);
            assert_eq!(message, "not found");
        }
        other => panic!("expected Http error, got {other:?}"),
    }
}

#[test]
fn non_json_error_body_yields_fixed_message() {
    let error = http_error(500, "<html>oops</html>");
    match error {
        DiscogsError::Http { status, message } => {
            assert_eq!(status, 500);
            assert_eq!(message, "unknown error");
        }
        other => panic!("expected Http error, got {other:?}"),
    }
}

#[test]
fn json_error_body_without_message_field_is_rendered_whole() {
    let error = http_error(400, "{\"detail\":\"bad\"}");
    match error {
        DiscogsError::Http { status, message } => {
            assert_eq!(status, 400);
            assert_eq!(message, "{\"detail\":\"bad\"}");
        }
        other => panic!("expected Http error, got {other:?}"),
    }

    // A message field that is not a string falls back to the whole body too.
    let numeric = http_error(400, "{\"message\":7}");
    match numeric {
        DiscogsError::Http { message, .. } => assert_eq!(message, "{\"message\":7}"),
        other => panic!("expected Http error, got {other:?}"),
    }
}
