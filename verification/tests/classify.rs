use rust_healthcheck::{
    classify_response, status_matches_expected, CheckOutcome, EndpointConfig, ExpectedStatus,
    FailureKind, HealthStatus, ProbeResponse,
};

fn plain_endpoint(url: &str) -> EndpointConfig {
    EndpointConfig {
        url: url.to_string(),
        method: "GET".to_string(),
        timeout_ms: None,
        retries: None,
        expected_status: None,
        headers: None,
    }
}

fn assert_up(o: &CheckOutcome) {
    match &o.status {
        HealthStatus::Up => {}
        HealthStatus::Down(reason) => panic!("expected Up, got Down({})", reason),
    }
}

fn down_reason(o: &CheckOutcome) -> String {
    match &o.status {
        HealthStatus::Up => panic!("expected Down, got Up"),
        HealthStatus::Down(reason) => reason.clone(),
    }
}

#[test]
fn success_status_is_up_with_latency_and_one_attempt() {
    let ep = plain_endpoint("http://example.com/ok");
    let o = classify_response(&ep, ProbeResponse::Received { status: 200 }, 42);
    assert_up(&o);
    assert_eq!(o.latency_ms, Some(42));
    assert_eq!(o.attempts, 1);
    assert_eq!(o.last_http_status, Some(200));
}

#[test]
fn every_2xx_is_up_without_explicit_rule() {
    let ep = plain_endpoint("http://example.com/ok");
    for status in [200u16, 201, 204, 226, 299] {
        let o = classify_response(&ep, ProbeResponse::Received { status }, 1);
        assert_up(&o);
        assert_eq!(o.attempts, 1);
    }
}

#[test]
fn non_2xx_is_down_with_http_reason_and_no_latency() {
    let ep = plain_endpoint("http://example.com/err");
    let o = classify_response(&ep, ProbeResponse::Received { status: 500 }, 5);
    assert_eq!(down_reason(&o), "HTTP 500");
    assert_eq!(o.latency_ms, None);
    assert_eq!(o.last_http_status, Some(500));
    let o = classify_response(&ep, ProbeResponse::Received { status: 404 }, 5);
    assert_eq!(down_reason(&o), "HTTP 404");
    let o = classify_response(&ep, ProbeResponse::Received { status: 199 }, 5);
    assert_eq!(down_reason(&o), "HTTP 199");
    let o = classify_response(&ep, ProbeResponse::Received { status: 300 }, 5);
    assert_eq!(down_reason(&o), "HTTP 300");
}

#[test]
fn transport_failure_is_down_with_no_latency_and_no_status() {
    let ep = plain_endpoint("http://example.com/slow");
    let o = classify_response(
        &ep,
        ProbeResponse::Failed {
            kind: FailureKind::Timeout,
            reason: "timed out".to_string(),
        },
        9999,
    );
    assert_eq!(down_reason(&o), "timed out");
    assert_eq!(o.latency_ms, None);
    assert_eq!(o.last_http_status, None);
}

#[test]
fn explicit_expected_range_overrides_2xx_rule() {
    let mut ep = plain_endpoint("http://example.com/teapot");
    ep.expected_status = Some(ExpectedStatus {
        min: Some(400),
        max: Some(499),
    });
    let o = classify_response(&ep, ProbeResponse::Received { status: 418 }, 3);
    assert_up(&o);
    let o = classify_response(&ep, ProbeResponse::Received { status: 200 }, 3);
    assert_eq!(down_reason(&o), "HTTP 200");
}

#[test]
fn status_rule_bounds_are_inclusive_and_optional() {
    assert!(status_matches_expected(200, &None));
    assert!(status_matches_expected(299, &None));
    assert!(!status_matches_expected(199, &None));
    assert!(!status_matches_expected(300, &None));
    let range = Some(ExpectedStatus {
        min: Some(301),
        max: Some(302),
    });
    assert!(status_matches_expected(301, &range));
    assert!(status_matches_expected(302, &range));
    assert!(!status_matches_expected(300, &range));
    assert!(!status_matches_expected(303, &range));
    let only_min = Some(ExpectedStatus {
        min: Some(500),
        max: None,
    });
    assert!(status_matches_expected(599, &only_min));
    assert!(!status_matches_expected(499, &only_min));
    let only_max = Some(ExpectedStatus {
        min: None,
        max: Some(204),
    });
    assert!(status_matches_expected(100, &only_max));
    assert!(!status_matches_expected(205, &only_max));
    let unbounded = Some(ExpectedStatus {
        min: None,
        max: None,
    });
    assert!(status_matches_expected(500, &unbounded));
}

#[test]
fn outcome_endpoint_has_query_string_stripped() {
    let ep = plain_endpoint("http://example.com/health?token=abc123");
    let o = classify_response(&ep, ProbeResponse::Received { status: 200 }, 1);
    assert_eq!(o.endpoint, "http://example.com/health");
}

#[test]
fn unparseable_url_is_surfaced_unchanged() {
    let ep = plain_endpoint("not a url");
    let o = classify_response(&ep, ProbeResponse::Received { status: 200 }, 1);
    assert_eq!(o.endpoint, "not a url");
}
