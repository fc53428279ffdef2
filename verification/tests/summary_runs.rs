use rust_healthcheck::{
    classify_response, summarize, summary_json_line, u64_to_dec_string, CheckOutcome,
    EndpointConfig, FailureKind, HealthStatus, ProbeResponse, Summary,
};

fn plain_endpoint(url: &str) -> EndpointConfig {
    EndpointConfig {
        url: url.to_string(),
        method: "GET".to_string(),
        timeout_ms: None,
        retries: None,
        expected_status: None,
        headers: None,
    }
}

fn outcome(up: bool) -> CheckOutcome {
    CheckOutcome {
        endpoint: "http://example.com/".to_string(),
        status: if up {
            HealthStatus::Up
        } else {
            HealthStatus::Down("HTTP 500".to_string())
        },
        latency_ms: if up { Some(10) } else { None },
        attempts: 1,
        last_http_status: Some(if up { 200 } else { 500 }),
    }
}

#[test]
fn totals_are_up_plus_down() {
    for (ups, downs) in [(0usize, 0usize), (1, 0), (0, 1), (3, 2), (5, 5)] {
        let mut outcomes = Vec::new();
        for _ in 0..ups {
            outcomes.push(outcome(true));
        }
        for _ in 0..downs {
            outcomes.push(outcome(false));
        }
        let s = summarize(&outcomes);
        assert_eq!(s.total, ups + downs);
        assert_eq!(s.up, ups);
        assert_eq!(s.down, downs);
        assert_eq!(s.total, s.up + s.down);
    }
}

#[test]
fn empty_run_yields_zero_summary() {
    let s = summarize(&Vec::new());
    assert_eq!(s.total, 0);
    assert_eq!(s.up, 0);
    assert_eq!(s.down, 0);
    let zero = Summary::default();
    assert_eq!(zero.total, 0);
    assert_eq!(zero.up, 0);
    assert_eq!(zero.down, 0);
}

#[test]
fn one_healthy_endpoint_summarizes_one_up() {
    let ep = plain_endpoint("http://example.com/ok");
    let o = classify_response(&ep, ProbeResponse::Received { status: 200 }, 12);
    let s = summarize(&vec![o]);
    assert_eq!((s.total, s.up, s.down), (1, 1, 0));
}

#[test]
fn one_server_error_summarizes_one_down() {
    let ep = plain_endpoint("http://example.com/err");
    let o = classify_response(&ep, ProbeResponse::Received { status: 500 }, 12);
    match &o.status {
        HealthStatus::Down(reason) => assert_eq!(reason, "HTTP 500"),
        HealthStatus::Up => panic!("HTTP 500 must be down"),
    }
    let s = summarize(&vec![o]);
    assert_eq!((s.total, s.up, s.down), (1, 0, 1));
}

#[test]
fn one_timeout_summarizes_one_down() {
    let ep = plain_endpoint("http://example.com/slow");
    let o = classify_response(
        &ep,
        ProbeResponse::Failed {
            kind: FailureKind::Timeout,
            reason: "operation timed out".to_string(),
        },
        0,
    );
    assert_eq!(o.latency_ms, None);
    assert_eq!(o.last_http_status, None);
    let s = summarize(&vec![o]);
    assert_eq!((s.total, s.up, s.down), (1, 0, 1));
}

#[test]
fn summary_json_is_the_stable_single_line_object() {
    let s = Summary {
        total: 1,
        up: 1,
        down: 0,
    };
    assert_eq!(summary_json_line(&s), "{\"total\":1,\"up\":1,\"down\":0}");
    let s = Summary {
        total: 12,
        up: 5,
        down: 7,
    };
    assert_eq!(summary_json_line(&s), "{\"total\":12,\"up\":5,\"down\":7}");
}

#[test]
fn decimal_rendering_is_exact() {
    assert_eq!(u64_to_dec_string(0), "0");
    assert_eq!(u64_to_dec_string(7), "7");
    assert_eq!(u64_to_dec_string(10), "10");
    assert_eq!(u64_to_dec_string(500), "500");
    assert_eq!(u64_to_dec_string(1_234_567_890), "1234567890");
    assert_eq!(u64_to_dec_string(u64::MAX), "18446744073709551615");
}
