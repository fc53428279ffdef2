//! Classification of a single probe attempt: what one HTTP exchange (or its
//! transport failure) means for an endpoint's health. The network call itself
//! happens outside this crate; it hands over a plain `ProbeResponse`, and
//! everything from there to the final `CheckOutcome` is decided here.

use crate::config::{EndpointConfig, ExpectedStatus};
use crate::text::{http_reason, http_reason_string};
use vstd::prelude::*;

verus! {

/// The health of one endpoint after a full attempt sequence: up, or down
/// with a human-readable reason.
#[derive(Debug, Clone)]
pub enum HealthStatus {
    Up,
    Down(String),
}

/// Why a probe obtained no response, kept for diagnostics.
#[derive(Debug, Clone, Copy, PartialEq, Eq, Structural)]
pub enum FailureKind {
    Timeout,
    Connect,
    Body,
    Other,
}

/// What one probe attempt observed: a response with its status code, or a
/// transport-level failure with its kind and description.
#[derive(Debug, Clone)]
pub enum ProbeResponse {
    Received { status: u16 },
    Failed { kind: FailureKind, reason: String },
}

/// The result of checking one endpoint: identifier (query string stripped),
/// final health, latency (present only when up), attempts consumed, and the
/// last observed HTTP status (absent on transport failure).
#[derive(Debug, Clone)]
pub struct CheckOutcome {
    pub endpoint: String,
    pub status: HealthStatus,
    pub latency_ms: Option<u128>,
    pub attempts: u32,
    pub last_http_status: Option<u16>,
}

/// Whether `code` satisfies the endpoint's acceptance rule: the explicit
/// inclusive range when one is given, else "2xx means success".
pub open spec fn status_matches_spec(code: u16, expected: Option<ExpectedStatus>) -> bool {
    match expected {
        Some(e) => {
            &&& match e.min {
                Some(m) => code >= m,
                None => true,
            }
            &&& match e.max {
                Some(m) => code <= m,
                None => true,
            }
        },
        None => 200 <= code <= 299,
    }
}

/// Evaluates a status code against the endpoint's expected-status rule.
pub fn status_matches_expected(status: u16, expected: &Option<ExpectedStatus>) -> (r: bool)
    ensures
        r == status_matches_spec(status, *expected),
{
    match expected {
        Some(e) => {
            let min_ok = match e.min {
                Some(m) => status >= m,
                None => true,
            };
            let max_ok = match e.max {
                Some(m) => status <= m,
                None => true,
            };
            min_ok && max_ok
        },
        None => status >= 200 && status <= 299,
    }
}

/// The endpoint identifier as surfaced in outcomes: the URL with its query
/// string stripped, so tokens never leak into logs or metrics.
pub uninterp spec fn redacted_of(s: Seq<char>) -> Seq<char>;

/// Relies on url::Url::parse and url::Url::set_query: parses the URL, drops
/// its query component and re-serialises it; an unparseable input comes back
/// unchanged. The result depends on the input characters alone.
#[verifier::external_body]
fn redact_url(input: &str) -> (r: String)
    ensures
        r@ == redacted_of(input@),
{
    match url::Url::parse(input) {
        Ok(mut u) => {
            u.set_query(None);
            u.to_string()
        },
        Err(_) => input.to_string(),
    }
}

/// Classifies one probe attempt for `ep` into an outcome with `attempts == 1`.
///
/// A response whose status satisfies the endpoint's rule is Up and keeps the
/// measured latency; a response that fails the rule is Down with reason
/// `HTTP <code>` and no latency; a transport failure is Down with the
/// failure's own description, no latency and no status code.
pub fn classify_response(ep: &EndpointConfig, resp: ProbeResponse, latency_ms: u128) -> (o:
    CheckOutcome)
    ensures
        o.endpoint@ == redacted_of(ep.url@),
        o.attempts == 1,
        match resp {
            ProbeResponse::Received { status } => {
                &&& o.last_http_status == Some(status)
                &&& if status_matches_spec(status, ep.expected_status) {
                    o.status is Up && o.latency_ms == Some(latency_ms)
                } else {
                    (o.status matches HealthStatus::Down(r) && r@ == http_reason(status as nat))
                        && o.latency_ms is None
                }
            },
            ProbeResponse::Failed { kind, reason } => {
                &&& (o.status matches HealthStatus::Down(r) && r@ == reason@)
                &&& o.latency_ms is None
                &&& o.last_http_status is None
            },
        },
{
    let endpoint = redact_url(ep.url.as_str());
    match resp {
        ProbeResponse::Received { status } => {
            if status_matches_expected(status, &ep.expected_status) {
                CheckOutcome {
                    endpoint,
                    status: HealthStatus::Up,
                    latency_ms: Some(latency_ms),
                    attempts: 1,
                    last_http_status: Some(status),
                }
            } else {
                CheckOutcome {
                    endpoint,
                    status: HealthStatus::Down(http_reason_string(status)),
                    latency_ms: None,
                    attempts: 1,
                    last_http_status: Some(status),
                }
            }
        },
        ProbeResponse::Failed { kind: _, reason } => {
            CheckOutcome {
                endpoint,
                status: HealthStatus::Down(reason),
                latency_ms: None,
                attempts: 1,
                last_http_status: None,
            }
        },
    }
}

} // verus!
