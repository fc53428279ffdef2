//! Run configuration: the process-wide settings, per-endpoint overrides, and
//! the defaults applied when a field is absent. Endpoint-level overrides fall
//! back to run-level defaults at the point of use, not at load time.

use std::collections::HashMap;
use vstd::prelude::*;

verus! {

/// Process-wide configuration, read-only for the duration of a run.
#[derive(Debug, Clone)]
pub struct Config {
    /// List of HTTP/HTTPS endpoints to check.
    pub endpoints_to_check: Vec<String>,
    /// Advanced endpoint configs; when present, fully replaces `endpoints_to_check`.
    pub endpoints: Option<Vec<EndpointConfig>>,
    /// Request timeout in milliseconds.
    pub request_timeout_ms: u64,
    /// Maximum number of concurrent checks.
    pub concurrency: usize,
    /// Number of retries for each endpoint (0 = no retry).
    pub retries: u32,
    /// Base backoff in milliseconds for retries.
    pub base_backoff_ms: u64,
    /// Maximum backoff in milliseconds for retries.
    pub max_backoff_ms: u64,
    /// User-Agent header for outbound requests.
    pub user_agent: String,
    /// Optional log level (e.g. INFO, DEBUG).
    pub log_level: Option<String>,
    /// If set, periodically logs metrics (seconds).
    pub metrics_log_interval_sec: Option<u64>,
    /// If set, runs repeatedly in a watch loop with this interval (seconds).
    pub watch_interval_sec: Option<u64>,
    /// Circuit breaker: failures before opening the breaker (watch mode).
    pub cb_failures_threshold: u32,
    /// Circuit breaker: cooldown seconds once opened.
    pub cb_cooldown_sec: u64,
    /// Output logs as JSON if true.
    pub json_logging: bool,
    /// Emit the summary also as JSON on stdout if true.
    pub summary_json: bool,
    /// TLS: accept invalid certificates (dangerous; default false).
    pub danger_accept_invalid_certs: bool,
    /// TLS: optional CA bundle path (PEM) to trust.
    pub ca_bundle_path: Option<String>,
}

/// Acceptance range for a response's status code, both ends inclusive; an
/// absent end leaves that side unbounded.
#[derive(Debug, Clone, Copy)]
pub struct ExpectedStatus {
    pub min: Option<u16>,
    pub max: Option<u16>,
}

/// One target to probe, with optional per-endpoint overrides.
#[derive(Debug)]
pub struct EndpointConfig {
    pub url: String,
    pub method: String,
    pub timeout_ms: Option<u64>,
    pub retries: Option<u32>,
    pub expected_status: Option<ExpectedStatus>,
    pub headers: Option<HashMap<String, String>>,
}

/// Two endpoint records that configure the same probe: equal field by field,
/// with the header maps compared by contents.
pub open spec fn ep_equivalent(a: EndpointConfig, b: EndpointConfig) -> bool {
    &&& a.url == b.url
    &&& a.method == b.method
    &&& a.timeout_ms == b.timeout_ms
    &&& a.retries == b.retries
    &&& a.expected_status == b.expected_status
    &&& match (a.headers, b.headers) {
        (Some(h), Some(g)) => h@ == g@,
        (None, None) => true,
        _ => false,
    }
}

impl Clone for EndpointConfig {
    /// A cloned endpoint record configures the same probe as its source.
    fn clone(&self) -> (r: Self)
        ensures
            ep_equivalent(r, *self),
    {
        EndpointConfig {
            url: self.url.clone(),
            method: self.method.clone(),
            timeout_ms: self.timeout_ms,
            retries: self.retries,
            expected_status: self.expected_status,
            headers: match &self.headers {
                Some(h) => Some(h.clone()),
                None => None,
            },
        }
    }
}

/// Builds one iteration's probe list: the endpoints at the given indices, in
/// the given order.
pub fn select_endpoints(eps: &Vec<EndpointConfig>, idxs: &Vec<usize>) -> (r: Vec<EndpointConfig>)
    requires
        forall|j: int| 0 <= j < idxs@.len() ==> #[trigger] idxs@[j] < eps@.len(),
    ensures
        r@.len() == idxs@.len(),
        forall|j: int|
            0 <= j < idxs@.len() ==> ep_equivalent(#[trigger] r@[j], eps@[idxs@[j] as int]),
{
    let mut r: Vec<EndpointConfig> = Vec::new();
    let mut j: usize = 0;
    while j < idxs.len()
        invariant
            j <= idxs@.len(),
            r@.len() == j,
            forall|k: int| 0 <= k < idxs@.len() ==> #[trigger] idxs@[k] < eps@.len(),
            forall|k: int|
                0 <= k < j ==> ep_equivalent(#[trigger] r@[k], eps@[idxs@[k] as int]),
        decreases idxs@.len() - j,
    {
        r.push(eps[idxs[j]].clone());
        j += 1;
    }
    r
}

/// The serialization format a config file is parsed as.
#[derive(Debug, Clone, Copy, PartialEq, Eq, Structural)]
pub enum ConfigFormat {
    Json,
    Yaml,
}

/// Chooses the parser for a config file from its lower-cased extension:
/// `yaml` and `yml` select YAML, anything else selects JSON.
pub fn config_format_for_extension(ext: &str) -> (f: ConfigFormat)
    ensures
        (f is Yaml) == (ext@ == "yaml"@ || ext@ == "yml"@),
{
    let e = ext.to_owned();
    if e == "yaml".to_owned() || e == "yml".to_owned() {
        ConfigFormat::Yaml
    } else {
        ConfigFormat::Json
    }
}

/// Default request timeout in milliseconds.
pub fn default_timeout_ms() -> (r: u64)
    ensures
        r == 5000,
{
    5_000
}

/// Default global concurrency cap.
pub fn default_concurrency() -> (r: usize)
    ensures
        r == 8,
{
    8
}

/// Default User-Agent header value.
pub fn default_user_agent() -> (r: String)
    ensures
        r@ == "rust-healthcheck/1.0"@,
{
    "rust-healthcheck/1.0".to_owned()
}

/// Default base backoff in milliseconds.
pub fn default_base_backoff_ms() -> (r: u64)
    ensures
        r == 200,
{
    200
}

/// Default maximum backoff in milliseconds.
pub fn default_max_backoff_ms() -> (r: u64)
    ensures
        r == 5000,
{
    5_000
}

/// Default circuit-breaker failure threshold.
pub fn default_cb_threshold() -> (r: u32)
    ensures
        r == 3,
{
    3
}

/// Default circuit-breaker cooldown in seconds.
pub fn default_cb_cooldown_sec() -> (r: u64)
    ensures
        r == 60,
{
    60
}

/// Default HTTP method for an endpoint.
pub fn default_method() -> (r: String)
    ensures
        r@ == "GET"@,
{
    "GET".to_owned()
}

/// The endpoint record derived from a plain URL: GET, no overrides.
pub open spec fn default_endpoint_for(ep: EndpointConfig, url: Seq<char>) -> bool {
    &&& ep.url@ == url
    &&& ep.method@ == "GET"@
    &&& ep.timeout_ms is None
    &&& ep.retries is None
    &&& ep.expected_status is None
    &&& ep.headers is None
}

/// Resolves the endpoint list for one run: the advanced list when present
/// fully replaces the plain URL list; otherwise each plain URL becomes a
/// default endpoint record.
pub fn effective_endpoints(endpoints: Option<Vec<EndpointConfig>>, urls: &Vec<String>) -> (eps: Vec<
    EndpointConfig,
>)
    ensures
        match endpoints {
            Some(adv) => eps == adv,
            None => eps@.len() == urls@.len() && forall|i: int|
                0 <= i < urls@.len() ==> default_endpoint_for(#[trigger] eps@[i], urls@[i]@),
        },
{
    match endpoints {
        Some(adv) => adv,
        None => {
            let mut eps: Vec<EndpointConfig> = Vec::new();
            let mut i: usize = 0;
            while i < urls.len()
                invariant
                    i <= urls@.len(),
                    eps@.len() == i,
                    forall|j: int|
                        0 <= j < i ==> default_endpoint_for(#[trigger] eps@[j], urls@[j]@),
                decreases urls@.len() - i,
            {
                let ep = EndpointConfig {
                    url: urls[i].clone(),
                    method: default_method(),
                    timeout_ms: None,
                    retries: None,
                    expected_status: None,
                    headers: None,
                };
                eps.push(ep);
                i += 1;
            }
            eps
        },
    }
}

/// The timeout for one endpoint: its override if present, else the run default.
pub fn effective_timeout_ms(ep: &EndpointConfig, default_timeout: u64) -> (r: u64)
    ensures
        r == match ep.timeout_ms {
            Some(t) => t,
            None => default_timeout,
        },
{
    match ep.timeout_ms {
        Some(t) => t,
        None => default_timeout,
    }
}

/// The retry count for one endpoint: its override if present, else the run default.
pub fn effective_retries(ep: &EndpointConfig, default_retries: u32) -> (r: u32)
    ensures
        r == match ep.retries {
            Some(n) => n,
            None => default_retries,
        },
{
    match ep.retries {
        Some(n) => n,
        None => default_retries,
    }
}

} // verus!
