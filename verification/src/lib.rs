//! A concurrent endpoint health-checking engine: probing targets with a
//! timeout, retrying with exponential backoff and jitter, aggregating
//! per-endpoint outcomes into run summaries, and gating repeatedly failing
//! endpoints behind a per-endpoint circuit breaker in watch mode.
//!
//! This crate holds the engine's decision logic; the asynchronous HTTP
//! transport, timers and process plumbing live with the binary that drives it.

mod breaker;
mod config;
mod outcome;
mod retry;
mod summary;
mod text;

pub use breaker::{deadline_spec, entry_after_run, BreakerEntry, BreakerRegistry};
pub use config::{
    config_format_for_extension, default_base_backoff_ms, default_cb_cooldown_sec,
    default_cb_threshold, default_concurrency, default_endpoint_for, default_max_backoff_ms,
    default_method, default_timeout_ms, default_user_agent, effective_endpoints, effective_retries,
    effective_timeout_ms, ep_equivalent, select_endpoints, Config, ConfigFormat, EndpointConfig,
    ExpectedStatus,
};
pub use outcome::{
    classify_response, redacted_of, status_matches_expected, status_matches_spec, CheckOutcome,
    FailureKind, HealthStatus, ProbeResponse,
};
pub use retry::{
    lemma_backoff_sum_floor, min_total_backoff_ms, total_backoff_ms,
    backoff_delay_ms, base_delay_spec, lemma_backoff_within_bounds, lemma_exhausts_on_all_down,
    lemma_run_attempts_matches_steps, lemma_stops_at_first_up, next_retry_action, pow2_capped_spec,
    retry_verdict, run_attempts, stops_after, total_delay_spec, RetryVerdict,
};
pub use summary::{
    count_down, count_up, is_up, lemma_counts_partition, summarize, summary_json_line,
    summary_json_spec, Summary,
};
pub use text::{dec_of, digit_char, http_reason, http_reason_string, u64_to_dec_string};
