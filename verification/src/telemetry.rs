//! OpenTelemetry configuration as it crosses the boundary.
//!
//! The boundary only validates what it was handed and forwards it; the
//! exporter itself is an external collaborator.  At least one of the
//! traces and metrics endpoints must be provided, the flush interval
//! must be positive, and a traces endpoint needs a non-negative sample
//! percentage.

use crate::errors::{BridgeError, TelemetryFault};
use vstd::prelude::*;

verus! {

/// Configuration for exporting trace data.
///
/// The endpoint is expected in one of the forms `grpc://host:port`,
/// `http://host:port` or `https://host:port`, or
/// `file:///absolute/path/to/file.json`; the exporter, not the boundary,
/// parses it.
#[derive(Clone)]
pub struct OpenTelemetryTracesConfig {
    /// The endpoint to which trace data will be exported.
    pub endpoint: String,
    /// The percentage of requests to sample and create a span for.  If
    /// `None`, the exporter's default is used.
    pub sample_percentage: Option<u32>,
}

/// Configuration for exporting metrics data.
///
/// The endpoint takes the same forms as for trace data.
#[derive(Clone)]
pub struct OpenTelemetryMetricsConfig {
    /// The endpoint to which metrics data will be exported.
    pub endpoint: String,
}

/// Configuration for the telemetry integration.
///
/// At least one of `traces` and `metrics` must be provided.
#[derive(Clone)]
pub struct OpenTelemetryConfig {
    /// Configuration for exporting trace data; `None` disables traces.
    pub traces: Option<OpenTelemetryTracesConfig>,
    /// Configuration for exporting metrics data; `None` disables metrics.
    pub metrics: Option<OpenTelemetryMetricsConfig>,
    /// Milliseconds between consecutive exports of telemetry data; if
    /// `None`, the exporter's default is used.
    pub flush_interval_ms: Option<i64>,
}

/// The fault a telemetry configuration is rejected with, if any: no
/// endpoint at all, then a non-positive flush interval, then a negative
/// sample percentage beside a traces endpoint — in that order.
pub open spec fn spec_telemetry_fault(
    traces_present: bool,
    sample_percentage: i32,
    metrics_present: bool,
    flush_interval_ms: i64,
) -> Option<TelemetryFault> {
    if !traces_present && !metrics_present {
        Some(TelemetryFault::NoEndpoints)
    } else if flush_interval_ms <= 0 {
        Some(TelemetryFault::NonPositiveFlushInterval(flush_interval_ms))
    } else if traces_present && sample_percentage < 0 {
        Some(TelemetryFault::NegativeSamplePercentage(sample_percentage))
    } else {
        None
    }
}

/// Validates what the host runtime handed over for telemetry
/// configuration and assembles the configuration to forward to the
/// exporter.  Fails with a typed telemetry error exactly when both
/// endpoints are absent, the flush interval is not positive, or a traces
/// endpoint comes with a negative sample percentage.
pub fn validate_telemetry_config(
    traces_endpoint: Option<String>,
    traces_sample_percentage: i32,
    metrics_endpoint: Option<String>,
    flush_interval_ms: i64,
) -> (result: Result<OpenTelemetryConfig, BridgeError>)
    ensures
        match spec_telemetry_fault(
            traces_endpoint is Some,
            traces_sample_percentage,
            metrics_endpoint is Some,
            flush_interval_ms,
        ) {
            Some(fault) => result == Err::<OpenTelemetryConfig, BridgeError>(
                BridgeError::TelemetryConfig(fault),
            ),
            None => (result matches Ok(config) && config.flush_interval_ms == Some(
                flush_interval_ms,
            ) && (match traces_endpoint {
                Some(endpoint) => config.traces matches Some(traces) && traces.endpoint == endpoint
                    && traces.sample_percentage == Some(traces_sample_percentage as u32),
                None => config.traces is None,
            }) && (match metrics_endpoint {
                Some(endpoint) => config.metrics matches Some(metrics) && metrics.endpoint
                    == endpoint,
                None => config.metrics is None,
            })),
        },
{
    if traces_endpoint.is_none() && metrics_endpoint.is_none() {
        return Err(BridgeError::TelemetryConfig(TelemetryFault::NoEndpoints));
    }
    if flush_interval_ms <= 0 {
        return Err(
            BridgeError::TelemetryConfig(
                TelemetryFault::NonPositiveFlushInterval(flush_interval_ms),
            ),
        );
    }
    let traces = match traces_endpoint {
        Some(endpoint) => {
            if traces_sample_percentage < 0 {
                return Err(
                    BridgeError::TelemetryConfig(
                        TelemetryFault::NegativeSamplePercentage(traces_sample_percentage),
                    ),
                );
            }
            Some(
                OpenTelemetryTracesConfig {
                    endpoint,
                    sample_percentage: Some(traces_sample_percentage as u32),
                },
            )
        },
        None => None,
    };
    let metrics = match metrics_endpoint {
        Some(endpoint) => Some(OpenTelemetryMetricsConfig { endpoint }),
        None => None,
    };
    Ok(OpenTelemetryConfig { traces, metrics, flush_interval_ms: Some(flush_interval_ms) })
}

/// Law (telemetry validation): a configuration is accepted exactly when
/// an endpoint is present, the flush interval is positive, and a traces
/// endpoint does not come with a negative sample percentage.
pub proof fn lemma_telemetry_validation_exact(
    traces_present: bool,
    sample_percentage: i32,
    metrics_present: bool,
    flush_interval_ms: i64,
)
    ensures
        spec_telemetry_fault(
            traces_present,
            sample_percentage,
            metrics_present,
            flush_interval_ms,
        ) is None <==> ((traces_present || metrics_present) && flush_interval_ms > 0 && (
        traces_present ==> sample_percentage >= 0)),
{
}

} // verus!
