//! The exporter factory: one network-facing exporter per signal kind, each
//! pointed at a signal-specific sub-path of the backend endpoint, carrying
//! the license key as an `api-key` header, and fixed to JSON over HTTP.

use opentelemetry_otlp::WithExportConfig;
use opentelemetry_otlp::WithHttpConfig;
use vstd::prelude::*;
use vstd::string::StringExecFns;

verus! {

/// The three signal kinds the pipeline exports.
#[derive(Clone, Copy, PartialEq, Eq, Structural, Debug)]
pub enum SignalKind {
    Trace,
    Metric,
    Log,
}

/// The fixed sub-path appended to the backend endpoint for a signal kind.
pub open spec fn signal_path(kind: SignalKind) -> Seq<char> {
    match kind {
        SignalKind::Trace => "/v1/traces"@,
        SignalKind::Metric => "/v1/metrics"@,
        SignalKind::Log => "/v1/logs"@,
    }
}

/// The header name under which the license key travels.
pub open spec fn api_key_header() -> Seq<char> {
    "api-key"@
}

/// The header name under which the license key travels, as the factories
/// hand it to the transport: always exactly `api-key`.
pub fn api_key_header_name() -> (r: &'static str)
    ensures
        r@ == api_key_header(),
{
    "api-key"
}

/// The URL a signal's exporter is pointed at: exactly the endpoint with the
/// signal's fixed sub-path appended, for any endpoint.
pub fn signal_endpoint(endpoint: &str, kind: SignalKind) -> (r: String)
    ensures
        r@ == endpoint@ + signal_path(kind),
{
    let path: &str = match kind {
        SignalKind::Trace => "/v1/traces",
        SignalKind::Metric => "/v1/metrics",
        SignalKind::Log => "/v1/logs",
    };
    endpoint.to_owned().concat(path)
}

#[verifier::external_type_specification]
#[verifier::external_body]
pub struct ExSpanExporter(opentelemetry_otlp::SpanExporter);

#[verifier::external_type_specification]
#[verifier::external_body]
pub struct ExMetricExporter(opentelemetry_otlp::MetricExporter);

#[verifier::external_type_specification]
#[verifier::external_body]
pub struct ExLogExporter(opentelemetry_otlp::LogExporter);

/// Relies on `opentelemetry_otlp::SpanExporter`'s HTTP builder: it points
/// the exporter at the given URL with the given header and JSON over HTTP,
/// and reports a `TraceError` when it rejects the configuration (malformed
/// URL, transport construction failure). Environment variables of the OTLP
/// exporter specification may override the URL, so nothing is stated of the
/// built exporter's target.
#[verifier::external_body]
fn build_span_exporter(url: &str, header_name: &str, header_value: &str) -> (r: Result<
    opentelemetry_otlp::SpanExporter,
    opentelemetry::trace::TraceError,
>) {
    opentelemetry_otlp::SpanExporter::builder().with_http().with_endpoint(url.to_string()).with_headers(
        std::collections::HashMap::from(
            [(header_name.to_string(), header_value.to_string())],
        ),
    ).with_protocol(opentelemetry_otlp::Protocol::HttpJson).build()
}

/// Relies on `opentelemetry_otlp::MetricExporter`'s HTTP builder, as the
/// span exporter's wrapper does; failures come as a `MetricError`.
#[verifier::external_body]
fn build_metric_exporter(url: &str, header_name: &str, header_value: &str) -> (r: Result<
    opentelemetry_otlp::MetricExporter,
    opentelemetry_sdk::metrics::MetricError,
>) {
    opentelemetry_otlp::MetricExporter::builder().with_http().with_endpoint(url.to_string()).with_headers(
        std::collections::HashMap::from(
            [(header_name.to_string(), header_value.to_string())],
        ),
    ).with_protocol(opentelemetry_otlp::Protocol::HttpJson).build()
}

/// Relies on `opentelemetry_otlp::LogExporter`'s HTTP builder, as the span
/// exporter's wrapper does; failures come as a `LogError`.
#[verifier::external_body]
fn build_log_exporter(url: &str, header_name: &str, header_value: &str) -> (r: Result<
    opentelemetry_otlp::LogExporter,
    opentelemetry_sdk::logs::LogError,
>) {
    opentelemetry_otlp::LogExporter::builder().with_http().with_endpoint(url.to_string()).with_headers(
        std::collections::HashMap::from(
            [(header_name.to_string(), header_value.to_string())],
        ),
    ).with_protocol(opentelemetry_otlp::Protocol::HttpJson).build()
}

/// Builds the trace exporter for an endpoint and license key: the exporter
/// is handed exactly the URL `endpoint + "/v1/traces"` and the license key
/// under the `api-key` header. The transport decides success; its error is
/// returned unchanged.
pub fn make_trace_exporter(endpoint: &str, license_key: &str) -> (r: Result<
    opentelemetry_otlp::SpanExporter,
    opentelemetry::trace::TraceError,
>) {
    let url = signal_endpoint(endpoint, SignalKind::Trace);
    build_span_exporter(url.as_str(), api_key_header_name(), license_key)
}

/// Builds the metric exporter, pointed at `endpoint + "/v1/metrics"`, as
/// the trace exporter's factory does.
pub fn make_metric_exporter(endpoint: &str, license_key: &str) -> (r: Result<
    opentelemetry_otlp::MetricExporter,
    opentelemetry_sdk::metrics::MetricError,
>) {
    let url = signal_endpoint(endpoint, SignalKind::Metric);
    build_metric_exporter(url.as_str(), api_key_header_name(), license_key)
}

/// Builds the log exporter, pointed at `endpoint + "/v1/logs"`, as the
/// trace exporter's factory does.
pub fn make_log_exporter(endpoint: &str, license_key: &str) -> (r: Result<
    opentelemetry_otlp::LogExporter,
    opentelemetry_sdk::logs::LogError,
>) {
    let url = signal_endpoint(endpoint, SignalKind::Log);
    build_log_exporter(url.as_str(), api_key_header_name(), license_key)
}

} // verus!
