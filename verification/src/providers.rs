//! The provider assembler: wraps each exporter in a signal-appropriate
//! processing strategy — an asynchronous batch queue for traces and logs, a
//! periodic pull-and-push reader for metrics — and binds the shared
//! resource descriptor to each provider at construction.

use crate::exporters::{make_log_exporter, make_metric_exporter, make_trace_exporter};
use crate::resource::{
    attrs_as_map, build_resource_descriptor, resource_attrs, sdk_resource_attrs, to_sdk_resource,
};
use vstd::prelude::*;

verus! {

/// How often, in seconds, the metrics reader pulls accumulated aggregates
/// and pushes them through the exporter.
pub const METRIC_EXPORT_PERIOD_SECONDS: u64 = 3;

/// How long, in seconds, one metrics push may run before it is abandoned;
/// the dropped data is not retried and the next period proceeds
/// independently.
pub const METRIC_EXPORT_TIMEOUT_SECONDS: u64 = 10;

#[verifier::external_type_specification]
#[verifier::external_body]
pub struct ExTracerProvider(opentelemetry_sdk::trace::TracerProvider);

#[verifier::external_type_specification]
#[verifier::external_body]
pub struct ExLoggerProvider(opentelemetry_sdk::logs::LoggerProvider);

#[verifier::external_type_specification]
#[verifier::external_body]
pub struct ExSdkMeterProvider(opentelemetry_sdk::metrics::SdkMeterProvider);

#[verifier::external_type_specification]
#[verifier::external_body]
pub struct ExTracer(opentelemetry_sdk::trace::Tracer);

/// What resource attributes a tracer provider was built with.
pub uninterp spec fn tracer_provider_resource(p: opentelemetry_sdk::trace::TracerProvider) -> Map<
    Seq<char>,
    Seq<char>,
>;

/// What resource attributes a logger provider was built with.
pub uninterp spec fn logger_provider_resource(p: opentelemetry_sdk::logs::LoggerProvider) -> Map<
    Seq<char>,
    Seq<char>,
>;

/// What resource attributes a meter provider was built with.
pub uninterp spec fn meter_provider_resource(
    p: opentelemetry_sdk::metrics::SdkMeterProvider,
) -> Map<Seq<char>, Seq<char>>;

/// Relies on `opentelemetry_sdk::trace::TracerProvider`'s builder: the
/// provider keeps the given resource and queues spans through an
/// asynchronous batch processor flushed on a background Tokio task. Must
/// run inside a Tokio runtime.
#[verifier::external_body]
fn build_tracer_provider(
    exporter: opentelemetry_otlp::SpanExporter,
    resource: opentelemetry_sdk::Resource,
) -> (r: opentelemetry_sdk::trace::TracerProvider)
    ensures
        tracer_provider_resource(r) == sdk_resource_attrs(resource),
{
    opentelemetry_sdk::trace::TracerProvider::builder().with_resource(resource).with_batch_exporter(
        exporter,
        opentelemetry_sdk::runtime::Tokio,
    ).build()
}

/// Relies on `opentelemetry_sdk::logs::LoggerProvider`'s builder, as the
/// tracer provider's wrapper does: the provider keeps the given resource
/// and batches log records on a background Tokio task.
#[verifier::external_body]
fn build_logger_provider(
    exporter: opentelemetry_otlp::LogExporter,
    resource: opentelemetry_sdk::Resource,
) -> (r: opentelemetry_sdk::logs::LoggerProvider)
    ensures
        logger_provider_resource(r) == sdk_resource_attrs(resource),
{
    opentelemetry_sdk::logs::LoggerProvider::builder().with_resource(resource).with_batch_exporter(
        exporter,
        opentelemetry_sdk::runtime::Tokio,
    ).build()
}

/// Relies on `opentelemetry_sdk::metrics::PeriodicReader` and
/// `SdkMeterProvider`'s builder: the provider keeps the given resource and
/// reads aggregates every `interval_seconds`, abandoning a push after
/// `timeout_seconds`. Zero would silently mean "keep the default", so both
/// are required positive. Must run inside a Tokio runtime.
#[verifier::external_body]
fn build_meter_provider(
    exporter: opentelemetry_otlp::MetricExporter,
    resource: opentelemetry_sdk::Resource,
    interval_seconds: u64,
    timeout_seconds: u64,
) -> (r: opentelemetry_sdk::metrics::SdkMeterProvider)
    requires
        interval_seconds >= 1,
        timeout_seconds >= 1,
    ensures
        meter_provider_resource(r) == sdk_resource_attrs(resource),
{
    let reader = opentelemetry_sdk::metrics::PeriodicReader::builder(
        exporter,
        opentelemetry_sdk::runtime::Tokio,
    ).with_interval(std::time::Duration::from_secs(interval_seconds)).with_timeout(
        std::time::Duration::from_secs(timeout_seconds),
    ).build();
    opentelemetry_sdk::metrics::SdkMeterProvider::builder().with_reader(reader).with_resource(
        resource,
    ).build()
}

/// Relies on `opentelemetry::global::set_tracer_provider`: installs the
/// provider as the process-wide default, superseding any previous one.
#[verifier::external_body]
pub fn install_global_tracer_provider(provider: &opentelemetry_sdk::trace::TracerProvider) {
    opentelemetry::global::set_tracer_provider(provider.clone());
}

/// Relies on `opentelemetry::trace::TracerProvider::tracer`: derives a
/// tracer scoped to the given instrumentation name from the provider.
#[verifier::external_body]
pub fn tracer_scoped(provider: &opentelemetry_sdk::trace::TracerProvider, name: &str) -> (t:
    opentelemetry_sdk::trace::Tracer) {
    opentelemetry::trace::TracerProvider::tracer(provider, name.to_string())
}

/// Builds the trace provider for a resolved configuration: a fresh exporter
/// pointed at `endpoint + "/v1/traces"` carrying the license key, wrapped
/// in a batch processor, with the two-attribute resource descriptor for the
/// service and host bound at construction. The transport decides success;
/// on failure its error comes back unchanged.
pub fn init_tracer_provider(endpoint: &str, license_key: &str, service_name: &str, host_name: &str)
    -> (r: Result<opentelemetry_sdk::trace::TracerProvider, opentelemetry::trace::TraceError>)
    ensures
        r matches Ok(p) ==> tracer_provider_resource(p) == attrs_as_map(
            resource_attrs(service_name@, host_name@),
        ),
{
    let exporter = match make_trace_exporter(endpoint, license_key) {
        Ok(e) => e,
        Err(e) => {
            return Err(e);
        },
    };
    let descriptor = build_resource_descriptor(service_name, host_name);
    let resource = to_sdk_resource(&descriptor);
    Ok(build_tracer_provider(exporter, resource))
}

/// Builds the log provider, as the trace provider's assembly does, with the
/// exporter pointed at `endpoint + "/v1/logs"`.
pub fn init_logger_provider(endpoint: &str, license_key: &str, service_name: &str, host_name: &str)
    -> (r: Result<opentelemetry_sdk::logs::LoggerProvider, opentelemetry_sdk::logs::LogError>)
    ensures
        r matches Ok(p) ==> logger_provider_resource(p) == attrs_as_map(
            resource_attrs(service_name@, host_name@),
        ),
{
    let exporter = match make_log_exporter(endpoint, license_key) {
        Ok(e) => e,
        Err(e) => {
            return Err(e);
        },
    };
    let descriptor = build_resource_descriptor(service_name, host_name);
    let resource = to_sdk_resource(&descriptor);
    Ok(build_logger_provider(exporter, resource))
}

/// Builds the metrics provider, with the exporter pointed at
/// `endpoint + "/v1/metrics"` and a periodic reader that pulls every three
/// seconds and abandons a push after ten.
pub fn init_metrics(endpoint: &str, license_key: &str, service_name: &str, host_name: &str) -> (r:
    Result<opentelemetry_sdk::metrics::SdkMeterProvider, opentelemetry_sdk::metrics::MetricError>)
    ensures
        r matches Ok(p) ==> meter_provider_resource(p) == attrs_as_map(
            resource_attrs(service_name@, host_name@),
        ),
{
    let exporter = match make_metric_exporter(endpoint, license_key) {
        Ok(e) => e,
        Err(e) => {
            return Err(e);
        },
    };
    let descriptor = build_resource_descriptor(service_name, host_name);
    let resource = to_sdk_resource(&descriptor);
    Ok(
        build_meter_provider(
            exporter,
            resource,
            METRIC_EXPORT_PERIOD_SECONDS,
            METRIC_EXPORT_TIMEOUT_SECONDS,
        ),
    )
}

} // verus!
