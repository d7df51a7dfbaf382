//! Composition of the subscriber stack: console formatter, level filter,
//! trace layer, metrics layer and log-export bridge, in that fixed order,
//! installed once as the process's global event sink.

use opentelemetry_appender_tracing2::layer::OpenTelemetryTracingBridge;
use time::format_description::well_known::Rfc3339;
use tracing_opentelemetry::{MetricsLayer, OpenTelemetryLayer};
use tracing_subscriber::fmt::time::OffsetTime;
use tracing_subscriber::layer::SubscriberExt;
use tracing_subscriber::util::SubscriberInitExt;
use tracing_subscriber::EnvFilter;
use vstd::prelude::*;

use crate::offset::MAX_OFFSET_SECONDS;

verus! {

/// Relies on `tracing_subscriber`'s registry, `EnvFilter` and fmt layer,
/// `tracing_opentelemetry`'s trace and metrics layers, and
/// `opentelemetry_appender_tracing2`'s log bridge: composes the five
/// layers in the fixed order console formatter, level filter, trace layer,
/// metrics layer, log bridge, and installs the stack as the process's
/// global subscriber. The console layer renders ANSI color, file, line and
/// target, with timestamps in the given UTC offset; the filter falls back
/// to the given directive when the environment sets none; the trace layer
/// maps error records and events to exceptions and status. Returns false,
/// installing nothing, when a global subscriber is already in place. The
/// offset must lie in the range the `time` crate accepts.
#[verifier::external_body]
pub(crate) fn install_subscriber_stack(
    tracer: opentelemetry_sdk::trace::Tracer,
    meter_provider: opentelemetry_sdk::metrics::SdkMeterProvider,
    logger_provider: &opentelemetry_sdk::logs::LoggerProvider,
    offset_whole_seconds: i32,
    default_directive: &str,
) -> (installed: bool)
    requires
        -MAX_OFFSET_SECONDS <= offset_whole_seconds <= MAX_OFFSET_SECONDS,
{
    let offset = time::UtcOffset::from_whole_seconds(offset_whole_seconds).unwrap();
    let fmt_layer = tracing_subscriber::fmt::layer().with_ansi(true).with_file(true)
        .with_line_number(true).with_target(true).with_timer(OffsetTime::new(offset, Rfc3339));
    let filter = EnvFilter::try_from_default_env().unwrap_or_else(|_| default_directive.into());
    let trace_layer = OpenTelemetryLayer::new(tracer).with_error_records_to_exceptions(true)
        .with_error_fields_to_exceptions(true).with_error_events_to_status(true)
        .with_error_events_to_exceptions(true).with_location(true);
    tracing_subscriber::registry().with(fmt_layer).with(filter).with(trace_layer)
        .with(MetricsLayer::new(meter_provider))
        .with(OpenTelemetryTracingBridge::new(logger_provider)).try_init().is_ok()
}

} // verus!
