//! The error taxonomy of initialization: configuration of an exporter can be
//! rejected by the transport, and installing the subscriber stack can fail
//! when a global subscriber is already in place. Every fallible step of
//! `init` propagates immediately and aborts the remaining steps.

use vstd::prelude::*;

verus! {

/// Why initialization failed. Each exporter variant carries the error the
/// transport reported for that signal kind; the value does not otherwise
/// say which step ran first.
pub enum InitError {
    /// The trace exporter's configuration was rejected.
    TraceExporter(opentelemetry::trace::TraceError),
    /// The metric exporter's configuration was rejected, or the metrics
    /// aggregation setup was inconsistent with the exporter.
    MetricsExporter(opentelemetry_sdk::metrics::MetricError),
    /// The log exporter's configuration was rejected.
    LogExporter(opentelemetry_sdk::logs::LogError),
    /// The subscriber stack could not be installed as the process's global
    /// sink: one was installed already.
    SubscriberInstall,
}

/// The kind of an initialization error, with the carried transport error
/// stripped: what a caller can compare against.
#[derive(Clone, Copy, PartialEq, Eq, Structural, Debug)]
pub enum InitErrorKind {
    TraceExporter,
    MetricsExporter,
    LogExporter,
    SubscriberInstall,
}

impl InitError {
    /// Which step of initialization the error came from.
    pub fn kind(&self) -> (k: InitErrorKind)
        ensures
            k == InitErrorKind::TraceExporter <==> self is TraceExporter,
            k == InitErrorKind::MetricsExporter <==> self is MetricsExporter,
            k == InitErrorKind::LogExporter <==> self is LogExporter,
            k == InitErrorKind::SubscriberInstall <==> self is SubscriberInstall,
    {
        match self {
            InitError::TraceExporter(_) => InitErrorKind::TraceExporter,
            InitError::MetricsExporter(_) => InitErrorKind::MetricsExporter,
            InitError::LogExporter(_) => InitErrorKind::LogExporter,
            InitError::SubscriberInstall => InitErrorKind::SubscriberInstall,
        }
    }
}

/// The trace step's outcome, mapped into the initialization error space: a
/// transport rejection becomes the trace exporter's error, carried
/// unchanged; success passes through unchanged. Whatever the transport
/// decided, the outcome determines the mapped value exactly.
pub fn trace_step(
    r: Result<opentelemetry_sdk::trace::TracerProvider, opentelemetry::trace::TraceError>,
) -> (out: Result<opentelemetry_sdk::trace::TracerProvider, InitError>)
    ensures
        out is Ok <==> r is Ok,
        r matches Ok(p) ==> (out matches Ok(q) && q == p),
        r matches Err(e) ==> (out matches Err(InitError::TraceExporter(e2)) && e2 == e),
{
    match r {
        Ok(p) => Ok(p),
        Err(e) => Err(InitError::TraceExporter(e)),
    }
}

/// The metrics step's outcome, mapped as the trace step's is: when metrics
/// assembly fails, initialization reports exactly the metrics error.
pub fn metrics_step(
    r: Result<opentelemetry_sdk::metrics::SdkMeterProvider, opentelemetry_sdk::metrics::MetricError>,
) -> (out: Result<opentelemetry_sdk::metrics::SdkMeterProvider, InitError>)
    ensures
        out is Ok <==> r is Ok,
        r matches Ok(p) ==> (out matches Ok(q) && q == p),
        r matches Err(e) ==> (out matches Err(InitError::MetricsExporter(e2)) && e2 == e),
{
    match r {
        Ok(p) => Ok(p),
        Err(e) => Err(InitError::MetricsExporter(e)),
    }
}

/// The log step's outcome, mapped as the trace step's is.
pub fn log_step(
    r: Result<opentelemetry_sdk::logs::LoggerProvider, opentelemetry_sdk::logs::LogError>,
) -> (out: Result<opentelemetry_sdk::logs::LoggerProvider, InitError>)
    ensures
        out is Ok <==> r is Ok,
        r matches Ok(p) ==> (out matches Ok(q) && q == p),
        r matches Err(e) ==> (out matches Err(InitError::LogExporter(e2)) && e2 == e),
{
    match r {
        Ok(p) => Ok(p),
        Err(e) => Err(InitError::LogExporter(e)),
    }
}

#[verifier::external_type_specification]
#[verifier::external_body]
pub struct ExTraceError(opentelemetry::trace::TraceError);

#[verifier::external_type_specification]
#[verifier::external_body]
pub struct ExMetricError(opentelemetry_sdk::metrics::MetricError);

#[verifier::external_type_specification]
#[verifier::external_body]
pub struct ExLogError(opentelemetry_sdk::logs::LogError);

} // verus!
