use easy_init_newrelic_opentelemetry::exporters::{signal_endpoint, SignalKind};
use easy_init_newrelic_opentelemetry::NEWRELIC_OTLP_ENDPOINT;

#[test]
fn trace_endpoint_is_endpoint_plus_traces_path() {
    let url = signal_endpoint("http://localhost:4317", SignalKind::Trace);
    assert_eq!(url, "http://localhost:4317/v1/traces");
}

#[test]
fn metric_endpoint_is_endpoint_plus_metrics_path() {
    let url = signal_endpoint("http://localhost:4317", SignalKind::Metric);
    assert_eq!(url, "http://localhost:4317/v1/metrics");
}

#[test]
fn log_endpoint_is_endpoint_plus_logs_path() {
    let url = signal_endpoint("http://localhost:4317", SignalKind::Log);
    assert_eq!(url, "http://localhost:4317/v1/logs");
}

#[test]
fn default_endpoint_gets_the_same_paths() {
    assert_eq!(
        signal_endpoint(NEWRELIC_OTLP_ENDPOINT, SignalKind::Trace),
        "https://otlp.nr-data.net/v1/traces"
    );
    assert_eq!(
        signal_endpoint(NEWRELIC_OTLP_ENDPOINT, SignalKind::Metric),
        "https://otlp.nr-data.net/v1/metrics"
    );
    assert_eq!(
        signal_endpoint(NEWRELIC_OTLP_ENDPOINT, SignalKind::Log),
        "https://otlp.nr-data.net/v1/logs"
    );
}
