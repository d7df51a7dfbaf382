use easy_init_newrelic_opentelemetry::errors::InitErrorKind;
use easy_init_newrelic_opentelemetry::NewRelicSubscriberInitializer;

#[test]
fn malformed_endpoint_fails_at_the_trace_step() {
    let rt = tokio::runtime::Runtime::new().unwrap();
    let _guard = rt.enter();
    // The exporter factories run in order trace, metrics, logs, and each
    // propagates its transport's rejection immediately; a URL the
    // transport cannot parse therefore surfaces as the trace exporter's
    // error, and no subscriber is installed.
    let r = NewRelicSubscriberInitializer::default()
        .newrelic_otlp_endpoint("not a url at all")
        .init();
    match r {
        Err(e) => assert_eq!(e.kind(), InitErrorKind::TraceExporter),
        Ok(()) => panic!("initialization accepted a malformed endpoint"),
    }
}
