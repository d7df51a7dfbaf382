use easy_init_newrelic_opentelemetry::providers::{
    init_logger_provider, init_metrics, init_tracer_provider,
};

#[test]
fn providers_assemble_for_a_wellformed_endpoint() {
    let rt = tokio::runtime::Runtime::new().unwrap();
    let _guard = rt.enter();
    let t = init_tracer_provider("http://localhost:4317", "key", "svc", "box");
    assert!(t.is_ok());
    let m = init_metrics("http://localhost:4317", "key", "svc", "box");
    assert!(m.is_ok());
    let l = init_logger_provider("http://localhost:4317", "key", "svc", "box");
    assert!(l.is_ok());
}

#[test]
fn transport_rejection_comes_back_as_the_signal_error() {
    let rt = tokio::runtime::Runtime::new().unwrap();
    let _guard = rt.enter();
    assert!(init_tracer_provider("not a url at all", "key", "svc", "box").is_err());
    assert!(init_metrics("not a url at all", "key", "svc", "box").is_err());
    assert!(init_logger_provider("not a url at all", "key", "svc", "box").is_err());
}
