use easy_init_newrelic_opentelemetry::NewRelicSubscriberInitializer;

#[test]
fn init_with_no_field_set_uses_defaults_and_succeeds() {
    let rt = tokio::runtime::Runtime::new().unwrap();
    let _guard = rt.enter();
    let r = NewRelicSubscriberInitializer::default().init();
    assert!(r.is_ok());
}
