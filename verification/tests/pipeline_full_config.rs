use easy_init_newrelic_opentelemetry::offset::TimestampOffset;
use easy_init_newrelic_opentelemetry::NewRelicSubscriberInitializer;

#[test]
fn full_config_init_succeeds_and_installs_the_pipeline() {
    let rt = tokio::runtime::Runtime::new().unwrap();
    let _guard = rt.enter();
    let r = NewRelicSubscriberInitializer::default()
        .newrelic_otlp_endpoint("http://localhost:4317")
        .newrelic_license_key("1234567890abcdef1234567890abcdef12345678")
        .newrelic_service_name("test-service")
        .host_name("test-host")
        .timestamps_offset(TimestampOffset::utc())
        .init();
    assert!(r.is_ok());

    // Installation is terminal for the process: a second initialization
    // finds the global subscriber occupied.
    let again = NewRelicSubscriberInitializer::default()
        .newrelic_otlp_endpoint("http://localhost:4317")
        .init();
    assert!(again.is_err());
}
