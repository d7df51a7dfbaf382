use easy_init_newrelic_opentelemetry::offset::TimestampOffset;
use easy_init_newrelic_opentelemetry::NewRelicSubscriberInitializer;
use easy_init_newrelic_opentelemetry::NEWRELIC_OTLP_ENDPOINT;

#[test]
fn default_builder_has_no_field_set() {
    let b = NewRelicSubscriberInitializer::default();
    assert!(b.newrelic_otlp_endpoint.is_none());
    assert!(b.newrelic_license_key.is_none());
    assert!(b.newrelic_service_name.is_none());
    assert!(b.host_name.is_none());
    assert!(b.timestamps_offset.is_none());
}

#[test]
fn unset_fields_resolve_to_documented_defaults() {
    let resolved = NewRelicSubscriberInitializer::default().resolve();
    assert_eq!(resolved.endpoint, "https://otlp.nr-data.net");
    assert_eq!(resolved.endpoint, NEWRELIC_OTLP_ENDPOINT);
    assert_eq!(resolved.license_key, "");
    assert_eq!(resolved.service_name, "");
    assert_eq!(resolved.host_name, "");
    assert_eq!(resolved.timestamps_offset.whole_seconds, 0);
}

#[test]
fn set_fields_resolve_to_their_values() {
    let resolved = NewRelicSubscriberInitializer::default()
        .newrelic_otlp_endpoint("http://localhost:4317")
        .newrelic_license_key("1234567890abcdef1234567890abcdef12345678")
        .newrelic_service_name("test-service")
        .host_name("test-host")
        .timestamps_offset(TimestampOffset::from_whole_seconds(3600).unwrap())
        .resolve();
    assert_eq!(resolved.endpoint, "http://localhost:4317");
    assert_eq!(resolved.license_key, "1234567890abcdef1234567890abcdef12345678");
    assert_eq!(resolved.service_name, "test-service");
    assert_eq!(resolved.host_name, "test-host");
    assert_eq!(resolved.timestamps_offset.whole_seconds, 3600);
}

#[test]
fn each_setter_keeps_the_other_fields() {
    let b = NewRelicSubscriberInitializer::default()
        .newrelic_service_name("svc")
        .host_name("box");
    let b = b.newrelic_otlp_endpoint("http://example.invalid:4318");
    let resolved = b.resolve();
    assert_eq!(resolved.service_name, "svc");
    assert_eq!(resolved.host_name, "box");
    assert_eq!(resolved.endpoint, "http://example.invalid:4318");
    assert_eq!(resolved.license_key, "");
}

#[test]
fn later_setter_call_supersedes_earlier_one() {
    let resolved = NewRelicSubscriberInitializer::default()
        .newrelic_service_name("first")
        .newrelic_service_name("second")
        .resolve();
    assert_eq!(resolved.service_name, "second");
}

#[test]
fn resolving_resolved_values_changes_nothing() {
    let first = NewRelicSubscriberInitializer::default()
        .newrelic_service_name("svc")
        .resolve();
    let second = NewRelicSubscriberInitializer::default()
        .newrelic_otlp_endpoint(first.endpoint.as_str())
        .newrelic_license_key(first.license_key.as_str())
        .newrelic_service_name(first.service_name.as_str())
        .host_name(first.host_name.as_str())
        .timestamps_offset(first.timestamps_offset)
        .resolve();
    assert_eq!(second.endpoint, first.endpoint);
    assert_eq!(second.license_key, first.license_key);
    assert_eq!(second.service_name, first.service_name);
    assert_eq!(second.host_name, first.host_name);
    assert_eq!(second.timestamps_offset, first.timestamps_offset);
}
