use easy_init_newrelic_opentelemetry::resource::build_resource_descriptor;

#[test]
fn descriptor_holds_exactly_service_and_host() {
    let d = build_resource_descriptor("test-service", "test-host");
    assert_eq!(d.attributes.len(), 2);
    assert_eq!(d.attributes[0].0, "service.name");
    assert_eq!(d.attributes[0].1, "test-service");
    assert_eq!(d.attributes[1].0, "host.name");
    assert_eq!(d.attributes[1].1, "test-host");
}

#[test]
fn empty_strings_are_valid_attribute_values() {
    let d = build_resource_descriptor("", "");
    assert_eq!(d.attributes.len(), 2);
    assert_eq!(d.attributes[0].0, "service.name");
    assert_eq!(d.attributes[0].1, "");
    assert_eq!(d.attributes[1].0, "host.name");
    assert_eq!(d.attributes[1].1, "");
}

#[test]
fn identical_config_gives_equal_descriptors() {
    let d1 = build_resource_descriptor("svc", "box");
    let d2 = build_resource_descriptor("svc", "box");
    assert_eq!(d1.attributes, d2.attributes);
}
