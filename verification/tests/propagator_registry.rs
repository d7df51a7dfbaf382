use easy_init_newrelic_opentelemetry::propagators::{
    resolve_and_install_propagators, resolve_propagators, PropagatorKind, DEFAULT_PROPAGATORS,
};
use opentelemetry::propagation::TextMapPropagator;

#[test]
fn default_list_resolves_to_tracecontext_then_baggage() {
    let kinds = resolve_propagators(DEFAULT_PROPAGATORS);
    assert_eq!(kinds, vec![PropagatorKind::TraceContext, PropagatorKind::Baggage]);
}

#[test]
fn resolution_keeps_input_order() {
    let kinds = resolve_propagators("baggage,tracecontext");
    assert_eq!(kinds, vec![PropagatorKind::Baggage, PropagatorKind::TraceContext]);
}

#[test]
fn unrecognized_names_resolve_to_nothing() {
    let kinds = resolve_propagators("foo,bar");
    assert_eq!(kinds, Vec::new());
}

#[test]
fn unrecognized_names_among_recognized_ones_are_dropped() {
    let kinds = resolve_propagators("foo,baggage,bar,tracecontext");
    assert_eq!(kinds, vec![PropagatorKind::Baggage, PropagatorKind::TraceContext]);
}

#[test]
fn names_are_trimmed_and_lower_cased() {
    let kinds = resolve_propagators(" TraceContext ,\tBAGGAGE ");
    assert_eq!(kinds, vec![PropagatorKind::TraceContext, PropagatorKind::Baggage]);
}

#[test]
fn empty_list_resolves_to_nothing() {
    assert_eq!(resolve_propagators(""), Vec::new());
    assert_eq!(resolve_propagators(","), Vec::new());
    assert_eq!(resolve_propagators("   "), Vec::new());
}

#[test]
fn single_baggage_resolves_to_one_member() {
    let kinds = resolve_propagators("baggage");
    assert_eq!(kinds, vec![PropagatorKind::Baggage]);
}

#[test]
fn installation_happens_only_for_a_nonempty_set() {
    // A recognized single name is composed and installed as the sole
    // global propagator.
    let (kinds, installed) = resolve_and_install_propagators("baggage");
    assert_eq!(kinds, vec![PropagatorKind::Baggage]);
    assert!(installed);
    let fields: Vec<String> = opentelemetry::global::get_text_map_propagator(|p| {
        p.fields().map(|f| f.to_string()).collect()
    });
    assert_eq!(fields, vec!["baggage".to_string()]);

    // A list of entirely unrecognized names is a no-op: the propagator
    // installed above stays active.
    let (kinds, installed) = resolve_and_install_propagators("foo,bar");
    assert_eq!(kinds, Vec::new());
    assert!(!installed);
    let fields: Vec<String> = opentelemetry::global::get_text_map_propagator(|p| {
        p.fields().map(|f| f.to_string()).collect()
    });
    assert_eq!(fields, vec!["baggage".to_string()]);
}
