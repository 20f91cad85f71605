use sentry_kubernetes::guard::PipelineState;
use sentry_kubernetes::processor::{Disposition, FilterRule, Processor};
use sentry_kubernetes::sentry_event::{normalize, RawEvent, SentryEvent};
use sentry_kubernetes::severity::Severity;

/// A passing warning event in `kube-system`, reported by the kubelet.
fn warning_event() -> SentryEvent {
    normalize(raw_warning_event()).unwrap()
}

fn raw_warning_event() -> RawEvent {
    RawEvent {
        kind: Some("Warning".to_string()),
        source_component: Some("kubelet".to_string()),
        source_host: None,
        reason: Some("Failed".to_string()),
        object_kind: Some("Pod".to_string()),
        object_name: Some("coredns-bbbc4b766-fv96b".to_string()),
        object_namespace: Some("kube-system".to_string()),
        metadata_namespace: Some("kube-system".to_string()),
        creation_timestamp: Some(1680992860),
        message: Some("Error: ImagePullBackOff".to_string()),
        metadata: vec![],
    }
}

fn strings(items: &[&str]) -> Vec<String> {
    items.iter().map(|s| s.to_string()).collect()
}

#[test]
fn test_processor_should_send_event() {
    let event = warning_event();
    let processor = Processor::builder()
        .event_levels(strings(&["warning", "error"]))
        .build();
    let mut state = PipelineState::new();

    let outcome = processor.process(&mut state, &event);
    assert_eq!(event.type_, "warning".to_string());
    assert!(outcome.alert.is_some());
}

#[test]
fn exclusion_wins_over_forced_escalation() {
    let mut event = warning_event();
    event.level = Severity::Error;
    let processor = Processor::builder()
        .event_components(strings(&["kubelet"]))
        .event_levels(strings(&["warning", "error"]))
        .build();
    let mut state = PipelineState::new();

    let outcome = processor.process(&mut state, &event);
    assert_eq!(outcome.disposition, Disposition::Filtered(FilterRule::Component));
    assert!(outcome.alert.is_none());
    assert!(outcome.trail.is_none());
    assert_eq!(state.last_accepted, None);
}

#[test]
fn error_events_alert_past_the_accepted_levels() {
    let mut event = warning_event();
    event.level = Severity::Error;
    let processor = Processor::builder()
        .event_levels(strings(&["warning"]))
        .build();
    let mut state = PipelineState::new();

    let outcome = processor.process(&mut state, &event);
    assert_eq!(outcome.disposition, Disposition::Alerted);
    assert!(outcome.alert.is_some());
}

#[test]
fn allow_list_suppresses_other_namespaces() {
    let mut event = warning_event();
    event.namespace = "staging".to_string();
    let processor = Processor::builder()
        .event_namespaces(strings(&["prod"]), vec![])
        .event_levels(strings(&["warning", "error"]))
        .build();
    let mut state = PipelineState::new();

    let outcome = processor.process(&mut state, &event);
    assert_eq!(
        outcome.disposition,
        Disposition::Filtered(FilterRule::NamespaceNotIncluded)
    );
    assert!(outcome.alert.is_none());
    assert!(outcome.trail.is_none());
}

#[test]
fn allow_list_judges_the_defaulted_namespace() {
    let mut raw = raw_warning_event();
    raw.object_namespace = None;
    raw.metadata_namespace = None;
    let event = normalize(raw).unwrap();
    assert_eq!(event.namespace, "default");

    let suppressing = Processor::builder()
        .event_namespaces(strings(&["prod"]), vec![])
        .event_levels(strings(&["warning", "error"]))
        .build();
    let mut state = PipelineState::new();
    let outcome = suppressing.process(&mut state, &event);
    assert_eq!(
        outcome.disposition,
        Disposition::Filtered(FilterRule::NamespaceNotIncluded)
    );

    let admitting = Processor::builder()
        .event_namespaces(strings(&["default"]), vec![])
        .event_levels(strings(&["warning", "error"]))
        .build();
    let outcome = admitting.process(&mut state, &event);
    assert_eq!(outcome.disposition, Disposition::Alerted);
}

#[test]
fn reason_and_namespace_exclusions_suppress() {
    let processor = Processor::builder()
        .event_reasons(strings(&["Failed"]))
        .event_levels(strings(&["warning", "error"]))
        .build();
    let mut state = PipelineState::new();
    let outcome = processor.process(&mut state, &warning_event());
    assert_eq!(outcome.disposition, Disposition::Filtered(FilterRule::Reason));

    let processor = Processor::builder()
        .event_namespaces(vec![], strings(&["kube-system"]))
        .event_levels(strings(&["warning", "error"]))
        .build();
    let outcome = processor.process(&mut state, &warning_event());
    assert_eq!(
        outcome.disposition,
        Disposition::Filtered(FilterRule::NamespaceExcluded)
    );
}

#[test]
fn below_threshold_events_leave_a_trail_but_no_alert() {
    let mut event = warning_event();
    event.level = Severity::Info;
    let processor = Processor::builder()
        .event_levels(strings(&["warning", "error"]))
        .build();
    let mut state = PipelineState::new();

    let outcome = processor.process(&mut state, &event);
    assert_eq!(outcome.disposition, Disposition::BelowThreshold);
    assert!(outcome.alert.is_none());
    let trail = outcome.trail.unwrap();
    assert_eq!(trail.name, "coredns-bbbc4b766-fv96b");
    assert_eq!(trail.namespace, "kube-system");
    assert_eq!(trail.level, Severity::Info);
    assert_eq!(trail.message, Some("Error: ImagePullBackOff".to_string()));
    assert_eq!(trail.timestamp, Some(1680992860));
}

#[test]
fn stale_events_are_dropped_but_still_trailed() {
    let day = 86400;
    let processor = Processor::builder()
        .event_levels(strings(&["warning", "error"]))
        .build();
    let mut state = PipelineState::new();

    let mut first = warning_event();
    first.creation_timestamp = Some(1680992860);
    let outcome = processor.process(&mut state, &first);
    assert_eq!(outcome.disposition, Disposition::Alerted);
    assert_eq!(state.last_accepted, Some(1680992860));

    let mut second = warning_event();
    second.creation_timestamp = Some(1680992860 - day);
    let outcome = processor.process(&mut state, &second);
    assert_eq!(outcome.disposition, Disposition::Stale);
    assert!(outcome.alert.is_none());
    assert!(outcome.trail.is_some());
    assert_eq!(state.last_accepted, Some(1680992860));

    let mut third = warning_event();
    third.creation_timestamp = Some(1680992860);
    let outcome = processor.process(&mut state, &third);
    assert_eq!(outcome.disposition, Disposition::Alerted);
    assert_eq!(state.last_accepted, Some(1680992860));
}

#[test]
fn events_without_a_timestamp_skip_the_guard() {
    let processor = Processor::builder()
        .event_levels(strings(&["warning", "error"]))
        .build();
    let mut state = PipelineState { last_accepted: Some(1680992860) };

    let mut event = warning_event();
    event.creation_timestamp = None;
    let outcome = processor.process(&mut state, &event);
    assert_eq!(outcome.disposition, Disposition::Alerted);
    assert_eq!(state.last_accepted, Some(1680992860));
}
