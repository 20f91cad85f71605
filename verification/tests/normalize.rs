use sentry_kubernetes::sentry_event::{normalize, RawEvent};
use sentry_kubernetes::severity::Severity;

/// The raw shape of the warning event the cluster emits when an image pull
/// fails: the same event the processor tests run through the pipeline.
fn image_pull_event() -> RawEvent {
    RawEvent {
        kind: Some("Warning".to_string()),
        source_component: Some("kubelet".to_string()),
        source_host: None,
        reason: Some("Failed".to_string()),
        object_kind: Some("Pod".to_string()),
        object_name: Some("coredns-bbbc4b766-fv96b".to_string()),
        object_namespace: Some("kube-system".to_string()),
        metadata_namespace: Some("kube-system".to_string()),
        creation_timestamp: Some(1680992860),
        message: Some("Error: ImagePullBackOff".to_string()),
        metadata: vec![
            (
                "creationTimestamp".to_string(),
                "2023-04-08T22:27:40Z".to_string(),
            ),
            (
                "name".to_string(),
                "coredns-bbbc4b766-fv96b.17541619a910bfcd".to_string(),
            ),
            ("namespace".to_string(), "kube-system".to_string()),
            ("resourceVersion".to_string(), "355929325".to_string()),
            (
                "uid".to_string(),
                "bd42879f-7761-4fa0-b802-dfcf8502c44e".to_string(),
            ),
        ],
    }
}

#[test]
fn test_from_kube_event_to_sentry_event() {
    let raw = RawEvent {
        kind: Some("Warning".to_string()),
        source_component: Some("kubelet".to_string()),
        source_host: None,
        reason: Some("Failed".to_string()),
        object_kind: Some("Pod".to_string()),
        object_name: Some("coredns-bbbc4b766-fv96b".to_string()),
        object_namespace: Some("kube-system".to_string()),
        metadata_namespace: Some("kube-system".to_string()),
        creation_timestamp: Some(1680992860),
        message: Some("Error: ImagePullBackOff".to_string()),
        metadata: vec![
            (
                "fieldPath".to_string(),
                "spec.containers{coredns}".to_string(),
            ),
            ("resourceVersion".to_string(), "355929156".to_string()),
            (
                "uid".to_string(),
                "f4f1a725-a5e8-4cdb-8a6f-cd02917a9056".to_string(),
            ),
            (
                "lastTimestamp".to_string(),
                "2023-04-08T22:28:03Z".to_string(),
            ),
        ],
    };
    let event = normalize(raw).unwrap();
    assert_eq!(event.level, Severity::Warning);
    assert_eq!(event.level.label(), "warning");
    assert_eq!(event.type_, "warning");
}

#[test]
fn normalize_defaults_missing_fields() {
    let raw = RawEvent {
        kind: Some("Normal".to_string()),
        source_component: None,
        source_host: None,
        reason: None,
        object_kind: None,
        object_name: None,
        object_namespace: None,
        metadata_namespace: None,
        creation_timestamp: None,
        message: None,
        metadata: vec![],
    };
    let event = normalize(raw).unwrap();
    assert_eq!(event.type_, "normal");
    assert_eq!(event.level, Severity::Info);
    assert_eq!(event.component, "");
    assert_eq!(event.source_host, "n/a");
    assert_eq!(event.reason, "");
    assert_eq!(event.namespace, "default");
    assert_eq!(event.kind, None);
    assert_eq!(event.name, "");
    assert_eq!(event.message, None);
    assert_eq!(event.creation_timestamp, None);
    assert!(event.node_labels.is_empty());
}

#[test]
fn normalize_lowercases_the_kind() {
    let mut raw = image_pull_event();
    raw.kind = Some("NORMAL".to_string());
    let event = normalize(raw).unwrap();
    assert_eq!(event.type_, "normal");
    assert_eq!(event.level, Severity::Info);
}

#[test]
fn normalize_rejects_unknown_kinds() {
    let mut raw = image_pull_event();
    raw.kind = Some("Bogus".to_string());
    let err = normalize(raw).unwrap_err();
    assert_eq!(err.event_kind, "bogus");
}

#[test]
fn normalize_rejects_a_missing_kind() {
    let mut raw = image_pull_event();
    raw.kind = None;
    let err = normalize(raw).unwrap_err();
    assert_eq!(err.event_kind, "");
}

#[test]
fn normalize_prefers_the_involved_objects_namespace() {
    let mut raw = image_pull_event();
    raw.object_namespace = Some("prod".to_string());
    raw.metadata_namespace = Some("staging".to_string());
    let event = normalize(raw).unwrap();
    assert_eq!(event.namespace, "prod");

    let mut raw = image_pull_event();
    raw.object_namespace = None;
    raw.metadata_namespace = Some("staging".to_string());
    let event = normalize(raw).unwrap();
    assert_eq!(event.namespace, "staging");

    let mut raw = image_pull_event();
    raw.object_namespace = Some("".to_string());
    raw.metadata_namespace = Some("".to_string());
    let event = normalize(raw).unwrap();
    assert_eq!(event.namespace, "default");
}

#[test]
fn normalize_is_idempotent() {
    let first = normalize(image_pull_event()).unwrap();
    let second = normalize(image_pull_event()).unwrap();
    assert_eq!(first, second);
}

#[test]
fn obj_name_joins_namespace_and_name() {
    let event = normalize(image_pull_event()).unwrap();
    assert_eq!(event.obj_name(), "kube-system/coredns-bbbc4b766-fv96b");

    let mut raw = image_pull_event();
    raw.object_name = None;
    let event = normalize(raw).unwrap();
    assert_eq!(event.obj_name(), "kube-system");
}

#[test]
fn metadata_map_drops_the_field_manager_history() {
    let mut raw = image_pull_event();
    raw.metadata = vec![
        ("creationTimestamp".to_string(), "2023-04-08T22:27:40Z".to_string()),
        ("managedFields".to_string(), "large bookkeeping".to_string()),
        ("namespace".to_string(), "kube-system".to_string()),
    ];
    let event = normalize(raw).unwrap();
    assert_eq!(
        event.metadata_map(),
        vec![
            ("creationTimestamp".to_string(), "2023-04-08T22:27:40Z".to_string()),
            ("namespace".to_string(), "kube-system".to_string()),
        ]
    );
}
