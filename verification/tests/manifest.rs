use kply::ids::{KubernetesResourceRef, SessionId, SessionName, WorkloadRef};
use kply::manifest::{
    sandbox_deployment_manifest, sandbox_service_manifest, sandbox_service_manifest_with_port,
    SandboxManifestError, SandboxServicePortConfig,
};
use kply::metadata::MetadataEntry;
use kply::session::{SessionPlan, SessionPolicy};
use kply::values::ImageRef;

const REQUIRED_AUDIT_ANNOTATIONS: [&str; 3] =
    ["kply.dev/image", "kply.dev/route-strategy", "kply.dev/workload"];

fn test_session_plan() -> SessionPlan {
    SessionPlan::new(
        SessionId::new("session-123").expect("session id"),
        SessionName::new("checkout-test").expect("session name"),
        WorkloadRef::new("checkout", "Deployment", "checkout-api").expect("workload ref"),
        ImageRef::new("registry.example.com/checkout/api:v2").expect("image ref"),
        SessionPolicy::sandbox(),
    )
}

fn test_labeled_session_plan() -> SessionPlan {
    test_session_plan()
        .with_planned_resources(vec![
            KubernetesResourceRef::new("checkout", "Service", "session-123-service")
                .expect("planned service"),
            KubernetesResourceRef::new("checkout", "Deployment", "session-123-workload")
                .expect("planned workload"),
        ])
        .with_planned_labels(vec![
            MetadataEntry::new_label("app.kubernetes.io/component", "api").expect("label"),
            MetadataEntry::new_label("kply.dev/app", "checkout").expect("label"),
            MetadataEntry::new_label("kply.dev/managed-by", "kply").expect("label"),
            MetadataEntry::new_label("kply.dev/session-id", "session-123").expect("label"),
            MetadataEntry::new_label("kply.dev/session-name", "checkout-test").expect("label"),
            MetadataEntry::new_label("pod-template-hash", "abc123").expect("label"),
        ])
        .expect("planned labels")
        .with_planned_annotations(vec![
            MetadataEntry::new("kply.dev/image", "registry.example.com/checkout/api:v2")
                .expect("annotation"),
            MetadataEntry::new("kply.dev/route-strategy", "header").expect("annotation"),
            MetadataEntry::new("kply.dev/workload", "checkout/Deployment/checkout-api")
                .expect("annotation"),
            MetadataEntry::new("nginx.ingress.kubernetes.io/rewrite-target", "/")
                .expect("annotation"),
        ])
}

fn test_ownership_labels() -> Vec<MetadataEntry> {
    vec![
        MetadataEntry::new_label("kply.dev/app", "checkout").expect("label"),
        MetadataEntry::new_label("kply.dev/managed-by", "kply").expect("label"),
        MetadataEntry::new_label("kply.dev/session-id", "session-123").expect("label"),
        MetadataEntry::new_label("kply.dev/session-name", "checkout-test").expect("label"),
    ]
}

fn test_audit_annotations_except(missing_key: &str) -> Vec<MetadataEntry> {
    let mut annotations = vec![
        MetadataEntry::new("kply.dev/image", "registry.example.com/checkout/api:v2")
            .expect("annotation"),
        MetadataEntry::new("kply.dev/route-strategy", "header").expect("annotation"),
        MetadataEntry::new("kply.dev/workload", "checkout/Deployment/checkout-api")
            .expect("annotation"),
    ];
    annotations.retain(|entry| entry.key() != missing_key);
    annotations
}

fn entry<'a>(entries: &'a [MetadataEntry], key: &str) -> Option<&'a str> {
    entries.iter().find(|entry| entry.key() == key).map(|entry| entry.value())
}

fn keys(entries: &[MetadataEntry]) -> Vec<&str> {
    entries.iter().map(|entry| entry.key()).collect()
}

#[test]
fn generates_sandbox_deployment_manifest() {
    let plan = test_labeled_session_plan();
    let manifest = sandbox_deployment_manifest(&plan).expect("deployment manifest");

    assert_eq!(manifest.api_version, "apps/v1");
    assert_eq!(manifest.kind, "Deployment");
    assert_eq!(manifest.metadata.name, "session-123-workload");
    assert_eq!(manifest.metadata.namespace, "checkout");
    assert_eq!(
        keys(&manifest.metadata.labels),
        vec![
            "app.kubernetes.io/component",
            "kply.dev/app",
            "kply.dev/managed-by",
            "kply.dev/session-id",
            "kply.dev/session-name",
        ]
    );
    assert_eq!(
        keys(&manifest.metadata.annotations),
        vec!["kply.dev/image", "kply.dev/route-strategy", "kply.dev/workload"]
    );
    assert_eq!(manifest.spec.replicas, 1);
    assert_eq!(
        keys(&manifest.spec.selector.match_labels),
        keys(&manifest.metadata.labels)
    );
    assert_eq!(
        keys(&manifest.spec.template.metadata.labels),
        keys(&manifest.metadata.labels)
    );
    assert_eq!(manifest.spec.template.spec.containers.len(), 1);
    assert_eq!(manifest.spec.template.spec.containers[0].name, "checkout-test");
    assert_eq!(
        manifest.spec.template.spec.containers[0].image,
        "registry.example.com/checkout/api:v2"
    );
}

#[test]
fn generates_sandbox_service_manifest() {
    let plan = test_labeled_session_plan();
    let manifest = sandbox_service_manifest(&plan).expect("service manifest");

    assert_eq!(manifest.api_version, "v1");
    assert_eq!(manifest.kind, "Service");
    assert_eq!(manifest.metadata.name, "session-123-service");
    assert_eq!(manifest.metadata.namespace, "checkout");
    assert_eq!(
        keys(&manifest.spec.selector),
        keys(&manifest.metadata.labels)
    );
    assert_eq!(manifest.spec.ports.len(), 1);
    assert_eq!(manifest.spec.ports[0].name, "http");
    assert_eq!(manifest.spec.ports[0].port, 80);
    assert_eq!(manifest.spec.ports[0].target_port, 80);
}

#[test]
fn generates_sandbox_service_manifest_with_explicit_port() {
    let plan = test_labeled_session_plan();
    let manifest = sandbox_service_manifest_with_port(
        &plan,
        SandboxServicePortConfig::new("https", 443, 8443).expect("port config"),
    )
    .expect("service manifest");

    assert_eq!(manifest.spec.ports.len(), 1);
    assert_eq!(manifest.spec.ports[0].name, "https");
    assert_eq!(manifest.spec.ports[0].port, 443);
    assert_eq!(manifest.spec.ports[0].target_port, 8443);
}

#[test]
fn preserves_safe_app_labels_in_sandbox_deployment_manifest() {
    let plan = test_labeled_session_plan();
    let manifest = sandbox_deployment_manifest(&plan).expect("deployment manifest");

    assert_eq!(
        entry(&manifest.metadata.labels, "app.kubernetes.io/component"),
        Some("api")
    );
    assert_eq!(
        entry(&manifest.spec.template.metadata.labels, "app.kubernetes.io/component"),
        Some("api")
    );
    assert!(entry(&manifest.metadata.labels, "pod-template-hash").is_none());
    assert!(entry(&manifest.spec.template.metadata.labels, "pod-template-hash").is_none());
}

#[test]
fn preserves_safe_app_labels_in_sandbox_service_manifest() {
    let plan = test_labeled_session_plan();
    let manifest = sandbox_service_manifest(&plan).expect("service manifest");

    assert_eq!(
        entry(&manifest.metadata.labels, "app.kubernetes.io/component"),
        Some("api")
    );
    assert_eq!(
        entry(&manifest.spec.selector, "app.kubernetes.io/component"),
        Some("api")
    );
    assert!(entry(&manifest.metadata.labels, "pod-template-hash").is_none());
    assert!(entry(&manifest.spec.selector, "pod-template-hash").is_none());
}

#[test]
fn filters_unsafe_annotations_from_sandbox_deployment_manifest() {
    let plan = test_labeled_session_plan();
    let manifest = sandbox_deployment_manifest(&plan).expect("deployment manifest");

    assert!(
        entry(&manifest.metadata.annotations, "nginx.ingress.kubernetes.io/rewrite-target")
            .is_none()
    );
    assert!(entry(
        &manifest.spec.template.metadata.annotations,
        "nginx.ingress.kubernetes.io/rewrite-target"
    )
    .is_none());
}

#[test]
fn filters_unsafe_annotations_from_sandbox_service_manifest() {
    let plan = test_labeled_session_plan();
    let manifest = sandbox_service_manifest(&plan).expect("service manifest");

    assert!(
        entry(&manifest.metadata.annotations, "nginx.ingress.kubernetes.io/rewrite-target")
            .is_none()
    );
}

#[test]
fn rejects_sandbox_deployment_manifest_without_deployment_resource() {
    let plan = test_session_plan().with_planned_resources(vec![KubernetesResourceRef::new(
        "checkout",
        "Service",
        "session-123-service",
    )
    .expect("planned service")]);

    let error = sandbox_deployment_manifest(&plan).expect_err("deployment should be required");

    assert_eq!(error, SandboxManifestError::MissingDeploymentResource);
    assert_eq!(
        error.to_string(),
        "session plan does not include a Deployment resource"
    );
}

#[test]
fn rejects_sandbox_deployment_manifest_with_multiple_deployment_resources() {
    let plan = test_session_plan().with_planned_resources(vec![
        KubernetesResourceRef::new("checkout", "Deployment", "session-123-alpha")
            .expect("first deployment"),
        KubernetesResourceRef::new("checkout", "Deployment", "session-123-beta")
            .expect("second deployment"),
    ]);

    let error = sandbox_deployment_manifest(&plan).expect_err("deployment should be unique");

    assert_eq!(error, SandboxManifestError::MultipleDeploymentResources);
    assert_eq!(
        error.to_string(),
        "session plan includes multiple Deployment resources"
    );
}

#[test]
fn rejects_sandbox_deployment_manifest_without_selector_labels() {
    let plan = test_session_plan().with_planned_resources(vec![KubernetesResourceRef::new(
        "checkout",
        "Deployment",
        "session-123-workload",
    )
    .expect("planned deployment")]);

    let error = sandbox_deployment_manifest(&plan).expect_err("labels should be required");

    assert_eq!(error, SandboxManifestError::MissingSelectorLabels);
    assert_eq!(
        error.to_string(),
        "session plan does not include selector labels"
    );
}

#[test]
fn rejects_sandbox_deployment_manifest_without_ownership_labels() {
    let plan = test_session_plan()
        .with_planned_resources(vec![KubernetesResourceRef::new(
            "checkout",
            "Deployment",
            "session-123-workload",
        )
        .expect("planned deployment")])
        .with_planned_labels(vec![
            MetadataEntry::new_label("kply.dev/app", "checkout").expect("label"),
            MetadataEntry::new_label("kply.dev/managed-by", "kply").expect("label"),
            MetadataEntry::new_label("kply.dev/session-id", "session-123").expect("label"),
        ])
        .expect("planned labels");

    let error = sandbox_deployment_manifest(&plan).expect_err("ownership should be required");

    assert_eq!(
        error,
        SandboxManifestError::MissingOwnershipLabel {
            key: "kply.dev/session-name"
        }
    );
    assert_eq!(
        error.to_string(),
        "session plan does not include ownership label `kply.dev/session-name`"
    );
}

#[test]
fn rejects_sandbox_service_manifest_without_ownership_labels() {
    let plan = test_session_plan()
        .with_planned_resources(vec![KubernetesResourceRef::new(
            "checkout",
            "Service",
            "session-123-service",
        )
        .expect("planned service")])
        .with_planned_labels(vec![
            MetadataEntry::new_label("kply.dev/app", "checkout").expect("label"),
            MetadataEntry::new_label("kply.dev/managed-by", "kply").expect("label"),
            MetadataEntry::new_label("kply.dev/session-id", "session-123").expect("label"),
        ])
        .expect("planned labels");

    let error = sandbox_service_manifest(&plan).expect_err("ownership should be required");

    assert_eq!(
        error,
        SandboxManifestError::MissingOwnershipLabel {
            key: "kply.dev/session-name"
        }
    );
    assert_eq!(
        error.to_string(),
        "session plan does not include ownership label `kply.dev/session-name`"
    );
}

#[test]
fn rejects_sandbox_deployment_manifest_without_audit_annotations() {
    for missing_key in REQUIRED_AUDIT_ANNOTATIONS {
        let plan = test_session_plan()
            .with_planned_resources(vec![KubernetesResourceRef::new(
                "checkout",
                "Deployment",
                "session-123-workload",
            )
            .expect("planned deployment")])
            .with_planned_labels(test_ownership_labels())
            .expect("planned labels")
            .with_planned_annotations(test_audit_annotations_except(missing_key));

        let error = sandbox_deployment_manifest(&plan)
            .expect_err("audit annotations should be required");

        assert_eq!(
            error,
            SandboxManifestError::MissingAuditAnnotation { key: missing_key }
        );
        assert_eq!(
            error.to_string(),
            format!("session plan does not include audit annotation `{missing_key}`")
        );
    }
}

#[test]
fn rejects_sandbox_service_manifest_without_audit_annotations() {
    for missing_key in REQUIRED_AUDIT_ANNOTATIONS {
        let plan = test_session_plan()
            .with_planned_resources(vec![KubernetesResourceRef::new(
                "checkout",
                "Service",
                "session-123-service",
            )
            .expect("planned service")])
            .with_planned_labels(test_ownership_labels())
            .expect("planned labels")
            .with_planned_annotations(test_audit_annotations_except(missing_key));

        let error =
            sandbox_service_manifest(&plan).expect_err("audit annotations should be required");

        assert_eq!(
            error,
            SandboxManifestError::MissingAuditAnnotation { key: missing_key }
        );
        assert_eq!(
            error.to_string(),
            format!("session plan does not include audit annotation `{missing_key}`")
        );
    }
}

#[test]
fn rejects_sandbox_service_manifest_without_service_resource() {
    let plan = test_session_plan().with_planned_resources(vec![KubernetesResourceRef::new(
        "checkout",
        "Deployment",
        "session-123-workload",
    )
    .expect("planned deployment")]);

    let error = sandbox_service_manifest(&plan).expect_err("service should be required");

    assert_eq!(error, SandboxManifestError::MissingServiceResource);
    assert_eq!(
        error.to_string(),
        "session plan does not include a Service resource"
    );
}

#[test]
fn rejects_sandbox_service_manifest_with_multiple_service_resources() {
    let plan = test_session_plan().with_planned_resources(vec![
        KubernetesResourceRef::new("checkout", "Service", "session-123-alpha")
            .expect("first service"),
        KubernetesResourceRef::new("checkout", "Service", "session-123-beta")
            .expect("second service"),
    ]);

    let error = sandbox_service_manifest(&plan).expect_err("service should be unique");

    assert_eq!(error, SandboxManifestError::MultipleServiceResources);
    assert_eq!(
        error.to_string(),
        "session plan includes multiple Service resources"
    );
}

#[test]
fn rejects_sandbox_service_manifest_without_selector_labels() {
    let plan = test_session_plan().with_planned_resources(vec![KubernetesResourceRef::new(
        "checkout",
        "Service",
        "session-123-service",
    )
    .expect("planned service")]);

    let error = sandbox_service_manifest(&plan).expect_err("labels should be required");

    assert_eq!(error, SandboxManifestError::MissingSelectorLabels);
    assert_eq!(
        error.to_string(),
        "session plan does not include selector labels"
    );
}

#[test]
fn rejects_empty_sandbox_service_port_name() {
    let error =
        SandboxServicePortConfig::new("", 80, 80).expect_err("empty name should be rejected");

    assert_eq!(error, SandboxManifestError::InvalidServicePortName);
    assert_eq!(
        error.to_string(),
        "service port name must be a valid Kubernetes DNS label"
    );
}

#[test]
fn rejects_invalid_sandbox_service_port_names() {
    for name in ["HTTP_API", "foo bar", "-http", "http-"] {
        let error = SandboxServicePortConfig::new(name, 80, 80)
            .expect_err("invalid name should be rejected");

        assert_eq!(error, SandboxManifestError::InvalidServicePortName);
    }

    let long_name = "a".repeat(64);
    let error = SandboxServicePortConfig::new(&long_name, 80, 80)
        .expect_err("long name should be rejected");

    assert_eq!(error, SandboxManifestError::InvalidServicePortName);
}

#[test]
fn rejects_invalid_sandbox_service_port_values() {
    let error =
        SandboxServicePortConfig::new("http", 0, 80).expect_err("port should be rejected");
    assert_eq!(
        error,
        SandboxManifestError::InvalidServicePort {
            field: "port",
            value: 0
        }
    );
    assert_eq!(
        error.to_string(),
        "service port must be between 1 and 65535, got 0"
    );

    let error = SandboxServicePortConfig::new("http", 80, 65536)
        .expect_err("target port should be rejected");
    assert_eq!(
        error,
        SandboxManifestError::InvalidServicePort {
            field: "targetPort",
            value: 65536
        }
    );
    assert_eq!(
        error.to_string(),
        "service targetPort must be between 1 and 65535, got 65536"
    );
}

#[test]
fn accepts_service_port_boundaries() {
    let config = SandboxServicePortConfig::new("a", 1, 65535).expect("boundary ports");
    assert_eq!(config.name(), "a");
    assert_eq!(config.port(), 1);
    assert_eq!(config.target_port(), 65535);
    let default = SandboxServicePortConfig::http_default();
    assert_eq!(default.name(), "http");
    assert_eq!(default.port(), 80);
    assert_eq!(default.target_port(), 80);
}

#[test]
fn sandbox_service_selects_the_sandbox_deployment_pods() {
    let plan = test_labeled_session_plan();
    let deployment = sandbox_deployment_manifest(&plan).expect("deployment manifest");
    let service = sandbox_service_manifest_with_port(
        &plan,
        SandboxServicePortConfig::new("metrics", 9090, 9091).expect("port config"),
    )
    .expect("service manifest");
    let pod_labels = &deployment.spec.template.metadata.labels;
    assert!(!pod_labels.is_empty());
    assert_eq!(&deployment.spec.selector.match_labels, pod_labels);
    assert_eq!(&service.spec.selector, pod_labels);
}

#[test]
fn default_service_manifest_uses_the_default_http_port() {
    let plan = test_labeled_session_plan();
    assert_eq!(
        sandbox_service_manifest(&plan).expect("service manifest"),
        sandbox_service_manifest_with_port(&plan, SandboxServicePortConfig::http_default())
            .expect("service manifest")
    );
    let plain = test_session_plan();
    assert_eq!(
        sandbox_service_manifest(&plain).unwrap_err(),
        sandbox_service_manifest_with_port(&plain, SandboxServicePortConfig::http_default()).unwrap_err()
    );
}
