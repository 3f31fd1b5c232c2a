use kply::ids::WorkloadRef;
use kply::k8s::{
    container_resource_summary, ResourceQuantitySummary,
    probe_handler_summary, GrpcHandler, HttpGetHandler, ProbeHandlerSummary, ProbeHandlers,
    TcpSocketHandler,
    format_int_or_string, ingress_backend_summary, PortValue,
    owned_pods, select_session, sort_summaries, NamespaceSummary, SessionSummary,
    ApiFailure, ApiStatus, KubeconfigFailure, MutationError,
    deployment_rollout_phase, find_entry, pod_is_owned_by_workload, require_deployment_workload,
    session_label_selector, session_summary_from_metadata, DeploymentRolloutPhase,
    DeploymentRolloutSummary, DeploymentSummary, DiscoveryError, DiscoveryErrorCode,
    LabelSelectorEntry, MutationErrorCode, OwnerReferenceSummary, PodSummary,
};

fn deployment(namespace: &str, name: &str) -> DeploymentSummary {
    DeploymentSummary {
        namespace: namespace.to_owned(),
        name: name.to_owned(),
        replicas: Some(3),
        available_replicas: None,
        ready_replicas: None,
        updated_replicas: None,
        images: Vec::new(),
        pod_template_labels: vec![LabelSelectorEntry {
            key: "app".to_owned(),
            value: name.to_owned(),
        }],
        probes: Vec::new(),
        resources: Vec::new(),
        rollout: DeploymentRolloutSummary {
            phase: DeploymentRolloutPhase::Progressing,
            generation: Some(2),
            observed_generation: None,
            desired_replicas: Some(3),
            ready_replicas: None,
            available_replicas: None,
            updated_replicas: None,
            unavailable_replicas: None,
            conditions: Vec::new(),
        },
    }
}

fn entry(key: &str, value: &str) -> LabelSelectorEntry {
    LabelSelectorEntry {
        key: key.to_owned(),
        value: value.to_owned(),
    }
}

#[test]
fn renders_deployment_rollout_phase_strings() {
    assert_eq!(DeploymentRolloutPhase::Unknown.as_str(), "unknown");
    assert_eq!(DeploymentRolloutPhase::Progressing.as_str(), "progressing");
    assert_eq!(DeploymentRolloutPhase::Unavailable.as_str(), "unavailable");
    assert_eq!(DeploymentRolloutPhase::Complete.as_str(), "complete");
}

#[test]
fn reports_missing_deployment_workload() {
    let workload = WorkloadRef::new("shop", "Deployment", "checkout-api").expect("workload");

    let error = require_deployment_workload(&[], &workload)
        .expect_err("missing workload should report a discovery error");

    assert_eq!(error.code, DiscoveryErrorCode::MissingWorkload);
    assert_eq!(
        error.message,
        "workload shop/Deployment/checkout-api was not found during read-only discovery"
    );
}

#[test]
fn reports_wrong_kind_workload() {
    let deployment = deployment("shop", "checkout-api");
    let workload = WorkloadRef::new("shop", "StatefulSet", "checkout-api").expect("workload");

    let error = require_deployment_workload(&[deployment], &workload)
        .expect_err("wrong workload kind should report a discovery error");

    assert_eq!(error.code, DiscoveryErrorCode::MissingWorkload);
    assert!(
        error.message.contains("StatefulSet"),
        "wrong-kind workload error should mention the requested kind"
    );
}

#[test]
fn finds_first_matching_deployment_workload() {
    let deployments = vec![
        deployment("payments", "checkout-api"),
        deployment("shop", "checkout-api"),
        deployment("shop", "cart"),
    ];
    let workload = WorkloadRef::new("shop", "Deployment", "checkout-api").expect("workload");

    let found = require_deployment_workload(&deployments, &workload).expect("deployment");

    assert_eq!(found.namespace, "shop");
    assert_eq!(found.name, "checkout-api");
}

#[test]
fn classifies_complete_deployment_rollout() {
    assert_eq!(
        deployment_rollout_phase(Some(7), Some(7), Some(3), Some(3), Some(3), Some(3), Some(0)),
        DeploymentRolloutPhase::Complete
    );
}

#[test]
fn classifies_unavailable_deployment_rollout() {
    assert_eq!(
        deployment_rollout_phase(Some(2), Some(2), Some(3), Some(0), Some(0), Some(3), Some(3)),
        DeploymentRolloutPhase::Unavailable
    );
}

#[test]
fn classifies_unknown_and_progressing_rollouts() {
    assert_eq!(
        deployment_rollout_phase(None, None, None, None, None, None, None),
        DeploymentRolloutPhase::Unknown
    );
    assert_eq!(
        deployment_rollout_phase(Some(2), Some(1), Some(3), Some(3), Some(3), Some(3), None),
        DeploymentRolloutPhase::Progressing
    );
    assert_eq!(
        deployment_rollout_phase(Some(2), Some(2), Some(3), None, Some(3), None, None),
        DeploymentRolloutPhase::Progressing
    );
    assert_eq!(
        deployment_rollout_phase(None, None, Some(3), Some(2), Some(2), Some(3), Some(1)),
        DeploymentRolloutPhase::Progressing
    );
    assert_eq!(
        deployment_rollout_phase(None, None, Some(0), None, Some(0), Some(0), None),
        DeploymentRolloutPhase::Complete
    );
}

#[test]
fn detects_pods_directly_owned_by_workload() {
    let workload = WorkloadRef::new("shop", "Deployment", "checkout-api").expect("workload");
    let pod = PodSummary {
        namespace: "shop".to_owned(),
        name: "checkout-api-abc".to_owned(),
        phase: Some("Running".to_owned()),
        node_name: None,
        pod_ip: None,
        images: Vec::new(),
        probes: Vec::new(),
        resources: Vec::new(),
        owner_references: vec![
            OwnerReferenceSummary {
                kind: "ReplicaSet".to_owned(),
                name: "checkout-api-7d9f".to_owned(),
                uid: "uid-1".to_owned(),
                controller: Some(true),
            },
            OwnerReferenceSummary {
                kind: "Deployment".to_owned(),
                name: "checkout-api".to_owned(),
                uid: "uid-2".to_owned(),
                controller: None,
            },
        ],
    };

    assert!(pod_is_owned_by_workload(&pod, &workload));

    let other_namespace = WorkloadRef::new("payments", "Deployment", "checkout-api").expect("workload");
    assert!(!pod_is_owned_by_workload(&pod, &other_namespace));

    let other_name = WorkloadRef::new("shop", "Deployment", "cart").expect("workload");
    assert!(!pod_is_owned_by_workload(&pod, &other_name));
}

#[test]
fn builds_session_label_selector() {
    assert_eq!(
        session_label_selector("session-123"),
        "kply.dev/managed-by=kply,kply.dev/session-id=session-123"
    );
}

#[test]
fn summarizes_kply_managed_session_metadata() {
    let labels = vec![
        entry("kply.dev/app", "checkout"),
        entry("kply.dev/managed-by", "kply"),
        entry("kply.dev/session-id", "session-123"),
        entry("kply.dev/session-name", "checkout-test"),
    ];
    let annotations = vec![entry("kply.dev/session-status", "active")];

    let summary = session_summary_from_metadata("shop", "checkout-kply", &labels, &annotations)
        .expect("managed session");

    assert_eq!(summary.id, "session-123");
    assert_eq!(summary.name.as_deref(), Some("checkout-test"));
    assert_eq!(summary.namespace, "shop");
    assert_eq!(summary.app.as_deref(), Some("checkout"));
    assert_eq!(summary.status.as_deref(), Some("active"));
    assert_eq!(summary.workload_kind, "Deployment");
    assert_eq!(summary.workload_name, "checkout-kply");
}

#[test]
fn ignores_unmanaged_or_unidentified_session_metadata() {
    let unmanaged = vec![
        entry("kply.dev/managed-by", "helm"),
        entry("kply.dev/session-id", "session-123"),
    ];
    assert!(session_summary_from_metadata("shop", "api", &unmanaged, &[]).is_none());

    let without_id = vec![entry("kply.dev/managed-by", "kply")];
    assert!(session_summary_from_metadata("shop", "api", &without_id, &[]).is_none());

    let minimal = vec![
        entry("kply.dev/managed-by", "kply"),
        entry("kply.dev/session-id", "s-1"),
    ];
    let summary = session_summary_from_metadata("shop", "api", &minimal, &[]).expect("session");
    assert_eq!(summary.name, None);
    assert_eq!(summary.app, None);
    assert_eq!(summary.status, None);
}

#[test]
fn finds_first_entry_for_key() {
    let entries = vec![entry("a", "1"), entry("b", "2"), entry("a", "3")];
    assert_eq!(find_entry(&entries, "a"), Some("1".to_owned()));
    assert_eq!(find_entry(&entries, "b"), Some("2".to_owned()));
    assert_eq!(find_entry(&entries, "c"), None);
}

#[test]
fn renders_error_codes_and_messages() {
    assert_eq!(DiscoveryErrorCode::MissingWorkload.as_str(), "missing_workload");
    assert_eq!(MutationErrorCode::ForbiddenAccess.as_str(), "forbidden_access");
    let workload = WorkloadRef::new("shop", "Deployment", "api").expect("workload");
    let error = DiscoveryError::missing_workload(&workload);
    assert_eq!(
        error.to_string(),
        "workload shop/Deployment/api was not found during read-only discovery"
    );
}

fn api_error(code: u16, reason: &str, message: &str) -> ApiFailure {
    ApiFailure {
        status: Some(ApiStatus {
            code,
            reason: reason.to_owned(),
            message: message.to_owned(),
        }),
        description: format!("ApiError: {message} ({reason}): {reason}"),
    }
}

#[test]
fn classifies_forbidden_kubernetes_api_errors() {
    let error = api_error(403, "Forbidden", "deployments.apps is forbidden");

    let discovery_error = DiscoveryError::from_kubernetes_api_error("list Deployments", &error);

    assert_eq!(discovery_error.code, DiscoveryErrorCode::ForbiddenAccess);
    assert_eq!(
        discovery_error.message,
        "list Deployments was forbidden by Kubernetes: deployments.apps is forbidden"
    );
}

#[test]
fn classifies_unauthorized_kubernetes_api_errors_as_access_errors() {
    let error = api_error(401, "Unauthorized", "credentials are not valid");

    let discovery_error = DiscoveryError::from_kubernetes_api_error("list Deployments", &error);

    assert_eq!(discovery_error.code, DiscoveryErrorCode::ForbiddenAccess);
    assert_eq!(
        discovery_error.message,
        "list Deployments was forbidden by Kubernetes: credentials are not valid"
    );
}

#[test]
fn classifies_non_rbac_kubernetes_api_errors() {
    let error = api_error(500, "InternalError", "internal server error");

    let discovery_error = DiscoveryError::from_kubernetes_api_error("list Deployments", &error);

    assert_eq!(discovery_error.code, DiscoveryErrorCode::KubernetesApi);
    assert!(
        discovery_error.message.contains("list Deployments failed"),
        "non-RBAC API errors should include the operation"
    );
}

#[test]
fn classifies_forbidden_reason_without_status_code() {
    let error = api_error(418, "Forbidden", "");
    let discovery_error = DiscoveryError::from_kubernetes_api_error("get Pod", &error);
    assert_eq!(discovery_error.code, DiscoveryErrorCode::ForbiddenAccess);
    assert_eq!(
        discovery_error.message,
        "get Pod was forbidden by Kubernetes: Kubernetes RBAC denied the request"
    );

    let unreachable = ApiFailure {
        status: None,
        description: "connection refused".to_owned(),
    };
    let discovery_error = DiscoveryError::from_kubernetes_api_error("get Pod", &unreachable);
    assert_eq!(discovery_error.code, DiscoveryErrorCode::KubernetesApi);
    assert_eq!(discovery_error.message, "get Pod failed: connection refused");
}

#[test]
fn classifies_forbidden_kubernetes_api_errors_for_mutations() {
    let error = api_error(403, "Forbidden", "deployments.apps is forbidden");

    let mutation_error = MutationError::from_kubernetes_api_error("create Deployment", &error);

    assert_eq!(mutation_error.code, MutationErrorCode::ForbiddenAccess);
    assert_eq!(
        mutation_error.message,
        "create Deployment was forbidden by Kubernetes: deployments.apps is forbidden"
    );
}

#[test]
fn classifies_empty_forbidden_kubernetes_api_errors_for_mutations() {
    let error = api_error(401, "Unauthorized", "");

    let mutation_error = MutationError::from_kubernetes_api_error("create Deployment", &error);

    assert_eq!(mutation_error.code, MutationErrorCode::ForbiddenAccess);
    assert_eq!(
        mutation_error.message,
        "create Deployment was forbidden by Kubernetes: Kubernetes RBAC denied the request"
    );
}

#[test]
fn classifies_non_rbac_kubernetes_api_errors_for_mutations() {
    let error = api_error(500, "InternalError", "internal server error");

    let mutation_error = MutationError::from_kubernetes_api_error("create Deployment", &error);

    assert_eq!(mutation_error.code, MutationErrorCode::KubernetesApi);
    assert!(
        mutation_error.message.contains("create Deployment failed"),
        "non-RBAC mutation API errors should include the operation"
    );
}

#[test]
fn classifies_kubernetes_client_errors_for_mutations() {
    let error = api_error(400, "BadRequest", "client construction failed");

    let mutation_error = MutationError::from_kubernetes_client_error(&error);

    assert_eq!(mutation_error.code, MutationErrorCode::KubernetesConfig);
    assert!(
        mutation_error
            .message
            .starts_with("kubernetes client could not be created:"),
        "client construction errors should include a stable prefix"
    );
}

#[test]
fn classifies_kubeconfig_errors_for_mutations_without_path_leaks() {
    let missing_path = "/tmp/workspace/missing/kubeconfig.yaml";
    let error = KubeconfigFailure::Unreadable {
        path: missing_path.to_owned(),
    };

    let mutation_error = MutationError::from_kubeconfig_error(&error);

    assert_eq!(mutation_error.code, MutationErrorCode::MissingKubeconfig);
    assert_eq!(
        mutation_error.message,
        "kubeconfig could not be read at the configured path; set KUBECONFIG or create ~/.kube/config"
    );
    assert!(
        !mutation_error.message.contains(missing_path),
        "mutation errors should not leak local kubeconfig paths"
    );
}

#[test]
fn classifies_kubeconfig_errors_for_discovery() {
    let missing = DiscoveryError::from_kubeconfig_error(&KubeconfigFailure::NotFound);
    assert_eq!(missing.code, DiscoveryErrorCode::MissingKubeconfig);
    assert_eq!(
        missing.message,
        "kubeconfig was not found; set KUBECONFIG or create ~/.kube/config"
    );

    let unreadable = DiscoveryError::from_kubeconfig_error(&KubeconfigFailure::Unreadable {
        path: "/home/dev/.kube/config".to_owned(),
    });
    assert_eq!(
        unreadable.message,
        "kubeconfig could not be read at /home/dev/.kube/config; set KUBECONFIG or create ~/.kube/config"
    );

    let invalid = DiscoveryError::from_kubeconfig_error(&KubeconfigFailure::Invalid {
        description: "cluster url is missing on selected cluster".to_owned(),
    });
    assert_eq!(invalid.code, DiscoveryErrorCode::KubernetesConfig);
    assert_eq!(
        invalid.message,
        "kubeconfig could not be resolved: cluster url is missing on selected cluster"
    );

    let redacted = DiscoveryError::from_kubeconfig_error_redacted(&KubeconfigFailure::Unreadable {
        path: "/home/dev/.kube/config".to_owned(),
    });
    assert_eq!(redacted.code, DiscoveryErrorCode::MissingKubeconfig);
    assert!(!redacted.message.contains("/home/dev"));
    let redacted_invalid = DiscoveryError::from_kubeconfig_error_redacted(&KubeconfigFailure::Invalid {
        description: "secret detail".to_owned(),
    });
    assert_eq!(redacted_invalid.code, DiscoveryErrorCode::KubernetesConfig);
    assert!(!redacted_invalid.message.contains("secret detail"));
}

fn session(id: &str, workload: &str, namespace: &str) -> SessionSummary {
    SessionSummary {
        id: id.to_owned(),
        name: None,
        namespace: namespace.to_owned(),
        app: None,
        status: None,
        workload_kind: "Deployment".to_owned(),
        workload_name: workload.to_owned(),
    }
}

fn pod(namespace: &str, name: &str, owner_kind: &str, owner_name: &str) -> PodSummary {
    PodSummary {
        namespace: namespace.to_owned(),
        name: name.to_owned(),
        phase: None,
        node_name: None,
        pod_ip: None,
        images: Vec::new(),
        probes: Vec::new(),
        resources: Vec::new(),
        owner_references: vec![OwnerReferenceSummary {
            kind: owner_kind.to_owned(),
            name: owner_name.to_owned(),
            uid: format!("uid-{name}"),
            controller: Some(true),
        }],
    }
}

#[test]
fn sorts_summaries_by_name() {
    let sorted = sort_summaries(vec![
        NamespaceSummary { name: "shop".to_owned() },
        NamespaceSummary { name: "default".to_owned() },
        NamespaceSummary { name: "kube-system".to_owned() },
    ]);
    let names: Vec<&str> = sorted.iter().map(|n| n.name.as_str()).collect();
    assert_eq!(names, vec!["default", "kube-system", "shop"]);
}

#[test]
fn sorts_sessions_by_id_then_workload() {
    let sorted = sort_summaries(vec![
        session("b", "api", "shop"),
        session("a", "worker", "shop"),
        session("a", "api", "shop"),
    ]);
    let keys: Vec<(&str, &str)> = sorted
        .iter()
        .map(|s| (s.id.as_str(), s.workload_name.as_str()))
        .collect();
    assert_eq!(keys, vec![("a", "api"), ("a", "worker"), ("b", "api")]);
}

#[test]
fn selects_session_with_first_workload_name() {
    let sessions = vec![
        session("other", "aaa", "shop"),
        session("s-1", "worker", "shop"),
        session("s-1", "api", "first"),
        session("s-1", "api", "second"),
    ];
    let selected = select_session(sessions, "s-1").expect("session");
    assert_eq!(selected.workload_name, "api");
    assert_eq!(selected.namespace, "first");

    assert_eq!(select_session(vec![session("a", "api", "shop")], "b"), None);
}

#[test]
fn lists_owned_pods_by_name() {
    let workload = WorkloadRef::new("shop", "Deployment", "checkout-api").expect("workload");
    let pods = vec![
        pod("shop", "checkout-b", "Deployment", "checkout-api"),
        pod("shop", "other", "Deployment", "cart"),
        pod("shop", "checkout-a", "Deployment", "checkout-api"),
        pod("payments", "checkout-c", "Deployment", "checkout-api"),
    ];
    let owned = owned_pods(pods, &workload);
    let names: Vec<&str> = owned.iter().map(|p| p.name.as_str()).collect();
    assert_eq!(names, vec!["checkout-a", "checkout-b"]);
}

#[test]
fn classifies_discovery_client_construction_errors() {
    let failure = ApiFailure {
        status: None,
        description: "invalid TLS configuration".to_owned(),
    };
    let error = DiscoveryError::from_kubernetes_client_error(&failure);
    assert_eq!(error.code, DiscoveryErrorCode::KubernetesConfig);
    assert_eq!(
        error.message,
        "Kubernetes client could not be constructed from kubeconfig: invalid TLS configuration"
    );
}

#[test]
fn sorting_twice_changes_nothing() {
    let once = sort_summaries(vec![
        session("b", "api", "shop"),
        session("a", "api", "one"),
        session("a", "api", "two"),
    ]);
    let namespaces: Vec<&str> = once.iter().map(|s| s.namespace.as_str()).collect();
    assert_eq!(namespaces, vec!["one", "two", "shop"]);
    let twice = sort_summaries(once.clone());
    assert_eq!(once, twice);
}

#[test]
fn formats_numbered_and_named_ports() {
    assert_eq!(format_int_or_string(&PortValue::Number(8080)), "8080");
    assert_eq!(format_int_or_string(&PortValue::Number(-1)), "-1");
    assert_eq!(format_int_or_string(&PortValue::Name("http".to_owned())), "http");
}

#[test]
fn ingress_backends_prefer_named_ports() {
    let named = ingress_backend_summary("checkout-http", Some("http".to_owned()), Some(80))
        .expect("named port");
    assert_eq!(named.service_name, "checkout-http");
    assert_eq!(named.service_port, "http");
    let numbered = ingress_backend_summary("checkout-metrics", None, Some(9090)).expect("numbered port");
    assert_eq!(numbered.service_port, "9090");
    assert!(ingress_backend_summary("checkout-http", None, None).is_none());
}

#[test]
fn probe_handlers_are_summarized_in_precedence_order() {
    let http = HttpGetHandler {
        host: None,
        path: Some("/ready".to_owned()),
        port: PortValue::Name("http".to_owned()),
        scheme: Some("HTTP".to_owned()),
        header_count: 2,
    };
    let tcp = TcpSocketHandler { host: None, port: PortValue::Number(8080) };
    let grpc = GrpcHandler { port: 9090, service: None };
    let all = ProbeHandlers {
        http_get: Some(http),
        tcp_socket: Some(tcp.clone()),
        grpc: Some(grpc.clone()),
        has_exec: true,
    };
    assert_eq!(
        probe_handler_summary(all),
        ProbeHandlerSummary::HttpGet {
            host: None,
            path: Some("/ready".to_owned()),
            port: "http".to_owned(),
            scheme: Some("HTTP".to_owned()),
            header_count: 2,
        }
    );
    let tcp_first = ProbeHandlers { http_get: None, tcp_socket: Some(tcp), grpc: Some(grpc.clone()), has_exec: true };
    assert_eq!(
        probe_handler_summary(tcp_first),
        ProbeHandlerSummary::TcpSocket { host: None, port: "8080".to_owned() }
    );
    let grpc_only = ProbeHandlers { http_get: None, tcp_socket: None, grpc: Some(grpc), has_exec: true };
    assert_eq!(
        probe_handler_summary(grpc_only),
        ProbeHandlerSummary::Grpc { port: 9090, service: None }
    );
    let exec_only = ProbeHandlers { http_get: None, tcp_socket: None, grpc: None, has_exec: true };
    assert_eq!(probe_handler_summary(exec_only), ProbeHandlerSummary::Exec);
    let none = ProbeHandlers { http_get: None, tcp_socket: None, grpc: None, has_exec: false };
    assert_eq!(probe_handler_summary(none), ProbeHandlerSummary::Unknown);
}

#[test]
fn summarizes_only_containers_with_requests_or_limits() {
    let cpu = ResourceQuantitySummary { name: "cpu".to_owned(), quantity: "250m".to_owned() };
    assert!(container_resource_summary("idle".to_owned(), Vec::new(), Vec::new()).is_none());
    let limited = container_resource_summary("app".to_owned(), Vec::new(), vec![cpu.clone()])
        .expect("limits alone are summarized");
    assert_eq!(limited.container_name, "app");
    assert!(limited.requests.is_empty());
    assert_eq!(limited.limits, vec![cpu]);
}
