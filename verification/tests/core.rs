use kply::graph::{AppGraph, AppGraphWarning, ConfidenceLevel, ConfigReference, ContainerRef, ContainerRefError, GraphRelationship, ImageFacts, ProbeFacts, ProbeKind, RelationshipConfidence, ResourceFacts, SecretReference, ServiceRouteRef};
use kply::ids::{ConfigMapRef, ConfigMapRefError, KubernetesResourceRef, KubernetesResourceRefError, PodRef, PodRefError, RouteRef, RouteRefError, SecretMetadataRef, SecretMetadataRefError, ServiceRef, ServiceRefError, SessionId, SessionIdError, SessionName, SessionNameError, WorkloadKindError, WorkloadRef, WorkloadRefError, WorkloadTokenError};
use kply::session::{SessionEvent, SessionEventKind, SessionOperation, SessionPlan, SessionPolicy, SessionPolicyError, SessionReport, SessionReportError, SessionStatus, SessionTransitionError};
use kply::token::{IMAGE_REF_MAX_LEN, ImageRefError, RESOURCE_QUANTITY_MAX_LEN, ROUTE_HEADER_NAME_MAX_LEN, ROUTE_HEADER_VALUE_MAX_LEN, ROUTE_HOST_LABEL_MAX_LEN, ROUTE_HOST_MAX_LEN, RouteHostError, SESSION_TOKEN_MAX_LEN, TIME_TO_LIVE_MAX_LEN, TimeToLiveError, WORKLOAD_KIND_MAX_LEN};
use kply::values::{ImageRef, ResourceQuantity, ResourceQuantityError, RouteHeaderNameError, RouteHeaderValueError, RouteSelector, RouteSelectorError, TimeToLive};

fn test_session_plan() -> SessionPlan {
    SessionPlan::new(
        SessionId::new("session-123").expect("session id"),
        SessionName::new("checkout-test").expect("session name"),
        WorkloadRef::new("checkout", "Deployment", "checkout-api").expect("workload ref"),
        ImageRef::new("registry.example.com/checkout/api:v2").expect("image ref"),
        SessionPolicy::sandbox(),
    )
}

fn test_app_graph() -> AppGraph {
    AppGraph::new(
        WorkloadRef::new("checkout", "Deployment", "checkout-api").expect("workload ref"),
    )
    .with_owned_pods(vec![
        PodRef::new("checkout", "checkout-api-7d9f4d9d-b").expect("pod ref"),
        PodRef::new("checkout", "checkout-api-7d9f4d9d-a").expect("pod ref"),
        PodRef::new("checkout", "checkout-api-7d9f4d9d-a").expect("pod ref"),
    ])
    .with_selecting_services(vec![
        ServiceRef::new("checkout", "checkout-api-private").expect("service ref"),
        ServiceRef::new("checkout", "checkout-api").expect("service ref"),
        ServiceRef::new("checkout", "checkout-api").expect("service ref"),
    ])
    .with_service_routes(vec![
        ServiceRouteRef::new(
            ServiceRef::new("checkout", "checkout-api-private").expect("service ref"),
            RouteRef::new("checkout", "HTTPRoute", "checkout-api-private").expect("route ref"),
        ),
        ServiceRouteRef::new(
            ServiceRef::new("checkout", "checkout-api").expect("service ref"),
            RouteRef::new("checkout", "Ingress", "checkout").expect("route ref"),
        ),
        ServiceRouteRef::new(
            ServiceRef::new("checkout", "checkout-api").expect("service ref"),
            RouteRef::new("checkout", "Ingress", "checkout").expect("route ref"),
        ),
    ])
    .with_config_references(vec![
        ConfigReference::new(
            ContainerRef::new(
                WorkloadRef::new("checkout", "Deployment", "checkout-api")
                    .expect("workload ref"),
                "worker",
            )
            .expect("container ref"),
            ConfigMapRef::new("checkout", "checkout-worker-config").expect("configmap ref"),
        ),
        ConfigReference::new(
            ContainerRef::new(
                WorkloadRef::new("checkout", "Deployment", "checkout-api")
                    .expect("workload ref"),
                "api",
            )
            .expect("container ref"),
            ConfigMapRef::new("checkout", "checkout-api-config").expect("configmap ref"),
        ),
        ConfigReference::new(
            ContainerRef::new(
                WorkloadRef::new("checkout", "Deployment", "checkout-api")
                    .expect("workload ref"),
                "api",
            )
            .expect("container ref"),
            ConfigMapRef::new("checkout", "checkout-api-config").expect("configmap ref"),
        ),
    ])
    .with_secret_references(vec![
        SecretReference::new(
            ContainerRef::new(
                WorkloadRef::new("checkout", "Deployment", "checkout-api")
                    .expect("workload ref"),
                "worker",
            )
            .expect("container ref"),
            SecretMetadataRef::new("checkout", "checkout-worker-credentials")
                .expect("secret ref"),
        ),
        SecretReference::new(
            ContainerRef::new(
                WorkloadRef::new("checkout", "Deployment", "checkout-api")
                    .expect("workload ref"),
                "api",
            )
            .expect("container ref"),
            SecretMetadataRef::new("checkout", "checkout-api-credentials").expect("secret ref"),
        ),
        SecretReference::new(
            ContainerRef::new(
                WorkloadRef::new("checkout", "Deployment", "checkout-api")
                    .expect("workload ref"),
                "api",
            )
            .expect("container ref"),
            SecretMetadataRef::new("checkout", "checkout-api-credentials").expect("secret ref"),
        ),
    ])
    .with_probe_facts(vec![
        ProbeFacts::new(
            ContainerRef::new(
                WorkloadRef::new("checkout", "Deployment", "checkout-api")
                    .expect("workload ref"),
                "worker",
            )
            .expect("container ref"),
            false,
            true,
            false,
        ),
        ProbeFacts::new(
            ContainerRef::new(
                WorkloadRef::new("checkout", "Deployment", "checkout-api")
                    .expect("workload ref"),
                "api",
            )
            .expect("container ref"),
            true,
            true,
            false,
        ),
        ProbeFacts::new(
            ContainerRef::new(
                WorkloadRef::new("checkout", "Deployment", "checkout-api")
                    .expect("workload ref"),
                "api",
            )
            .expect("container ref"),
            true,
            true,
            false,
        ),
    ])
    .with_image_facts(vec![
        ImageFacts::new(
            ContainerRef::new(
                WorkloadRef::new("checkout", "Deployment", "checkout-api")
                    .expect("workload ref"),
                "worker",
            )
            .expect("container ref"),
            ImageRef::new("registry.example.com/checkout/worker:v1").expect("image ref"),
        ),
        ImageFacts::new(
            ContainerRef::new(
                WorkloadRef::new("checkout", "Deployment", "checkout-api")
                    .expect("workload ref"),
                "api",
            )
            .expect("container ref"),
            ImageRef::new("registry.example.com/checkout/api:v2").expect("image ref"),
        ),
        ImageFacts::new(
            ContainerRef::new(
                WorkloadRef::new("checkout", "Deployment", "checkout-api")
                    .expect("workload ref"),
                "api",
            )
            .expect("container ref"),
            ImageRef::new("registry.example.com/checkout/api:v2").expect("image ref"),
        ),
    ])
    .with_resource_facts(vec![
        ResourceFacts::new(
            ContainerRef::new(
                WorkloadRef::new("checkout", "Deployment", "checkout-api")
                    .expect("workload ref"),
                "worker",
            )
            .expect("container ref"),
            None,
            None,
            Some(ResourceQuantity::new("128Mi").expect("resource quantity")),
            Some(ResourceQuantity::new("256Mi").expect("resource quantity")),
        ),
        ResourceFacts::new(
            ContainerRef::new(
                WorkloadRef::new("checkout", "Deployment", "checkout-api")
                    .expect("workload ref"),
                "api",
            )
            .expect("container ref"),
            Some(ResourceQuantity::new("250m").expect("resource quantity")),
            Some(ResourceQuantity::new("500m").expect("resource quantity")),
            Some(ResourceQuantity::new("512Mi").expect("resource quantity")),
            Some(ResourceQuantity::new("1Gi").expect("resource quantity")),
        ),
        ResourceFacts::new(
            ContainerRef::new(
                WorkloadRef::new("checkout", "Deployment", "checkout-api")
                    .expect("workload ref"),
                "api",
            )
            .expect("container ref"),
            Some(ResourceQuantity::new("250m").expect("resource quantity")),
            Some(ResourceQuantity::new("500m").expect("resource quantity")),
            Some(ResourceQuantity::new("512Mi").expect("resource quantity")),
            Some(ResourceQuantity::new("1Gi").expect("resource quantity")),
        ),
    ])
    .with_relationship_confidences(vec![
        RelationshipConfidence::new(
            GraphRelationship::ContainerSecretReference {
                container: ContainerRef::new(
                    WorkloadRef::new("checkout", "Deployment", "checkout-api")
                        .expect("workload ref"),
                    "api",
                )
                .expect("container ref"),
                secret: SecretMetadataRef::new("checkout", "checkout-api-credentials")
                    .expect("secret ref"),
            },
            ConfidenceLevel::Low,
        ),
        RelationshipConfidence::new(
            GraphRelationship::WorkloadServiceSelection {
                service: ServiceRef::new("checkout", "checkout-api-private")
                    .expect("service ref"),
            },
            ConfidenceLevel::Medium,
        ),
        RelationshipConfidence::new(
            GraphRelationship::ContainerConfigReference {
                container: ContainerRef::new(
                    WorkloadRef::new("checkout", "Deployment", "checkout-api")
                        .expect("workload ref"),
                    "api",
                )
                .expect("container ref"),
                config_map: ConfigMapRef::new("checkout", "checkout-api-config")
                    .expect("configmap ref"),
            },
            ConfidenceLevel::High,
        ),
        RelationshipConfidence::new(
            GraphRelationship::WorkloadPodOwnership {
                pod: PodRef::new("checkout", "checkout-api-7d9f4d9d-a").expect("pod ref"),
            },
            ConfidenceLevel::High,
        ),
        RelationshipConfidence::new(
            GraphRelationship::ServiceRouteReference {
                service: ServiceRef::new("checkout", "checkout-api").expect("service ref"),
                route: RouteRef::new("checkout", "Ingress", "checkout").expect("route ref"),
            },
            ConfidenceLevel::High,
        ),
        RelationshipConfidence::new(
            GraphRelationship::ServiceRouteReference {
                service: ServiceRef::new("checkout", "checkout-api").expect("service ref"),
                route: RouteRef::new("checkout", "Ingress", "checkout").expect("route ref"),
            },
            ConfidenceLevel::High,
        ),
    ])
    .with_warnings(vec![
        AppGraphWarning::ambiguous_service_selector(
            ServiceRef::new("checkout", "checkout-api").expect("service ref"),
            vec![
                WorkloadRef::new("checkout", "Deployment", "checkout-worker")
                    .expect("workload ref"),
                WorkloadRef::new("checkout", "Deployment", "checkout-api")
                    .expect("workload ref"),
                WorkloadRef::new("checkout", "Deployment", "checkout-api")
                    .expect("workload ref"),
            ],
        ),
        AppGraphWarning::ambiguous_service_selector(
            ServiceRef::new("checkout", "checkout-api").expect("service ref"),
            vec![
                WorkloadRef::new("checkout", "Deployment", "checkout-worker")
                    .expect("workload ref"),
                WorkloadRef::new("checkout", "Deployment", "checkout-api")
                    .expect("workload ref"),
            ],
        ),
        AppGraphWarning::missing_route(
            ServiceRef::new("checkout", "checkout-api-private").expect("service ref"),
        ),
        AppGraphWarning::missing_route(
            ServiceRef::new("checkout", "checkout-api-private").expect("service ref"),
        ),
        AppGraphWarning::missing_probes(
            ContainerRef::new(
                WorkloadRef::new("checkout", "Deployment", "checkout-api")
                    .expect("workload ref"),
                "worker",
            )
            .expect("container ref"),
            vec![
                ProbeKind::Startup,
                ProbeKind::Readiness,
                ProbeKind::Readiness,
            ],
        ),
        AppGraphWarning::missing_probes(
            ContainerRef::new(
                WorkloadRef::new("checkout", "Deployment", "checkout-api")
                    .expect("workload ref"),
                "worker",
            )
            .expect("container ref"),
            vec![ProbeKind::Readiness, ProbeKind::Startup],
        ),
    ])
}

fn minimal_app_graph() -> AppGraph {
    AppGraph::new(
        WorkloadRef::new("checkout", "Deployment", "checkout-api").expect("workload ref"),
    )
}

fn routed_app_graph() -> AppGraph {
    AppGraph::new(
        WorkloadRef::new("checkout", "Deployment", "checkout-api").expect("workload ref"),
    )
    .with_selecting_services(
        vec![ServiceRef::new("checkout", "checkout-api").expect("service ref")],
    )
    .with_service_routes(vec![ServiceRouteRef::new(
        ServiceRef::new("checkout", "checkout-api").expect("service ref"),
        RouteRef::new("checkout", "HTTPRoute", "checkout-api").expect("route ref"),
    )])
    .with_relationship_confidences(vec![
        RelationshipConfidence::new(
            GraphRelationship::WorkloadServiceSelection {
                service: ServiceRef::new("checkout", "checkout-api").expect("service ref"),
            },
            ConfidenceLevel::High,
        ),
        RelationshipConfidence::new(
            GraphRelationship::ServiceRouteReference {
                service: ServiceRef::new("checkout", "checkout-api").expect("service ref"),
                route: RouteRef::new("checkout", "HTTPRoute", "checkout-api")
                    .expect("route ref"),
            },
            ConfidenceLevel::High,
        ),
    ])
}

fn warning_app_graph() -> AppGraph {
    AppGraph::new(
        WorkloadRef::new("checkout", "Deployment", "checkout-api").expect("workload ref"),
    )
    .with_selecting_services(vec![
        ServiceRef::new("checkout", "checkout-api").expect("service ref"),
        ServiceRef::new("checkout", "checkout-private").expect("service ref"),
    ])
    .with_probe_facts(vec![ProbeFacts::new(
        ContainerRef::new(
            WorkloadRef::new("checkout", "Deployment", "checkout-api").expect("workload ref"),
            "api",
        )
        .expect("container ref"),
        true,
        false,
        false,
    )])
    .with_warnings(vec![
        AppGraphWarning::ambiguous_service_selector(
            ServiceRef::new("checkout", "checkout-api").expect("service ref"),
            vec![
                WorkloadRef::new("checkout", "Deployment", "checkout-api")
                    .expect("workload ref"),
                WorkloadRef::new("checkout", "Deployment", "checkout-worker")
                    .expect("workload ref"),
            ],
        ),
        AppGraphWarning::missing_route(
            ServiceRef::new("checkout", "checkout-private").expect("service ref"),
        ),
        AppGraphWarning::missing_probes(
            ContainerRef::new(
                WorkloadRef::new("checkout", "Deployment", "checkout-api")
                    .expect("workload ref"),
                "api",
            )
            .expect("container ref"),
            vec![ProbeKind::Liveness, ProbeKind::Startup],
        ),
    ])
}

#[test]
fn creates_app_graph_from_workload_ref() {
    let workload =
        WorkloadRef::new("checkout", "Deployment", "checkout-api").expect("workload ref");

    let graph = AppGraph::new(workload.clone());

    assert_eq!(graph.workload(), &workload);
    assert!(graph.owned_pods().is_empty());
    assert!(graph.selecting_services().is_empty());
    assert!(graph.service_routes().is_empty());
    assert!(graph.probe_facts().is_empty());
    assert!(graph.image_facts().is_empty());
    assert!(graph.resource_facts().is_empty());
    assert!(graph.config_references().is_empty());
    assert!(graph.secret_references().is_empty());
    assert!(graph.relationship_confidences().is_empty());
    assert!(graph.warnings().is_empty());
}

#[test]
fn creates_pod_ref_from_valid_parts() {
    let pod =
        PodRef::new("checkout", "checkout-api-7d9f4d9d-a").expect("pod ref should be valid");

    assert_eq!(pod.namespace(), "checkout");
    assert_eq!(pod.name(), "checkout-api-7d9f4d9d-a");
    assert_eq!(pod.to_string(), "checkout/checkout-api-7d9f4d9d-a");
}

#[test]
fn rejects_invalid_pod_ref_parts() {
    let namespace_error =
        PodRef::new("Checkout", "checkout-api").expect_err("namespace should be invalid");
    let name_error =
        PodRef::new("checkout", "checkout_api").expect_err("name should be invalid");

    assert_eq!(
        namespace_error,
        PodRefError::Namespace(WorkloadTokenError::InvalidBoundary)
    );
    assert_eq!(
        name_error,
        PodRefError::Name(WorkloadTokenError::InvalidCharacter { character: '_' })
    );
}

#[test]
fn creates_service_ref_from_valid_parts() {
    let service =
        ServiceRef::new("checkout", "checkout-api").expect("service ref should be valid");

    assert_eq!(service.namespace(), "checkout");
    assert_eq!(service.name(), "checkout-api");
    assert_eq!(service.to_string(), "checkout/checkout-api");
}

#[test]
fn rejects_invalid_service_ref_parts() {
    let namespace_error =
        ServiceRef::new("Checkout", "checkout-api").expect_err("namespace should be invalid");
    let name_error =
        ServiceRef::new("checkout", "checkout_api").expect_err("name should be invalid");

    assert_eq!(
        namespace_error,
        ServiceRefError::Namespace(WorkloadTokenError::InvalidBoundary)
    );
    assert_eq!(
        name_error,
        ServiceRefError::Name(WorkloadTokenError::InvalidCharacter { character: '_' })
    );
}

#[test]
fn creates_config_map_ref_from_valid_parts() {
    let config_map = ConfigMapRef::new("checkout", "checkout-api-config")
        .expect("configmap ref should be valid");

    assert_eq!(config_map.namespace(), "checkout");
    assert_eq!(config_map.name(), "checkout-api-config");
    assert_eq!(config_map.to_string(), "checkout/checkout-api-config");
}

#[test]
fn rejects_invalid_config_map_ref_parts() {
    let namespace_error = ConfigMapRef::new("Checkout", "checkout-api-config")
        .expect_err("namespace should be invalid");
    let name_error =
        ConfigMapRef::new("checkout", "checkout_api").expect_err("name should be invalid");

    assert_eq!(
        namespace_error,
        ConfigMapRefError::Namespace(WorkloadTokenError::InvalidBoundary)
    );
    assert_eq!(
        name_error,
        ConfigMapRefError::Name(WorkloadTokenError::InvalidCharacter { character: '_' })
    );
}

#[test]
fn creates_secret_metadata_ref_from_valid_parts() {
    let secret = SecretMetadataRef::new("checkout", "checkout-api-credentials")
        .expect("secret ref should be valid");

    assert_eq!(secret.namespace(), "checkout");
    assert_eq!(secret.name(), "checkout-api-credentials");
    assert_eq!(secret.to_string(), "checkout/checkout-api-credentials");
}

#[test]
fn rejects_invalid_secret_metadata_ref_parts() {
    let namespace_error = SecretMetadataRef::new("Checkout", "checkout-api-credentials")
        .expect_err("namespace should be invalid");
    let name_error =
        SecretMetadataRef::new("checkout", "checkout_api").expect_err("name should be invalid");

    assert_eq!(
        namespace_error,
        SecretMetadataRefError::Namespace(WorkloadTokenError::InvalidBoundary)
    );
    assert_eq!(
        name_error,
        SecretMetadataRefError::Name(WorkloadTokenError::InvalidCharacter { character: '_' })
    );
}

#[test]
fn creates_route_ref_from_valid_parts() {
    let route = RouteRef::new("checkout", "HTTPRoute", "checkout-api")
        .expect("route ref should be valid");

    assert_eq!(route.namespace(), "checkout");
    assert_eq!(route.kind(), "HTTPRoute");
    assert_eq!(route.name(), "checkout-api");
    assert_eq!(route.to_string(), "checkout/HTTPRoute/checkout-api");
}

#[test]
fn rejects_invalid_route_ref_parts() {
    let namespace_error = RouteRef::new("Checkout", "HTTPRoute", "checkout-api")
        .expect_err("namespace should be invalid");
    let kind_error = RouteRef::new("checkout", "_HTTPRoute", "checkout-api")
        .expect_err("kind should be invalid");
    let name_error = RouteRef::new("checkout", "HTTPRoute", "checkout_api")
        .expect_err("name should be invalid");

    assert_eq!(
        namespace_error,
        RouteRefError::Namespace(WorkloadTokenError::InvalidBoundary)
    );
    assert_eq!(
        kind_error,
        RouteRefError::Kind(WorkloadKindError::InvalidBoundary)
    );
    assert_eq!(
        name_error,
        RouteRefError::Name(WorkloadTokenError::InvalidCharacter { character: '_' })
    );
}

#[test]
fn creates_service_route_ref_from_valid_refs() {
    let service = ServiceRef::new("checkout", "checkout-api").expect("service ref");
    let route = RouteRef::new("checkout", "Ingress", "checkout").expect("route ref");

    let edge = ServiceRouteRef::new(service.clone(), route.clone());

    assert_eq!(edge.service(), &service);
    assert_eq!(edge.route(), &route);
}

#[test]
fn creates_container_ref_from_valid_parts() {
    let workload =
        WorkloadRef::new("checkout", "Deployment", "checkout-api").expect("workload ref");

    let container =
        ContainerRef::new(workload.clone(), "api").expect("container ref should be valid");

    assert_eq!(container.workload(), &workload);
    assert_eq!(container.name(), "api");
    assert_eq!(
        container.to_string(),
        "checkout/Deployment/checkout-api/api"
    );
}

#[test]
fn rejects_invalid_container_ref_name() {
    let workload =
        WorkloadRef::new("checkout", "Deployment", "checkout-api").expect("workload ref");

    let error =
        ContainerRef::new(workload, "api_container").expect_err("name should be invalid");

    assert_eq!(
        error,
        ContainerRefError::Name(WorkloadTokenError::InvalidCharacter { character: '_' })
    );
}

#[test]
fn creates_probe_facts_from_valid_container() {
    let container = ContainerRef::new(
        WorkloadRef::new("checkout", "Deployment", "checkout-api").expect("workload ref"),
        "api",
    )
    .expect("container ref");

    let facts = ProbeFacts::new(container.clone(), true, false, true);

    assert_eq!(facts.container(), &container);
    assert!(facts.readiness_probe());
    assert!(!facts.liveness_probe());
    assert!(facts.startup_probe());
}

#[test]
fn renders_probe_kind_names() {
    assert_eq!(ProbeKind::Readiness.as_str(), "readiness");
    assert_eq!(ProbeKind::Liveness.as_str(), "liveness");
    assert_eq!(ProbeKind::Startup.as_str(), "startup");
    assert_eq!(ProbeKind::Startup.to_string(), "startup");
}

#[test]
fn creates_image_facts_from_valid_container_and_image() {
    let container = ContainerRef::new(
        WorkloadRef::new("checkout", "Deployment", "checkout-api").expect("workload ref"),
        "api",
    )
    .expect("container ref");
    let image = ImageRef::new("registry.example.com/checkout/api:v2").expect("image ref");

    let facts = ImageFacts::new(container.clone(), image.clone());

    assert_eq!(facts.container(), &container);
    assert_eq!(facts.image(), &image);
}

#[test]
fn creates_resource_quantity_from_valid_value() {
    let quantity = ResourceQuantity::new("250m").expect("resource quantity should be valid");

    assert_eq!(quantity.as_str(), "250m");
    assert_eq!(quantity.to_string(), "250m");
}

#[test]
fn rejects_invalid_resource_quantity_values() {
    let empty_error = ResourceQuantity::new("").expect_err("empty quantity should be invalid");
    let boundary_error =
        ResourceQuantity::new("-250m").expect_err("boundary should be invalid");
    let character_error = ResourceQuantity::new("250 m").expect_err("space should be invalid");
    let long_error = ResourceQuantity::new(&"1".repeat(RESOURCE_QUANTITY_MAX_LEN + 1))
        .expect_err("long quantity should be invalid");

    assert_eq!(empty_error, ResourceQuantityError::Empty);
    assert_eq!(boundary_error, ResourceQuantityError::InvalidBoundary);
    assert_eq!(
        character_error,
        ResourceQuantityError::InvalidCharacter { character: ' ' }
    );
    assert_eq!(
        long_error,
        ResourceQuantityError::TooLong {
            max_len: RESOURCE_QUANTITY_MAX_LEN
        }
    );
}

#[test]
fn creates_resource_facts_from_valid_container_and_quantities() {
    let container = ContainerRef::new(
        WorkloadRef::new("checkout", "Deployment", "checkout-api").expect("workload ref"),
        "api",
    )
    .expect("container ref");
    let cpu_request = ResourceQuantity::new("250m").expect("resource quantity");
    let cpu_limit = ResourceQuantity::new("500m").expect("resource quantity");
    let memory_request = ResourceQuantity::new("512Mi").expect("resource quantity");
    let memory_limit = ResourceQuantity::new("1Gi").expect("resource quantity");

    let facts = ResourceFacts::new(
        container.clone(),
        Some(cpu_request.clone()),
        Some(cpu_limit.clone()),
        Some(memory_request.clone()),
        Some(memory_limit.clone()),
    );

    assert_eq!(facts.container(), &container);
    assert_eq!(facts.cpu_request(), Some(&cpu_request));
    assert_eq!(facts.cpu_limit(), Some(&cpu_limit));
    assert_eq!(facts.memory_request(), Some(&memory_request));
    assert_eq!(facts.memory_limit(), Some(&memory_limit));
}

#[test]
fn records_owned_pods_in_stable_order() {
    let graph = test_app_graph();

    assert_eq!(
        graph.owned_pods(),
        &[
            PodRef::new("checkout", "checkout-api-7d9f4d9d-a").expect("pod ref"),
            PodRef::new("checkout", "checkout-api-7d9f4d9d-b").expect("pod ref"),
        ]
    );
}

#[test]
fn records_selecting_services_in_stable_order() {
    let graph = test_app_graph();

    assert_eq!(
        graph.selecting_services(),
        &[
            ServiceRef::new("checkout", "checkout-api").expect("service ref"),
            ServiceRef::new("checkout", "checkout-api-private").expect("service ref"),
        ]
    );
}

#[test]
fn records_service_routes_in_stable_order() {
    let graph = test_app_graph();

    assert_eq!(
        graph.service_routes(),
        &[
            ServiceRouteRef::new(
                ServiceRef::new("checkout", "checkout-api").expect("service ref"),
                RouteRef::new("checkout", "Ingress", "checkout").expect("route ref"),
            ),
            ServiceRouteRef::new(
                ServiceRef::new("checkout", "checkout-api-private").expect("service ref"),
                RouteRef::new("checkout", "HTTPRoute", "checkout-api-private")
                    .expect("route ref"),
            ),
        ]
    );
}

#[test]
fn records_probe_facts_in_stable_order() {
    let graph = test_app_graph();

    assert_eq!(
        graph.probe_facts(),
        &[
            ProbeFacts::new(
                ContainerRef::new(
                    WorkloadRef::new("checkout", "Deployment", "checkout-api")
                        .expect("workload ref"),
                    "api",
                )
                .expect("container ref"),
                true,
                true,
                false,
            ),
            ProbeFacts::new(
                ContainerRef::new(
                    WorkloadRef::new("checkout", "Deployment", "checkout-api")
                        .expect("workload ref"),
                    "worker",
                )
                .expect("container ref"),
                false,
                true,
                false,
            ),
        ]
    );
}

#[test]
fn records_image_facts_in_stable_order() {
    let graph = test_app_graph();

    assert_eq!(
        graph.image_facts(),
        &[
            ImageFacts::new(
                ContainerRef::new(
                    WorkloadRef::new("checkout", "Deployment", "checkout-api")
                        .expect("workload ref"),
                    "api",
                )
                .expect("container ref"),
                ImageRef::new("registry.example.com/checkout/api:v2").expect("image ref"),
            ),
            ImageFacts::new(
                ContainerRef::new(
                    WorkloadRef::new("checkout", "Deployment", "checkout-api")
                        .expect("workload ref"),
                    "worker",
                )
                .expect("container ref"),
                ImageRef::new("registry.example.com/checkout/worker:v1").expect("image ref"),
            ),
        ]
    );
}

#[test]
fn records_resource_facts_in_stable_order() {
    let graph = test_app_graph();

    assert_eq!(
        graph.resource_facts(),
        &[
            ResourceFacts::new(
                ContainerRef::new(
                    WorkloadRef::new("checkout", "Deployment", "checkout-api")
                        .expect("workload ref"),
                    "api",
                )
                .expect("container ref"),
                Some(ResourceQuantity::new("250m").expect("resource quantity")),
                Some(ResourceQuantity::new("500m").expect("resource quantity")),
                Some(ResourceQuantity::new("512Mi").expect("resource quantity")),
                Some(ResourceQuantity::new("1Gi").expect("resource quantity")),
            ),
            ResourceFacts::new(
                ContainerRef::new(
                    WorkloadRef::new("checkout", "Deployment", "checkout-api")
                        .expect("workload ref"),
                    "worker",
                )
                .expect("container ref"),
                None,
                None,
                Some(ResourceQuantity::new("128Mi").expect("resource quantity")),
                Some(ResourceQuantity::new("256Mi").expect("resource quantity")),
            ),
        ]
    );
}

#[test]
fn records_config_references_in_stable_order() {
    let graph = test_app_graph();

    assert_eq!(
        graph.config_references(),
        &[
            ConfigReference::new(
                ContainerRef::new(
                    WorkloadRef::new("checkout", "Deployment", "checkout-api")
                        .expect("workload ref"),
                    "api",
                )
                .expect("container ref"),
                ConfigMapRef::new("checkout", "checkout-api-config").expect("configmap ref"),
            ),
            ConfigReference::new(
                ContainerRef::new(
                    WorkloadRef::new("checkout", "Deployment", "checkout-api")
                        .expect("workload ref"),
                    "worker",
                )
                .expect("container ref"),
                ConfigMapRef::new("checkout", "checkout-worker-config").expect("configmap ref"),
            ),
        ]
    );
}

#[test]
fn records_secret_references_in_stable_order() {
    let graph = test_app_graph();

    assert_eq!(
        graph.secret_references(),
        &[
            SecretReference::new(
                ContainerRef::new(
                    WorkloadRef::new("checkout", "Deployment", "checkout-api")
                        .expect("workload ref"),
                    "api",
                )
                .expect("container ref"),
                SecretMetadataRef::new("checkout", "checkout-api-credentials")
                    .expect("secret ref"),
            ),
            SecretReference::new(
                ContainerRef::new(
                    WorkloadRef::new("checkout", "Deployment", "checkout-api")
                        .expect("workload ref"),
                    "worker",
                )
                .expect("container ref"),
                SecretMetadataRef::new("checkout", "checkout-worker-credentials")
                    .expect("secret ref"),
            ),
        ]
    );
}

#[test]
fn creates_relationship_confidence_from_valid_parts() {
    let relationship = GraphRelationship::WorkloadServiceSelection {
        service: ServiceRef::new("checkout", "checkout-api").expect("service ref"),
    };

    let confidence = RelationshipConfidence::new(relationship.clone(), ConfidenceLevel::High);

    assert_eq!(confidence.relationship(), &relationship);
    assert_eq!(confidence.confidence(), ConfidenceLevel::High);
    assert_eq!(ConfidenceLevel::High.as_str(), "high");
    assert_eq!(ConfidenceLevel::High.to_string(), "high");
}

#[test]
fn records_relationship_confidences_in_stable_order() {
    let graph = test_app_graph();

    assert_eq!(
        graph.relationship_confidences(),
        &[
            RelationshipConfidence::new(
                GraphRelationship::WorkloadPodOwnership {
                    pod: PodRef::new("checkout", "checkout-api-7d9f4d9d-a").expect("pod ref"),
                },
                ConfidenceLevel::High,
            ),
            RelationshipConfidence::new(
                GraphRelationship::WorkloadServiceSelection {
                    service: ServiceRef::new("checkout", "checkout-api-private")
                        .expect("service ref"),
                },
                ConfidenceLevel::Medium,
            ),
            RelationshipConfidence::new(
                GraphRelationship::ServiceRouteReference {
                    service: ServiceRef::new("checkout", "checkout-api").expect("service ref"),
                    route: RouteRef::new("checkout", "Ingress", "checkout").expect("route ref"),
                },
                ConfidenceLevel::High,
            ),
            RelationshipConfidence::new(
                GraphRelationship::ContainerConfigReference {
                    container: ContainerRef::new(
                        WorkloadRef::new("checkout", "Deployment", "checkout-api")
                            .expect("workload ref"),
                        "api",
                    )
                    .expect("container ref"),
                    config_map: ConfigMapRef::new("checkout", "checkout-api-config")
                        .expect("configmap ref"),
                },
                ConfidenceLevel::High,
            ),
            RelationshipConfidence::new(
                GraphRelationship::ContainerSecretReference {
                    container: ContainerRef::new(
                        WorkloadRef::new("checkout", "Deployment", "checkout-api")
                            .expect("workload ref"),
                        "api",
                    )
                    .expect("container ref"),
                    secret: SecretMetadataRef::new("checkout", "checkout-api-credentials")
                        .expect("secret ref"),
                },
                ConfidenceLevel::Low,
            ),
        ]
    );
}

#[test]
fn creates_ambiguous_service_selector_warning_in_stable_order() {
    let warning = AppGraphWarning::ambiguous_service_selector(
        ServiceRef::new("checkout", "checkout-api").expect("service ref"),
        vec![
            WorkloadRef::new("checkout", "Deployment", "checkout-worker")
                .expect("workload ref"),
            WorkloadRef::new("checkout", "Deployment", "checkout-api").expect("workload ref"),
            WorkloadRef::new("checkout", "Deployment", "checkout-api").expect("workload ref"),
        ],
    );

    assert_eq!(
        warning,
        AppGraphWarning::AmbiguousServiceSelector {
            service: ServiceRef::new("checkout", "checkout-api").expect("service ref"),
            candidate_workloads: vec![
                WorkloadRef::new("checkout", "Deployment", "checkout-api")
                    .expect("workload ref"),
                WorkloadRef::new("checkout", "Deployment", "checkout-worker")
                    .expect("workload ref"),
            ],
        }
    );
}

#[test]
fn creates_missing_route_warning() {
    let warning = AppGraphWarning::missing_route(
        ServiceRef::new("checkout", "checkout-api-private").expect("service ref"),
    );

    assert_eq!(
        warning,
        AppGraphWarning::MissingRoute {
            service: ServiceRef::new("checkout", "checkout-api-private").expect("service ref"),
        }
    );
}

#[test]
fn creates_missing_probes_warning_in_stable_order() {
    let warning = AppGraphWarning::missing_probes(
        ContainerRef::new(
            WorkloadRef::new("checkout", "Deployment", "checkout-api").expect("workload ref"),
            "worker",
        )
        .expect("container ref"),
        vec![ProbeKind::Startup, ProbeKind::Readiness, ProbeKind::Startup],
    );

    assert_eq!(
        warning,
        AppGraphWarning::MissingProbes {
            container: ContainerRef::new(
                WorkloadRef::new("checkout", "Deployment", "checkout-api")
                    .expect("workload ref"),
                "worker",
            )
            .expect("container ref"),
            missing_probes: vec![ProbeKind::Readiness, ProbeKind::Startup],
        }
    );
}

#[test]
fn records_warnings_in_stable_order() {
    let graph = test_app_graph();

    assert_eq!(
        graph.warnings(),
        &[
            AppGraphWarning::AmbiguousServiceSelector {
                service: ServiceRef::new("checkout", "checkout-api").expect("service ref"),
                candidate_workloads: vec![
                    WorkloadRef::new("checkout", "Deployment", "checkout-api")
                        .expect("workload ref"),
                    WorkloadRef::new("checkout", "Deployment", "checkout-worker")
                        .expect("workload ref"),
                ],
            },
            AppGraphWarning::MissingRoute {
                service: ServiceRef::new("checkout", "checkout-api-private")
                    .expect("service ref"),
            },
            AppGraphWarning::MissingProbes {
                container: ContainerRef::new(
                    WorkloadRef::new("checkout", "Deployment", "checkout-api")
                        .expect("workload ref"),
                    "worker",
                )
                .expect("container ref"),
                missing_probes: vec![ProbeKind::Readiness, ProbeKind::Startup],
            },
        ]
    );
}

#[test]
fn creates_session_id_from_valid_value() {
    let session_id = SessionId::new("session-123").expect("session id should be valid");

    assert_eq!(session_id.as_str(), "session-123");
    assert_eq!(session_id.to_string(), "session-123");
}

#[test]
fn rejects_empty_session_id() {
    let error = SessionId::new("").expect_err("empty session id should be rejected");

    assert_eq!(error, SessionIdError::Empty);
}

#[test]
fn rejects_session_id_that_exceeds_max_length() {
    let value: &str = &"a".repeat(SESSION_TOKEN_MAX_LEN + 1);
    let error = SessionId::new(value).expect_err("long session id should be rejected");

    assert_eq!(
        error,
        SessionIdError::TooLong {
            max_len: SESSION_TOKEN_MAX_LEN
        }
    );
}

#[test]
fn rejects_session_id_with_invalid_boundary() {
    for value in ["-session", "Session", "session-"] {
        let error = SessionId::new(value).expect_err("boundary should be rejected");

        assert_eq!(error, SessionIdError::InvalidBoundary);
    }
}

#[test]
fn rejects_session_id_with_invalid_character() {
    let error = SessionId::new("sesSion").expect_err("uppercase should be rejected");

    assert_eq!(error, SessionIdError::InvalidCharacter { character: 'S' });
}

#[test]
fn creates_session_name_from_valid_value() {
    let session_name = SessionName::new("checkout-test").expect("session name should be valid");

    assert_eq!(session_name.as_str(), "checkout-test");
    assert_eq!(session_name.to_string(), "checkout-test");
}

#[test]
fn rejects_empty_session_name() {
    let error = SessionName::new("").expect_err("empty session name should be rejected");

    assert_eq!(error, SessionNameError::Empty);
}

#[test]
fn rejects_session_name_that_exceeds_max_length() {
    let value: &str = &"a".repeat(SESSION_TOKEN_MAX_LEN + 1);
    let error = SessionName::new(value).expect_err("long session name should be rejected");

    assert_eq!(
        error,
        SessionNameError::TooLong {
            max_len: SESSION_TOKEN_MAX_LEN
        }
    );
}

#[test]
fn rejects_session_name_with_invalid_boundary() {
    for value in ["-checkout", "Checkout", "checkout-"] {
        let error = SessionName::new(value).expect_err("boundary should be rejected");

        assert_eq!(error, SessionNameError::InvalidBoundary);
    }
}

#[test]
fn rejects_session_name_with_invalid_character() {
    let error = SessionName::new("check_out").expect_err("underscore should be rejected");

    assert_eq!(error, SessionNameError::InvalidCharacter { character: '_' });
}

#[test]
fn lists_session_statuses_in_lifecycle_order() {
    assert_eq!(
        SessionStatus::all(),
        &[
            SessionStatus::Planned,
            SessionStatus::Preparing,
            SessionStatus::Active,
            SessionStatus::Verifying,
            SessionStatus::Blocked,
            SessionStatus::Ready,
            SessionStatus::CleanedUp,
            SessionStatus::Failed,
        ]
    );
}

#[test]
fn renders_session_status_names() {
    let status_names = SessionStatus::all()
        .iter()
        .map(SessionStatus::as_str)
        .collect::<Vec<_>>();

    assert_eq!(
        status_names,
        vec![
            "planned",
            "preparing",
            "active",
            "verifying",
            "blocked",
            "ready",
            "cleaned_up",
            "failed",
        ]
    );
    assert_eq!(SessionStatus::CleanedUp.to_string(), "cleaned_up");
}

#[test]
fn validates_representative_session_status_transition() {
    assert!(SessionStatus::Planned.can_transition_to(SessionStatus::Preparing));
    assert_eq!(
        SessionStatus::Planned.validate_transition_to(SessionStatus::Preparing),
        Ok(())
    );
}

#[test]
fn validates_additional_session_status_transitions() {
    for (from, to) in [
        (SessionStatus::Active, SessionStatus::CleanedUp),
        (SessionStatus::Blocked, SessionStatus::Preparing),
        (SessionStatus::Blocked, SessionStatus::Active),
        (SessionStatus::Ready, SessionStatus::CleanedUp),
        (SessionStatus::Failed, SessionStatus::CleanedUp),
    ] {
        assert!(
            from.can_transition_to(to),
            "{:?} should transition to {:?}",
            from,
            to
        );
        assert_eq!(from.validate_transition_to(to), Ok(()));
    }
}

#[test]
fn rejects_representative_session_status_transition() {
    let error = SessionStatus::CleanedUp
        .validate_transition_to(SessionStatus::Active)
        .expect_err("cleaned up sessions are terminal");

    assert_eq!(
        error,
        SessionTransitionError::Invalid {
            from: SessionStatus::CleanedUp,
            to: SessionStatus::Active
        }
    );
}

#[test]
fn rejects_additional_session_status_transitions() {
    for (from, to) in [
        (SessionStatus::Ready, SessionStatus::Preparing),
        (SessionStatus::Active, SessionStatus::Planned),
        (SessionStatus::Ready, SessionStatus::Active),
        (SessionStatus::Failed, SessionStatus::Ready),
        (SessionStatus::CleanedUp, SessionStatus::Failed),
    ] {
        let error = from
            .validate_transition_to(to)
            .expect_err("transition should be rejected");

        assert!(!from.can_transition_to(to));
        assert_eq!(error, SessionTransitionError::Invalid { from, to });
    }
}

#[test]
fn every_non_terminal_session_status_has_valid_outgoing_transition() {
    for (from, to) in [
        (SessionStatus::Planned, SessionStatus::Preparing),
        (SessionStatus::Preparing, SessionStatus::Active),
        (SessionStatus::Active, SessionStatus::Verifying),
        (SessionStatus::Verifying, SessionStatus::Ready),
        (SessionStatus::Blocked, SessionStatus::Preparing),
        (SessionStatus::Ready, SessionStatus::CleanedUp),
        (SessionStatus::Failed, SessionStatus::CleanedUp),
    ] {
        assert!(
            from.can_transition_to(to),
            "{:?} should transition to {:?}",
            from,
            to
        );
        assert_eq!(from.validate_transition_to(to), Ok(()));
    }
}

#[test]
fn cleaned_up_session_status_has_no_outgoing_transitions() {
    for status in SessionStatus::all() {
        let error = SessionStatus::CleanedUp
            .validate_transition_to(*status)
            .expect_err("cleaned up sessions should be terminal");

        assert!(!SessionStatus::CleanedUp.can_transition_to(*status));
        assert_eq!(
            error,
            SessionTransitionError::Invalid {
                from: SessionStatus::CleanedUp,
                to: *status
            }
        );
    }
}

#[test]
fn session_status_self_transitions_are_rejected() {
    for status in SessionStatus::all() {
        let error = status
            .validate_transition_to(*status)
            .expect_err("self-transition should be rejected");

        assert!(!status.can_transition_to(*status));
        assert_eq!(
            error,
            SessionTransitionError::Invalid {
                from: *status,
                to: *status
            }
        );
    }
}

#[test]
fn lists_session_event_kinds_in_lifecycle_order() {
    assert_eq!(
        SessionEventKind::all(),
        &[
            SessionEventKind::Planned,
            SessionEventKind::Preparing,
            SessionEventKind::Active,
            SessionEventKind::Verifying,
            SessionEventKind::Blocked,
            SessionEventKind::Ready,
            SessionEventKind::CleanedUp,
            SessionEventKind::Failed,
        ]
    );
}

#[test]
fn renders_session_event_kind_names() {
    let kind_names = SessionEventKind::all()
        .iter()
        .map(SessionEventKind::as_str)
        .collect::<Vec<_>>();

    assert_eq!(
        kind_names,
        vec![
            "planned",
            "preparing",
            "active",
            "verifying",
            "blocked",
            "ready",
            "cleaned_up",
            "failed",
        ]
    );
    assert_eq!(SessionEventKind::CleanedUp.to_string(), "cleaned_up");
}

#[test]
fn maps_session_event_kinds_to_statuses() {
    let statuses = SessionEventKind::all()
        .iter()
        .map(SessionEventKind::status)
        .collect::<Vec<_>>();

    assert_eq!(statuses, SessionStatus::all());
}

#[test]
fn creates_session_event_for_audit_history() {
    let session_id = SessionId::new("session-123").expect("session id");
    let event = SessionEvent::new(session_id.clone(), 7, SessionEventKind::Verifying);

    assert_eq!(event.session_id(), &session_id);
    assert_eq!(event.sequence(), 7);
    assert_eq!(event.kind(), SessionEventKind::Verifying);
    assert_eq!(event.status(), SessionStatus::Verifying);
}

#[test]
fn lists_session_operations_in_declaration_order() {
    assert_eq!(
        SessionOperation::all(),
        &[
            SessionOperation::Inspect,
            SessionOperation::Plan,
            SessionOperation::Prepare,
            SessionOperation::Route,
            SessionOperation::Verify,
            SessionOperation::Cleanup,
            SessionOperation::Promote,
        ]
    );
}

#[test]
fn renders_session_operation_names() {
    let operation_names = SessionOperation::all()
        .iter()
        .map(SessionOperation::as_str)
        .collect::<Vec<_>>();

    assert_eq!(
        operation_names,
        vec![
            "inspect", "plan", "prepare", "route", "verify", "cleanup", "promote",
        ]
    );
    assert_eq!(SessionOperation::Promote.to_string(), "promote");
}

#[test]
fn creates_session_policy_with_stable_operation_order() {
    let policy = SessionPolicy::new(vec![
        SessionOperation::Verify,
        SessionOperation::Inspect,
        SessionOperation::Cleanup,
    ])
    .expect("session policy");

    assert_eq!(
        policy.allowed_operations(),
        &[
            SessionOperation::Inspect,
            SessionOperation::Verify,
            SessionOperation::Cleanup,
        ]
    );
    assert!(policy.allows(SessionOperation::Verify));
    assert!(!policy.allows(SessionOperation::Promote));
}

#[test]
fn creates_sandbox_session_policy_without_promotion() {
    let policy = SessionPolicy::sandbox();

    assert_eq!(
        policy.allowed_operations(),
        &[
            SessionOperation::Inspect,
            SessionOperation::Plan,
            SessionOperation::Prepare,
            SessionOperation::Route,
            SessionOperation::Verify,
            SessionOperation::Cleanup,
        ]
    );
    assert_eq!(SessionPolicy::default(), policy);
    assert!(!policy.allows(SessionOperation::Promote));
}

#[test]
fn rejects_empty_session_policy() {
    let error = SessionPolicy::new(vec![]).expect_err("empty policy");

    assert_eq!(error, SessionPolicyError::Empty);
}

#[test]
fn rejects_duplicate_session_policy_operations() {
    let error = SessionPolicy::new(vec![
        SessionOperation::Inspect,
        SessionOperation::Verify,
        SessionOperation::Inspect,
    ])
    .expect_err("duplicate policy operation");

    assert_eq!(
        error,
        SessionPolicyError::Duplicate {
            operation: SessionOperation::Inspect
        }
    );
}

#[test]
fn creates_session_plan_for_dry_run_output() {
    let id = SessionId::new("session-123").expect("session id");
    let name = SessionName::new("checkout-test").expect("session name");
    let workload =
        WorkloadRef::new("checkout", "Deployment", "checkout-api").expect("workload ref");
    let image = ImageRef::new("registry.example.com/checkout/api:v2").expect("image ref");
    let policy = SessionPolicy::sandbox();
    let plan = SessionPlan::new(
        id.clone(),
        name.clone(),
        workload.clone(),
        image.clone(),
        policy.clone(),
    );

    assert_eq!(plan.id(), &id);
    assert_eq!(plan.name(), &name);
    assert_eq!(plan.workload(), &workload);
    assert_eq!(plan.image(), &image);
    assert_eq!(plan.planned_resources(), vec![]);
    assert_eq!(plan.route_selector(), None);
    assert_eq!(plan.policy(), &policy);
    assert_eq!(plan.status(), SessionStatus::Planned);
}

#[test]
fn creates_session_plan_with_planned_resources() {
    let planned_service =
        KubernetesResourceRef::new("checkout", "Service", "session-123-service")
            .expect("planned service");
    let planned_workload =
        KubernetesResourceRef::new("checkout", "Deployment", "session-123-workload")
            .expect("planned workload");
    let plan = test_session_plan().with_planned_resources(vec![
        planned_service.clone(),
        planned_workload.clone(),
        planned_service.clone(),
    ]);

    assert_eq!(
        plan.planned_resources(),
        vec![planned_workload, planned_service]
    );
}

#[test]
fn creates_session_plan_with_route_selector() {
    let route_selector =
        RouteSelector::header("x-kply-session", "session-123").expect("route selector");
    let plan = test_session_plan().with_route_selector(route_selector.clone());

    assert_eq!(plan.route_selector(), Some(&route_selector));
}

#[test]
fn creates_session_report_for_reportable_status() {
    for status in [
        SessionStatus::Blocked,
        SessionStatus::Ready,
        SessionStatus::CleanedUp,
        SessionStatus::Failed,
    ] {
        let plan = test_session_plan();
        let report =
            SessionReport::new(plan.clone(), status).expect("session report should be valid");

        assert_eq!(report.plan(), &plan);
        assert_eq!(report.status(), status);
    }
}

#[test]
fn rejects_session_report_for_non_reportable_status() {
    for status in [
        SessionStatus::Planned,
        SessionStatus::Preparing,
        SessionStatus::Active,
        SessionStatus::Verifying,
    ] {
        let error =
            SessionReport::new(test_session_plan(), status).expect_err("session report");

        assert_eq!(error, SessionReportError::NonReportableStatus { status });
    }
}

#[test]
fn creates_header_route_selector() {
    let selector =
        RouteSelector::header("x-kply-session", "session-123").expect("route selector");

    assert_eq!(selector.kind(), "header");
    assert_eq!(
        selector.header_parts(),
        Some(("x-kply-session", "session-123"))
    );
    assert_eq!(selector.hostname(), None);
    assert_eq!(selector.to_string(), "header:x-kply-session=session-123");
}

#[test]
fn creates_header_route_selector_with_exact_max_value_length() {
    let value: &str = &"a".repeat(ROUTE_HEADER_VALUE_MAX_LEN);
    let selector =
        RouteSelector::header("x-kply-session", value).expect("route selector");

    assert_eq!(
        selector.header_parts(),
        Some(("x-kply-session", value))
    );
}

#[test]
fn creates_header_route_selector_with_exact_max_name_length() {
    let name: &str = &"a".repeat(ROUTE_HEADER_NAME_MAX_LEN);
    let selector = RouteSelector::header(name, "session-123").expect("route selector");

    assert_eq!(
        selector.header_parts(),
        Some((name, "session-123"))
    );
}

#[test]
fn creates_header_route_selector_with_special_token_characters() {
    for name in ["x_kply", "x.kply", "x+kply", "x~kply", "x!#$%&'*^`|kply"] {
        let selector = RouteSelector::header(name, "session-123").expect("route selector");

        assert_eq!(selector.header_parts(), Some((name, "session-123")));
    }
}

#[test]
fn creates_host_route_selector() {
    let selector =
        RouteSelector::host("session-123.preview.example.com").expect("route selector");

    assert_eq!(selector.kind(), "host");
    assert_eq!(selector.header_parts(), None);
    assert_eq!(selector.hostname(), Some("session-123.preview.example.com"));
    assert_eq!(selector.to_string(), "host:session-123.preview.example.com");
}

#[test]
fn creates_host_route_selector_with_exact_max_length() {
    let label: &str = &"a".repeat(ROUTE_HOST_LABEL_MAX_LEN);
    let final_label: &str = &"a".repeat(ROUTE_HOST_LABEL_MAX_LEN - 2);
    let host: &str = &format!("{label}.{label}.{label}.{final_label}");
    assert_eq!(host.len(), ROUTE_HOST_MAX_LEN);

    let selector = RouteSelector::host(host).expect("route selector");

    assert_eq!(selector.hostname(), Some(host));
}

#[test]
fn rejects_empty_route_header_name() {
    let error = RouteSelector::header("", "session-123").expect_err("header name");

    assert_eq!(
        error,
        RouteSelectorError::HeaderName(RouteHeaderNameError::Empty)
    );
}

#[test]
fn rejects_long_route_header_name() {
    let name: &str = &"a".repeat(ROUTE_HEADER_NAME_MAX_LEN + 1);
    let error = RouteSelector::header(name, "session-123").expect_err("header name");

    assert_eq!(
        error,
        RouteSelectorError::HeaderName(RouteHeaderNameError::TooLong {
            max_len: ROUTE_HEADER_NAME_MAX_LEN
        })
    );
}

#[test]
fn rejects_invalid_route_header_name_character() {
    let error =
        RouteSelector::header("x kply session", "session-123").expect_err("header name");

    assert_eq!(
        error,
        RouteSelectorError::HeaderName(RouteHeaderNameError::InvalidCharacter {
            character: ' '
        })
    );
}

#[test]
fn rejects_empty_route_header_value() {
    let error = RouteSelector::header("x-kply-session", "").expect_err("header value");

    assert_eq!(
        error,
        RouteSelectorError::HeaderValue(RouteHeaderValueError::Empty)
    );
}

#[test]
fn rejects_long_route_header_value() {
    let value: &str = &"a".repeat(ROUTE_HEADER_VALUE_MAX_LEN + 1);
    let error = RouteSelector::header("x-kply-session", value).expect_err("header value");

    assert_eq!(
        error,
        RouteSelectorError::HeaderValue(RouteHeaderValueError::TooLong {
            max_len: ROUTE_HEADER_VALUE_MAX_LEN
        })
    );
}

#[test]
fn rejects_control_route_header_value_character() {
    let error =
        RouteSelector::header("x-kply-session", "session\n123").expect_err("header value");

    assert_eq!(
        error,
        RouteSelectorError::HeaderValue(RouteHeaderValueError::InvalidCharacter {
            character: '\n'
        })
    );
}

#[test]
fn rejects_space_route_header_value_character() {
    let error =
        RouteSelector::header("x-kply-session", "session 123").expect_err("header value");

    assert_eq!(
        error,
        RouteSelectorError::HeaderValue(RouteHeaderValueError::InvalidCharacter {
            character: ' '
        })
    );
}

#[test]
fn rejects_empty_route_host() {
    let error = RouteSelector::host("").expect_err("host");

    assert_eq!(error, RouteSelectorError::Host(RouteHostError::Empty));
}

#[test]
fn rejects_long_route_host() {
    let host: &str = &format!("{}.example.com", "a".repeat(ROUTE_HOST_MAX_LEN));
    let error = RouteSelector::host(host).expect_err("host");

    assert_eq!(
        error,
        RouteSelectorError::Host(RouteHostError::TooLong {
            max_len: ROUTE_HOST_MAX_LEN
        })
    );
}

#[test]
fn rejects_long_route_host_label() {
    let host: &str = &format!("{}.example.com", "a".repeat(ROUTE_HOST_LABEL_MAX_LEN + 1));
    let error = RouteSelector::host(host).expect_err("host");

    assert_eq!(
        error,
        RouteSelectorError::Host(RouteHostError::LabelTooLong {
            max_len: ROUTE_HOST_LABEL_MAX_LEN
        })
    );
}

#[test]
fn rejects_route_host_empty_label() {
    let error = RouteSelector::host("session..example.com").expect_err("host");

    assert_eq!(error, RouteSelectorError::Host(RouteHostError::EmptyLabel));
}

#[test]
fn rejects_route_host_invalid_boundary() {
    for host in ["-session.example.com", "session-.example.com"] {
        let error = RouteSelector::host(host).expect_err("host");

        assert_eq!(
            error,
            RouteSelectorError::Host(RouteHostError::InvalidBoundary)
        );
    }
}

#[test]
fn rejects_route_host_invalid_internal_label_boundary() {
    for host in ["session.-example.com", "session.example-.com"] {
        let error = RouteSelector::host(host).expect_err("host");

        assert_eq!(
            error,
            RouteSelectorError::Host(RouteHostError::InvalidBoundary)
        );
    }
}

#[test]
fn rejects_route_host_invalid_character() {
    let error = RouteSelector::host("session.exa_mple.com").expect_err("host");

    assert_eq!(
        error,
        RouteSelectorError::Host(RouteHostError::InvalidCharacter { character: '_' })
    );
}

#[test]
fn rejects_route_host_uppercase() {
    let error = RouteSelector::host("Session.example.com").expect_err("host");

    assert_eq!(
        error,
        RouteSelectorError::Host(RouteHostError::InvalidCharacter { character: 'S' })
    );
}

#[test]
fn creates_workload_ref_from_valid_parts() {
    let workload =
        WorkloadRef::new("checkout", "Deployment", "checkout-api").expect("workload ref");

    assert_eq!(workload.namespace(), "checkout");
    assert_eq!(workload.kind(), "Deployment");
    assert_eq!(workload.name(), "checkout-api");
    assert_eq!(workload.to_string(), "checkout/Deployment/checkout-api");
}

#[test]
fn creates_workload_ref_for_custom_resource_kind() {
    let workload = WorkloadRef::new("platform", "Rollout.argoproj.io", "api-rollout")
        .expect("workload ref");

    assert_eq!(workload.kind(), "Rollout.argoproj.io");
}

#[test]
fn rejects_workload_ref_with_invalid_namespace() {
    let error =
        WorkloadRef::new("Checkout", "Deployment", "checkout-api").expect_err("namespace");

    assert_eq!(
        error,
        WorkloadRefError::Namespace(WorkloadTokenError::InvalidBoundary)
    );
}

#[test]
fn rejects_workload_ref_with_invalid_name() {
    let error = WorkloadRef::new("checkout", "Deployment", "checkout_api").expect_err("name");

    assert_eq!(
        error,
        WorkloadRefError::Name(WorkloadTokenError::InvalidCharacter { character: '_' })
    );
}

#[test]
fn rejects_workload_ref_with_invalid_kind_boundary() {
    let error =
        WorkloadRef::new("checkout", "-Deployment", "checkout-api").expect_err("kind boundary");

    assert_eq!(
        error,
        WorkloadRefError::Kind(WorkloadKindError::InvalidBoundary)
    );
}

#[test]
fn rejects_workload_ref_with_invalid_kind_character() {
    let error = WorkloadRef::new("checkout", "Deploy_ment", "checkout-api").expect_err("kind");

    assert_eq!(
        error,
        WorkloadRefError::Kind(WorkloadKindError::InvalidCharacter { character: '_' })
    );
}

#[test]
fn rejects_workload_ref_with_long_kind() {
    let kind: &str = &"A".repeat(WORKLOAD_KIND_MAX_LEN + 1);
    let error = WorkloadRef::new("checkout", kind, "checkout-api").expect_err("long kind");

    assert_eq!(
        error,
        WorkloadRefError::Kind(WorkloadKindError::TooLong {
            max_len: WORKLOAD_KIND_MAX_LEN
        })
    );
}

#[test]
fn creates_kubernetes_resource_ref_from_valid_parts() {
    let resource = KubernetesResourceRef::new("checkout", "HTTPRoute", "session-123-route")
        .expect("resource ref");

    assert_eq!(resource.namespace(), "checkout");
    assert_eq!(resource.kind(), "HTTPRoute");
    assert_eq!(resource.name(), "session-123-route");
    assert_eq!(resource.to_string(), "checkout/HTTPRoute/session-123-route");
}

#[test]
fn rejects_invalid_kubernetes_resource_ref_parts() {
    let namespace_error =
        KubernetesResourceRef::new("Checkout", "HTTPRoute", "session-123-route")
            .expect_err("namespace should be invalid");
    let kind_error = KubernetesResourceRef::new("checkout", "", "session-123-route")
        .expect_err("kind should be invalid");
    let name_error = KubernetesResourceRef::new("checkout", "HTTPRoute", "Session-123")
        .expect_err("name should be invalid");

    assert_eq!(
        namespace_error,
        KubernetesResourceRefError::Namespace(WorkloadTokenError::InvalidBoundary)
    );
    assert_eq!(
        kind_error,
        KubernetesResourceRefError::Kind(WorkloadKindError::Empty)
    );
    assert_eq!(
        name_error,
        KubernetesResourceRefError::Name(WorkloadTokenError::InvalidBoundary)
    );
}

#[test]
fn creates_image_ref_from_tagged_reference() {
    let image_ref =
        ImageRef::new("registry.example.com/platform/checkout-api:1.2.3").expect("image ref");

    assert_eq!(
        image_ref.as_str(),
        "registry.example.com/platform/checkout-api:1.2.3"
    );
    assert_eq!(
        image_ref.to_string(),
        "registry.example.com/platform/checkout-api:1.2.3"
    );
}

#[test]
fn creates_image_ref_from_simple_name() {
    let image_ref = ImageRef::new("nginx").expect("image ref");

    assert_eq!(image_ref.as_str(), "nginx");
}

#[test]
fn creates_image_ref_from_library_path() {
    let image_ref = ImageRef::new("library/nginx:latest").expect("image ref");

    assert_eq!(image_ref.as_str(), "library/nginx:latest");
}

#[test]
fn creates_image_ref_with_repository_underscore() {
    let image_ref = ImageRef::new("my_image:v1").expect("image ref");

    assert_eq!(image_ref.as_str(), "my_image:v1");
}

#[test]
fn creates_image_ref_from_deep_repository_path() {
    let image_ref = ImageRef::new("registry.io/a/b/c/image:tag").expect("image ref");

    assert_eq!(image_ref.as_str(), "registry.io/a/b/c/image:tag");
}

#[test]
fn creates_image_ref_from_digest_reference() {
    let image_ref = ImageRef::new("registry.example.com/platform/checkout-api@sha256:abcdef")
        .expect("image ref");

    assert_eq!(
        image_ref.as_str(),
        "registry.example.com/platform/checkout-api@sha256:abcdef"
    );
}

#[test]
fn creates_image_ref_with_tag_and_digest() {
    let image = "registry.example.com/platform/checkout-api:1.2.3@sha256:abcdef";
    let image_ref = ImageRef::new(image).expect("image ref");

    assert_eq!(image_ref.as_str(), image);
}

#[test]
fn creates_image_ref_with_registry_port() {
    let image_ref = ImageRef::new("localhost:5000/platform/checkout-api:dev")
        .expect("image ref with registry port");

    assert_eq!(
        image_ref.as_str(),
        "localhost:5000/platform/checkout-api:dev"
    );
}

#[test]
fn creates_image_ref_with_mixed_case_tag() {
    let image_ref =
        ImageRef::new("registry.example.com/platform/checkout-api:BuildA").expect("image ref");

    assert_eq!(
        image_ref.as_str(),
        "registry.example.com/platform/checkout-api:BuildA"
    );
}

#[test]
fn rejects_empty_image_ref() {
    let error = ImageRef::new("").expect_err("empty image ref should be rejected");

    assert_eq!(error, ImageRefError::Empty);
}

#[test]
fn rejects_long_image_ref() {
    let value: &str = &"a".repeat(IMAGE_REF_MAX_LEN + 1);
    let error = ImageRef::new(value).expect_err("long image ref should be rejected");

    assert_eq!(
        error,
        ImageRefError::TooLong {
            max_len: IMAGE_REF_MAX_LEN
        }
    );
}

#[test]
fn creates_time_to_live_from_duration_spelling() {
    for value in ["1s", "30m", "12h", "7d"] {
        let time_to_live = TimeToLive::new(value).expect("ttl should be valid");

        assert_eq!(time_to_live.as_str(), value);
        assert_eq!(time_to_live.to_string(), value);
    }
}

#[test]
fn rejects_invalid_time_to_live_values() {
    assert_eq!(TimeToLive::new("").unwrap_err(), TimeToLiveError::Empty);
    assert_eq!(TimeToLive::new("0m").unwrap_err(), TimeToLiveError::Zero);
    assert_eq!(
        TimeToLive::new("30").unwrap_err(),
        TimeToLiveError::InvalidUnit { unit: '0' }
    );
    assert_eq!(
        TimeToLive::new("tenm").unwrap_err(),
        TimeToLiveError::InvalidNumber
    );
    assert_eq!(
        TimeToLive::new("1w").unwrap_err(),
        TimeToLiveError::InvalidUnit { unit: 'w' }
    );

    let value: &str = &"1".repeat(TIME_TO_LIVE_MAX_LEN + 1);
    assert_eq!(
        TimeToLive::new(value).unwrap_err(),
        TimeToLiveError::TooLong {
            max_len: TIME_TO_LIVE_MAX_LEN
        }
    );
}

#[test]
fn rejects_image_ref_with_invalid_boundary() {
    for value in ["/checkout-api:1.2.3", "checkout-api:"] {
        let error = ImageRef::new(value).expect_err("boundary should be rejected");

        assert_eq!(error, ImageRefError::InvalidBoundary);
    }
}

#[test]
fn rejects_image_ref_with_invalid_character() {
    let error = ImageRef::new("checkout api:1.2.3").expect_err("space should be rejected");

    assert_eq!(error, ImageRefError::InvalidCharacter { character: ' ' });
}

#[test]
fn rejects_image_ref_with_uppercase_repository() {
    let error =
        ImageRef::new("registry.example.com/platform/Checkout-api:1.2.3").expect_err("image");

    assert_eq!(error, ImageRefError::InvalidCharacter { character: 'C' });
}

#[test]
fn rejects_uppercase_in_path_after_registry_port() {
    let error = ImageRef::new("localhost:5000/Platform/checkout-api:1.2.3").expect_err("image");

    assert_eq!(error, ImageRefError::InvalidCharacter { character: 'P' });
}

#[test]
fn rejects_image_ref_with_empty_component() {
    let error = ImageRef::new("registry.example.com//checkout-api:1.2.3")
        .expect_err("empty path component should be rejected");

    assert_eq!(error, ImageRefError::MissingName);
}

#[test]
fn records_the_same_order_whatever_the_input_order() {
    let workload = || WorkloadRef::new("checkout", "Deployment", "checkout-api").expect("workload ref");
    let pod = |name: &str| PodRef::new("checkout", name).expect("pod ref");
    let first = AppGraph::new(workload()).with_owned_pods(vec![pod("c"), pod("a"), pod("b")]);
    let second = AppGraph::new(workload()).with_owned_pods(vec![pod("b"), pod("c"), pod("a"), pod("c")]);
    assert_eq!(first.owned_pods(), second.owned_pods());
    assert_eq!(first.owned_pods(), &[pod("a"), pod("b"), pod("c")]);
}

#[test]
fn setting_owned_pods_again_replaces_them() {
    let workload = || WorkloadRef::new("checkout", "Deployment", "checkout-api").expect("workload ref");
    let pod = |name: &str| PodRef::new("checkout", name).expect("pod ref");
    let service = ServiceRef::new("checkout", "checkout-http").expect("service ref");
    let twice = AppGraph::new(workload())
        .with_selecting_services(vec![service.clone()])
        .with_owned_pods(vec![pod("x"), pod("y")])
        .with_owned_pods(vec![pod("b"), pod("a"), pod("b")]);
    let once = AppGraph::new(workload())
        .with_selecting_services(vec![service])
        .with_owned_pods(vec![pod("a"), pod("b")]);
    assert_eq!(twice, once);
    assert_eq!(twice.owned_pods(), &[pod("a"), pod("b")]);
}

#[test]
fn converts_session_ids_and_names_to_and_from_strings() {
    let id = SessionId::try_from("session-123".to_owned()).expect("session id should be valid");
    assert_eq!(String::from(id), "session-123");
    assert_eq!(SessionId::try_from(String::new()).unwrap_err(), SessionIdError::Empty);
    let name = SessionName::try_from("checkout-test".to_owned()).expect("session name should be valid");
    assert_eq!(String::from(name), "checkout-test");
    assert_eq!(
        SessionName::try_from("-bad".to_owned()).unwrap_err(),
        SessionNameError::InvalidBoundary
    );
}
